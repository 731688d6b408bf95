//! The create-message builder chain: consuming setter steps that validate
//! each field before accepting it, all failures tagged with the operation
//! fixed at builder creation.

use vstd::prelude::*;

use twilight_model::channel::Message;
use twilight_model::channel::embed::Embed;

use crate::client::MessageAttachment;
use crate::client::valid_content;
use crate::client::valid_filename;
use crate::client::validate_content_text;
use crate::client::validate_embed_list;
use crate::client::validate_filename_text;
use crate::client::embeds_accepted;
use crate::client::EMBED_COUNT_LIMIT;
use crate::error::error_guard;
use crate::error::DiscordError;
use crate::error::InnerTwilightError;
use crate::operation::DiscordOperation;

verus! {

/// The accumulated state of a create-message request: each field is unset
/// until the matching setter step accepts a value for it.
#[derive(Debug)]
pub struct CreateMessageRequest {
    pub content: Option<String>,
    pub embeds: Option<Vec<Embed>>,
    pub attachments: Option<Vec<MessageAttachment>>,
}

/// A create-message chain in flight: the request accumulated so far and the
/// operation fixed at creation, which tags every failure of the chain.
#[derive(Debug)]
pub struct CreateMessageBuilder {
    pub create: CreateMessageRequest,
    pub operation: DiscordOperation,
}

impl CreateMessageBuilder {
    /// Opens a chain for a message in the given channel: no field set yet,
    /// and the operation fixed for the whole chain.
    pub fn new(channel_id: u64) -> (r: Self)
        ensures
            r.operation == (DiscordOperation::CreateMessage { channel_id }),
            r.create.content is None,
            r.create.embeds is None,
            r.create.attachments is None,
    {
        CreateMessageBuilder {
            create: CreateMessageRequest { content: None, embeds: None, attachments: None },
            operation: DiscordOperation::CreateMessage { channel_id },
        }
    }

    /// Sets the message's content. Accepted exactly when the content is
    /// valid; a rejection carries this chain's operation.
    pub fn content(self, content: &str) -> (r: Result<Self, DiscordError>)
        ensures
            r is Ok <==> valid_content(content@),
            r is Ok ==> r->Ok_0.operation == self.operation,
            r is Ok ==> (r->Ok_0.create.content matches Some(c) && c@ == content@),
            r is Ok ==> r->Ok_0.create.embeds == self.create.embeds,
            r is Ok ==> r->Ok_0.create.attachments == self.create.attachments,
            r is Err ==> r->Err_0.operation == self.operation,
            r is Err ==> r->Err_0.inner is ValidationError,
    {
        match validate_content_text(content) {
            Ok(()) => Ok(
                CreateMessageBuilder {
                    create: CreateMessageRequest {
                        content: Some(content.to_owned()),
                        ..self.create
                    },
                    operation: self.operation,
                },
            ),
            Err(cause) => Err(
                DiscordError::new(InnerTwilightError::ValidationError(cause), self.operation),
            ),
        }
    }

    /// Sets the message's list of embeds. Accepted exactly when the
    /// platform validator accepts the list: an empty list always is, a
    /// list of more than ten embeds never is, and per-embed limits decide
    /// the rest; a rejection carries this chain's operation.
    pub fn embeds(self, embeds: Vec<Embed>) -> (r: Result<Self, DiscordError>)
        ensures
            r is Ok <==> embeds_accepted(embeds@),
            r is Ok ==> embeds@.len() <= EMBED_COUNT_LIMIT,
            embeds@.len() > EMBED_COUNT_LIMIT ==> r is Err,
            embeds@.len() == 0 ==> r is Ok,
            r is Ok ==> r->Ok_0.operation == self.operation,
            r is Ok ==> r->Ok_0.create.embeds == Some(embeds),
            r is Ok ==> r->Ok_0.create.content == self.create.content,
            r is Ok ==> r->Ok_0.create.attachments == self.create.attachments,
            r is Err ==> r->Err_0.operation == self.operation,
            r is Err ==> r->Err_0.inner is ValidationError,
    {
        match validate_embed_list(&embeds) {
            Ok(()) => Ok(
                CreateMessageBuilder {
                    create: CreateMessageRequest { embeds: Some(embeds), ..self.create },
                    operation: self.operation,
                },
            ),
            Err(cause) => Err(
                DiscordError::new(InnerTwilightError::ValidationError(cause), self.operation),
            ),
        }
    }

    /// Sets the message's attachments. Accepted exactly when every
    /// attachment's filename is valid; a rejection carries this chain's
    /// operation.
    pub fn attachments(self, attachments: Vec<MessageAttachment>) -> (r: Result<
        Self,
        DiscordError,
    >)
        ensures
            r is Ok <==> (forall|i: int|
                0 <= i < attachments@.len() ==> valid_filename(attachments@[i].filename@)),
            r is Ok ==> r->Ok_0.operation == self.operation,
            r is Ok ==> r->Ok_0.create.attachments == Some(attachments),
            r is Ok ==> r->Ok_0.create.content == self.create.content,
            r is Ok ==> r->Ok_0.create.embeds == self.create.embeds,
            r is Err ==> r->Err_0.operation == self.operation,
            r is Err ==> r->Err_0.inner is ValidationError,
    {
        let mut idx: usize = 0;
        while idx < attachments.len()
            invariant
                idx <= attachments@.len(),
                forall|i: int| 0 <= i < idx ==> valid_filename(attachments@[i].filename@),
            decreases attachments@.len() - idx,
        {
            let checked = validate_filename_text((&attachments[idx]).filename.as_str());
            match checked {
                Ok(()) => {},
                Err(cause) => {
                    return Err(
                        DiscordError::new(
                            InnerTwilightError::ValidationError(cause),
                            self.operation,
                        ),
                    );
                },
            }
            idx = idx + 1;
        }
        Ok(
            CreateMessageBuilder {
                create: CreateMessageRequest { attachments: Some(attachments), ..self.create },
                operation: self.operation,
            },
        )
    }

    /// The terminal step: given the outcome of performing the accumulated
    /// request remotely, passes a decoded message through and wraps any
    /// failure with the operation fixed at builder creation.
    pub fn exec(self, outcome: Result<Message, InnerTwilightError>) -> (r: Result<
        Message,
        DiscordError,
    >)
        ensures
            r is Ok <==> outcome is Ok,
            r is Ok ==> r->Ok_0 == outcome->Ok_0,
            r is Err ==> r->Err_0 == (DiscordError {
                inner: outcome->Err_0,
                operation: self.operation,
            }),
    {
        error_guard(self.operation, outcome)
    }
}

/// Chain persistence: a setter step that succeeds hands the chain's
/// operation on unchanged, so after any two successful steps a send that
/// fails still reports the operation fixed at builder creation.
pub proof fn lemma_chain_preserves_operation(
    b0: CreateMessageBuilder,
    b1: CreateMessageBuilder,
    b2: CreateMessageBuilder,
    inner: InnerTwilightError,
    e: DiscordError,
)
    requires
        b1.operation == b0.operation,
        b2.operation == b1.operation,
        e == (DiscordError { inner, operation: b2.operation }),
    ensures
        e.operation == b0.operation,
{
}

} // verus!
