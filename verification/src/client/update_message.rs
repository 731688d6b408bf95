//! The update-message builder chain. Its content and embeds steps take an
//! optional value: not calling a setter leaves the field as it is on the
//! message, passing the empty designator clears it explicitly.

use vstd::prelude::*;

use twilight_model::channel::Message;
use twilight_model::channel::embed::Embed;

use crate::client::MessageAttachment;
use crate::client::valid_content;
use crate::client::valid_filename;
use crate::client::validate_content_text;
use crate::client::validate_embed_list;
use crate::client::validate_filename_text;
use crate::client::embeds_accepted;
use crate::client::EMBED_COUNT_LIMIT;
use crate::error::error_guard;
use crate::error::DiscordError;
use crate::error::InnerTwilightError;
use crate::operation::DiscordOperation;

verus! {

/// The accumulated state of an update-message request. The outer option of
/// `content` and `embeds` says whether the setter ran at all; the inner one
/// distinguishes a new value from an explicit clear.
#[derive(Debug)]
pub struct UpdateMessageRequest {
    pub content: Option<Option<String>>,
    pub embeds: Option<Option<Vec<Embed>>>,
    pub attachments: Option<Vec<MessageAttachment>>,
}

/// An update-message chain in flight: the request accumulated so far and
/// the operation fixed at creation, which tags every failure of the chain.
#[derive(Debug)]
pub struct UpdateMessageBuilder {
    pub create: UpdateMessageRequest,
    pub operation: DiscordOperation,
}

impl UpdateMessageBuilder {
    /// Opens a chain for updating the given message: no field touched yet,
    /// and the operation fixed for the whole chain.
    pub fn new(channel_id: u64, message_id: u64) -> (r: Self)
        ensures
            r.operation == (DiscordOperation::UpdateMessage { channel_id, message_id }),
            r.create.content is None,
            r.create.embeds is None,
            r.create.attachments is None,
    {
        UpdateMessageBuilder {
            create: UpdateMessageRequest { content: None, embeds: None, attachments: None },
            operation: DiscordOperation::UpdateMessage { channel_id, message_id },
        }
    }

    /// Replaces or clears the message's content. A new value is accepted
    /// exactly when it is valid; the clear designator is always accepted; a
    /// rejection carries this chain's operation.
    pub fn content(self, content: Option<&str>) -> (r: Result<Self, DiscordError>)
        ensures
            r is Ok <==> (content matches Some(c) ==> valid_content(c@)),
            r is Ok ==> r->Ok_0.operation == self.operation,
            r is Ok ==> r->Ok_0.create.content is Some,
            r is Ok && content is None ==> r->Ok_0.create.content->Some_0 is None,
            r is Ok && content is Some ==> (r->Ok_0.create.content->Some_0 matches Some(s) && s@
                == content->Some_0@),
            r is Ok ==> r->Ok_0.create.embeds == self.create.embeds,
            r is Ok ==> r->Ok_0.create.attachments == self.create.attachments,
            r is Err ==> r->Err_0.operation == self.operation,
            r is Err ==> r->Err_0.inner is ValidationError,
    {
        let new_content: Option<String> = match content {
            Some(value) => {
                match validate_content_text(value) {
                    Ok(()) => Some(value.to_owned()),
                    Err(cause) => {
                        return Err(
                            DiscordError::new(
                                InnerTwilightError::ValidationError(cause),
                                self.operation,
                            ),
                        );
                    },
                }
            },
            None => None,
        };
        Ok(
            UpdateMessageBuilder {
                create: UpdateMessageRequest { content: Some(new_content), ..self.create },
                operation: self.operation,
            },
        )
    }

    /// Replaces or clears the message's list of embeds. A new list is
    /// accepted exactly when the platform validator accepts it: an empty
    /// list always is, a list of more than ten embeds never is, and
    /// per-embed limits decide the rest; the clear designator is always
    /// accepted; a rejection carries this chain's operation.
    pub fn embeds(self, embeds: Option<Vec<Embed>>) -> (r: Result<Self, DiscordError>)
        ensures
            r is Ok <==> (embeds matches Some(list) ==> embeds_accepted(list@)),
            r is Ok && embeds is Some ==> embeds->Some_0@.len() <= EMBED_COUNT_LIMIT,
            embeds matches Some(list) && list@.len() > EMBED_COUNT_LIMIT ==> r is Err,
            embeds is None ==> r is Ok,
            embeds matches Some(list) && list@.len() == 0 ==> r is Ok,
            r is Ok ==> r->Ok_0.operation == self.operation,
            r is Ok ==> r->Ok_0.create.embeds == Some(embeds),
            r is Ok ==> r->Ok_0.create.content == self.create.content,
            r is Ok ==> r->Ok_0.create.attachments == self.create.attachments,
            r is Err ==> r->Err_0.operation == self.operation,
            r is Err ==> r->Err_0.inner is ValidationError,
    {
        match &embeds {
            Some(list) => {
                match validate_embed_list(list) {
                    Ok(()) => {},
                    Err(cause) => {
                        return Err(
                            DiscordError::new(
                                InnerTwilightError::ValidationError(cause),
                                self.operation,
                            ),
                        );
                    },
                }
            },
            None => {},
        }
        Ok(
            UpdateMessageBuilder {
                create: UpdateMessageRequest { embeds: Some(embeds), ..self.create },
                operation: self.operation,
            },
        )
    }

    /// Sets the attachments to add to the message. Accepted exactly when
    /// every attachment's filename is valid; a rejection carries this
    /// chain's operation.
    pub fn attachments(self, attachments: Vec<MessageAttachment>) -> (r: Result<
        Self,
        DiscordError,
    >)
        ensures
            r is Ok <==> (forall|i: int|
                0 <= i < attachments@.len() ==> valid_filename(attachments@[i].filename@)),
            r is Ok ==> r->Ok_0.operation == self.operation,
            r is Ok ==> r->Ok_0.create.attachments == Some(attachments),
            r is Ok ==> r->Ok_0.create.content == self.create.content,
            r is Ok ==> r->Ok_0.create.embeds == self.create.embeds,
            r is Err ==> r->Err_0.operation == self.operation,
            r is Err ==> r->Err_0.inner is ValidationError,
    {
        let mut idx: usize = 0;
        while idx < attachments.len()
            invariant
                idx <= attachments@.len(),
                forall|i: int| 0 <= i < idx ==> valid_filename(attachments@[i].filename@),
            decreases attachments@.len() - idx,
        {
            let checked = validate_filename_text((&attachments[idx]).filename.as_str());
            match checked {
                Ok(()) => {},
                Err(cause) => {
                    return Err(
                        DiscordError::new(
                            InnerTwilightError::ValidationError(cause),
                            self.operation,
                        ),
                    );
                },
            }
            idx = idx + 1;
        }
        Ok(
            UpdateMessageBuilder {
                create: UpdateMessageRequest { attachments: Some(attachments), ..self.create },
                operation: self.operation,
            },
        )
    }

    /// The terminal step: given the outcome of performing the accumulated
    /// update remotely, passes the decoded message through and wraps any
    /// failure with the operation fixed at builder creation.
    pub fn exec(self, outcome: Result<Message, InnerTwilightError>) -> (r: Result<
        Message,
        DiscordError,
    >)
        ensures
            r is Ok <==> outcome is Ok,
            r is Ok ==> r->Ok_0 == outcome->Ok_0,
            r is Err ==> r->Err_0 == (DiscordError {
                inner: outcome->Err_0,
                operation: self.operation,
            }),
    {
        error_guard(self.operation, outcome)
    }
}

} // verus!
