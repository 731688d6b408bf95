//! The request layer shared by the two message builders: the attachment
//! model, the pre-send validation rules, and the declarations of the
//! platform types that requests carry.

use vstd::prelude::*;

pub mod create_message;
pub mod update_message;

verus! {

/// The decoded message entity that a create or update request yields.
#[verifier::external_type_specification]
#[verifier::external_body]
pub struct ExMessage(twilight_model::channel::Message);

/// A rich-content embed attached to a message. Its contents are validated
/// by the platform's own validator and are opaque here.
#[verifier::external_type_specification]
#[verifier::external_body]
pub struct ExEmbed(twilight_model::channel::embed::Embed);

/// A file attached to a message, as the request layer reads it: an
/// identifier, a filename, the file's bytes, and an optional description
/// for screen readers.
#[derive(Debug, Clone)]
pub struct MessageAttachment {
    pub description: Option<String>,
    pub file: Vec<u8>,
    pub filename: String,
    pub id: u64,
}

/// The largest number of characters a message's content may have.
pub const MESSAGE_CONTENT_LENGTH_MAX: usize = 2000;

/// The largest number of embeds a message may carry.
pub const EMBED_COUNT_LIMIT: usize = 10;

/// A character allowed in an attachment's filename: ASCII alphanumeric,
/// dot, dash or underscore.
pub open spec fn is_filename_char(c: char) -> bool {
    ||| 'a' <= c && c <= 'z'
    ||| 'A' <= c && c <= 'Z'
    ||| '0' <= c && c <= '9'
    ||| c == '.'
    ||| c == '-'
    ||| c == '_'
}

/// An attachment filename is valid when every character of it is allowed.
pub open spec fn valid_filename(s: Seq<char>) -> bool {
    forall|i: int| 0 <= i < s.len() ==> is_filename_char(s[i])
}

/// A message's content is valid when it has at most the allowed number of
/// characters.
pub open spec fn valid_content(s: Seq<char>) -> bool {
    s.len() <= MESSAGE_CONTENT_LENGTH_MAX
}

/// Relies on twilight_validate::message::content: content is accepted
/// exactly when it has at most 2000 characters. A rejection is returned as
/// the validation error's own rendering.
#[verifier::external_body]
pub(crate) fn validate_content_text(value: &str) -> (r: Result<(), String>)
    ensures
        r is Ok <==> valid_content(value@),
{
    twilight_validate::message::content(value).map_err(|e| e.to_string())
}

/// Relies on twilight_validate::message::attachment_filename: a filename is
/// accepted exactly when every character is ASCII alphanumeric, a dot, a
/// dash or an underscore. A rejection is returned as the validation error's
/// own rendering.
#[verifier::external_body]
pub(crate) fn validate_filename_text(filename: &str) -> (r: Result<(), String>)
    ensures
        r is Ok <==> valid_filename(filename@),
{
    twilight_validate::message::attachment_filename(filename).map_err(|e| e.to_string())
}

/// The platform validator's verdict on a list of embeds: a pure function
/// of the list alone, pinned down only by `validate_embed_list`.
pub uninterp spec fn embeds_accepted(embeds: Seq<twilight_model::channel::embed::Embed>) -> bool;

/// Relies on twilight_validate::message::embeds: the verdict depends on
/// the list alone; an empty list is always accepted, a list of more than
/// ten embeds is always rejected, and an accepted list has at most ten
/// embeds (per-embed limits decide the rest). A rejection is returned as
/// the validation error's own rendering.
#[verifier::external_body]
pub(crate) fn validate_embed_list(embeds: &Vec<twilight_model::channel::embed::Embed>) -> (r:
    Result<(), String>)
    ensures
        r is Ok <==> embeds_accepted(embeds@),
        r is Ok ==> embeds@.len() <= EMBED_COUNT_LIMIT,
        embeds@.len() > EMBED_COUNT_LIMIT ==> r is Err,
        embeds@.len() == 0 ==> r is Ok,
{
    twilight_validate::message::embeds(embeds).map_err(|e| e.to_string())
}

} // verus!
