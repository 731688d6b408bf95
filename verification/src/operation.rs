//! The operation registry: a closed enumeration of every logical client
//! action, each variant carrying the identifiers that describe what was
//! being attempted, with a deterministic human-readable rendering.

use vstd::prelude::*;
use vstd::string::StringExecFns;

use crate::text::contains_seq;
use crate::text::dec_seq;
use crate::text::lemma_contains_at;
use crate::text::lemma_dec_seq_positive;
use crate::text::render_u64;

verus! {

/// One logical client action, identified by the snowflake identifiers of
/// the resources it touches. Instances are immutable and copied by value.
#[derive(Debug, Clone, Copy, PartialEq, Eq, Structural)]
pub enum DiscordOperation {
    GetCurrentUser,
    GetChannel { channel_id: u64 },
    GetGuild { guild_id: u64 },
    GetMessage { channel_id: u64, message_id: u64 },
    GetMember { guild_id: u64, user_id: u64 },
    GetUser { user_id: u64 },
    CreateMessage { channel_id: u64 },
    UpdateMessage { channel_id: u64, message_id: u64 },
    DeleteMessage { channel_id: u64, message_id: u64 },
    AddRole { guild_id: u64, user_id: u64, role_id: u64 },
    RemoveRole { guild_id: u64, user_id: u64, role_id: u64 },
    AddReaction { channel_id: u64, message_id: u64 },
    RemoveOwnReaction { channel_id: u64, message_id: u64 },
    RemoveReaction { channel_id: u64, message_id: u64, user_id: u64 },
}

/// The rendering of an operation: one arm per variant, every identifier in
/// decimal.
pub open spec fn spec_describe(op: DiscordOperation) -> Seq<char> {
    match op {
        DiscordOperation::GetCurrentUser => "Get current user"@,
        DiscordOperation::GetChannel { channel_id } => "Get channel "@ + dec_seq(
            channel_id as nat,
        ),
        DiscordOperation::GetGuild { guild_id } => "Get guild "@ + dec_seq(guild_id as nat),
        DiscordOperation::GetMessage { channel_id, message_id } => "Get message "@ + dec_seq(
            message_id as nat,
        ) + " in channel "@ + dec_seq(channel_id as nat),
        DiscordOperation::GetMember { guild_id, user_id } => "Get member "@ + dec_seq(
            user_id as nat,
        ) + " in guild "@ + dec_seq(guild_id as nat),
        DiscordOperation::GetUser { user_id } => "Get user "@ + dec_seq(user_id as nat),
        DiscordOperation::CreateMessage { channel_id } => "Create message in channel "@ + dec_seq(
            channel_id as nat,
        ),
        DiscordOperation::UpdateMessage { channel_id, message_id } => "Update message "@ + dec_seq(
            message_id as nat,
        ) + " in channel "@ + dec_seq(channel_id as nat),
        DiscordOperation::DeleteMessage { channel_id, message_id } => "Delete message "@ + dec_seq(
            message_id as nat,
        ) + " in channel "@ + dec_seq(channel_id as nat),
        DiscordOperation::AddRole { guild_id, user_id, role_id } => "Add role "@ + dec_seq(
            role_id as nat,
        ) + " to user "@ + dec_seq(user_id as nat) + " in guild "@ + dec_seq(guild_id as nat),
        DiscordOperation::RemoveRole { guild_id, user_id, role_id } => "Remove role "@ + dec_seq(
            role_id as nat,
        ) + " from user "@ + dec_seq(user_id as nat) + " in guild "@ + dec_seq(guild_id as nat),
        DiscordOperation::AddReaction { channel_id, message_id } => "Add reaction to message "@
            + dec_seq(message_id as nat) + " in channel "@ + dec_seq(channel_id as nat),
        DiscordOperation::RemoveOwnReaction { channel_id, message_id } =>
            "Remove own reaction from message "@ + dec_seq(message_id as nat) + " in channel "@
            + dec_seq(channel_id as nat),
        DiscordOperation::RemoveReaction { channel_id, message_id, user_id } =>
            "Remove reaction from message "@ + dec_seq(message_id as nat) + " in channel "@
            + dec_seq(channel_id as nat) + " by user "@ + dec_seq(user_id as nat),
    }
}

impl DiscordOperation {
    /// The human-readable rendering of this operation, pure and total.
    pub fn display_string(&self) -> (r: String)
        ensures
            r@ == spec_describe(*self),
    {
        match self {
            DiscordOperation::GetCurrentUser => "Get current user".to_owned(),
            DiscordOperation::GetChannel { channel_id } => {
                let mut s = "Get channel ".to_owned();
                let d = render_u64(*channel_id);
                s.append(d.as_str());
                s
            },
            DiscordOperation::GetGuild { guild_id } => {
                let mut s = "Get guild ".to_owned();
                let d = render_u64(*guild_id);
                s.append(d.as_str());
                s
            },
            DiscordOperation::GetMessage { channel_id, message_id } => {
                let mut s = "Get message ".to_owned();
                let d1 = render_u64(*message_id);
                s.append(d1.as_str());
                s.append(" in channel ");
                let d2 = render_u64(*channel_id);
                s.append(d2.as_str());
                s
            },
            DiscordOperation::GetMember { guild_id, user_id } => {
                let mut s = "Get member ".to_owned();
                let d1 = render_u64(*user_id);
                s.append(d1.as_str());
                s.append(" in guild ");
                let d2 = render_u64(*guild_id);
                s.append(d2.as_str());
                s
            },
            DiscordOperation::GetUser { user_id } => {
                let mut s = "Get user ".to_owned();
                let d = render_u64(*user_id);
                s.append(d.as_str());
                s
            },
            DiscordOperation::CreateMessage { channel_id } => {
                let mut s = "Create message in channel ".to_owned();
                let d = render_u64(*channel_id);
                s.append(d.as_str());
                s
            },
            DiscordOperation::UpdateMessage { channel_id, message_id } => {
                let mut s = "Update message ".to_owned();
                let d1 = render_u64(*message_id);
                s.append(d1.as_str());
                s.append(" in channel ");
                let d2 = render_u64(*channel_id);
                s.append(d2.as_str());
                s
            },
            DiscordOperation::DeleteMessage { channel_id, message_id } => {
                let mut s = "Delete message ".to_owned();
                let d1 = render_u64(*message_id);
                s.append(d1.as_str());
                s.append(" in channel ");
                let d2 = render_u64(*channel_id);
                s.append(d2.as_str());
                s
            },
            DiscordOperation::AddRole { guild_id, user_id, role_id } => {
                let mut s = "Add role ".to_owned();
                let d1 = render_u64(*role_id);
                s.append(d1.as_str());
                s.append(" to user ");
                let d2 = render_u64(*user_id);
                s.append(d2.as_str());
                s.append(" in guild ");
                let d3 = render_u64(*guild_id);
                s.append(d3.as_str());
                s
            },
            DiscordOperation::RemoveRole { guild_id, user_id, role_id } => {
                let mut s = "Remove role ".to_owned();
                let d1 = render_u64(*role_id);
                s.append(d1.as_str());
                s.append(" from user ");
                let d2 = render_u64(*user_id);
                s.append(d2.as_str());
                s.append(" in guild ");
                let d3 = render_u64(*guild_id);
                s.append(d3.as_str());
                s
            },
            DiscordOperation::AddReaction { channel_id, message_id } => {
                let mut s = "Add reaction to message ".to_owned();
                let d1 = render_u64(*message_id);
                s.append(d1.as_str());
                s.append(" in channel ");
                let d2 = render_u64(*channel_id);
                s.append(d2.as_str());
                s
            },
            DiscordOperation::RemoveOwnReaction { channel_id, message_id } => {
                let mut s = "Remove own reaction from message ".to_owned();
                let d1 = render_u64(*message_id);
                s.append(d1.as_str());
                s.append(" in channel ");
                let d2 = render_u64(*channel_id);
                s.append(d2.as_str());
                s
            },
            DiscordOperation::RemoveReaction { channel_id, message_id, user_id } => {
                let mut s = "Remove reaction from message ".to_owned();
                let d1 = render_u64(*message_id);
                s.append(d1.as_str());
                s.append(" in channel ");
                let d2 = render_u64(*channel_id);
                s.append(d2.as_str());
                s.append(" by user ");
                let d3 = render_u64(*user_id);
                s.append(d3.as_str());
                s
            },
        }
    }
}

/// The rendering of every operation is non-empty, and every identifier the
/// operation carries occurs in it, rendered in decimal.
pub proof fn lemma_describe_lists_ids(op: DiscordOperation)
    ensures
        spec_describe(op).len() > 0,
        op matches DiscordOperation::GetChannel { channel_id } ==> contains_seq(
            spec_describe(op),
            dec_seq(channel_id as nat),
        ),
        op matches DiscordOperation::GetGuild { guild_id } ==> contains_seq(
            spec_describe(op),
            dec_seq(guild_id as nat),
        ),
        op matches DiscordOperation::GetMessage { channel_id, message_id } ==> contains_seq(
            spec_describe(op),
            dec_seq(channel_id as nat),
        ) && contains_seq(spec_describe(op), dec_seq(message_id as nat)),
        op matches DiscordOperation::GetMember { guild_id, user_id } ==> contains_seq(
            spec_describe(op),
            dec_seq(guild_id as nat),
        ) && contains_seq(spec_describe(op), dec_seq(user_id as nat)),
        op matches DiscordOperation::GetUser { user_id } ==> contains_seq(
            spec_describe(op),
            dec_seq(user_id as nat),
        ),
        op matches DiscordOperation::CreateMessage { channel_id } ==> contains_seq(
            spec_describe(op),
            dec_seq(channel_id as nat),
        ),
        op matches DiscordOperation::UpdateMessage { channel_id, message_id } ==> contains_seq(
            spec_describe(op),
            dec_seq(channel_id as nat),
        ) && contains_seq(spec_describe(op), dec_seq(message_id as nat)),
        op matches DiscordOperation::DeleteMessage { channel_id, message_id } ==> contains_seq(
            spec_describe(op),
            dec_seq(channel_id as nat),
        ) && contains_seq(spec_describe(op), dec_seq(message_id as nat)),
        op matches DiscordOperation::AddRole { guild_id, user_id, role_id } ==> contains_seq(
            spec_describe(op),
            dec_seq(guild_id as nat),
        ) && contains_seq(spec_describe(op), dec_seq(user_id as nat)) && contains_seq(
            spec_describe(op),
            dec_seq(role_id as nat),
        ),
        op matches DiscordOperation::RemoveRole { guild_id, user_id, role_id } ==> contains_seq(
            spec_describe(op),
            dec_seq(guild_id as nat),
        ) && contains_seq(spec_describe(op), dec_seq(user_id as nat)) && contains_seq(
            spec_describe(op),
            dec_seq(role_id as nat),
        ),
        op matches DiscordOperation::AddReaction { channel_id, message_id } ==> contains_seq(
            spec_describe(op),
            dec_seq(channel_id as nat),
        ) && contains_seq(spec_describe(op), dec_seq(message_id as nat)),
        op matches DiscordOperation::RemoveOwnReaction { channel_id, message_id } ==> contains_seq(
            spec_describe(op),
            dec_seq(channel_id as nat),
        ) && contains_seq(spec_describe(op), dec_seq(message_id as nat)),
        op matches DiscordOperation::RemoveReaction { channel_id, message_id, user_id }
            ==> contains_seq(spec_describe(op), dec_seq(channel_id as nat)) && contains_seq(
            spec_describe(op),
            dec_seq(message_id as nat),
        ) && contains_seq(spec_describe(op), dec_seq(user_id as nat)),
{
    let s = spec_describe(op);
    match op {
        DiscordOperation::GetCurrentUser => {
            assert(s.len() > 0) by {
                reveal_strlit("Get current user");
            }
        },
        DiscordOperation::GetChannel { channel_id } => {
            lemma_one_id(s, "Get channel "@, channel_id);
        },
        DiscordOperation::GetGuild { guild_id } => {
            lemma_one_id(s, "Get guild "@, guild_id);
        },
        DiscordOperation::GetMessage { channel_id, message_id } => {
            lemma_two_ids(s, "Get message "@, message_id, " in channel "@, channel_id);
        },
        DiscordOperation::GetMember { guild_id, user_id } => {
            lemma_two_ids(s, "Get member "@, user_id, " in guild "@, guild_id);
        },
        DiscordOperation::GetUser { user_id } => {
            lemma_one_id(s, "Get user "@, user_id);
        },
        DiscordOperation::CreateMessage { channel_id } => {
            lemma_one_id(s, "Create message in channel "@, channel_id);
        },
        DiscordOperation::UpdateMessage { channel_id, message_id } => {
            lemma_two_ids(s, "Update message "@, message_id, " in channel "@, channel_id);
        },
        DiscordOperation::DeleteMessage { channel_id, message_id } => {
            lemma_two_ids(s, "Delete message "@, message_id, " in channel "@, channel_id);
        },
        DiscordOperation::AddRole { guild_id, user_id, role_id } => {
            lemma_three_ids(s, "Add role "@, role_id, " to user "@, user_id, " in guild "@, guild_id);
        },
        DiscordOperation::RemoveRole { guild_id, user_id, role_id } => {
            lemma_three_ids(
                s,
                "Remove role "@,
                role_id,
                " from user "@,
                user_id,
                " in guild "@,
                guild_id,
            );
        },
        DiscordOperation::AddReaction { channel_id, message_id } => {
            lemma_two_ids(s, "Add reaction to message "@, message_id, " in channel "@, channel_id);
        },
        DiscordOperation::RemoveOwnReaction { channel_id, message_id } => {
            lemma_two_ids(
                s,
                "Remove own reaction from message "@,
                message_id,
                " in channel "@,
                channel_id,
            );
        },
        DiscordOperation::RemoveReaction { channel_id, message_id, user_id } => {
            lemma_three_ids(
                s,
                "Remove reaction from message "@,
                message_id,
                " in channel "@,
                channel_id,
                " by user "@,
                user_id,
            );
        },
    }
}

/// A rendering of the shape `p + dec(a)` is non-empty and lists `a`.
proof fn lemma_one_id(s: Seq<char>, p: Seq<char>, a: u64)
    requires
        s == p + dec_seq(a as nat),
    ensures
        s.len() > 0,
        contains_seq(s, dec_seq(a as nat)),
{
    let da = dec_seq(a as nat);
    lemma_dec_seq_positive(a as nat);
    assert(s.subrange(p.len() as int, p.len() + da.len() as int) =~= da);
    lemma_contains_at(s, da, p.len() as int);
}

/// A rendering of the shape `p + dec(a) + q + dec(b)` is non-empty and
/// lists both `a` and `b`.
proof fn lemma_two_ids(s: Seq<char>, p: Seq<char>, a: u64, q: Seq<char>, b: u64)
    requires
        s == p + dec_seq(a as nat) + q + dec_seq(b as nat),
    ensures
        s.len() > 0,
        contains_seq(s, dec_seq(a as nat)),
        contains_seq(s, dec_seq(b as nat)),
{
    let da = dec_seq(a as nat);
    let db = dec_seq(b as nat);
    lemma_dec_seq_positive(a as nat);
    lemma_dec_seq_positive(b as nat);
    let ia = p.len() as int;
    let ib = p.len() + da.len() + q.len() as int;
    assert(s.subrange(ia, ia + da.len() as int) =~= da);
    lemma_contains_at(s, da, ia);
    assert(s.subrange(ib, ib + db.len() as int) =~= db);
    lemma_contains_at(s, db, ib);
}

/// A rendering of the shape `p + dec(a) + q + dec(b) + t + dec(c)` is
/// non-empty and lists `a`, `b` and `c`.
proof fn lemma_three_ids(s: Seq<char>, p: Seq<char>, a: u64, q: Seq<char>, b: u64, t: Seq<char>, c: u64)
    requires
        s == p + dec_seq(a as nat) + q + dec_seq(b as nat) + t + dec_seq(c as nat),
    ensures
        s.len() > 0,
        contains_seq(s, dec_seq(a as nat)),
        contains_seq(s, dec_seq(b as nat)),
        contains_seq(s, dec_seq(c as nat)),
{
    let da = dec_seq(a as nat);
    let db = dec_seq(b as nat);
    let dc = dec_seq(c as nat);
    lemma_dec_seq_positive(a as nat);
    lemma_dec_seq_positive(b as nat);
    lemma_dec_seq_positive(c as nat);
    let ia = p.len() as int;
    let ib = p.len() + da.len() + q.len() as int;
    let ic = p.len() + da.len() + q.len() + db.len() + t.len() as int;
    assert(s.subrange(ia, ia + da.len() as int) =~= da);
    lemma_contains_at(s, da, ia);
    assert(s.subrange(ib, ib + db.len() as int) =~= db);
    lemma_contains_at(s, db, ib);
    assert(s.subrange(ic, ic + dc.len() as int) =~= dc);
    lemma_contains_at(s, dc, ic);
}

} // verus!
