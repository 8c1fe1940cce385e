use vstd::prelude::*;

use crate::permission::{truncated, Permissions};
use crate::Snowflake;

verus! {

/// Closes a trait to implementations outside this crate.
pub trait Sealed {}

/// Relies on `Duration::from_millis` to build the interval of the default
/// rate limit; nothing is claimed of the duration, which stays opaque here.
pub assume_specification[ core::time::Duration::from_millis ](millis: u64) -> core::time::Duration;

/// Rate-limit parameters of a command.
#[derive(Clone, Copy, Debug, PartialEq, Eq)]
pub struct RateLimit {
    pub emission_interval: core::time::Duration,
    pub burst_size: u64,
}

impl Default for RateLimit {
    /// One request every 50 ms, or about 20 per second, with bursts of up to
    /// 5 requests that must then replenish.
    fn default() -> (r: RateLimit)
        ensures
            r.burst_size == 5,
    {
        RateLimit { emission_interval: core::time::Duration::from_millis(50), burst_size: 5 }
    }
}

/// A permission that a command requires only where a condition on the
/// command's fields holds.
#[derive(Clone, Copy, Debug, PartialEq, Eq, Structural)]
pub struct ConditionalPermission {
    pub extra: Permissions,
    /// Whether the condition holds for the command at hand.
    pub applies: bool,
}

/// `base` with the extra permissions of each rule that applies.
pub open spec fn required_bits(base: u128, conditional: Seq<ConditionalPermission>) -> u128
    decreases conditional.len(),
{
    if conditional.len() == 0 {
        base
    } else {
        let last = conditional.last();
        required_bits(base, conditional.drop_last()) | if last.applies {
            last.extra@
        } else {
            0
        }
    }
}

/// The permissions that a command requires: its `base` requirement and the
/// extra permissions of each conditional rule that applies; never fails.
pub fn required_permissions(base: Permissions, conditional: &[ConditionalPermission]) -> (r:
    Permissions)
    ensures
        r@ == required_bits(base@, conditional@),
        r@ & base@ == base@,
        forall|i: int|
            0 <= i < conditional@.len() && (#[trigger] conditional@[i]).applies ==> r@
                & conditional@[i].extra@ == conditional@[i].extra@,
{
    let mut r = base;
    let mut i: usize = 0;
    proof {
        let b = base@;
        assert(b & b == b) by (bit_vector);
        assert(conditional@.subrange(0, 0) =~= Seq::<ConditionalPermission>::empty());
    }
    while i < conditional.len()
        invariant
            0 <= i <= conditional@.len(),
            r@ == required_bits(base@, conditional@.subrange(0, i as int)),
            r@ & base@ == base@,
            forall|j: int|
                0 <= j < i && (#[trigger] conditional@[j]).applies ==> r@ & conditional@[j].extra@
                    == conditional@[j].extra@,
        decreases conditional@.len() - i,
    {
        let c = conditional[i];
        let ghost prev = r@;
        if c.applies {
            r = r.union(c.extra);
        }
        proof {
            let s = conditional@.subrange(0, i + 1);
            assert(s.drop_last() =~= conditional@.subrange(0, i as int));
            assert(s.last() == c);
            let (p, b, e) = (prev, base@, c.extra@);
            assert(p & b == b ==> (p | e) & b == b) by (bit_vector);
            assert((p | e) & e == e) by (bit_vector);
            assert(p | 0u128 == p) by (bit_vector);
            assert forall|j: int|
                0 <= j < i + 1 && (#[trigger] conditional@[j]).applies implies r@
                & conditional@[j].extra@ == conditional@[j].extra@ by {
                if j < i && c.applies {
                    let x = conditional@[j].extra@;
                    assert(p & x == x ==> (p | e) & x == x) by (bit_vector);
                }
            }
        }
        i += 1;
    }
    assert(conditional@.subrange(0, conditional@.len() as int) =~= conditional@);
    r
}

/// What creating a message requires: `SEND_MESSAGES`, with `ATTACH_FILES`
/// where it has attachments and `EMBED_LINKS` where it has embeds.
pub open spec fn create_message_bits(has_attachments: bool, has_embeds: bool) -> u128 {
    Permissions::SEND_MESSAGES | (if has_attachments {
        Permissions::ATTACH_FILES
    } else {
        0
    }) | (if has_embeds {
        Permissions::EMBED_LINKS
    } else {
        0
    })
}

/// Posts a message to a room.
#[derive(Clone, Debug)]
pub struct CreateMessage {
    pub room_id: Snowflake,
    pub body: CreateMessageBody,
}

#[derive(Clone, Debug)]
pub struct CreateMessageBody {
    pub content: String,
    /// The message this one replies to.
    pub parent: Option<Snowflake>,
    /// Ids of uploaded files to attach.
    pub attachments: Vec<Snowflake>,
    /// Links to show as embeds.
    pub embeds: Vec<String>,
    pub ephemeral: bool,
    pub tts: bool,
}

impl CreateMessage {
    /// The permissions that this command requires.
    pub fn perms(&self) -> (r: Permissions)
        ensures
            r@ == create_message_bits(
                self.body.attachments@.len() > 0,
                self.body.embeds@.len() > 0,
            ),
    {
        let has_attachments = self.body.attachments.len() > 0;
        let has_embeds = self.body.embeds.len() > 0;
        let conditional = vec![
            ConditionalPermission {
                extra: Permissions::from_bits_truncate(Permissions::ATTACH_FILES),
                applies: has_attachments,
            },
            ConditionalPermission {
                extra: Permissions::from_bits_truncate(Permissions::EMBED_LINKS),
                applies: has_embeds,
            },
        ];
        let r = required_permissions(
            Permissions::from_bits_truncate(Permissions::SEND_MESSAGES),
            conditional.as_slice(),
        );
        proof {
            let s = conditional@;
            let base_bits = Permissions::SEND_MESSAGES;
            assert(s.drop_last().drop_last() =~= Seq::<ConditionalPermission>::empty());
            assert(s.drop_last().last() == s[0]);
            assert(s.last() == s[1]);
            assert(required_bits(base_bits, s.drop_last().drop_last()) == base_bits);
            assert(required_bits(base_bits, s.drop_last()) == base_bits | if s[0].applies {
                s[0].extra@
            } else {
                0
            });
            assert(truncated(Permissions::SEND_MESSAGES) == Permissions::SEND_MESSAGES)
                by (bit_vector);
            assert(truncated(Permissions::ATTACH_FILES) == Permissions::ATTACH_FILES)
                by (bit_vector);
            assert(truncated(Permissions::EMBED_LINKS) == Permissions::EMBED_LINKS)
                by (bit_vector);
        }
        r
    }
}

/// Edits a message of a room.
#[derive(Clone, Debug)]
pub struct EditMessage {
    pub room_id: Snowflake,
    pub msg_id: Snowflake,
    pub body: EditMessageBody,
}

#[derive(Clone, Debug)]
pub struct EditMessageBody {
    pub content: String,
    pub attachments: Vec<Snowflake>,
}

impl EditMessage {
    /// The permissions that this command requires: `SEND_MESSAGES`.
    pub fn perms(&self) -> (r: Permissions)
        ensures
            r@ == Permissions::SEND_MESSAGES,
    {
        assert(truncated(Permissions::SEND_MESSAGES) == Permissions::SEND_MESSAGES) by (bit_vector);
        Permissions::from_bits_truncate(Permissions::SEND_MESSAGES)
    }
}

/// Reads one message of a room.
#[derive(Clone, Copy, Debug, PartialEq, Eq, Structural)]
pub struct GetMessage {
    pub room_id: Snowflake,
    pub msg_id: Snowflake,
}

impl GetMessage {
    /// The permissions that this command requires: `READ_MESSAGE_HISTORY`.
    pub fn perms(&self) -> (r: Permissions)
        ensures
            r@ == Permissions::READ_MESSAGE_HISTORY,
    {
        assert(truncated(Permissions::READ_MESSAGE_HISTORY) == Permissions::READ_MESSAGE_HISTORY)
            by (bit_vector);
        Permissions::from_bits_truncate(Permissions::READ_MESSAGE_HISTORY)
    }
}

/// Shows that the actor is typing in a room.
#[derive(Clone, Copy, Debug, PartialEq, Eq, Structural)]
pub struct StartTyping {
    pub room_id: Snowflake,
    /// Shown only within this parent message's context, where set.
    pub parent: Option<Snowflake>,
}

impl StartTyping {
    /// The permissions that this command requires: `SEND_MESSAGES`.
    pub fn perms(&self) -> (r: Permissions)
        ensures
            r@ == Permissions::SEND_MESSAGES,
    {
        assert(truncated(Permissions::SEND_MESSAGES) == Permissions::SEND_MESSAGES) by (bit_vector);
        Permissions::from_bits_truncate(Permissions::SEND_MESSAGES)
    }
}

/// Pins a message of a room under a tag.
#[derive(Clone, Copy, Debug, PartialEq, Eq, Structural)]
pub struct PinMessage {
    pub room_id: Snowflake,
    pub msg_id: Snowflake,
    pub pin_tag: Snowflake,
}

impl PinMessage {
    /// The permissions that this command requires: none.
    pub fn perms(&self) -> (r: Permissions)
        ensures
            r@ == 0,
    {
        Permissions::empty()
    }
}

/// Attachments add `ATTACH_FILES` to what creating a message requires, and
/// nothing else: without them it is not required.
pub proof fn lemma_attachments_require_attach_files(has_embeds: bool)
    ensures
        create_message_bits(false, has_embeds) & Permissions::ATTACH_FILES == 0,
        create_message_bits(true, has_embeds) == create_message_bits(false, has_embeds)
            | Permissions::ATTACH_FILES,
{
    let e: u128 = if has_embeds {
        Permissions::EMBED_LINKS
    } else {
        0
    };
    assert(e == 0 || e == Permissions::EMBED_LINKS);
    assert(e == 0 || e == 1u128 << 39u128 ==> (Permissions::SEND_MESSAGES | 0u128 | e)
        & Permissions::ATTACH_FILES == 0) by (bit_vector);
    assert((Permissions::SEND_MESSAGES | Permissions::ATTACH_FILES | e) == (
    Permissions::SEND_MESSAGES | 0u128 | e) | Permissions::ATTACH_FILES) by (bit_vector);
}

} // verus!
