use vstd::prelude::*;

verus! {

/// Every bit that names a permission: bits 0 to 14, 30 to 43 and 60 to 63.
pub const ALL_BITS: u128 = 0xf000_0fff_c000_7fffu128;

/// A set of permissions, held as a 128-bit mask of named bits.
///
/// Only bits of `ALL_BITS` are ever set: unknown bits are dropped when a
/// value is built from raw bits.
#[derive(Clone, Copy, Debug, PartialEq, Eq, Structural)]
pub struct Permissions(u128);

impl View for Permissions {
    type V = u128;

    /// The stored bits; the type's invariant keeps them within `ALL_BITS`.
    closed spec fn view(&self) -> u128 {
        self.0 & ALL_BITS
    }
}

/// The bits of `ALL_BITS` that are set in `bits`.
pub open spec fn truncated(bits: u128) -> u128 {
    bits & ALL_BITS
}

proof fn lemma_truncated_within(bits: u128)
    ensures
        truncated(bits) & !ALL_BITS == 0,
        truncated(bits) & ALL_BITS == truncated(bits),
{
    assert((bits & ALL_BITS) & !ALL_BITS == 0) by (bit_vector);
    assert((bits & ALL_BITS) & ALL_BITS == bits & ALL_BITS) by (bit_vector);
}

proof fn lemma_defined_bits_kept(bits: u128)
    requires
        bits & !ALL_BITS == 0,
    ensures
        bits & ALL_BITS == bits,
{
    assert(bits & !ALL_BITS == 0 ==> bits & ALL_BITS == bits) by (bit_vector);
}

impl Permissions {
    #[verifier::type_invariant]
    spec fn within_defined_bits(self) -> bool {
        self.0 & !ALL_BITS == 0
    }

    /// Grants every other permission during resolution; it sets no other bit.
    pub const ADMINISTRATOR: u128 = 1u128 << 0;
    pub const CREATE_INVITE: u128 = 1u128 << 1;
    pub const KICK_MEMBERS: u128 = 1u128 << 2;
    pub const BAN_MEMBERS: u128 = 1u128 << 3;
    pub const VIEW_AUDIT_LOG: u128 = 1u128 << 4;
    pub const VIEW_STATISTICS: u128 = 1u128 << 5;
    pub const MANAGE_PARTY: u128 = 1u128 << 6;
    pub const MANAGE_ROOMS: u128 = 1u128 << 7;
    pub const MANAGE_NICKNAMES: u128 = 1u128 << 8;
    pub const MANAGE_ROLES: u128 = 1u128 << 9;
    pub const MANAGE_WEBHOOKS: u128 = 1u128 << 10;
    /// Allows members to add or remove custom emoji, stickers or sounds.
    pub const MANAGE_EXPRESSIONS: u128 = 1u128 << 11;
    pub const MOVE_MEMBERS: u128 = 1u128 << 12;
    pub const CHANGE_NICKNAME: u128 = 1u128 << 13;
    pub const MANAGE_PERMS: u128 = 1u128 << 14;
    pub const VIEW_ROOM: u128 = 1u128 << 30;
    /// Implies `VIEW_ROOM`.
    pub const READ_MESSAGE_HISTORY: u128 = 1u128 << 31 | Self::VIEW_ROOM;
    /// Implies `VIEW_ROOM`.
    pub const SEND_MESSAGES: u128 = 1u128 << 32 | Self::VIEW_ROOM;
    pub const MANAGE_MESSAGES: u128 = 1u128 << 33;
    pub const MUTE_MEMBERS: u128 = 1u128 << 34;
    pub const DEAFEN_MEMBERS: u128 = 1u128 << 35;
    pub const MENTION_EVERYONE: u128 = 1u128 << 36;
    pub const USE_EXTERNAL_EMOTES: u128 = 1u128 << 37;
    pub const ADD_REACTIONS: u128 = 1u128 << 38;
    pub const EMBED_LINKS: u128 = 1u128 << 39;
    pub const ATTACH_FILES: u128 = 1u128 << 40;
    pub const USE_SLASH_COMMANDS: u128 = 1u128 << 41;
    pub const SEND_TTS_MESSAGES: u128 = 1u128 << 42;
    /// Allows a user to add new attachments to existing messages by editing them.
    pub const EDIT_NEW_ATTACHMENT: u128 = 1u128 << 43;
    /// Allows a user to broadcast a stream to a room.
    pub const STREAM: u128 = 1u128 << 60;
    /// Allows a user to connect and watch or listen to streams in a room.
    pub const CONNECT: u128 = 1u128 << 61;
    /// Allows a user to speak in a room without broadcasting a stream.
    pub const SPEAK: u128 = 1u128 << 62;
    /// Allows a user to acquire priority speaker.
    pub const PRIORITY_SPEAKER: u128 = 1u128 << 63;

    /// What every member with no role holds. Changing it changes what
    /// the platform grants by default.
    pub const DEFAULT: u128 = Self::CHANGE_NICKNAME | Self::VIEW_ROOM | Self::READ_MESSAGE_HISTORY
        | Self::SEND_MESSAGES | Self::USE_EXTERNAL_EMOTES | Self::ADD_REACTIONS | Self::EMBED_LINKS
        | Self::ATTACH_FILES | Self::SEND_TTS_MESSAGES | Self::CONNECT | Self::SPEAK;

    /// Stores `bits`, which hold no unknown bit.
    fn from_defined_bits(bits: u128) -> (r: Permissions)
        requires
            bits & !ALL_BITS == 0,
        ensures
            r@ == bits,
    {
        proof {
            lemma_defined_bits_kept(bits);
        }
        Permissions(bits)
    }

    /// The set with no permission.
    pub fn empty() -> (r: Permissions)
        ensures
            r@ == 0,
    {
        assert(0u128 & !ALL_BITS == 0) by (bit_vector);
        Self::from_defined_bits(0)
    }

    /// The set with every defined permission.
    pub fn all() -> (r: Permissions)
        ensures
            r@ == ALL_BITS,
    {
        assert(ALL_BITS & !ALL_BITS == 0) by (bit_vector);
        Self::from_defined_bits(ALL_BITS)
    }

    /// Keeps the defined bits of `bits` and drops the others; never fails.
    pub fn from_bits_truncate(bits: u128) -> (r: Permissions)
        ensures
            r@ == truncated(bits),
            r@ & !ALL_BITS == 0,
    {
        proof {
            lemma_truncated_within(bits);
        }
        Self::from_defined_bits(bits & ALL_BITS)
    }

    /// The set of exactly `bits`, or `None` where `bits` holds an unknown bit.
    pub fn from_bits(bits: u128) -> (r: Option<Permissions>)
        ensures
            r is Some <==> bits & !ALL_BITS == 0,
            r matches Some(p) ==> p@ == bits,
    {
        if bits & !ALL_BITS == 0 {
            Some(Self::from_defined_bits(bits))
        } else {
            None
        }
    }

    pub fn bits(self) -> (r: u128)
        ensures
            r == self@,
    {
        proof {
            use_type_invariant(self);
            self.lemma_view_is_stored();
        }
        self.0
    }

    /// No value holds a bit outside `ALL_BITS`.
    pub proof fn lemma_within_defined_bits(self)
        ensures
            self@ & !ALL_BITS == 0,
            self@ & ALL_BITS == self@,
    {
        lemma_truncated_within(self.0);
    }

    proof fn lemma_view_is_stored(self)
        requires
            self.0 & !ALL_BITS == 0,
        ensures
            self@ == self.0,
    {
        lemma_defined_bits_kept(self.0);
    }

    pub fn is_empty(self) -> (r: bool)
        ensures
            r == (self@ == 0),
    {
        self.bits() == 0
    }

    pub fn is_all(self) -> (r: bool)
        ensures
            r == (self@ == ALL_BITS),
    {
        self.bits() == ALL_BITS
    }

    /// Whether every permission of `other` is in `self`.
    pub fn contains(self, other: Permissions) -> (r: bool)
        ensures
            r == (self@ & other@ == other@),
    {
        self.bits() & other.bits() == other.bits()
    }

    /// Whether `self` and `other` share a permission.
    pub fn intersects(self, other: Permissions) -> (r: bool)
        ensures
            r == (self@ & other@ != 0),
    {
        self.bits() & other.bits() != 0
    }

    pub fn union(self, other: Permissions) -> (r: Permissions)
        ensures
            r@ == self@ | other@,
    {
        let (a, b) = (self.bits(), other.bits());
        proof {
            self.lemma_within_defined_bits();
            other.lemma_within_defined_bits();
            assert(a & !ALL_BITS == 0 && b & !ALL_BITS == 0 ==> (a | b) & !ALL_BITS == 0)
                by (bit_vector);
        }
        Self::from_defined_bits(a | b)
    }

    pub fn intersection(self, other: Permissions) -> (r: Permissions)
        ensures
            r@ == self@ & other@,
    {
        let (a, b) = (self.bits(), other.bits());
        proof {
            self.lemma_within_defined_bits();
            assert(a & !ALL_BITS == 0 ==> (a & b) & !ALL_BITS == 0) by (bit_vector);
        }
        Self::from_defined_bits(a & b)
    }

    /// The permissions of `self` that are not in `other`.
    pub fn difference(self, other: Permissions) -> (r: Permissions)
        ensures
            r@ == self@ & !other@,
    {
        let (a, b) = (self.bits(), other.bits());
        proof {
            self.lemma_within_defined_bits();
            assert(a & !ALL_BITS == 0 ==> (a & !b) & !ALL_BITS == 0) by (bit_vector);
        }
        Self::from_defined_bits(a & !b)
    }

    /// The permissions that are in exactly one of `self` and `other`.
    pub fn symmetric_difference(self, other: Permissions) -> (r: Permissions)
        ensures
            r@ == self@ ^ other@,
    {
        let (a, b) = (self.bits(), other.bits());
        proof {
            self.lemma_within_defined_bits();
            other.lemma_within_defined_bits();
            assert(a & !ALL_BITS == 0 && b & !ALL_BITS == 0 ==> (a ^ b) & !ALL_BITS == 0)
                by (bit_vector);
        }
        Self::from_defined_bits(a ^ b)
    }

    /// The defined permissions that are not in `self`.
    pub fn complement(self) -> (r: Permissions)
        ensures
            r@ == truncated(!self@),
    {
        Self::from_bits_truncate(!self.bits())
    }

    /// Whether the set holds `ADMINISTRATOR`.
    pub fn is_admin(self) -> (r: bool)
        ensures
            r == (self@ & Self::ADMINISTRATOR == Self::ADMINISTRATOR),
    {
        self.bits() & Self::ADMINISTRATOR == Self::ADMINISTRATOR
    }
}

/// The 128 bits whose low half is `low` and high half is `high`, each read
/// as unsigned.
pub open spec fn joined_halves(low: i64, high: i64) -> u128 {
    (low as u64 as u128) | ((high as u64 as u128) << 64u128)
}

/// The low half of `bits`, read as signed.
pub open spec fn low_half(bits: u128) -> i64 {
    bits as u64 as i64
}

/// The high half of `bits`, read as signed.
pub open spec fn high_half(bits: u128) -> i64 {
    (bits >> 64u128) as u64 as i64
}

/// The value of an optional half: a missing one is zero.
pub open spec fn half_or_zero(half: Option<i64>) -> i64 {
    match half {
        Some(v) => v,
        None => 0,
    }
}

impl Permissions {
    /// Joins two signed 64-bit halves into a set, dropping unknown bits.
    pub fn from_i64(low: i64, high: i64) -> (r: Permissions)
        ensures
            r@ == truncated(joined_halves(low, high)),
    {
        Permissions::from_bits_truncate(low as u64 as u128 | ((high as u64 as u128) << 64u128))
    }

    /// As `from_i64`, with a missing half read as zero.
    pub fn from_i64_opt(low: Option<i64>, high: Option<i64>) -> (r: Permissions)
        ensures
            r@ == truncated(joined_halves(half_or_zero(low), half_or_zero(high))),
    {
        Permissions::from_i64(
            match low {
                Some(low) => low,
                None => 0,
            },
            match high {
                Some(high) => high,
                None => 0,
            },
        )
    }

    /// The low and the high 64 bits of the set, each read as signed.
    pub fn to_i64(self) -> (r: [i64; 2])
        ensures
            r[0] == low_half(self@),
            r[1] == high_half(self@),
    {
        let bits = self.bits();
        let low = bits as u64 as i64;
        let high = (bits >> 64u128) as u64 as i64;
        [low, high]
    }
}

/// Splitting a set into halves and joining them gives the set back.
pub proof fn lemma_halves_round_trip(p: Permissions)
    ensures
        truncated(joined_halves(low_half(p@), high_half(p@))) == p@,
{
    p.lemma_within_defined_bits();
    let b = p@;
    assert(b & ALL_BITS == b ==> ((((b as u64 as i64) as u64 as u128) | ((((b >> 64u128) as u64
        as i64) as u64 as u128) << 64u128)) & ALL_BITS) == b) by (bit_vector);
}

impl Default for Permissions {
    /// The permissions of a member with no role.
    fn default() -> (r: Permissions)
        ensures
            r@ == Permissions::DEFAULT,
    {
        proof {
            assert(Permissions::DEFAULT & ALL_BITS == Permissions::DEFAULT) by (bit_vector);
        }
        Permissions::from_bits_truncate(Permissions::DEFAULT)
    }
}

} // verus!
