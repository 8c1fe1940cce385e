use vstd::prelude::*;

use crate::Snowflake;

verus! {

/// Every bit that names a user flag: the low 16 bits.
pub const USER_FLAG_BITS: i32 = 0xffff;

/// Flags of a user account, held as the low 16 bits of an `i32`.
///
/// Bits 6 to 8 hold the elevation level, bits 9 to 11 the premium level
/// and bits 13 and 14 the extra storage tier, each as an unsigned integer.
#[derive(Clone, Copy, Debug, PartialEq, Eq, Structural)]
pub struct UserFlags(i32);

impl View for UserFlags {
    type V = i32;

    /// The stored bits; the type's invariant keeps them within `USER_FLAG_BITS`.
    closed spec fn view(&self) -> i32 {
        self.0 & USER_FLAG_BITS
    }
}

/// How far a user's account is trusted by the platform.
#[derive(Clone, Copy, Debug, PartialEq, Eq, Structural, PartialOrd, Ord, Hash)]
pub enum ElevationLevel {
    /// No elevation: an ordinary account.
    Normal,
    Bot,
    Reserved,
    Staff,
    System,
}

impl ElevationLevel {
    pub open spec fn code_spec(self) -> i32 {
        match self {
            ElevationLevel::Normal => 0,
            ElevationLevel::Bot => 1,
            ElevationLevel::Reserved => 2,
            ElevationLevel::Staff => 3,
            ElevationLevel::System => 4,
        }
    }

    /// The level as the integer that user flags store.
    #[verifier::when_used_as_spec(code_spec)]
    pub fn code(self) -> (r: i32)
        ensures
            r == self.code_spec(),
    {
        match self {
            ElevationLevel::Normal => 0,
            ElevationLevel::Bot => 1,
            ElevationLevel::Reserved => 2,
            ElevationLevel::Staff => 3,
            ElevationLevel::System => 4,
        }
    }
}

/// The level that a stored elevation integer stands for: one with no level
/// of its own, the reserved one included, stands for `Normal`.
pub open spec fn elevation_of_code(code: i32) -> ElevationLevel {
    if code == 1 {
        ElevationLevel::Bot
    } else if code == 3 {
        ElevationLevel::Staff
    } else if code == 4 {
        ElevationLevel::System
    } else {
        ElevationLevel::Normal
    }
}

/// The elevation integer held in `bits`.
pub open spec fn elevation_code(bits: i32) -> i32 {
    (bits & UserFlags::ELEVATION) >> 6i32
}

proof fn lemma_flag_bits_kept(bits: i32)
    requires
        bits & !USER_FLAG_BITS == 0,
    ensures
        bits & USER_FLAG_BITS == bits,
{
    assert(bits & !USER_FLAG_BITS == 0 ==> bits & USER_FLAG_BITS == bits) by (bit_vector);
}

impl UserFlags {
    #[verifier::type_invariant]
    spec fn within_defined_bits(self) -> bool {
        self.0 & !USER_FLAG_BITS == 0
    }

    pub const BANNED: i32 = 1i32 << 0;
    pub const VERIFIED: i32 = 1i32 << 1;
    pub const MFA_ENABLED: i32 = 1i32 << 2;
    pub const NEEDS_PASSWORD_RESET: i32 = 1i32 << 3;
    pub const RESERVED_1: i32 = 1i32 << 4;
    pub const RESERVED_2: i32 = 1i32 << 5;
    pub const ELEVATION_1: i32 = 1i32 << 6;
    pub const ELEVATION_2: i32 = 1i32 << 7;
    pub const ELEVATION_3: i32 = 1i32 << 8;
    pub const PREMIUM_1: i32 = 1i32 << 9;
    pub const PREMIUM_2: i32 = 1i32 << 10;
    pub const PREMIUM_3: i32 = 1i32 << 11;
    pub const RESERVED_3: i32 = 1i32 << 12;
    pub const EXTRA_STORAGE_1: i32 = 1i32 << 13;
    pub const EXTRA_STORAGE_2: i32 = 1i32 << 14;
    pub const RESERVED_4: i32 = 1i32 << 15;
    pub const RESERVED: i32 = Self::RESERVED_1 | Self::RESERVED_2 | Self::RESERVED_3
        | Self::RESERVED_4;
    /// The elevation level integer.
    pub const ELEVATION: i32 = Self::ELEVATION_1 | Self::ELEVATION_2 | Self::ELEVATION_3;
    /// The premium level integer.
    pub const PREMIUM: i32 = Self::PREMIUM_1 | Self::PREMIUM_2 | Self::PREMIUM_3;
    /// The extra storage tier integer.
    pub const EXTRA_STORAGE: i32 = Self::EXTRA_STORAGE_1 | Self::EXTRA_STORAGE_2;
    /// Flags that public responses never show.
    pub const PRIVATE_FLAGS: i32 = Self::BANNED | Self::VERIFIED | Self::MFA_ENABLED
        | Self::NEEDS_PASSWORD_RESET | Self::EXTRA_STORAGE | Self::RESERVED;

    /// Stores `bits`, which hold no unknown bit.
    fn from_defined_bits(bits: i32) -> (r: UserFlags)
        requires
            bits & !USER_FLAG_BITS == 0,
        ensures
            r@ == bits,
    {
        proof {
            lemma_flag_bits_kept(bits);
        }
        UserFlags(bits)
    }

    pub fn empty() -> (r: UserFlags)
        ensures
            r@ == 0,
    {
        assert(0i32 & !USER_FLAG_BITS == 0) by (bit_vector);
        Self::from_defined_bits(0)
    }

    pub fn all() -> (r: UserFlags)
        ensures
            r@ == USER_FLAG_BITS,
    {
        assert(USER_FLAG_BITS & !USER_FLAG_BITS == 0) by (bit_vector);
        Self::from_defined_bits(USER_FLAG_BITS)
    }

    /// Keeps the defined bits of `bits` and drops the others.
    pub fn from_bits_truncate(bits: i32) -> (r: UserFlags)
        ensures
            r@ == bits & USER_FLAG_BITS,
    {
        assert((bits & USER_FLAG_BITS) & !USER_FLAG_BITS == 0) by (bit_vector);
        Self::from_defined_bits(bits & USER_FLAG_BITS)
    }

    /// As `from_bits_truncate`, also dropping the flags that public
    /// responses never show.
    pub fn from_bits_truncate_public(bits: i32) -> (r: UserFlags)
        ensures
            r@ == bits & USER_FLAG_BITS & !Self::PRIVATE_FLAGS,
    {
        let b = bits & USER_FLAG_BITS & !Self::PRIVATE_FLAGS;
        assert(b & !USER_FLAG_BITS == 0) by (bit_vector)
            requires
                b == bits & USER_FLAG_BITS & !Self::PRIVATE_FLAGS,
        ;
        Self::from_defined_bits(b)
    }

    pub fn bits(self) -> (r: i32)
        ensures
            r == self@,
    {
        proof {
            use_type_invariant(self);
            lemma_flag_bits_kept(self.0);
        }
        self.0
    }

    /// Whether every flag of `other` is in `self`.
    pub fn contains(self, other: UserFlags) -> (r: bool)
        ensures
            r == (self@ & other@ == other@),
    {
        self.bits() & other.bits() == other.bits()
    }

    pub fn union(self, other: UserFlags) -> (r: UserFlags)
        ensures
            r@ == self@ | other@,
    {
        let (a, b) = (self.bits(), other.bits());
        assert(((a & USER_FLAG_BITS) | (b & USER_FLAG_BITS)) & !USER_FLAG_BITS == 0) by (bit_vector);
        proof {
            lemma_truncated_flags(self);
            lemma_truncated_flags(other);
        }
        Self::from_defined_bits(a | b)
    }

    /// The flags of `self` that are not in `other`.
    pub fn difference(self, other: UserFlags) -> (r: UserFlags)
        ensures
            r@ == self@ & !other@,
    {
        let (a, b) = (self.bits(), other.bits());
        assert(((a & USER_FLAG_BITS) & !b) & !USER_FLAG_BITS == 0) by (bit_vector);
        proof {
            lemma_truncated_flags(self);
        }
        Self::from_defined_bits(a & !b)
    }

    /// The elevation level that the flags hold.
    pub fn elevation(self) -> (r: ElevationLevel)
        ensures
            r == elevation_of_code(elevation_code(self@)),
    {
        match (self.bits() & Self::ELEVATION) >> 6i32 {
            1 => ElevationLevel::Bot,
            3 => ElevationLevel::Staff,
            4 => ElevationLevel::System,
            _ => ElevationLevel::Normal,
        }
    }

    /// The flags with their elevation level replaced by `ev`; every other
    /// flag is kept.
    pub fn with_elevation(self, ev: ElevationLevel) -> (r: UserFlags)
        ensures
            r@ == (self@ & !Self::ELEVATION) | (ev.code() << 6i32),
            r@ & !Self::ELEVATION == self@ & !Self::ELEVATION,
            elevation_code(r@) == ev.code(),
            ev != ElevationLevel::Reserved ==> elevation_of_code(elevation_code(r@)) == ev,
    {
        let code = ev.code();
        let shifted = Self::from_bits_truncate(code << 6i32);
        let r = self.difference(Self::from_bits_truncate(Self::ELEVATION)).union(shifted);
        proof {
            let a = self@;
            assert(0 <= code <= 4);
            assert(0 <= code <= 4 ==> (code << 6i32) & USER_FLAG_BITS == code << 6i32) by (bit_vector);
            assert(UserFlags::ELEVATION & USER_FLAG_BITS == UserFlags::ELEVATION) by (bit_vector);
            assert(0 <= code <= 4 ==> ((a & !UserFlags::ELEVATION) | (code << 6i32)) & !UserFlags::ELEVATION
                == a & !UserFlags::ELEVATION) by (bit_vector);
            assert(0 <= code <= 4 ==> (((a & !UserFlags::ELEVATION) | (code << 6i32)) & UserFlags::ELEVATION)
                >> 6i32 == code) by (bit_vector);
        }
        r
    }

    /// The premium level, from 0 to 7.
    pub fn premium_level(self) -> (r: u8)
        ensures
            r == (self@ & Self::PREMIUM) >> 9i32,
            r <= 7,
    {
        let b = self.bits();
        assert(0 <= (b & UserFlags::PREMIUM) >> 9i32 <= 7) by (bit_vector);
        ((b & Self::PREMIUM) >> 9i32) as u8
    }

    /// The extra storage tier, from 0 to 3.
    pub fn extra_storage_tier(self) -> (r: u8)
        ensures
            r == (self@ & Self::EXTRA_STORAGE) >> 13i32,
            r <= 3,
    {
        let b = self.bits();
        assert(0 <= (b & UserFlags::EXTRA_STORAGE) >> 13i32 <= 3) by (bit_vector);
        ((b & Self::EXTRA_STORAGE) >> 13i32) as u8
    }
}

proof fn lemma_truncated_flags(f: UserFlags)
    ensures
        f@ & !USER_FLAG_BITS == 0,
        f@ & USER_FLAG_BITS == f@,
{
    let b = f.0;
    assert((b & USER_FLAG_BITS) & !USER_FLAG_BITS == 0) by (bit_vector);
    assert((b & USER_FLAG_BITS) & USER_FLAG_BITS == b & USER_FLAG_BITS) by (bit_vector);
}

/// The packed appearance of a profile: the avatar's roundness in the low 7
/// bits, the color override in bit 7 and the primary color in the top 24.
#[derive(Clone, Copy, Debug, PartialEq, Eq, Structural)]
pub struct UserProfileBits(i32);

impl View for UserProfileBits {
    type V = i32;

    closed spec fn view(&self) -> i32 {
        self.0
    }
}

impl UserProfileBits {
    /// The avatar's roundness, from 0 to 127.
    pub const AVATAR_ROUNDNESS: i32 = 0x7f;
    pub const OVERRIDE_COLOR: i32 = 0x80;
    /// The top 24 bits.
    pub const PRIMARY_COLOR: i32 = -256i32;

    pub fn empty() -> (r: UserProfileBits)
        ensures
            r@ == 0,
    {
        UserProfileBits(0)
    }

    /// Every bit of an `i32` is defined here, so all of `bits` are kept.
    pub fn from_bits_truncate(bits: i32) -> (r: UserProfileBits)
        ensures
            r@ == bits,
    {
        UserProfileBits(bits)
    }

    pub fn bits(self) -> (r: i32)
        ensures
            r == self@,
    {
        self.0
    }

    pub fn contains(self, other: UserProfileBits) -> (r: bool)
        ensures
            r == (self@ & other@ == other@),
    {
        self.0 & other.0 == other.0
    }
}

/// Every bit that `ExtraUserProfileBits` defines: bit 7 and the top 24 bits.
pub const EXTRA_PROFILE_BITS: i32 = -128i32;

/// More packed appearance: the color override in bit 7 and the secondary
/// color in the top 24 bits.
#[derive(Clone, Copy, Debug, PartialEq, Eq, Structural)]
pub struct ExtraUserProfileBits(i32);

impl View for ExtraUserProfileBits {
    type V = i32;

    closed spec fn view(&self) -> i32 {
        self.0 & EXTRA_PROFILE_BITS
    }
}

impl ExtraUserProfileBits {
    pub const OVERRIDE_COLOR: i32 = 0x80;
    /// The top 24 bits.
    pub const SECONDARY_COLOR: i32 = -256i32;

    pub fn empty() -> (r: ExtraUserProfileBits)
        ensures
            r@ == 0,
    {
        assert(0i32 & EXTRA_PROFILE_BITS == 0) by (bit_vector);
        ExtraUserProfileBits(0)
    }

    /// Keeps the defined bits of `bits` and drops the others.
    pub fn from_bits_truncate(bits: i32) -> (r: ExtraUserProfileBits)
        ensures
            r@ == bits & EXTRA_PROFILE_BITS,
    {
        assert((bits & EXTRA_PROFILE_BITS) & EXTRA_PROFILE_BITS == bits & EXTRA_PROFILE_BITS)
            by (bit_vector);
        ExtraUserProfileBits(bits & EXTRA_PROFILE_BITS)
    }

    pub fn bits(self) -> (r: i32)
        ensures
            r == self@,
    {
        self.0 & EXTRA_PROFILE_BITS
    }

    pub fn is_empty(self) -> (r: bool)
        ensures
            r == (self@ == 0),
    {
        self.bits() == 0
    }
}

/// A field that a message may leave out, set to null, or set to a value.
#[derive(Clone, Debug)]
pub enum Nullable<T> {
    Undefined,
    Null,
    Value(T),
}

impl<T> Nullable<T> {
    pub fn is_undefined(&self) -> (r: bool)
        ensures
            r == (self is Undefined),
    {
        match self {
            Nullable::Undefined => true,
            _ => false,
        }
    }
}

#[derive(Clone, Debug)]
pub struct UserProfile {
    pub bits: UserProfileBits,
    pub extra: ExtraUserProfileBits,
    pub nick: Nullable<String>,
    pub avatar: Nullable<String>,
    pub banner: Nullable<String>,
    pub status: Nullable<String>,
    pub bio: Nullable<String>,
}

impl Default for UserProfile {
    /// A profile with no bit set and every text field left out.
    fn default() -> (r: UserProfile)
        ensures
            r.bits@ == 0,
            r.extra@ == 0,
            r.nick is Undefined,
            r.avatar is Undefined,
            r.banner is Undefined,
            r.status is Undefined,
            r.bio is Undefined,
    {
        UserProfile {
            bits: UserProfileBits::empty(),
            extra: ExtraUserProfileBits::empty(),
            nick: Nullable::Undefined,
            avatar: Nullable::Undefined,
            banner: Nullable::Undefined,
            status: Nullable::Undefined,
            bio: Nullable::Undefined,
        }
    }
}

impl UserProfile {
    /// The avatar's roundness, from 0 (square) to 127 (round).
    pub fn avatar_roundness(&self) -> (r: u8)
        ensures
            r == self.bits@ & UserProfileBits::AVATAR_ROUNDNESS,
            r <= 127,
    {
        let b = self.bits.bits();
        assert(0 <= b & 0x7fi32 <= 127) by (bit_vector);
        (b & UserProfileBits::AVATAR_ROUNDNESS) as u8
    }

    /// Whether the profile's primary color replaces the default one.
    pub fn override_color(&self) -> (r: bool)
        ensures
            r == (self.bits@ & UserProfileBits::OVERRIDE_COLOR == UserProfileBits::OVERRIDE_COLOR),
    {
        self.bits.bits() & UserProfileBits::OVERRIDE_COLOR == UserProfileBits::OVERRIDE_COLOR
    }

    /// The primary color: the top 24 bits, as an RGB integer.
    pub fn color(&self) -> (r: u32)
        ensures
            r == (self.bits@ as u32) >> 8u32,
    {
        self.bits.bits() as u32 >> 8u32
    }
}

/// A date of birth on the proleptic Gregorian calendar.
#[derive(Clone, Copy, Debug, PartialEq, Eq, Structural)]
pub struct DateOfBirth {
    pub year: i32,
    /// From 1 (January) to 12.
    pub month: u8,
    pub day: u8,
}

#[derive(Clone, Debug)]
pub struct User {
    pub id: Snowflake,
    pub username: String,
    /// An unsigned 16-bit integer.
    pub discriminator: i32,
    pub flags: UserFlags,
    pub profile: Nullable<UserProfile>,
    /// Present only when the user is the one asking.
    pub email: Option<String>,
}

/// What one user has set toward another.
#[derive(Clone, Copy, Debug, PartialEq, Eq, Structural, PartialOrd, Ord, Hash)]
pub enum UserRelationship {
    NoRelation,
    Friend,
    /// Normal user blocking.
    Blocked,
    /// Blocking that also hides messages of the blocked user.
    BlockedDangerous,
}

impl UserRelationship {
    pub open spec fn code_spec(self) -> i8 {
        match self {
            UserRelationship::NoRelation => 0,
            UserRelationship::Friend => 1,
            UserRelationship::Blocked => 100,
            UserRelationship::BlockedDangerous => 101,
        }
    }

    /// The integer that stores the relationship.
    #[verifier::when_used_as_spec(code_spec)]
    pub fn code(self) -> (r: i8)
        ensures
            r == self.code_spec(),
    {
        match self {
            UserRelationship::NoRelation => 0,
            UserRelationship::Friend => 1,
            UserRelationship::Blocked => 100,
            UserRelationship::BlockedDangerous => 101,
        }
    }

    /// The relationship that `code` stores, if any.
    pub fn from_code(code: i8) -> (r: Option<UserRelationship>)
        ensures
            r matches Some(rel) ==> rel.code_spec() == code,
            r is None ==> code != 0 && code != 1 && code != 100 && code != 101,
    {
        match code {
            0 => Some(UserRelationship::NoRelation),
            1 => Some(UserRelationship::Friend),
            100 => Some(UserRelationship::Blocked),
            101 => Some(UserRelationship::BlockedDangerous),
            _ => None,
        }
    }
}

impl Default for UserRelationship {
    fn default() -> (r: UserRelationship)
        ensures
            r == UserRelationship::NoRelation,
    {
        UserRelationship::NoRelation
    }
}

#[derive(Clone, Debug)]
pub struct Relationship {
    pub note: Option<String>,
    pub user: User,
    /// When the relationship began, in seconds since the Unix epoch.
    pub since: i64,
    pub rel: UserRelationship,
    /// Whether the relationship awaits an action of the one asking.
    pub pending: bool,
}

} // verus!
