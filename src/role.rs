use vstd::prelude::*;

use crate::permission::Permissions;
use crate::Snowflake;

verus! {

/// Every bit that names a role flag.
pub const ROLE_FLAG_BITS: i16 = 0b11;

#[derive(Clone, Copy, Debug, PartialEq, Eq, Structural)]
pub struct RoleFlags(i16);

impl View for RoleFlags {
    type V = i16;

    closed spec fn view(&self) -> i16 {
        self.0 & ROLE_FLAG_BITS
    }
}

impl RoleFlags {
    /// Members of the role are listed apart.
    pub const HOIST: i16 = 1i16 << 0;
    pub const MENTIONABLE: i16 = 1i16 << 1;

    pub fn empty() -> (r: RoleFlags)
        ensures
            r@ == 0,
    {
        assert(0i16 & ROLE_FLAG_BITS == 0) by (bit_vector);
        RoleFlags(0)
    }

    /// Keeps the defined bits of `bits` and drops the others.
    pub fn from_bits_truncate(bits: i16) -> (r: RoleFlags)
        ensures
            r@ == bits & ROLE_FLAG_BITS,
    {
        assert((bits & ROLE_FLAG_BITS) & ROLE_FLAG_BITS == bits & ROLE_FLAG_BITS) by (bit_vector);
        RoleFlags(bits & ROLE_FLAG_BITS)
    }

    pub fn bits(self) -> (r: i16)
        ensures
            r == self@,
    {
        self.0 & ROLE_FLAG_BITS
    }
}

#[derive(Clone, Debug)]
pub struct Role {
    pub id: Snowflake,
    pub party_id: Snowflake,
    pub avatar: Option<String>,
    pub name: String,
    pub desc: Option<String>,
    pub permissions: Permissions,
    /// No color when `None`.
    pub color: Option<u32>,
    pub position: i16,
    pub flags: RoleFlags,
}

impl Role {
    pub fn is_mentionable(&self) -> (r: bool)
        ensures
            r == (self.flags@ & RoleFlags::MENTIONABLE == RoleFlags::MENTIONABLE),
    {
        self.flags.bits() & RoleFlags::MENTIONABLE == RoleFlags::MENTIONABLE
    }

    /// Whether the role grants `ADMINISTRATOR`.
    pub fn is_admin(&self) -> (r: bool)
        ensures
            r == (self.permissions@ & Permissions::ADMINISTRATOR == Permissions::ADMINISTRATOR),
    {
        self.permissions.is_admin()
    }
}

} // verus!
