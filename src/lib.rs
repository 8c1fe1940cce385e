//! Permission computation core of a chat platform's data model: a 128-bit
//! permission set, allow/deny overwrites and their resolution, and the
//! permissions that each command requires.

use vstd::prelude::*;

pub mod command;
pub mod decimal;
pub mod encoding;
pub mod overwrite;
pub mod permission;
pub mod role;
pub mod user;

verus! {

/// A unique identifier of a user, role, room or message.
pub type Snowflake = u64;

} // verus!
