use vstd::prelude::*;

use crate::decimal::{
    decimal_of, format_u128, lemma_decimal_round_trip, parse_u128, parsed_value, parses_as_u128,
};
use crate::permission::{truncated, Permissions};

verus! {

/// A permission set as a serialized form carries it, before it is read.
#[derive(Clone, Debug)]
pub enum RawPermissions {
    U128(u128),
    U64(u64),
    I128(i128),
    /// Read as unsigned: a negative value stands for its two's complement.
    I64(i64),
    /// Base-ten digits, as human-readable formats carry the set.
    Text(String),
}

/// A serialized permission set that is neither an integer nor a string of
/// base-ten digits.
#[derive(Clone, Copy, Debug, PartialEq, Eq, Structural)]
pub struct FormatError;

/// The set that the text `s` writes, or `None` where `s` is not an
/// optional `+` and base-ten digits of a 128-bit value.
pub open spec fn text_bits(s: Seq<char>) -> Option<u128> {
    if parses_as_u128(s) {
        Some(truncated(parsed_value(s) as u128))
    } else {
        None
    }
}

/// The set that `raw` stands for, or `None` where it stands for none.
pub open spec fn raw_bits(raw: RawPermissions) -> Option<u128> {
    match raw {
        RawPermissions::U128(v) => Some(truncated(v)),
        RawPermissions::U64(v) => Some(truncated(v as u128)),
        RawPermissions::I128(v) => Some(truncated(v as u128)),
        RawPermissions::I64(v) => Some(truncated(v as u128)),
        RawPermissions::Text(s) => text_bits(s@),
    }
}

impl Permissions {
    /// The base-ten digits of the set's bits.
    pub fn to_decimal_string(self) -> (r: String)
        ensures
            r@ == decimal_of(self@ as nat),
    {
        format_u128(self.bits())
    }

    /// Reads base-ten digits, dropping unknown bits; fails only where `s`
    /// does not write a 128-bit value.
    pub fn from_decimal_str(s: &str) -> (r: Result<Permissions, FormatError>)
        ensures
            match text_bits(s@) {
                Some(b) => r matches Ok(p) && p@ == b,
                None => r is Err,
            },
    {
        match parse_u128(s) {
            Some(bits) => Ok(Permissions::from_bits_truncate(bits)),
            None => Err(FormatError),
        }
    }

    /// The serialized form of the set: its base-ten digits for a
    /// human-readable format, its bits otherwise.
    pub fn encode(self, human_readable: bool) -> (r: RawPermissions)
        ensures
            human_readable ==> (r matches RawPermissions::Text(s) && s@ == decimal_of(self@ as nat)),
            !human_readable ==> r == RawPermissions::U128(self@),
    {
        if human_readable {
            RawPermissions::Text(self.to_decimal_string())
        } else {
            RawPermissions::U128(self.bits())
        }
    }

    /// Reads a serialized set, dropping unknown bits; fails only on text
    /// that does not write a 128-bit value.
    pub fn decode(raw: &RawPermissions) -> (r: Result<Permissions, FormatError>)
        ensures
            match raw_bits(*raw) {
                Some(b) => r matches Ok(p) && p@ == b,
                None => r is Err,
            },
    {
        match raw {
            RawPermissions::U128(v) => Ok(Permissions::from_bits_truncate(*v)),
            RawPermissions::U64(v) => Ok(Permissions::from_bits_truncate(*v as u128)),
            RawPermissions::I128(v) => Ok(Permissions::from_bits_truncate(*v as u128)),
            RawPermissions::I64(v) => Ok(Permissions::from_bits_truncate(*v as u128)),
            RawPermissions::Text(s) => Permissions::from_decimal_str(s.as_str()),
        }
    }
}

/// Writing a set as base-ten digits and reading them back gives the set.
pub proof fn lemma_text_round_trip(p: Permissions)
    ensures
        text_bits(decimal_of(p@ as nat)) == Some(p@),
{
    lemma_decimal_round_trip(p@);
    p.lemma_within_defined_bits();
}

} // verus!
