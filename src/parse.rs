//! Unsigned decimal numbers as configuration values write them.
use vstd::prelude::*;

verus! {

/// Whether `s` is a non-empty run of ASCII decimal digits.
pub open spec fn is_decimal(s: Seq<char>) -> bool {
    s.len() > 0 && forall|i: int| 0 <= i < s.len() ==> '0' <= #[trigger] s[i] <= '9'
}

/// The value of a run of decimal digits, most significant first.
pub open spec fn decimal_value(s: Seq<char>) -> nat
    decreases s.len(),
{
    if s.len() == 0 {
        0
    } else {
        decimal_value(s.drop_last()) * 10 + ((s.last() as u32) - 48) as nat
    }
}

/// The digits of an unsigned number, after an optional leading `+`.
pub open spec fn unsigned_digits(s: Seq<char>) -> Seq<char> {
    if s.len() > 0 && s[0] == '+' {
        s.drop_first()
    } else {
        s
    }
}

/// The unsigned number that `s` writes, if it is an optional `+` followed by
/// decimal digits only and its value is at most `max`.
pub open spec fn parsed_unsigned(s: Seq<char>, max: nat) -> Option<nat> {
    let d = unsigned_digits(s);
    if is_decimal(d) && decimal_value(d) <= max {
        Some(decimal_value(d))
    } else {
        None
    }
}

/// Relies on `<u128 as FromStr>::from_str`: an optional `+` and decimal digits
/// only, rejected when empty or above `u128::MAX`.
#[verifier::external_body]
pub(crate) fn parse_u128(s: &str) -> (r: Option<u128>)
    ensures
        parsed_unsigned(s@, u128::MAX as nat) matches Some(v) ==> r == Some(v as u128),
        parsed_unsigned(s@, u128::MAX as nat) is None ==> r is None,
{
    s.parse::<u128>().ok()
}

/// Relies on `<u16 as FromStr>::from_str`: an optional `+` and decimal digits
/// only, rejected when empty or above `u16::MAX`.
#[verifier::external_body]
pub(crate) fn parse_u16(s: &str) -> (r: Option<u16>)
    ensures
        parsed_unsigned(s@, u16::MAX as nat) matches Some(v) ==> r == Some(v as u16),
        parsed_unsigned(s@, u16::MAX as nat) is None ==> r is None,
{
    s.parse::<u16>().ok()
}

/// Relies on `<usize as FromStr>::from_str`: an optional `+` and decimal
/// digits only, rejected when empty or above `usize::MAX`.
#[verifier::external_body]
pub(crate) fn parse_usize(s: &str) -> (r: Option<usize>)
    ensures
        parsed_unsigned(s@, usize::MAX as nat) matches Some(v) ==> r == Some(v as usize),
        parsed_unsigned(s@, usize::MAX as nat) is None ==> r is None,
{
    s.parse::<usize>().ok()
}

} // verus!
