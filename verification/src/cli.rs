//! What the three command lines have in common: how a value is read and
//! what is said when it cannot be.

use vstd::prelude::*;
use vstd::string::StringExecFns;
use crate::text::{parse_unsigned, parsed_unsigned};

verus! {

/// The message for a value that an option cannot take.
pub open spec fn invalid_value(name: Seq<char>, value: Seq<char>) -> Seq<char> {
    "invalid "@ + name + " value: "@ + value
}

/// What position `i` of a list says as a decimal number, if the list goes
/// that far and the position holds one.
pub open spec fn decimal_at(decimals: Seq<Option<i64>>, i: int) -> Option<i64> {
    if 0 <= i < decimals.len() {
        decimals[i]
    } else {
        None
    }
}

/// Two texts joined.
pub fn message(head: &str, tail: &str) -> (s: String)
    ensures
        s@ == head@ + tail@,
{
    let mut s: String = head.to_owned();
    s.append(tail);
    s
}

/// The message for a value that an option cannot take.
pub fn invalid(name: &str, value: &str) -> (s: String)
    ensures
        s@ == invalid_value(name@, value@),
{
    let mut s: String = "invalid ".to_owned();
    s.append(name);
    s.append(" value: ");
    s.append(value);
    s
}

/// An option's value as an unsigned number no greater than `max`, or the
/// message for a value that is none.
pub fn number(name: &str, value: &str, max: u64) -> (r: Result<u64, String>)
    ensures
        match parsed_unsigned(value@, max as nat) {
            Some(n) => r == Ok::<u64, String>(n as u64),
            None => r matches Err(e) && e@ == invalid_value(name@, value@),
        },
{
    match parse_unsigned(value, max) {
        Some(n) => Ok(n),
        None => Err(invalid(name, value)),
    }
}

/// An option's value as a decimal number, in thousandths: what the caller
/// read it as, or the message for a value that is none.
pub fn decimal(name: &str, value: &str, read: Option<i64>) -> (r: Result<i64, String>)
    ensures
        match read {
            Some(v) => r == Ok::<i64, String>(v),
            None => r matches Err(e) && e@ == invalid_value(name@, value@),
        },
{
    match read {
        Some(v) => Ok(v),
        None => Err(invalid(name, value)),
    }
}

} // verus!
