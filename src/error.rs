//! Why a conversion failed.
use vstd::prelude::*;

verus! {

/// A failed conversion, with the offending text for diagnostics.
#[derive(Debug, Clone, PartialEq, Eq)]
pub enum AmountError {
    /// Nothing but whitespace, or a unit with no number in front of it.
    MalformedInput(String),
    /// A unit token that is none of the accepted spellings (lower-cased).
    UnknownUnit(String),
    /// Numeric text that is no plain decimal, has more fractional digits than
    /// the unit allows, or scales past 2^256 - 1.
    InvalidMagnitude(String),
}

} // verus!
