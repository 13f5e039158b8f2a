//! The three accepted units and how their names are read.
use vstd::prelude::*;
use crate::error::AmountError;
use crate::text::{lower_seq, lower_chars, string_of};

verus! {

/// A unit of account: wei, gwei (10^9 wei) or ether (10^18 wei).
#[derive(Clone, Copy, Debug, PartialEq, Eq, Structural)]
pub enum Unit {
    Wei,
    Gwei,
    Ether,
}

/// The power of ten that one of `u` is worth in wei.
pub open spec fn exponent_of(u: Unit) -> nat {
    match u {
        Unit::Wei => 0,
        Unit::Gwei => 9,
        Unit::Ether => 18,
    }
}

/// The unit a token names, ignoring ASCII case: "ether" or "eth", "gwei", "wei".
pub open spec fn unit_of(token: Seq<char>) -> Option<Unit> {
    let l = lower_seq(token);
    if l == seq!['e', 't', 'h', 'e', 'r'] || l == seq!['e', 't', 'h'] {
        Some(Unit::Ether)
    } else if l == seq!['g', 'w', 'e', 'i'] {
        Some(Unit::Gwei)
    } else if l == seq!['w', 'e', 'i'] {
        Some(Unit::Wei)
    } else {
        None
    }
}

impl Unit {
    /// The power of ten that one of this unit is worth in wei.
    pub fn exponent(&self) -> (r: u8)
        ensures
            r as nat == exponent_of(*self),
    {
        match self {
            Unit::Wei => 0,
            Unit::Gwei => 9,
            Unit::Ether => 18,
        }
    }
}

/// The unit a lower-cased token names, if any.
fn lookup_lower(l: &Vec<char>) -> (r: Option<Unit>)
    requires
        lower_seq(l@) == l@,
    ensures
        r == unit_of(l@),
{
    let n = l.len();
    if n == 5 && l[0] == 'e' && l[1] == 't' && l[2] == 'h' && l[3] == 'e' && l[4] == 'r' {
        assert(l@ =~= seq!['e', 't', 'h', 'e', 'r']);
        Some(Unit::Ether)
    } else if n == 3 && l[0] == 'e' && l[1] == 't' && l[2] == 'h' {
        assert(l@ =~= seq!['e', 't', 'h']);
        Some(Unit::Ether)
    } else if n == 4 && l[0] == 'g' && l[1] == 'w' && l[2] == 'e' && l[3] == 'i' {
        assert(l@ =~= seq!['g', 'w', 'e', 'i']);
        Some(Unit::Gwei)
    } else if n == 3 && l[0] == 'w' && l[1] == 'e' && l[2] == 'i' {
        assert(l@ =~= seq!['w', 'e', 'i']);
        Some(Unit::Wei)
    } else {
        None
    }
}

/// Reads a unit token, ignoring ASCII case.
pub fn resolve_unit(token: &Vec<char>) -> (r: Result<Unit, AmountError>)
    ensures
        match unit_of(token@) {
            Some(u) => r == Ok::<Unit, AmountError>(u),
            None => r matches Err(AmountError::UnknownUnit(s)) && s@ == lower_seq(token@),
        },
{
    let l = lower_chars(token);
    proof {
        assert(lower_seq(l@) =~= l@);
        assert(lower_seq(lower_seq(token@)) =~= lower_seq(token@));
    }
    match lookup_lower(&l) {
        Some(u) => Ok(u),
        None => Err(AmountError::UnknownUnit(string_of(&l))),
    }
}

} // verus!
