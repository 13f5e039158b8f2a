//! Numeric text: which strings are plain decimals, what they are worth once
//! scaled to wei, and the conversion itself.
use vstd::prelude::*;
use crate::amount::{Amount, amount_bound, limbs_value};
use crate::decimal::{is_digit, digits_value};
use crate::error::AmountError;
use crate::text::{remove_char, without_char, string_of};
use crate::unit::{Unit, exponent_of};
use alloy_primitives::utils::{parse_units, UnitsError};
use alloy_primitives::U256;

verus! {

/// A digit or a decimal point.
pub open spec fn is_number_char(c: char) -> bool {
    is_digit(c) || c == '.'
}

/// `t` holds a decimal point.
pub open spec fn has_dot(t: Seq<char>) -> bool {
    exists|p: int| 0 <= p < t.len() && t[p] == '.'
}

/// The position of a decimal point of `t`.
pub open spec fn dot_index(t: Seq<char>) -> int {
    choose|p: int| 0 <= p < t.len() && t[p] == '.'
}

/// How many digits follow the decimal point (none without one).
pub open spec fn frac_len(t: Seq<char>) -> nat {
    if has_dot(t) {
        (t.len() - dot_index(t) - 1) as nat
    } else {
        0
    }
}

/// Only digits and at most one decimal point.
pub open spec fn decimal_shape(t: Seq<char>) -> bool {
    &&& forall|i: int| 0 <= i < t.len() ==> is_number_char(#[trigger] t[i])
    &&& forall|i: int, j: int|
        0 <= i < t.len() && 0 <= j < t.len() && #[trigger] t[i] == '.' && #[trigger] t[j] == '.'
            ==> i == j
}

/// A plain non-negative decimal: digits, at most one decimal point, at least one digit.
pub open spec fn valid_number(t: Seq<char>) -> bool {
    decimal_shape(t) && remove_char(t, '.').len() > 0
}

pub open spec fn pow10(e: nat) -> nat
    decreases e,
{
    if e == 0 {
        1
    } else {
        10 * pow10((e - 1) as nat)
    }
}

/// The value of the decimal `t` times 10^e, for `t` with at most `e` fractional digits.
pub open spec fn scaled(t: Seq<char>, e: nat) -> nat {
    digits_value(remove_char(t, '.')) * pow10((e - frac_len(t)) as nat)
}

/// The wei that numeric text in a unit of exponent `e` stands for, once its
/// underscores are dropped; `None` when it is no valid decimal, has more
/// fractional digits than `e`, or reaches 2^256.
pub open spec fn magnitude(num: Seq<char>, e: nat) -> Option<nat> {
    let t = remove_char(num, '_');
    if valid_number(t) && frac_len(t) <= e && scaled(t, e) < amount_bound() {
        Some(scaled(t, e))
    } else {
        None
    }
}

#[verifier::external_type_specification]
#[verifier::external_body]
pub struct ExUnitsError(UnitsError);

/// Relies on alloy_primitives::utils::parse_units: on a plain decimal with at
/// most `exponent` fractional digits it returns the decimal times 10^exponent,
/// or an error when that does not fit in 256 bits. The result comes back as
/// the little-endian limbs of the `U256`.
#[verifier::external_body]
fn parse_scaled(amount: &str, exponent: u8) -> (r: Result<[u64; 4], UnitsError>)
    requires
        valid_number(amount@),
        frac_len(amount@) <= exponent,
        exponent <= 77,
    ensures
        match r {
            Ok(l) => scaled(amount@, exponent as nat) < amount_bound() && limbs_value(l) == scaled(
                amount@,
                exponent as nat,
            ),
            Err(_) => scaled(amount@, exponent as nat) >= amount_bound(),
        },
{
    match parse_units(amount, exponent) {
        Ok(p) => Ok(<U256 as From<_>>::from(p).into_limbs()),
        Err(e) => Err(e),
    }
}

/// Checks that `t` is digits with at most one decimal point, and counts its
/// fractional digits.
fn scan_number(t: &Vec<char>) -> (r: Option<usize>)
    ensures
        match r {
            Some(f) => decimal_shape(t@) && f == frac_len(t@),
            None => !decimal_shape(t@),
        },
{
    let n = t.len();
    let mut dot: Option<usize> = None;
    let mut i: usize = 0;
    while i < n
        invariant
            i <= n == t.len(),
            forall|k: int| 0 <= k < i ==> is_number_char(#[trigger] t@[k]),
            match dot {
                Some(p) => p < i && t@[p as int] == '.' && forall|k: int|
                    0 <= k < i && k != p ==> #[trigger] t@[k] != '.',
                None => forall|k: int| 0 <= k < i ==> #[trigger] t@[k] != '.',
            },
        decreases n - i,
    {
        let c = t[i];
        if !(('0' <= c && c <= '9') || c == '.') {
            return None;
        }
        if c == '.' {
            match dot {
                Some(p) => {
                    assert(t@[p as int] == '.' && t@[i as int] == '.');
                    return None;
                },
                None => {
                    dot = Some(i);
                },
            }
        }
        i += 1;
    }
    match dot {
        Some(p) => {
            proof {
                assert(has_dot(t@));
                let q = dot_index(t@);
                assert(t@[q] == '.');
            }
            Some(n - p - 1)
        },
        None => {
            assert(!has_dot(t@));
            Some(0)
        },
    }
}

/// Converts numeric text in `unit` to wei: underscores are dropped, then the
/// text must be a plain decimal with no more fractional digits than the unit
/// allows, and the scaled value must fit in 256 bits.
pub fn convert_magnitude(num: &Vec<char>, unit: Unit) -> (r: Result<Amount, AmountError>)
    ensures
        match magnitude(num@, exponent_of(unit)) {
            Some(v) => r matches Ok(a) && a@ == v,
            None => r matches Err(AmountError::InvalidMagnitude(_)),
        },
{
    let t = without_char(num, '_');
    let e = unit.exponent();
    match scan_number(&t) {
        None => Err(AmountError::InvalidMagnitude(string_of(&t))),
        Some(f) => {
            let digits = without_char(&t, '.');
            if digits.len() == 0 || f > e as usize {
                Err(AmountError::InvalidMagnitude(string_of(&t)))
            } else {
                let s = string_of(&t);
                match parse_scaled(s.as_str(), e) {
                    Ok(l) => Ok(Amount { limbs: l }),
                    Err(_) => Err(AmountError::InvalidMagnitude(s)),
                }
            }
        },
    }
}

} // verus!
