//! Reading an amount from one of the shapes a document decoder hands over,
//! and writing it back in canonical form.
use vstd::prelude::*;
use crate::amount::Amount;
use crate::decimal::{decimal_digits, render_decimal};
use crate::error::AmountError;
use crate::number::{magnitude, convert_magnitude};
use crate::text::{
    trim, last_ws, alpha_start, lower_seq, chars_of, trim_chars, find_last_ws, find_alpha_start,
    slice_chars,
};
use crate::unit::{unit_of, exponent_of, resolve_unit};

verus! {

/// A value as the document decoder produced it.
pub enum RawInput {
    /// Text: a decimal, optionally followed by a unit.
    Text(String),
    /// A bare integer, in wei.
    U64(u64),
    /// A bare integer, in wei.
    U128(u128),
}

/// How a conversion ends, in terms of the models.
pub enum Outcome {
    Wei(nat),
    Malformed,
    UnknownUnit(Seq<char>),
    InvalidMagnitude,
}

pub open spec fn wei_token() -> Seq<char> {
    seq!['w', 'e', 'i']
}

/// Splits trimmed, non-empty text into numeric text and a unit token.
///
/// When the text holds whitespace, the part after the last whitespace is the
/// unit if it is an accepted spelling, and the trimmed part before it is the
/// number; otherwise the whole text is a number of wei. Without whitespace, a
/// trailing run of ASCII letters is the unit, and it must leave something in
/// front of it (`None` when it does not); no such run means wei.
pub open spec fn split_text(t: Seq<char>) -> Option<(Seq<char>, Seq<char>)> {
    let n = t.len() as int;
    let k = last_ws(t, n);
    if k >= 0 {
        let rhs = t.subrange(k + 1, n);
        if unit_of(rhs) is Some {
            Some((trim(t.subrange(0, k)), rhs))
        } else {
            Some((t, wei_token()))
        }
    } else {
        let a = alpha_start(t, n);
        if a == n {
            Some((t, wei_token()))
        } else if a == 0 {
            None
        } else {
            Some((t.subrange(0, a), t.subrange(a, n)))
        }
    }
}

/// The numeric text and unit token of a raw value; `None` when it is malformed.
pub open spec fn normalized(raw: RawInput) -> Option<(Seq<char>, Seq<char>)> {
    match raw {
        RawInput::Text(s) => {
            let t = trim(s@);
            if t.len() == 0 {
                None
            } else {
                split_text(t)
            }
        },
        RawInput::U64(n) => Some((decimal_digits(n as nat), wei_token())),
        RawInput::U128(n) => Some((decimal_digits(n as nat), wei_token())),
    }
}

/// What numeric text and a unit token convert to.
pub open spec fn convert(num: Seq<char>, token: Seq<char>) -> Outcome {
    match unit_of(token) {
        None => Outcome::UnknownUnit(lower_seq(token)),
        Some(u) => match magnitude(num, exponent_of(u)) {
            Some(v) => Outcome::Wei(v),
            None => Outcome::InvalidMagnitude,
        },
    }
}

/// What a raw value converts to.
pub open spec fn parse_raw(raw: RawInput) -> Outcome {
    match normalized(raw) {
        None => Outcome::Malformed,
        Some(p) => convert(p.0, p.1),
    }
}

/// What text converts to.
pub open spec fn parse_text(s: Seq<char>) -> Outcome {
    let t = trim(s);
    if t.len() == 0 {
        Outcome::Malformed
    } else {
        match split_text(t) {
            None => Outcome::Malformed,
            Some(p) => convert(p.0, p.1),
        }
    }
}

/// `r` is the result that `o` describes.
pub open spec fn reports(r: Result<Amount, AmountError>, o: Outcome) -> bool {
    match o {
        Outcome::Wei(v) => r matches Ok(a) && a@ == v,
        Outcome::Malformed => r matches Err(AmountError::MalformedInput(_)),
        Outcome::UnknownUnit(t) => r matches Err(AmountError::UnknownUnit(s)) && s@ == t,
        Outcome::InvalidMagnitude => r matches Err(AmountError::InvalidMagnitude(_)),
    }
}

fn wei_chars() -> (r: Vec<char>)
    ensures
        r@ == wei_token(),
{
    let r = vec!['w', 'e', 'i'];
    assert(r@ =~= wei_token());
    r
}

/// Splits trimmed text into numeric text and a unit token.
pub fn split_amount_text(t: &Vec<char>) -> (r: Result<(Vec<char>, Vec<char>), AmountError>)
    ensures
        match split_text(t@) {
            None => r matches Err(AmountError::MalformedInput(_)),
            Some(p) => r matches Ok(q) && q.0@ == p.0 && q.1@ == p.1,
        },
{
    let n = t.len();
    match find_last_ws(t) {
        Some(k) => {
            let rhs = slice_chars(t, k + 1, n);
            match resolve_unit(&rhs) {
                Ok(_) => {
                    let lhs = slice_chars(t, 0, k);
                    Ok((trim_chars(&lhs), rhs))
                },
                Err(_) => {
                    let all = slice_chars(t, 0, n);
                    assert(all@ =~= t@);
                    Ok((all, wei_chars()))
                },
            }
        },
        None => {
            let a = find_alpha_start(t);
            if a == n {
                let all = slice_chars(t, 0, n);
                assert(all@ =~= t@);
                Ok((all, wei_chars()))
            } else if a == 0 {
                Err(AmountError::MalformedInput("missing number before unit".to_string()))
            } else {
                Ok((slice_chars(t, 0, a), slice_chars(t, a, n)))
            }
        },
    }
}

/// Turns a raw value into numeric text and a unit token.
pub fn normalize(raw: &RawInput) -> (r: Result<(Vec<char>, Vec<char>), AmountError>)
    ensures
        match normalized(*raw) {
            None => r matches Err(AmountError::MalformedInput(_)),
            Some(p) => r matches Ok(q) && q.0@ == p.0 && q.1@ == p.1,
        },
{
    match raw {
        RawInput::Text(s) => {
            let chars = chars_of(s.as_str());
            let t = trim_chars(&chars);
            if t.len() == 0 {
                Err(AmountError::MalformedInput("empty value".to_string()))
            } else {
                split_amount_text(&t)
            }
        },
        RawInput::U64(n) => Ok((render_decimal(*n as u128), wei_chars())),
        RawInput::U128(n) => Ok((render_decimal(*n), wei_chars())),
    }
}

/// Reads an amount of wei from text ("1.5 gwei", "10ether", "1_000") or a
/// bare integer (taken as wei).
pub fn deserialize(raw: RawInput) -> (r: Result<Amount, AmountError>)
    ensures
        reports(r, parse_raw(raw)),
{
    let (num, token) = match normalize(&raw) {
        Ok(p) => p,
        Err(e) => {
            return Err(e);
        },
    };
    let unit = match resolve_unit(&token) {
        Ok(u) => u,
        Err(e) => {
            return Err(e);
        },
    };
    convert_magnitude(&num, unit)
}

/// Writes an amount in canonical form: decimal wei, with no unit.
pub fn serialize(v: &Amount) -> (r: String)
    ensures
        r@ == decimal_digits(v@),
{
    v.to_decimal_string()
}

} // verus!
