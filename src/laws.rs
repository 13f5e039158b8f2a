//! Properties that tie the reader and the writer together.
use vstd::prelude::*;
use crate::amount::{Amount, amount_bound, lemma_amount_bound};
use crate::codec::{Outcome, RawInput, convert, parse_raw, parse_text, wei_token};
use crate::decimal::{all_digits, digits_value, decimal_digits, is_digit, lemma_decimal_digits};
use crate::number::{frac_len, has_dot, pow10, valid_number, magnitude, scaled};
use crate::text::{
    is_ws, is_ascii_alpha, ascii_lower, remove_char, trim, first_non_ws, end_non_ws, last_ws, alpha_start, lower_seq,
};
use crate::unit::{Unit, unit_of, exponent_of};

verus! {

/// Taking out a character that does not occur changes nothing.
proof fn lemma_remove_absent(s: Seq<char>, c: char)
    requires
        forall|i: int| 0 <= i < s.len() ==> s[i] != c,
    ensures
        remove_char(s, c) == s,
    decreases s.len(),
{
    if s.len() > 0 {
        lemma_remove_absent(s.drop_last(), c);
        assert(s.drop_last().push(s.last()) =~= s);
    }
}

/// Taking out a character twice is taking it out once.
proof fn lemma_remove_twice(s: Seq<char>, c: char)
    ensures
        remove_char(remove_char(s, c), c) == remove_char(s, c),
    decreases s.len(),
{
    if s.len() > 0 {
        lemma_remove_twice(s.drop_last(), c);
        let r = remove_char(s.drop_last(), c);
        if s.last() != c {
            assert(r.push(s.last()).drop_last() =~= r);
        }
    }
}

/// Without whitespace before `j` there is no last whitespace.
proof fn lemma_no_ws(s: Seq<char>, j: int)
    requires
        0 <= j <= s.len(),
        forall|i: int| 0 <= i < j ==> !is_ws(#[trigger] s[i]),
    ensures
        last_ws(s, j) == -1,
    decreases j,
{
    if j > 0 {
        lemma_no_ws(s, j - 1);
    }
}

/// The last whitespace before `j` is at `k` when `k` is whitespace and nothing after it is.
proof fn lemma_last_ws_at(s: Seq<char>, k: int, j: int)
    requires
        0 <= k < j <= s.len(),
        is_ws(s[k]),
        forall|i: int| k < i < j ==> !is_ws(#[trigger] s[i]),
    ensures
        last_ws(s, j) == k,
    decreases j,
{
    if j - 1 > k {
        lemma_last_ws_at(s, k, j - 1);
    }
}

/// An accepted unit spelling holds no whitespace.
proof fn lemma_unit_token_no_ws(token: Seq<char>)
    requires
        unit_of(token) is Some,
    ensures
        token.len() > 0,
        forall|i: int| 0 <= i < token.len() ==> !is_ws(#[trigger] token[i]),
{
    let l = lower_seq(token);
    let spellings = seq![
        seq!['e', 't', 'h', 'e', 'r'],
        seq!['e', 't', 'h'],
        seq!['g', 'w', 'e', 'i'],
        seq!['w', 'e', 'i'],
    ];
    assert(exists|w: int| 0 <= w < 4 && l == #[trigger] spellings[w]);
    let w = choose|w: int| 0 <= w < 4 && l == #[trigger] spellings[w];
    assert(w == 0 || w == 1 || w == 2 || w == 3);
    assert(l.len() <= 5);
    assert forall|i: int| 0 <= i < token.len() implies !is_ws(#[trigger] token[i]) by {
        assert(l[i] == ascii_lower(token[i]));
        assert(i == 0 || i == 1 || i == 2 || i == 3 || i == 4);
        assert(is_ascii_alpha(l[i]));
    }
}

/// Text that starts and ends with something other than whitespace is its own trim.
proof fn lemma_trim_unchanged(s: Seq<char>)
    requires
        s.len() > 0,
        !is_ws(s[0]),
        !is_ws(s.last()),
    ensures
        trim(s) == s,
{
    assert(first_non_ws(s, 0) == 0);
    let t = s.subrange(0, s.len() as int);
    assert(t =~= s);
    assert(end_non_ws(t, t.len() as int) == t.len());
    assert(t.subrange(0, t.len() as int) =~= t);
}

/// A non-empty run of digits, in any unit, is worth its value times the unit's power of ten.
proof fn lemma_digits_in_unit(m: Seq<char>, u: Unit)
    requires
        all_digits(m),
        m.len() > 0,
        digits_value(m) * pow10(exponent_of(u)) < amount_bound(),
    ensures
        magnitude(m, exponent_of(u)) == Some(digits_value(m) * pow10(exponent_of(u))),
{
    lemma_remove_absent(m, '_');
    lemma_remove_absent(m, '.');
    assert(!has_dot(m));
    assert(frac_len(m) == 0);
    assert(valid_number(m));
    assert(scaled(m, exponent_of(u)) == digits_value(m) * pow10(exponent_of(u)));
}

/// The canonical form of any amount below 2^256 reads back, in wei, as that amount.
proof fn lemma_canonical_converts(n: nat)
    requires
        n < amount_bound(),
    ensures
        convert(decimal_digits(n), wei_token()) == Outcome::Wei(n),
{
    lemma_decimal_digits(n);
    assert(lower_seq(wei_token()) =~= wei_token());
    assert(unit_of(wei_token()) == Some(Unit::Wei));
    assert(pow10(0) == 1);
    lemma_digits_in_unit(decimal_digits(n), Unit::Wei);
}

/// Formatting any amount and reading the text back gives the same amount.
pub proof fn lemma_format_then_parse(a: Amount)
    ensures
        parse_text(decimal_digits(a@)) == Outcome::Wei(a@),
{
    let n = a@;
    lemma_amount_bound(a.limbs);
    lemma_decimal_digits(n);
    let s = decimal_digits(n);
    assert(is_digit(s[0]) && is_digit(s.last()));
    lemma_trim_unchanged(s);
    assert forall|i: int| 0 <= i < s.len() implies !is_ws(#[trigger] s[i]) by {
        assert(is_digit(s[i]));
    }
    lemma_no_ws(s, s.len() as int);
    assert(alpha_start(s, s.len() as int) == s.len());
    lemma_canonical_converts(n);
}

/// A bare 64-bit integer is read as that many wei.
pub proof fn lemma_u64_input(n: u64)
    ensures
        parse_raw(RawInput::U64(n)) == Outcome::Wei(n as nat),
{
    lemma_amount_bound([n, 0, 0, 0]);
    lemma_canonical_converts(n as nat);
}

/// A bare 128-bit integer is read as that many wei.
pub proof fn lemma_u128_input(n: u128)
    ensures
        parse_raw(RawInput::U128(n)) == Outcome::Wei(n as nat),
{
    assert(n < amount_bound()) by (nonlinear_arith)
        requires
            n < 0x1_0000_0000_0000_0000_0000_0000_0000_0000nat,
            amount_bound() == 0x1_0000_0000_0000_0000nat * 0x1_0000_0000_0000_0000nat
                * 0x1_0000_0000_0000_0000nat * 0x1_0000_0000_0000_0000nat,
    ;
    lemma_canonical_converts(n as nat);
}

/// Underscores in numeric text make no difference to what it converts to.
pub proof fn lemma_underscores_ignored(num: Seq<char>, token: Seq<char>)
    ensures
        convert(num, token) == convert(remove_char(num, '_'), token),
{
    lemma_remove_twice(num, '_');
}

/// A whole number of any accepted unit, in any letter case, converts to that
/// number times the unit's power of ten, when the product fits in 256 bits.
pub proof fn lemma_unit_scaling(m: Seq<char>, token: Seq<char>)
    requires
        all_digits(m),
        m.len() > 0,
        unit_of(token) is Some,
        digits_value(m) * pow10(exponent_of(unit_of(token)->0)) < amount_bound(),
    ensures
        convert(m, token) == Outcome::Wei(digits_value(m) * pow10(exponent_of(unit_of(token)->0))),
{
    lemma_digits_in_unit(m, unit_of(token)->0);
}

/// A whole number, a space and an accepted unit in any letter case convert
/// to the number times the unit's power of ten, when the product fits in 256 bits.
pub proof fn lemma_spaced_unit(m: Seq<char>, token: Seq<char>)
    requires
        all_digits(m),
        m.len() > 0,
        unit_of(token) is Some,
        digits_value(m) * pow10(exponent_of(unit_of(token)->0)) < amount_bound(),
    ensures
        parse_text(m + seq![' '] + token) == Outcome::Wei(
            digits_value(m) * pow10(exponent_of(unit_of(token)->0)),
        ),
{
    let x = m + seq![' '] + token;
    let k = m.len() as int;
    lemma_unit_token_no_ws(token);
    assert(is_digit(m[0]) && is_digit(m.last()));
    assert(x[0] == m[0]);
    assert(x.last() == token.last());
    lemma_trim_unchanged(x);
    assert(x[k] == ' ');
    assert forall|i: int| k < i < x.len() implies !is_ws(#[trigger] x[i]) by {
        assert(x[i] == token[i - k - 1]);
    }
    lemma_last_ws_at(x, k, x.len() as int);
    assert(x.subrange(k + 1, x.len() as int) =~= token);
    assert(x.subrange(0, k) =~= m);
    lemma_trim_unchanged(m);
    lemma_unit_scaling(m, token);
}

} // verus!
