//! The expected size of a download, read from a length header.

use vstd::prelude::*;

verus! {

/// Whether `b` is an ASCII decimal digit.
pub open spec fn is_digit(b: u8) -> bool {
    48 <= b && b <= 57
}

/// Whether every byte of `s` is an ASCII decimal digit.
pub open spec fn all_digits(s: Seq<u8>) -> bool {
    forall|i: int| 0 <= i < s.len() ==> is_digit(#[trigger] s[i])
}

/// The number that the digits of `s` spell, most significant first.
pub open spec fn digits_value(s: Seq<u8>) -> nat
    decreases s.len(),
{
    if s.len() == 0 {
        0
    } else {
        digits_value(s.drop_last()) * 10 + (s.last() - 48) as nat
    }
}

/// The digits of a decimal number: `s` without one leading `+`, if it has one.
pub open spec fn unsigned_part(s: Seq<u8>) -> Seq<u8> {
    if s.len() > 0 && s[0] == 43 {
        s.subrange(1, s.len() as int)
    } else {
        s
    }
}

/// The number that `s` spells in decimal: an optional `+`, then at least one
/// digit and nothing else, with a value that fits in 64 bits. `None` for every
/// other text.
pub open spec fn spec_parse_decimal(s: Seq<u8>) -> Option<u64> {
    let body = unsigned_part(s);
    if body.len() > 0 && all_digits(body) && digits_value(body) <= u64::MAX {
        Some(digits_value(body) as u64)
    } else {
        None
    }
}

/// The expected size that a length header declares: the number it spells, and
/// 0, which stands for an unknown size, where the header is absent or spells
/// no number.
pub open spec fn spec_expected_size(header: Option<Seq<u8>>) -> u64 {
    match header {
        Some(s) => match spec_parse_decimal(s) {
            Some(n) => n,
            None => 0,
        },
        None => 0,
    }
}

/// The value of a run of digits is at least the value of each of its prefixes.
pub proof fn lemma_prefix_value(s: Seq<u8>, k: int)
    requires
        0 <= k <= s.len(),
    ensures
        digits_value(s.subrange(0, k)) <= digits_value(s),
    decreases s.len(),
{
    if k == s.len() {
        assert(s.subrange(0, k) =~= s);
    } else {
        lemma_prefix_value(s.drop_last(), k);
        assert(s.drop_last().subrange(0, k) =~= s.subrange(0, k));
        assert(digits_value(s.drop_last()) <= digits_value(s)) by (nonlinear_arith)
            requires
                digits_value(s) == digits_value(s.drop_last()) * 10 + (s.last() - 48) as nat,
        ;
    }
}

/// Reads a decimal number from `text`.
pub fn parse_decimal(text: &[u8]) -> (r: Option<u64>)
    ensures
        r == spec_parse_decimal(text@),
{
    let start: usize = if text.len() > 0 && text[0] == 43 { 1 } else { 0 };
    let ghost body = unsigned_part(text@);
    assert(body =~= text@.subrange(start as int, text@.len() as int));
    if start == text.len() {
        return None;
    }
    let mut value: u64 = 0;
    let mut i: usize = start;
    assert(body.subrange(0, 0) =~= Seq::<u8>::empty());
    while i < text.len()
        invariant
            start <= i <= text.len(),
            body == text@.subrange(start as int, text@.len() as int),
            body == unsigned_part(text@),
            all_digits(body.subrange(0, i - start)),
            value == digits_value(body.subrange(0, i - start)),
        decreases text.len() - i,
    {
        let b: u8 = text[i];
        let ghost before = body.subrange(0, i - start);
        let ghost after = body.subrange(0, i - start + 1);
        proof {
            assert(after.drop_last() =~= before);
            assert(after.last() == b);
            lemma_prefix_value(body, i - start + 1);
        }
        if b < 48 || b > 57 {
            assert(body[i - start] == b);
            assert(!is_digit(body[i - start]));
            return None;
        }
        let digit: u64 = (b - 48) as u64;
        if value > (u64::MAX - digit) / 10 {
            assert(digits_value(after) > u64::MAX) by (nonlinear_arith)
                requires
                    digits_value(after) == value * 10 + digit,
                    value > (u64::MAX - digit) / 10,
            ;
            return None;
        }
        assert(value * 10 + digit <= u64::MAX) by (nonlinear_arith)
            requires
                value <= (u64::MAX - digit) / 10,
        ;
        value = value * 10 + digit;
        assert forall|j: int| 0 <= j < after.len() implies is_digit(#[trigger] after[j]) by {
            if j < after.len() - 1 {
                assert(after[j] == before[j]);
            }
        }
        i = i + 1;
    }
    assert(body.subrange(0, i - start) =~= body);
    Some(value)
}

/// The expected size that a length header declares, 0 where it declares none.
pub fn expected_size(header: Option<&[u8]>) -> (size: u64)
    ensures
        size == spec_expected_size(
            match header {
                Some(s) => Some(s@),
                None => None,
            },
        ),
{
    match header {
        Some(text) => match parse_decimal(text) {
            Some(n) => n,
            None => 0,
        },
        None => 0,
    }
}

} // verus!
