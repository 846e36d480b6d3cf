//! Decimal formatting and parsing.
//!
//! The runtime passes numbers as decimal text in two places: the init binary
//! receives its two pipe descriptors as argv strings, and the id-mapping
//! helpers receive pids and id ranges as argument strings.  Both directions
//! are verified here, together with their round trip.

use vstd::prelude::*;

use crate::text::string_from_chars;

verus! {

/// A decimal digit.
pub open spec fn spec_is_digit(c: char) -> bool {
    '0' <= c && c <= '9'
}

pub open spec fn spec_digit_val(c: char) -> nat
    recommends
        spec_is_digit(c),
{
    (c as nat - '0' as nat) as nat
}

pub open spec fn spec_digit_char(d: nat) -> char
    recommends
        d < 10,
{
    if d == 0 {
        '0'
    } else if d == 1 {
        '1'
    } else if d == 2 {
        '2'
    } else if d == 3 {
        '3'
    } else if d == 4 {
        '4'
    } else if d == 5 {
        '5'
    } else if d == 6 {
        '6'
    } else if d == 7 {
        '7'
    } else if d == 8 {
        '8'
    } else {
        '9'
    }
}

/// The numeric value of a digit string, most significant digit first.
pub open spec fn spec_dec_value(s: Seq<char>) -> nat
    decreases s.len(),
{
    if s.len() == 0 {
        0
    } else {
        spec_dec_value(s.drop_last()) * 10 + spec_digit_val(s.last())
    }
}

/// The canonical decimal digits of a number: no sign, no leading zero
/// except for zero itself.
pub open spec fn spec_dec_digits(v: nat) -> Seq<char>
    decreases v,
{
    if v < 10 {
        seq![spec_digit_char(v)]
    } else {
        spec_dec_digits(v / 10).push(spec_digit_char(v % 10))
    }
}

/// The digits to parse: an optional leading plus sign is accepted, as the
/// standard integer parser accepts it.
pub open spec fn spec_digits_part(s: Seq<char>) -> Seq<char> {
    if s.len() > 0 && s[0] == '+' {
        s.drop_first()
    } else {
        s
    }
}

/// Text that denotes an unsigned decimal number: at least one digit after
/// the optional sign, and nothing else.
pub open spec fn spec_is_dec_string(s: Seq<char>) -> bool {
    &&& spec_digits_part(s).len() > 0
    &&& forall|i: int|
        0 <= i < spec_digits_part(s).len() ==> spec_is_digit(#[trigger] spec_digits_part(s)[i])
}

/// The value a decimal string denotes.
pub open spec fn spec_dec_string_value(s: Seq<char>) -> nat {
    spec_dec_value(spec_digits_part(s))
}

/// A digit string is worth at least any of its prefixes.
proof fn lemma_dec_value_prefix_le(s: Seq<char>, i: int)
    requires
        0 <= i <= s.len(),
    ensures
        spec_dec_value(s.take(i)) <= spec_dec_value(s),
    decreases s.len() - i,
{
    if i < s.len() {
        assert(s.take(i + 1).drop_last() =~= s.take(i));
        assert(spec_dec_value(s.take(i + 1)) == spec_dec_value(s.take(i)) * 10 + spec_digit_val(
            s.take(i + 1).last(),
        ));
        lemma_dec_value_prefix_le(s, i + 1);
    } else {
        assert(s.take(i) =~= s);
    }
}

fn digit_char(d: u64) -> (c: char)
    requires
        d < 10,
    ensures
        c == spec_digit_char(d as nat),
{
    if d == 0 {
        '0'
    } else if d == 1 {
        '1'
    } else if d == 2 {
        '2'
    } else if d == 3 {
        '3'
    } else if d == 4 {
        '4'
    } else if d == 5 {
        '5'
    } else if d == 6 {
        '6'
    } else if d == 7 {
        '7'
    } else if d == 8 {
        '8'
    } else {
        '9'
    }
}

/// The decimal digits of a number.
pub fn dec_chars(v: u64) -> (r: Vec<char>)
    ensures
        r@ == spec_dec_digits(v as nat),
    decreases v,
{
    if v < 10 {
        let mut r: Vec<char> = Vec::new();
        r.push(digit_char(v));
        proof {
            assert(r@ =~= spec_dec_digits(v as nat));
        }
        r
    } else {
        let mut r = dec_chars(v / 10);
        r.push(digit_char(v % 10));
        r
    }
}

/// Formats a number in decimal, as the helpers and argv expect.
pub fn dec_string(v: u64) -> (r: String)
    ensures
        r@ == spec_dec_digits(v as nat),
{
    let digits = dec_chars(v);
    string_from_chars(&digits)
}

/// Parses unsigned decimal text; yields nothing when the text is not a
/// decimal number or its value exceeds the type.
pub fn parse_u64(s: &Vec<char>) -> (r: Option<u64>)
    ensures
        match r {
            Some(v) => spec_is_dec_string(s@) && v == spec_dec_string_value(s@),
            None => !spec_is_dec_string(s@) || spec_dec_string_value(s@) > u64::MAX,
        },
{
    let ghost digits = spec_digits_part(s@);
    let start: usize = if s.len() > 0 && s[0] == '+' {
        1
    } else {
        0
    };
    proof {
        assert(digits =~= s@.skip(start as int));
    }
    if s.len() == start {
        return None;
    }
    let mut acc: u64 = 0;
    let mut i: usize = start;
    while i < s.len()
        invariant
            start <= i <= s@.len(),
            digits == spec_digits_part(s@),
            digits == s@.skip(start as int),
            digits.len() == s@.len() - start,
            forall|j: int| 0 <= j < i - start ==> spec_is_digit(#[trigger] digits[j]),
            acc == spec_dec_value(digits.take(i - start)),
        decreases s@.len() - i,
    {
        let c = s[i];
        if c < '0' || c > '9' {
            proof {
                assert(digits[i - start] == c);
                assert(!spec_is_digit(digits[i - start]));
            }
            return None;
        }
        let d: u64 = (c as u32 - '0' as u32) as u64;
        proof {
            assert(digits.take(i + 1 - start).drop_last() =~= digits.take(i - start));
            assert(digits.take(i + 1 - start).last() == c);
            assert(spec_digit_val(c) == d);
            assert(spec_dec_value(digits.take(i + 1 - start)) == acc * 10 + d);
        }
        let next = match acc.checked_mul(10) {
            Some(m) => m.checked_add(d),
            None => None,
        };
        match next {
            Some(v) => {
                acc = v;
            },
            None => {
                proof {
                    lemma_dec_value_prefix_le(digits, i + 1 - start);
                    assert(spec_dec_value(digits) > u64::MAX);
                }
                return None;
            },
        }
        i = i + 1;
    }
    proof {
        assert(digits.take(s@.len() - start) =~= digits);
    }
    Some(acc)
}

/// The digits of a number denote a decimal string (no sign to strip).
pub proof fn lemma_dec_digits_wf(v: nat)
    ensures
        spec_dec_digits(v).len() > 0,
        forall|i: int| 0 <= i < spec_dec_digits(v).len() ==> spec_is_digit(#[trigger] spec_dec_digits(v)[i]),
        spec_dec_digits(v)[0] != '+',
        spec_is_dec_string(spec_dec_digits(v)),
    decreases v,
{
    if v >= 10 {
        lemma_dec_digits_wf(v / 10);
    }
    assert(spec_digits_part(spec_dec_digits(v)) =~= spec_dec_digits(v));
}

/// Rendering a digit and reading its value are inverses.
proof fn lemma_digit_char_val(d: nat)
    requires
        d < 10,
    ensures
        spec_digit_val(spec_digit_char(d)) == d,
{
    if d == 0 {
        assert(spec_digit_val('0') == 0);
    } else if d == 1 {
        assert(spec_digit_val('1') == 1);
    } else if d == 2 {
        assert(spec_digit_val('2') == 2);
    } else if d == 3 {
        assert(spec_digit_val('3') == 3);
    } else if d == 4 {
        assert(spec_digit_val('4') == 4);
    } else if d == 5 {
        assert(spec_digit_val('5') == 5);
    } else if d == 6 {
        assert(spec_digit_val('6') == 6);
    } else if d == 7 {
        assert(spec_digit_val('7') == 7);
    } else if d == 8 {
        assert(spec_digit_val('8') == 8);
    } else {
        assert(spec_digit_val('9') == 9);
    }
}

/// Round trip: parsing the decimal text of a number yields the number back.
/// The init binary relies on this to adopt exactly the pipe descriptors the
/// launcher numbered in its argv.
pub proof fn lemma_dec_round_trip(v: nat)
    ensures
        spec_is_dec_string(spec_dec_digits(v)),
        spec_dec_string_value(spec_dec_digits(v)) == v,
    decreases v,
{
    lemma_dec_digits_wf(v);
    assert(spec_digits_part(spec_dec_digits(v)) =~= spec_dec_digits(v));
    if v < 10 {
        lemma_digit_char_val(v);
        let ds = spec_dec_digits(v);
        assert(ds == seq![spec_digit_char(v)]);
        assert(ds.last() == spec_digit_char(v));
        assert(ds.drop_last() =~= Seq::<char>::empty());
        assert(spec_dec_value(Seq::<char>::empty()) == 0);
        assert(spec_dec_value(ds) == spec_dec_value(ds.drop_last()) * 10 + spec_digit_val(
            ds.last(),
        ));
        assert(spec_dec_value(spec_dec_digits(v)) == v);
    } else {
        lemma_dec_round_trip(v / 10);
        lemma_digit_char_val(v % 10);
        assert(spec_dec_digits(v).drop_last() =~= spec_dec_digits(v / 10));
        assert(spec_dec_value(spec_dec_digits(v)) == spec_dec_value(spec_dec_digits(v / 10)) * 10
            + spec_digit_val(spec_digit_char(v % 10)));
    }
}

} // verus!
