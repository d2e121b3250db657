//! Input normalization: turning a string into a single character.

use vstd::prelude::*;
use crate::ucd;

verus! {

/// Whether a 32-bit value is a Unicode scalar value, i.e. a code point
/// that is not a surrogate.
pub open spec fn spec_is_scalar_value(v: u32) -> bool {
    v < 0xD800 || (0xE000 <= v && v <= 0x10FFFF)
}

/// Relies on char::from_u32: returns the character with the given code
/// point, or nothing when the value is a surrogate or beyond U+10FFFF.
pub assume_specification[ char::from_u32 ](v: u32) -> (r: Option<char>)
    ensures
        r is Some <==> spec_is_scalar_value(v),
        r is Some ==> r.unwrap() as u32 == v,
;

/// Whether a character is a hexadecimal digit.
pub open spec fn spec_is_hex_digit(c: char) -> bool {
    ('0' <= c && c <= '9') || ('a' <= c && c <= 'f') || ('A' <= c && c <= 'F')
}

/// The value of one hexadecimal digit.
pub open spec fn spec_hex_digit_value(c: char) -> nat
    recommends
        spec_is_hex_digit(c),
{
    if '0' <= c && c <= '9' {
        (c as nat - '0' as nat) as nat
    } else if 'a' <= c && c <= 'f' {
        (c as nat - 'a' as nat + 10) as nat
    } else {
        (c as nat - 'A' as nat + 10) as nat
    }
}

/// Whether every character of a sequence is a hexadecimal digit.
pub open spec fn spec_all_hex_digits(s: Seq<char>) -> bool {
    forall|i: int| 0 <= i < s.len() ==> spec_is_hex_digit(#[trigger] s[i])
}

/// The numeric value of a sequence of hexadecimal digits, most
/// significant digit first.
pub open spec fn spec_hex_value(s: Seq<char>) -> nat
    decreases s.len(),
{
    if s.len() == 0 {
        0
    } else {
        spec_hex_value(s.drop_last()) * 16 + spec_hex_digit_value(s.last())
    }
}

/// What parsing a whole string as a base-16 integer yields: after an
/// optional leading plus sign, at least one hexadecimal digit and
/// nothing else, with a value that fits in 32 bits.
pub open spec fn spec_parse_hex(s: Seq<char>) -> Option<u32> {
    let body = if s.len() >= 1 && s[0] == '+' {
        s.subrange(1, s.len() as int)
    } else {
        s
    };
    if body.len() >= 1 && spec_all_hex_digits(body) && spec_hex_value(body) <= u32::MAX {
        Some(spec_hex_value(body) as u32)
    } else {
        None
    }
}

/// What `parse_scalar_value` yields: the three interpretations —
/// literal character, hexadecimal code point, official name — tried in
/// that order. A string of several characters that begins with a hyphen
/// fails outright: it is not hexadecimal, and no Unicode name begins
/// with a hyphen, so the name lookup is never consulted for it.
pub open spec fn spec_parse_scalar_value(s: Seq<char>) -> Option<char> {
    if s.len() == 1 {
        Some(s[0])
    } else if spec_parse_hex(s) is Some && spec_is_scalar_value(spec_parse_hex(s).unwrap()) {
        Some(spec_parse_hex(s).unwrap() as char)
    } else if s.len() >= 1 && s[0] == '-' {
        None
    } else {
        ucd::spec_char_for_name(s)
    }
}

/// The interpretations are ordered: a string of more than one character
/// that reads both as a hexadecimal scalar value and as a character
/// name is taken as hexadecimal, never as a name.
pub proof fn lemma_hex_precedes_name(s: Seq<char>)
    requires
        s.len() != 1,
        spec_parse_hex(s) is Some,
        spec_is_scalar_value(spec_parse_hex(s).unwrap()),
        ucd::spec_char_for_name(s) is Some,
    ensures
        spec_parse_scalar_value(s) == Some(spec_parse_hex(s).unwrap() as char),
{
}

/// Extending a sequence of hexadecimal digits never lowers its value.
proof fn lemma_hex_value_monotone(s: Seq<char>, i: int)
    requires
        0 <= i <= s.len(),
    ensures
        spec_hex_value(s.take(i)) <= spec_hex_value(s),
    decreases s.len() - i,
{
    if i < s.len() {
        assert(s.take(i + 1).drop_last() =~= s.take(i));
        assert(spec_hex_value(s.take(i)) <= spec_hex_value(s.take(i + 1)));
        lemma_hex_value_monotone(s, i + 1);
        assert(s.take(s.len() as int) =~= s);
    } else {
        assert(s.take(i) =~= s);
    }
}

/// Parses a whole string as a base-16 integer, as `spec_parse_hex`
/// describes.
fn parse_hex(s: &str) -> (r: Option<u32>)
    ensures
        r == spec_parse_hex(s@),
{
    let n = s.unicode_len();
    let start: usize = if n >= 1 && s.get_char(0) == '+' {
        1
    } else {
        0
    };
    let ghost body = if start == 1 {
        s@.subrange(1, s@.len() as int)
    } else {
        s@
    };
    if n == start {
        return None;
    }
    let mut acc: u32 = 0;
    let mut i: usize = start;
    while i < n
        invariant
            start <= i <= n,
            n == s@.len(),
            start <= 1,
            (start == 1) <==> (s@.len() >= 1 && s@[0] == '+'),
            body == (if start == 1 {
                s@.subrange(1, s@.len() as int)
            } else {
                s@
            }),
            spec_all_hex_digits(body.take(i - start)),
            acc == spec_hex_value(body.take(i - start)),
        decreases n - i,
    {
        let c = s.get_char(i);
        assert(body[i - start] == s@[i as int]);
        let d: u32 = if '0' <= c && c <= '9' {
            c as u32 - '0' as u32
        } else if 'a' <= c && c <= 'f' {
            c as u32 - 'a' as u32 + 10
        } else if 'A' <= c && c <= 'F' {
            c as u32 - 'A' as u32 + 10
        } else {
            proof {
                assert(!spec_is_hex_digit(body[i - start]));
                assert(!spec_all_hex_digits(body));
            }
            return None;
        };
        assert(spec_is_hex_digit(c) && d == spec_hex_digit_value(c) && d <= 15);
        if acc > 0xFFF_FFFF {
            proof {
                let j = i - start + 1;
                assert(body.take(j).drop_last() =~= body.take(j - 1));
                assert(body.take(j).last() == c);
                assert(spec_hex_value(body.take(j)) == acc * 16 + d);
                assert(acc * 16 >= 0x1000_0000 * 16);
                if spec_all_hex_digits(body) {
                    lemma_hex_value_monotone(body, j);
                }
            }
            return None;
        }
        assert(acc * 16 + d <= u32::MAX) by {
            assert(acc <= 0xFFF_FFFF);
            assert(acc * 16 <= 0xFFF_FFFF * 16);
        };
        acc = acc * 16 + d;
        i = i + 1;
        proof {
            let j = i - start;
            assert(body.take(j).drop_last() =~= body.take(j - 1));
            assert(body.take(j).last() == c);
        }
    }
    proof {
        assert(body.take(n - start) =~= body);
    }
    Some(acc)
}

/// Normalizes a string to a single character. Three mutually exclusive
/// interpretations are tried in order: a string of exactly one
/// character is that character; otherwise a string that reads as a
/// base-16 scalar value is that code point; otherwise a string carrying
/// an official Unicode character name is that character. Fails when all
/// three fail.
pub fn parse_scalar_value(s: &str) -> (r: Option<char>)
    ensures
        r == spec_parse_scalar_value(s@),
{
    let n = s.unicode_len();
    if n == 1 {
        return Some(s.get_char(0));
    }
    if let Some(raw) = parse_hex(s) {
        if let Some(c) = char::from_u32(raw) {
            proof {
                vstd::utf8::char_u32_cast(c, raw);
            }
            return Some(c);
        }
    }
    if n >= 1 && s.get_char(0) == '-' {
        return None;
    }
    ucd::char_for_name(s)
}

} // verus!
