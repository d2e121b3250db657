//! Scanning every Unicode block for characters whose names match a
//! compiled regular expression.

use vstd::prelude::*;
use crate::ucd;
use crate::ucd::BlockRec;
use crate::parse;

verus! {

#[verifier::external_type_specification]
#[verifier::external_body]
pub struct ExRegex(regex::Regex);

/// The pattern string a compiled regular expression was built from.
pub uninterp spec fn spec_pattern(re: &regex::Regex) -> Seq<char>;

/// Whether the regular expression compiled from `pat` matches anywhere
/// in `text`.
pub uninterp spec fn spec_is_match(pat: Seq<char>, text: Seq<char>) -> bool;

/// Relies on regex::Regex::is_match: true exactly when the regex
/// matches somewhere in the text. The compiled regex behaves as the
/// pattern string it was built from, so the result is a function of
/// that pattern and the text alone.
#[verifier::external_body]
fn regex_is_match(re: &regex::Regex, text: &str) -> (r: bool)
    ensures
        r == spec_is_match(spec_pattern(re), text@),
{
    re.is_match(text)
}

/// A search hit: a character that lies in a defined block, has a name,
/// and whose name matches the pattern.
pub open spec fn spec_search_hit(pat: Seq<char>, c: char) -> bool {
    &&& ucd::spec_block_of(c) is Some
    &&& ucd::spec_char_name(c) is Some
    &&& spec_is_match(pat, ucd::spec_char_name(c).unwrap())
}

/// The lowest code point not yet scanned once the blocks before `bi`
/// are done.
spec fn scan_bound(bs: Seq<BlockRec>, bi: int) -> u32 {
    if 0 <= bi < bs.len() {
        bs[bi].low
    } else {
        0x110000u32
    }
}

/// Every 32-bit value a character can cast to is a Unicode scalar
/// value, so an unconvertible value corresponds to no character.
proof fn lemma_char_values_are_scalar(c: char)
    ensures
        parse::spec_is_scalar_value(c as u32),
{
    vstd::utf8::char_is_scalar(c);
}

/// Two characters with the same numeric value are the same character.
proof fn lemma_char_cast_injective(a: char, b: char)
    requires
        a as u32 == b as u32,
    ensures
        a == b,
{
    vstd::utf8::char_u32_cast(a, a as u32);
    vstd::utf8::char_u32_cast(b, b as u32);
}

/// Appending to a sequence keeps every element it already holds.
proof fn lemma_push_contains(s: Seq<char>, c: char, x: char)
    requires
        s.contains(x),
    ensures
        s.push(c).contains(x),
{
    let k = choose|k: int| 0 <= k < s.len() && s[k] == x;
    assert(s.push(c)[k] == x);
}

/// A search result is never empty while any character at all is a hit
/// for the pattern: completeness puts every hit in the result. With the
/// one outside fact that some character's name matches, the scan is
/// guaranteed to find something.
pub proof fn lemma_hits_force_nonempty(pat: Seq<char>, r: Seq<char>, witness: char)
    requires
        spec_search_hit(pat, witness),
        forall|c: char| #[trigger] spec_search_hit(pat, c) ==> r.contains(c),
    ensures
        r.len() > 0,
{
    assert(r.contains(witness));
}

/// Walks every defined Unicode block in ascending order, and within
/// each block every code point in ascending order, and collects exactly
/// the characters whose names match the pattern; code points without a
/// name are skipped. The result is strictly ascending and complete: it
/// holds every character of every block whose name matches, and nothing
/// else.
pub fn search(regex: &regex::Regex) -> (r: Vec<char>)
    ensures
        forall|k: int, l: int|
            #![trigger r@[k], r@[l]]
            0 <= k < l < r@.len() ==> (r@[k] as u32) < (r@[l] as u32),
        forall|k: int|
            0 <= k < r@.len() ==> spec_search_hit(spec_pattern(regex), #[trigger] r@[k]),
        forall|c: char| #[trigger] spec_search_hit(spec_pattern(regex), c) ==> r@.contains(c),
{
    let ghost pat = spec_pattern(regex);
    let blocks = ucd::load_blocks();
    let ghost bs = blocks@;
    let mut results: Vec<char> = Vec::new();
    let mut bi: usize = 0;
    while bi < blocks.len()
        invariant
            bs == blocks@,
            pat == spec_pattern(regex),
            ucd::blocks_wf(bs),
            ucd::blocks_complete(bs),
            0 <= bi <= bs.len(),
            forall|k: int|
                0 <= k < results@.len() ==> spec_search_hit(pat, #[trigger] results@[k]),
            forall|k: int, l: int|
                #![trigger results@[k], results@[l]]
                0 <= k < l < results@.len() ==> (results@[k] as u32) < (results@[l] as u32),
            forall|k: int|
                0 <= k < results@.len() ==> ((#[trigger] results@[k]) as u32) < scan_bound(
                    bs,
                    bi as int,
                ),
            forall|c: char|
                #[trigger] spec_search_hit(pat, c) && (c as u32) < scan_bound(bs, bi as int)
                    ==> results@.contains(c),
        decreases bs.len() - bi,
    {
        let b_low = blocks[bi].low;
        let b_high = blocks[bi].high;
        let mut v: u32 = b_low;
        while v <= b_high
            invariant
                bs == blocks@,
                pat == spec_pattern(regex),
                ucd::blocks_wf(bs),
                ucd::blocks_complete(bs),
                0 <= bi < bs.len(),
                b_low == bs[bi as int].low,
                b_high == bs[bi as int].high,
                b_low <= v <= b_high + 1,
                forall|k: int|
                    0 <= k < results@.len() ==> spec_search_hit(pat, #[trigger] results@[k]),
                forall|k: int, l: int|
                    #![trigger results@[k], results@[l]]
                    0 <= k < l < results@.len() ==> (results@[k] as u32) < (results@[l] as u32),
                forall|k: int| 0 <= k < results@.len() ==> ((#[trigger] results@[k]) as u32) < v,
                forall|c: char|
                    #[trigger] spec_search_hit(pat, c) && (c as u32) < v ==> results@.contains(c),
            decreases b_high + 1 - v,
        {
            let ghost pre = results@;
            match char::from_u32(v) {
                Some(c) => {
                    proof {
                        assert(ucd::block_contains(bs[bi as int], c));
                        assert(ucd::spec_block_of(c) is Some);
                    }
                    match ucd::char_name(c) {
                        Some(name) => {
                            if regex_is_match(regex, name.as_str()) {
                                proof {
                                    assert(spec_search_hit(pat, c));
                                }
                                results.push(c);
                                proof {
                                    assert(results@[results@.len() - 1] == c);
                                    assert(results@.contains(c));
                                    assert forall|x: char|
                                        spec_search_hit(pat, x) && (x as u32) < v + 1
                                            implies results@.contains(x) by {
                                        if x as u32 == v {
                                            lemma_char_cast_injective(x, c);
                                        } else {
                                            lemma_push_contains(pre, c, x);
                                        }
                                    }
                                }
                            } else {
                                proof {
                                    assert(!spec_search_hit(pat, c));
                                    assert forall|x: char|
                                        spec_search_hit(pat, x) && (x as u32) < v + 1
                                            implies results@.contains(x) by {
                                        if x as u32 == v {
                                            lemma_char_cast_injective(x, c);
                                        }
                                    }
                                }
                            }
                        },
                        None => {
                            proof {
                                assert(!spec_search_hit(pat, c));
                                assert forall|x: char|
                                    spec_search_hit(pat, x) && (x as u32) < v + 1
                                        implies results@.contains(x) by {
                                    if x as u32 == v {
                                        lemma_char_cast_injective(x, c);
                                    }
                                }
                            }
                        },
                    }
                },
                None => {
                    proof {
                        assert forall|x: char|
                            spec_search_hit(pat, x) && (x as u32) < v + 1 implies results@.contains(
                            x,
                        ) by {
                            if x as u32 == v {
                                lemma_char_values_are_scalar(x);
                            }
                        }
                    }
                },
            }
            v = v + 1;
        }
        proof {
            let hi = bs[bi as int].high;
            assert forall|c: char|
                spec_search_hit(pat, c) && (c as u32) < scan_bound(bs, bi + 1) implies results@
                .contains(c) by {
                if (c as u32) > hi {
                    let j = choose|j: int| 0 <= j < bs.len() && ucd::block_contains(bs[j], c);
                    assert(0 <= j < bs.len() && ucd::block_contains(bs[j], c));
                    if j < bi as int {
                        assert(bs[j].high < bs[bi as int].low <= hi);
                    } else if j == bi as int {
                    } else if j == bi + 1 {
                    } else {
                        assert(bs[bi + 1].high < bs[j].low);
                        assert(bs[bi + 1].low <= bs[bi + 1].high);
                    }
                }
            }
        }
        bi = bi + 1;
    }
    results
}

} // verus!
