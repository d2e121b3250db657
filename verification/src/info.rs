//! The character metadata record and its resolver.

use vstd::prelude::*;
use crate::ucd;
use crate::ucd::BlockRec;
use crate::ucd::Version;

verus! {

/// The full metadata record of one code point: its official name, the
/// human-readable name of its General Category, the name of its block,
/// seven boolean properties, and the Unicode version that introduced it.
pub struct Info {
    pub name: String,
    pub category: String,
    pub block: String,
    pub alphabetic: bool,
    pub bidi_mirrored: bool,
    pub case_ignorable: bool,
    pub cased: bool,
    pub lowercase: bool,
    pub uppercase: bool,
    pub whitespace: bool,
    pub age: Version,
}

/// A character has a full record exactly when it has a name, lies in a
/// defined block, and has a recorded age.
pub open spec fn spec_has_record(c: char) -> bool {
    &&& ucd::spec_char_name(c) is Some
    &&& ucd::spec_block_of(c) is Some
    &&& ucd::spec_age_of(c) is Some
}

/// What every field of a record for `c` must hold.
pub open spec fn spec_record_ok(info: Info, c: char) -> bool {
    &&& info.name@ == ucd::spec_char_name(c).unwrap()
    &&& info.category@ == ucd::spec_category_name(c)
    &&& info.block@ == ucd::spec_block_of(c).unwrap().2
    &&& info.alphabetic == ucd::spec_is_alphabetic(c)
    &&& info.bidi_mirrored == ucd::spec_is_bidi_mirrored(c)
    &&& info.case_ignorable == ucd::spec_is_case_ignorable(c)
    &&& info.cased == ucd::spec_is_cased(c)
    &&& info.lowercase == ucd::spec_is_lowercase(c)
    &&& info.uppercase == ucd::spec_is_uppercase(c)
    &&& info.whitespace == ucd::spec_is_white_space(c)
    &&& Some((info.age.major, info.age.minor, info.age.micro)) == ucd::spec_age_of(c)
}

impl Info {
    /// Resolves the full metadata record of a character. Fails — with
    /// no partial record — exactly when the character has no name, no
    /// containing block, or no recorded age. A successful record's name
    /// leads back to the character through the name-to-character lookup.
    pub fn of(c: char) -> (r: Option<Info>)
        ensures
            r is Some <==> spec_has_record(c),
            r is Some ==> spec_record_ok(r.unwrap(), c),
            r is Some ==> ucd::spec_char_for_name(ucd::spec_char_name(c).unwrap()) == Some(c),
    {
        let name = match ucd::char_name(c) {
            Some(n) => n,
            None => {
                return None;
            },
        };
        let block = match ucd::block_of(c) {
            Some(b) => b.name,
            None => {
                return None;
            },
        };
        let age = match ucd::age_of(c) {
            Some(a) => a,
            None => {
                return None;
            },
        };
        Some(
            Info {
                name,
                category: ucd::category_name(c),
                block,
                alphabetic: ucd::is_alphabetic(c),
                bidi_mirrored: ucd::is_bidi_mirrored(c),
                case_ignorable: ucd::is_case_ignorable(c),
                cased: ucd::is_cased(c),
                lowercase: ucd::is_lowercase(c),
                uppercase: ucd::is_uppercase(c),
                whitespace: ucd::is_white_space(c),
                age,
            },
        )
    }
}

/// Two successful resolutions of the same character agree on every
/// field: the record is a pure function of the character.
pub proof fn lemma_resolve_deterministic(a: Info, b: Info, c: char)
    requires
        spec_record_ok(a, c),
        spec_record_ok(b, c),
    ensures
        a.name@ == b.name@,
        a.category@ == b.category@,
        a.block@ == b.block@,
        a.alphabetic == b.alphabetic,
        a.bidi_mirrored == b.bidi_mirrored,
        a.case_ignorable == b.case_ignorable,
        a.cased == b.cased,
        a.lowercase == b.lowercase,
        a.uppercase == b.uppercase,
        a.whitespace == b.whitespace,
        a.age == b.age,
{
}

/// A character with a record lies within exactly one block of the block
/// table, and that block's name is the record's block field.
pub proof fn lemma_record_block_unique(bs: Seq<BlockRec>, c: char, info: Info)
    requires
        ucd::blocks_wf(bs),
        ucd::blocks_complete(bs),
        spec_has_record(c),
        spec_record_ok(info, c),
    ensures
        exists|i: int| 0 <= i < bs.len() && ucd::block_contains(#[trigger] bs[i], c),
        forall|i: int, j: int|
            #![trigger bs[i], bs[j]]
            0 <= i < bs.len() && 0 <= j < bs.len() && ucd::block_contains(bs[i], c)
                && ucd::block_contains(bs[j], c) ==> i == j,
        forall|i: int|
            0 <= i < bs.len() && ucd::block_contains(#[trigger] bs[i], c) ==> bs[i].name@
                == info.block@,
{
    assert(ucd::spec_block_of(c) is Some);
    assert(exists|i: int| 0 <= i < bs.len() && ucd::block_contains(#[trigger] bs[i], c));
    assert forall|i: int, j: int|
        #![trigger bs[i], bs[j]]
        0 <= i < bs.len() && 0 <= j < bs.len() && ucd::block_contains(bs[i], c)
            && ucd::block_contains(bs[j], c) implies i == j by {
        if i < j {
            assert(bs[i].high < bs[j].low);
        } else if j < i {
            assert(bs[j].high < bs[i].low);
        }
    }
}

} // verus!
