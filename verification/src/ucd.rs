//! Trusted declarations for the Unicode character database crates.
//!
//! Every lookup here is a pure function of the queried character: the
//! outside crates consult static tables generated from the Unicode
//! Character Database. Each result is therefore given a name (an
//! uninterpreted spec function), and the wrapper's contract ties the
//! executable call to that name.

use vstd::prelude::*;

verus! {

/// The official Unicode name of a character, if it has one.
pub uninterp spec fn spec_char_name(c: char) -> Option<Seq<char>>;

/// The character carrying a given official Unicode name, if any.
pub uninterp spec fn spec_char_for_name(name: Seq<char>) -> Option<char>;

/// The human-readable name of a character's General Category.
pub uninterp spec fn spec_category_name(c: char) -> Seq<char>;

/// The block containing a character, as (lowest code point, highest
/// code point, block name), if the character lies in a defined block.
pub uninterp spec fn spec_block_of(c: char) -> Option<(u32, u32, Seq<char>)>;

/// The Unicode version (major, minor, micro) at which a character was
/// first assigned, if recorded.
pub uninterp spec fn spec_age_of(c: char) -> Option<(u16, u16, u16)>;

/// The Alphabetic property of a character.
pub uninterp spec fn spec_is_alphabetic(c: char) -> bool;

/// The Bidi_Mirrored property of a character.
pub uninterp spec fn spec_is_bidi_mirrored(c: char) -> bool;

/// The Case_Ignorable property of a character.
pub uninterp spec fn spec_is_case_ignorable(c: char) -> bool;

/// The Cased property of a character.
pub uninterp spec fn spec_is_cased(c: char) -> bool;

/// The Lowercase property of a character.
pub uninterp spec fn spec_is_lowercase(c: char) -> bool;

/// The Uppercase property of a character.
pub uninterp spec fn spec_is_uppercase(c: char) -> bool;

/// The White_Space property of a character.
pub uninterp spec fn spec_is_white_space(c: char) -> bool;

/// A Unicode version triple, as recorded by the Age property.
#[derive(Clone, Copy, PartialEq, Eq, Structural, Debug)]
pub struct Version {
    pub major: u16,
    pub minor: u16,
    pub micro: u16,
}

/// One Unicode block: an inclusive range of code points and its name.
pub struct BlockRec {
    pub low: u32,
    pub high: u32,
    pub name: String,
}

/// Whether a block's inclusive range contains a character.
pub open spec fn block_contains(b: BlockRec, c: char) -> bool {
    b.low <= c as u32 <= b.high
}

/// The block table is a partition: ranges are well-formed, lie within
/// the code point space, come in strictly ascending order, and do not
/// overlap.
pub open spec fn blocks_wf(bs: Seq<BlockRec>) -> bool {
    &&& forall|i: int, j: int|
        0 <= i < j < bs.len() ==> (#[trigger] bs[i]).high < (#[trigger] bs[j]).low
    &&& forall|i: int| 0 <= i < bs.len() ==> (#[trigger] bs[i]).low <= bs[i].high <= 0x10FFFF
}

/// The block table agrees with the per-character block lookup: a
/// character has a block exactly when some range of the table contains
/// it, and then that range is its block.
pub open spec fn blocks_complete(bs: Seq<BlockRec>) -> bool {
    &&& forall|c: char|
        (#[trigger] spec_block_of(c)) is Some <==> exists|i: int|
            0 <= i < bs.len() && block_contains(#[trigger] bs[i], c)
    &&& forall|c: char, i: int|
        0 <= i < bs.len() && block_contains(#[trigger] bs[i], c) ==> #[trigger] spec_block_of(c)
            == Some((bs[i].low, bs[i].high, bs[i].name@))
}

/// Relies on unicode_names2::name: the official name of the character,
/// rendered by concatenating the pieces the iterator yields. Relies on
/// unicode_names2::character for the last clause: it looks a name up in
/// a perfect hash keyed by exactly the names that unicode_names2::name
/// produces and checks the candidate's name against the query, so the
/// canonical name of a character maps back to that character.
#[verifier::external_body]
pub(crate) fn char_name(c: char) -> (r: Option<String>)
    ensures
        r is Some <==> spec_char_name(c) is Some,
        r is Some ==> r.unwrap()@ == spec_char_name(c).unwrap(),
        r is Some ==> spec_char_for_name(spec_char_name(c).unwrap()) == Some(c),
{
    unicode_names2::name(c).map(|n| n.to_string())
}

/// Relies on unicode_names2::character: finds the character with the
/// given name (with the loose matching of UAX44-LM2), or nothing. A
/// query that begins with a hyphen is excluded: on such input the
/// lookup's name normalisation underflows a byte index and panics when
/// overflow checks are on. No Unicode name or alias begins with a
/// hyphen, so nothing is lost.
#[verifier::external_body]
pub(crate) fn char_for_name(name: &str) -> (r: Option<char>)
    requires
        name@.len() == 0 || name@[0] != '-',
    ensures
        r == spec_char_for_name(name@),
{
    unicode_names2::character(name)
}

/// Relies on unic_ucd::GeneralCategory::of, which is total, and on the
/// category's Display impl, which prints its human-readable name.
#[verifier::external_body]
pub(crate) fn category_name(c: char) -> (r: String)
    ensures
        r@ == spec_category_name(c),
{
    unic_ucd::GeneralCategory::of(c).to_string()
}

/// Relies on unic_ucd::Block::of: a binary search over the static block
/// table; the returned block's inclusive range contains the character.
#[verifier::external_body]
pub(crate) fn block_of(c: char) -> (r: Option<BlockRec>)
    ensures
        r is Some <==> spec_block_of(c) is Some,
        r is Some ==> spec_block_of(c) == (Some(
            (r.unwrap().low, r.unwrap().high, r.unwrap().name@),
        )),
        r is Some ==> r.unwrap().low <= c as u32 <= r.unwrap().high,
{
    unic_ucd::Block::of(c).map(|b| BlockRec {
        low: b.range.low as u32,
        high: b.range.high as u32,
        name: b.name.to_string(),
    })
}

/// Relies on unic_ucd::BlockIter, which walks the same static block
/// table that unic_ucd::Block::of searches: the ranges come in ascending
/// order, do not overlap, and are exactly the ranges on which Block::of
/// succeeds.
#[verifier::external_body]
pub(crate) fn load_blocks() -> (r: Vec<BlockRec>)
    ensures
        blocks_wf(r@),
        blocks_complete(r@),
{
    let mut v = Vec::new();
    for b in unic_ucd::BlockIter::new() {
        v.push(BlockRec {
            low: b.range.low as u32,
            high: b.range.high as u32,
            name: b.name.to_string(),
        });
    }
    v
}

/// Relies on unic_ucd::Age::of and Age::actual: the Unicode version at
/// which the character was assigned, if the age table records one.
#[verifier::external_body]
pub(crate) fn age_of(c: char) -> (r: Option<Version>)
    ensures
        r is Some <==> spec_age_of(c) is Some,
        r is Some ==> spec_age_of(c) == (Some(
            (r.unwrap().major, r.unwrap().minor, r.unwrap().micro),
        )),
{
    unic_ucd::Age::of(c).map(|a| {
        let v = a.actual();
        Version { major: v.major, minor: v.minor, micro: v.micro }
    })
}

/// Relies on unic_ucd::is_alphabetic: the Alphabetic property table.
#[verifier::external_body]
pub(crate) fn is_alphabetic(c: char) -> (r: bool)
    ensures
        r == spec_is_alphabetic(c),
{
    unic_ucd::is_alphabetic(c)
}

/// Relies on unic_ucd::is_bidi_mirrored: the Bidi_Mirrored property table.
#[verifier::external_body]
pub(crate) fn is_bidi_mirrored(c: char) -> (r: bool)
    ensures
        r == spec_is_bidi_mirrored(c),
{
    unic_ucd::is_bidi_mirrored(c)
}

/// Relies on unic_ucd::is_case_ignorable: the Case_Ignorable property table.
#[verifier::external_body]
pub(crate) fn is_case_ignorable(c: char) -> (r: bool)
    ensures
        r == spec_is_case_ignorable(c),
{
    unic_ucd::is_case_ignorable(c)
}

/// Relies on unic_ucd::is_cased: the Cased property table.
#[verifier::external_body]
pub(crate) fn is_cased(c: char) -> (r: bool)
    ensures
        r == spec_is_cased(c),
{
    unic_ucd::is_cased(c)
}

/// Relies on unic_ucd::is_lowercase: the Lowercase property table.
#[verifier::external_body]
pub(crate) fn is_lowercase(c: char) -> (r: bool)
    ensures
        r == spec_is_lowercase(c),
{
    unic_ucd::is_lowercase(c)
}

/// Relies on unic_ucd::is_uppercase: the Uppercase property table.
#[verifier::external_body]
pub(crate) fn is_uppercase(c: char) -> (r: bool)
    ensures
        r == spec_is_uppercase(c),
{
    unic_ucd::is_uppercase(c)
}

/// Relies on unic_ucd::is_white_space: the White_Space property table.
#[verifier::external_body]
pub(crate) fn is_white_space(c: char) -> (r: bool)
    ensures
        r == spec_is_white_space(c),
{
    unic_ucd::is_white_space(c)
}

} // verus!
