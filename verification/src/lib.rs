//! Unicode character metadata.
//!
//! Looks up the full metadata record of a character — official name,
//! General Category, block, boolean properties, and the Unicode version
//! that introduced it — and searches the whole code point space for
//! characters whose names match a regular expression. Input strings can
//! be normalized to a character through a literal, hexadecimal, or
//! name interpretation.

use vstd::prelude::*;

pub mod display;
pub mod info;
pub mod parse;
pub mod search;
pub mod ucd;

pub use display::CharInfo;
pub use info::Info;
pub use parse::parse_scalar_value;
pub use search::search;

verus! {

/// The class a character is shown under: ASCII (`'a'`) or a wider
/// Unicode character (`'u'`).
pub open spec fn spec_chartype(c: char) -> char {
    if (c as u32) < 128 {
        'a'
    } else {
        'u'
    }
}

/// Classifies a character as ASCII (`'a'`) or as a wider Unicode
/// character (`'u'`).
pub fn chartype(c: char) -> (r: char)
    ensures
        r == spec_chartype(c),
{
    if (c as u32) < 128 {
        'a'
    } else {
        'u'
    }
}

/// Whether a character lies in a defined Unicode block.
pub fn is_unicode(c: char) -> (r: bool)
    ensures
        r == (ucd::spec_block_of(c) is Some),
{
    ucd::block_of(c).is_some()
}

} // verus!
