//! Rendering a character's metadata in the supported output shapes.
//!
//! The verbosity level selects the shape: a name-and-block summary, the
//! bare character, or a one-line record with a flag string. The
//! functions build the text to show; printing it is the caller's
//! business.

use vstd::prelude::*;
use vstd::string::StringExecFns;
use crate::chartype;
use crate::info::Info;
use crate::spec_chartype;
use crate::ucd;
use crate::ucd::Version;

verus! {

/// Relies on std's String::push: appends one character at the end.
pub assume_specification[ String::push ](s: &mut String, c: char)
    ensures
        final(s)@ == old(s)@.push(c),
;

/// One hexadecimal digit, upper case.
pub open spec fn spec_hex_digit(d: nat) -> char {
    if d == 0 {
        '0'
    } else if d == 1 {
        '1'
    } else if d == 2 {
        '2'
    } else if d == 3 {
        '3'
    } else if d == 4 {
        '4'
    } else if d == 5 {
        '5'
    } else if d == 6 {
        '6'
    } else if d == 7 {
        '7'
    } else if d == 8 {
        '8'
    } else if d == 9 {
        '9'
    } else if d == 10 {
        'A'
    } else if d == 11 {
        'B'
    } else if d == 12 {
        'C'
    } else if d == 13 {
        'D'
    } else if d == 14 {
        'E'
    } else {
        'F'
    }
}

/// The upper-case hexadecimal digits of a number, most significant
/// first, without leading zeros.
pub open spec fn spec_hex(n: nat) -> Seq<char>
    decreases n,
{
    if n < 16 {
        seq![spec_hex_digit(n)]
    } else {
        spec_hex(n / 16).push(spec_hex_digit(n % 16))
    }
}

/// A run of spaces.
pub open spec fn spec_spaces(k: nat) -> Seq<char> {
    Seq::new(k, |i: int| ' ')
}

/// A number in upper-case hexadecimal, padded with spaces on the left
/// to at least six characters.
pub open spec fn spec_hex6(n: nat) -> Seq<char> {
    let h = spec_hex(n);
    if h.len() < 6 {
        spec_spaces((6 - h.len()) as nat) + h
    } else {
        h
    }
}

/// One hexadecimal digit, upper case.
fn hex_digit(d: u32) -> (c: char)
    requires
        d < 16,
    ensures
        c == spec_hex_digit(d as nat),
{
    if d == 0 {
        '0'
    } else if d == 1 {
        '1'
    } else if d == 2 {
        '2'
    } else if d == 3 {
        '3'
    } else if d == 4 {
        '4'
    } else if d == 5 {
        '5'
    } else if d == 6 {
        '6'
    } else if d == 7 {
        '7'
    } else if d == 8 {
        '8'
    } else if d == 9 {
        '9'
    } else if d == 10 {
        'A'
    } else if d == 11 {
        'B'
    } else if d == 12 {
        'C'
    } else if d == 13 {
        'D'
    } else if d == 14 {
        'E'
    } else {
        'F'
    }
}

/// The upper-case hexadecimal digits of a number.
fn hex_chars(n: u32) -> (r: Vec<char>)
    ensures
        r@ == spec_hex(n as nat),
    decreases n,
{
    if n < 16 {
        let mut v: Vec<char> = Vec::new();
        v.push(hex_digit(n));
        proof {
            assert(v@ =~= seq![spec_hex_digit(n as nat)]);
        }
        v
    } else {
        let mut v = hex_chars(n / 16);
        v.push(hex_digit(n % 16));
        v
    }
}

/// Appends a number in upper-case hexadecimal, padded with spaces on
/// the left to at least six characters.
fn push_hex6(out: &mut String, n: u32)
    ensures
        final(out)@ == old(out)@ + spec_hex6(n as nat),
{
    let digits = hex_chars(n);
    let pad: usize = if digits.len() < 6 {
        6 - digits.len()
    } else {
        0
    };
    let mut i: usize = 0;
    while i < pad
        invariant
            i <= pad,
            out@ == old(out)@ + spec_spaces(i as nat),
        decreases pad - i,
    {
        out.push(' ');
        proof {
            assert(old(out)@ + spec_spaces((i + 1) as nat) =~= (old(out)@ + spec_spaces(
                i as nat,
            )).push(' '));
        }
        i = i + 1;
    }
    let mut j: usize = 0;
    while j < digits.len()
        invariant
            j <= digits@.len(),
            pad == (if digits@.len() < 6 {
                6 - digits@.len()
            } else {
                0
            }),
            digits@ == spec_hex(n as nat),
            out@ == old(out)@ + spec_spaces(pad as nat) + digits@.take(j as int),
        decreases digits@.len() - j,
    {
        out.push(digits[j]);
        proof {
            assert(old(out)@ + spec_spaces(pad as nat) + digits@.take(j + 1) =~= (old(out)@
                + spec_spaces(pad as nat) + digits@.take(j as int)).push(digits@[j as int]));
        }
        j = j + 1;
    }
    proof {
        assert(digits@.take(digits@.len() as int) =~= digits@);
        assert(old(out)@ + spec_spaces(pad as nat) + digits@ =~= old(out)@ + spec_hex6(n as nat));
    }
}

/// The decimal digits of a number, most significant first, without
/// leading zeros.
pub open spec fn spec_dec(n: nat) -> Seq<char>
    decreases n,
{
    if n < 10 {
        seq![spec_hex_digit(n)]
    } else {
        spec_dec(n / 10).push(spec_hex_digit(n % 10))
    }
}

/// The decimal digits of a number.
fn dec_chars(n: u32) -> (r: Vec<char>)
    ensures
        r@ == spec_dec(n as nat),
    decreases n,
{
    if n < 10 {
        let mut v: Vec<char> = Vec::new();
        v.push(hex_digit(n));
        proof {
            assert(v@ =~= seq![spec_hex_digit(n as nat)]);
        }
        v
    } else {
        let mut v = dec_chars(n / 10);
        v.push(hex_digit(n % 10));
        v
    }
}

/// Appends a number in decimal.
fn push_dec(out: &mut String, n: u32)
    ensures
        final(out)@ == old(out)@ + spec_dec(n as nat),
{
    let digits = dec_chars(n);
    let mut j: usize = 0;
    while j < digits.len()
        invariant
            j <= digits@.len(),
            digits@ == spec_dec(n as nat),
            out@ == old(out)@ + digits@.take(j as int),
        decreases digits@.len() - j,
    {
        out.push(digits[j]);
        proof {
            assert(old(out)@ + digits@.take(j + 1) =~= (old(out)@ + digits@.take(
                j as int,
            )).push(digits@[j as int]));
        }
        j = j + 1;
    }
    proof {
        assert(digits@.take(digits@.len() as int) =~= digits@);
    }
}

/// The text a boolean is shown as.
pub open spec fn spec_bool_text(b: bool) -> Seq<char> {
    if b {
        "true"@
    } else {
        "false"@
    }
}

/// One labeled line of the full record dump.
pub open spec fn spec_labeled_line(label: Seq<char>, value: Seq<char>) -> Seq<char> {
    label + value + seq!['\n']
}

/// The version line of the full record dump.
pub open spec fn spec_version_line(v: Version) -> Seq<char> {
    "since version:  "@ + spec_dec(v.major as nat) + seq!['.'] + spec_dec(v.minor as nat)
        + seq!['.'] + spec_dec(v.micro as nat) + seq!['\n']
}

/// The full labeled dump of a record: every field on a line of its own,
/// then the Unicode version that introduced the character.
pub open spec fn spec_describe(info: Info) -> Seq<char> {
    spec_labeled_line("name:           "@, info.name@) + spec_labeled_line(
        "category:       "@,
        info.category@,
    ) + spec_labeled_line("block:          "@, info.block@) + spec_labeled_line(
        "alphabetic:     "@,
        spec_bool_text(info.alphabetic),
    ) + spec_labeled_line("bidi_mirrored:  "@, spec_bool_text(info.bidi_mirrored))
        + spec_labeled_line("case_ignorable: "@, spec_bool_text(info.case_ignorable))
        + spec_labeled_line("cased:          "@, spec_bool_text(info.cased)) + spec_labeled_line(
        "lowercase:      "@,
        spec_bool_text(info.lowercase),
    ) + spec_labeled_line("uppercase:      "@, spec_bool_text(info.uppercase))
        + spec_labeled_line("whitespace:     "@, spec_bool_text(info.whitespace))
        + spec_version_line(info.age)
}

/// Appends one labeled line.
fn push_line(out: &mut String, label: &str, value: &str)
    ensures
        final(out)@ == old(out)@ + spec_labeled_line(label@, value@),
{
    out.append(label);
    out.append(value);
    out.push('\n');
    proof {
        assert(out@ =~= old(out)@ + spec_labeled_line(label@, value@));
    }
}

/// Appends one labeled line showing a boolean.
fn push_bool_line(out: &mut String, label: &str, value: bool)
    ensures
        final(out)@ == old(out)@ + spec_labeled_line(label@, spec_bool_text(value)),
{
    push_line(
        out,
        label,
        if value {
            "true"
        } else {
            "false"
        },
    );
}

impl Info {
    /// The full labeled dump of this record, one field per line, as
    /// `spec_describe` states.
    pub fn describe(&self) -> (r: String)
        ensures
            r@ == spec_describe(*self),
    {
        let mut out = String::new();
        push_line(&mut out, "name:           ", self.name.as_str());
        push_line(&mut out, "category:       ", self.category.as_str());
        push_line(&mut out, "block:          ", self.block.as_str());
        push_bool_line(&mut out, "alphabetic:     ", self.alphabetic);
        push_bool_line(&mut out, "bidi_mirrored:  ", self.bidi_mirrored);
        push_bool_line(&mut out, "case_ignorable: ", self.case_ignorable);
        push_bool_line(&mut out, "cased:          ", self.cased);
        push_bool_line(&mut out, "lowercase:      ", self.lowercase);
        push_bool_line(&mut out, "uppercase:      ", self.uppercase);
        push_bool_line(&mut out, "whitespace:     ", self.whitespace);
        out.append("since version:  ");
        push_dec(&mut out, self.age.major as u32);
        out.push('.');
        push_dec(&mut out, self.age.minor as u32);
        out.push('.');
        push_dec(&mut out, self.age.micro as u32);
        out.push('\n');
        proof {
            assert(out@ =~= spec_describe(*self));
        }
        out
    }
}

/// The six property flags shown on a one-line record, in their fixed
/// order: alphabetic, bidi-mirrored, cased, case-ignorable, uppercase,
/// lowercase; a letter when the property holds, a dash when not.
pub open spec fn spec_flag_chars(c: char) -> Seq<char> {
    seq![
        if ucd::spec_is_alphabetic(c) {
            'a'
        } else {
            '-'
        },
        if ucd::spec_is_bidi_mirrored(c) {
            'b'
        } else {
            '-'
        },
        if ucd::spec_is_cased(c) {
            'c'
        } else {
            '-'
        },
        if ucd::spec_is_case_ignorable(c) {
            'i'
        } else {
            '-'
        },
        if ucd::spec_is_uppercase(c) {
            'u'
        } else {
            '-'
        },
        if ucd::spec_is_lowercase(c) {
            'l'
        } else {
            '-'
        },
    ]
}

/// The head of a one-line record: the character class, the flag string,
/// and the code point in padded hexadecimal.
pub open spec fn spec_line_head(c: char) -> Seq<char> {
    seq![spec_chartype(c)] + spec_flag_chars(c) + seq![' '] + spec_hex6(c as u32 as nat) + seq![' ']
}

/// The tail of a one-line record: the block name and the character
/// name, with fallbacks where either is missing.
pub open spec fn spec_line_tail(c: char) -> Seq<char> {
    (if ucd::spec_block_of(c) is Some {
        ucd::spec_block_of(c).unwrap().2
    } else {
        "Unknown Block"@
    }) + seq![' '] + (if ucd::spec_char_name(c) is Some {
        ucd::spec_char_name(c).unwrap()
    } else {
        "None"@
    }) + seq![' ', '\n']
}

/// A one-line record at a verbosity level: the head appears from level
/// two on, the tail from level one on.
pub open spec fn spec_render_line(long: nat, c: char) -> Seq<char> {
    (if long >= 2 {
        spec_line_head(c)
    } else {
        Seq::<char>::empty()
    }) + (if long >= 1 {
        spec_line_tail(c)
    } else {
        Seq::<char>::empty()
    })
}

/// The name-and-block summary: a named character shows its name and
/// block; an unnamed ASCII character is reported with name "unknown";
/// anything else shows nothing.
pub open spec fn spec_render_block(c: char) -> Seq<char> {
    if ucd::spec_char_name(c) is Some && ucd::spec_block_of(c) is Some {
        "type: Unicode\nname: "@ + ucd::spec_char_name(c).unwrap() + "\nblock: "@
            + ucd::spec_block_of(c).unwrap().2 + "\n"@
    } else if ucd::spec_char_name(c) is None && ucd::spec_block_of(c) is Some && (c as u32) < 128 {
        "type: ASCII\nname: unknown\nblock: "@ + ucd::spec_block_of(c).unwrap().2 + "\n"@
    } else {
        Seq::<char>::empty()
    }
}

/// What `CharInfo::display` shows at each verbosity level: level nine
/// is the name-and-block summary, level zero the bare character, any
/// other level the one-line record.
pub open spec fn spec_display(long: nat, c: char) -> Seq<char> {
    if long == 9 {
        spec_render_block(c)
    } else if long == 0 {
        seq![c]
    } else {
        spec_render_line(long, c)
    }
}

/// A display configuration: the verbosity level to render at.
pub struct CharInfo {
    long: usize,
}

impl CharInfo {
    /// The verbosity level this configuration renders at.
    pub closed spec fn spec_long(&self) -> usize {
        self.long
    }

    /// Makes a display configuration for a verbosity level.
    pub fn new(long: usize) -> (r: Self)
        ensures
            r.spec_long() == long,
    {
        CharInfo { long }
    }

    /// Renders a character at this configuration's verbosity level, as
    /// `spec_display` states.
    pub fn display(&self, c: char) -> (r: String)
        ensures
            r@ == spec_display(self.spec_long() as nat, c),
    {
        if self.long == 9 {
            self.display_block(c)
        } else if self.long == 0 {
            self.display_print(c)
        } else {
            self.display_line(c)
        }
    }

    /// The name-and-block summary shape.
    fn display_block(&self, c: char) -> (r: String)
        ensures
            r@ == spec_render_block(c),
    {
        let name = ucd::char_name(c);
        let block = ucd::block_of(c);
        let mut out = String::new();
        match (name, block) {
            (Some(n), Some(b)) => {
                out.append("type: Unicode\nname: ");
                out.append(n.as_str());
                out.append("\nblock: ");
                out.append(b.name.as_str());
                out.append("\n");
                proof {
                    assert(out@ =~= spec_render_block(c));
                }
            },
            (None, Some(b)) => {
                if (c as u32) < 128 {
                    out.append("type: ASCII\nname: unknown\nblock: ");
                    out.append(b.name.as_str());
                    out.append("\n");
                    proof {
                        assert(out@ =~= spec_render_block(c));
                    }
                }
            },
            _ => {},
        }
        out
    }

    /// The one-line record shape.
    fn display_line(&self, c: char) -> (r: String)
        ensures
            r@ == spec_render_line(self.spec_long() as nat, c),
    {
        let mut out = String::new();
        if self.long >= 2 {
            out.push(chartype(c));
            out.push(if ucd::is_alphabetic(c) {
                'a'
            } else {
                '-'
            });
            out.push(if ucd::is_bidi_mirrored(c) {
                'b'
            } else {
                '-'
            });
            out.push(if ucd::is_cased(c) {
                'c'
            } else {
                '-'
            });
            out.push(if ucd::is_case_ignorable(c) {
                'i'
            } else {
                '-'
            });
            out.push(if ucd::is_uppercase(c) {
                'u'
            } else {
                '-'
            });
            out.push(if ucd::is_lowercase(c) {
                'l'
            } else {
                '-'
            });
            out.push(' ');
            push_hex6(&mut out, c as u32);
            out.push(' ');
            proof {
                assert(out@ =~= spec_line_head(c));
            }
        }
        if self.long >= 1 {
            match ucd::block_of(c) {
                Some(b) => out.append(b.name.as_str()),
                None => out.append("Unknown Block"),
            }
            out.push(' ');
            match ucd::char_name(c) {
                Some(n) => out.append(n.as_str()),
                None => out.append("None"),
            }
            out.push(' ');
            out.push('\n');
        }
        proof {
            assert(out@ =~= spec_render_line(self.spec_long() as nat, c));
        }
        out
    }

    /// The bare-character shape.
    fn display_print(&self, c: char) -> (r: String)
        ensures
            r@ == seq![c],
    {
        let mut out = String::new();
        out.push(c);
        proof {
            assert(out@ =~= seq![c]);
        }
        out
    }
}

} // verus!
