use charinfo::CharInfo;
use charinfo::chartype;
use charinfo::is_unicode;

#[test]
fn block_summary_for_a_named_character() {
    let shown = CharInfo::new(9).display('a');
    assert_eq!(shown, "type: Unicode\nname: LATIN SMALL LETTER A\nblock: Basic Latin\n");
}

#[test]
fn block_summary_for_unnamed_ascii() {
    let shown = CharInfo::new(9).display('\u{0001}');
    assert_eq!(shown, "type: ASCII\nname: unknown\nblock: Basic Latin\n");
}

#[test]
fn block_summary_for_unnamed_non_ascii_is_empty() {
    let shown = CharInfo::new(9).display('\u{0378}');
    assert_eq!(shown, "");
}

#[test]
fn bare_character_at_level_zero() {
    assert_eq!(CharInfo::new(0).display('a'), "a");
    assert_eq!(CharInfo::new(0).display('\u{2603}'), "\u{2603}");
}

#[test]
fn one_line_record_at_level_two() {
    let shown = CharInfo::new(2).display('a');
    assert_eq!(shown, "aa-c--l     61 Basic Latin LATIN SMALL LETTER A \n");
}

#[test]
fn one_line_record_for_a_capital_letter() {
    let shown = CharInfo::new(2).display('A');
    assert_eq!(shown, "aa-c-u-     41 Basic Latin LATIN CAPITAL LETTER A \n");
}

#[test]
fn one_line_record_pads_wide_code_points() {
    let shown = CharInfo::new(2).display('\u{1F600}');
    assert_eq!(shown, "u------  1F600 Emoticons GRINNING FACE \n");
}

#[test]
fn one_line_record_at_level_one_has_no_head() {
    let shown = CharInfo::new(1).display('a');
    assert_eq!(shown, "Basic Latin LATIN SMALL LETTER A \n");
}

#[test]
fn one_line_record_with_fallbacks() {
    let shown = CharInfo::new(1).display('\u{0378}');
    assert_eq!(shown, "Greek and Coptic None \n");
}

#[test]
fn levels_above_two_render_alike() {
    assert_eq!(CharInfo::new(3).display('a'), CharInfo::new(2).display('a'));
    assert_eq!(CharInfo::new(7).display('\u{2603}'), CharInfo::new(2).display('\u{2603}'));
}

#[test]
fn chartype_classifies_ascii_and_unicode() {
    assert_eq!(chartype('a'), 'a');
    assert_eq!(chartype('~'), 'a');
    assert_eq!(chartype('\u{00E9}'), 'u');
}

#[test]
fn block_membership() {
    assert!(is_unicode('a'));
    assert!(is_unicode('\u{0378}'));
    assert!(!is_unicode('\u{2FE0}'));
}
