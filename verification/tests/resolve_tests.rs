use charinfo::Info;
use charinfo::parse_scalar_value;

#[test]
fn letter_a_record() {
    let info = Info::of('a').expect("a letter has a record");
    assert_eq!(info.name, "LATIN SMALL LETTER A");
    assert_eq!(info.category, "Lowercase Letter");
    assert_eq!(info.block, "Basic Latin");
    assert!(info.alphabetic);
    assert!(!info.bidi_mirrored);
    assert!(!info.case_ignorable);
    assert!(info.cased);
    assert!(info.lowercase);
    assert!(!info.uppercase);
    assert!(!info.whitespace);
    assert_eq!(info.age.major, 1);
    assert_eq!(info.age.minor, 1);
    assert_eq!(info.age.micro, 0);
}

#[test]
fn space_record() {
    let info = Info::of(' ').expect("the space has a record");
    assert_eq!(info.name, "SPACE");
    assert_eq!(info.category, "Space");
    assert!(info.whitespace);
    assert!(!info.alphabetic);
}

#[test]
fn mirrored_parenthesis() {
    let info = Info::of('(').expect("a parenthesis has a record");
    assert!(info.bidi_mirrored);
    assert!(!info.cased);
}

#[test]
fn unassigned_code_point_has_no_record() {
    assert!(Info::of('\u{0378}').is_none());
}

#[test]
fn control_character_has_no_record() {
    assert!(Info::of('\u{0000}').is_none());
}

#[test]
fn name_round_trips_to_the_character() {
    for c in ['a', 'Z', '\u{2603}', '\u{1F600}'] {
        let info = Info::of(c).expect("a named character has a record");
        assert_eq!(parse_scalar_value(&info.name), Some(c));
    }
}

#[test]
fn full_dump_of_letter_a() {
    let info = Info::of('a').expect("a letter has a record");
    assert_eq!(
        info.describe(),
        "name:           LATIN SMALL LETTER A\n\
         category:       Lowercase Letter\n\
         block:          Basic Latin\n\
         alphabetic:     true\n\
         bidi_mirrored:  false\n\
         case_ignorable: false\n\
         cased:          true\n\
         lowercase:      true\n\
         uppercase:      false\n\
         whitespace:     false\n\
         since version:  1.1.0\n"
    );
}

#[test]
fn resolving_twice_gives_identical_records() {
    let a = Info::of('\u{2603}').expect("the snowman has a record");
    let b = Info::of('\u{2603}').expect("the snowman has a record");
    assert_eq!(a.name, b.name);
    assert_eq!(a.category, b.category);
    assert_eq!(a.block, b.block);
    assert_eq!(a.alphabetic, b.alphabetic);
    assert_eq!(a.bidi_mirrored, b.bidi_mirrored);
    assert_eq!(a.case_ignorable, b.case_ignorable);
    assert_eq!(a.cased, b.cased);
    assert_eq!(a.lowercase, b.lowercase);
    assert_eq!(a.uppercase, b.uppercase);
    assert_eq!(a.whitespace, b.whitespace);
    assert_eq!(a.age, b.age);
}
