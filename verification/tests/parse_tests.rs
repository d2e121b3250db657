use charinfo::parse_scalar_value;

#[test]
fn single_character_is_returned_directly() {
    assert_eq!(parse_scalar_value("A"), Some('A'));
}

#[test]
fn single_digit_is_literal_not_hex() {
    assert_eq!(parse_scalar_value("7"), Some('7'));
}

#[test]
fn name_is_looked_up() {
    assert_eq!(parse_scalar_value("LATIN SMALL LETTER A"), Some('a'));
}

#[test]
fn unparseable_input_is_none() {
    assert_eq!(parse_scalar_value("zz"), None);
}

#[test]
fn hex_takes_precedence_over_name() {
    assert_eq!(parse_scalar_value("41"), Some('A'));
}

#[test]
fn hex_with_leading_plus_sign() {
    assert_eq!(parse_scalar_value("+41"), Some('A'));
}

#[test]
fn hex_lower_and_upper_digits() {
    assert_eq!(parse_scalar_value("2603"), Some('\u{2603}'));
    assert_eq!(parse_scalar_value("1f600"), Some('\u{1F600}'));
    assert_eq!(parse_scalar_value("1F600"), Some('\u{1F600}'));
}

#[test]
fn hex_at_the_top_of_the_range() {
    assert_eq!(parse_scalar_value("10FFFF"), Some('\u{10FFFF}'));
    assert_eq!(parse_scalar_value("110000"), None);
}

#[test]
fn hex_surrogate_is_rejected() {
    assert_eq!(parse_scalar_value("D800"), None);
}

#[test]
fn hex_overflow_is_rejected() {
    assert_eq!(parse_scalar_value("FFFFFFFFF"), None);
}

#[test]
fn empty_input_is_none() {
    assert_eq!(parse_scalar_value(""), None);
}

#[test]
fn plus_sign_alone_is_the_literal_plus() {
    assert_eq!(parse_scalar_value("+"), Some('+'));
}

#[test]
fn plus_sign_without_digits_is_none() {
    assert_eq!(parse_scalar_value("+z"), None);
}

#[test]
fn hyphen_alone_is_the_literal_hyphen() {
    assert_eq!(parse_scalar_value("-"), Some('-'));
}

#[test]
fn hyphen_leading_input_is_none() {
    assert_eq!(parse_scalar_value("-A"), None);
    assert_eq!(parse_scalar_value("-41"), None);
    assert_eq!(parse_scalar_value("-LATIN SMALL LETTER A"), None);
}
