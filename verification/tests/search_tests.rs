use charinfo::is_unicode;
use charinfo::search;

#[test]
fn search_finds_latin_small_letters_in_order() {
    let re = regex::Regex::new("^LATIN SMALL LETTER").unwrap();
    let found = search(&re);
    assert!(!found.is_empty());
    assert!(found.contains(&'a'));
    assert!(found.contains(&'z'));
    for pair in found.windows(2) {
        assert!((pair[0] as u32) < (pair[1] as u32));
    }
    for c in &found {
        assert!(is_unicode(*c));
        let name = unicode_names2::name(*c).expect("every match carries a name").to_string();
        assert!(re.is_match(&name));
    }
}

#[test]
fn search_for_an_exact_name_finds_one_character() {
    let re = regex::Regex::new("^SNOWMAN$").unwrap();
    let found = search(&re);
    assert_eq!(found, vec!['\u{2603}']);
}

#[test]
fn search_with_no_match_is_empty() {
    let re = regex::Regex::new("THIS NAME MATCHES NOTHING AT ALL Q9Q9Q9").unwrap();
    let found = search(&re);
    assert!(found.is_empty());
}
