use search_functions::matching::MatchKind;
use search_functions::registry::{
    default_functions, MATCH_UDF_IGNORE_CASE_NAME, MATCH_UDF_NAME, REGEX_MATCH_UDF_NAME,
    REGEX_NOT_MATCH_UDF_NAME,
};

#[test]
fn catalog_lists_seven_functions_in_order() {
    let entries = default_functions();
    let listed: Vec<(&str, &str)> = entries.iter().map(|e| (e.name, e.text)).collect();
    assert_eq!(
        listed,
        vec![
            ("match_all_raw", "match_all_raw('v')"),
            ("match_all_raw_ignore_case", "match_all_raw_ignore_case('v')"),
            ("match_all", "match_all('v')"),
            ("str_match", "match_all('v')"),
            ("str_match_ignore_case", "match_all_ignore_case('v')"),
            ("re_match", "re_match(field, 'pattern')"),
            ("re_not_match", "re_not_match(field, 'pattern')"),
        ]
    );
}

#[test]
fn catalog_names_are_distinct() {
    let entries = default_functions();
    for i in 0..entries.len() {
        for j in (i + 1)..entries.len() {
            assert_ne!(entries[i].name, entries[j].name);
        }
    }
}

#[test]
fn aliases_share_their_example_text() {
    let entries = default_functions();
    let alias = entries.iter().find(|e| e.name == "match_all").unwrap();
    let canonical = entries.iter().find(|e| e.name == MATCH_UDF_NAME).unwrap();
    assert_eq!(alias.text, "match_all('v')");
    assert_eq!(alias.text, canonical.text);
}

#[test]
fn catalog_is_the_same_at_every_call() {
    assert_eq!(default_functions(), default_functions());
}

#[test]
fn canonical_names_are_the_registration_keys() {
    assert_eq!(MatchKind::MatchAll.name(), MATCH_UDF_NAME);
    assert_eq!(MatchKind::MatchAllIgnoreCase.name(), MATCH_UDF_IGNORE_CASE_NAME);
    assert_eq!(MatchKind::RegexMatch.name(), REGEX_MATCH_UDF_NAME);
    assert_eq!(MatchKind::RegexNotMatch.name(), REGEX_NOT_MATCH_UDF_NAME);
    let entries = default_functions();
    for name in [
        MATCH_UDF_NAME,
        MATCH_UDF_IGNORE_CASE_NAME,
        REGEX_MATCH_UDF_NAME,
        REGEX_NOT_MATCH_UDF_NAME,
    ] {
        assert!(entries.iter().any(|e| e.name == name));
    }
}
