use search_functions::matching::{
    match_all, match_all_ignore_case, regex_match, regex_not_match, CompiledPattern, MatchKind,
    Matcher, PrepareError,
};
use search_functions::text::{chars_of, find_in, folded_chars_of, lower_char};

#[test]
fn match_all_is_substring_containment() {
    assert!(match_all("hello world", "wor"));
    assert!(!match_all("hello world", "WOR"));
    assert!(match_all("hello world", "hello world"));
    assert!(match_all("hello world", "d"));
    assert!(!match_all("hello world", "worlds"));
    assert!(!match_all("hello world", "hello world!"));
    assert!(!match_all("aab", "abb"));
    assert!(match_all("aaab", "aab"));
}

#[test]
fn empty_pattern_occurs_everywhere() {
    assert!(match_all("hello", ""));
    assert!(match_all("", ""));
    assert!(!match_all("", "a"));
    assert!(match_all_ignore_case("", ""));
}

#[test]
fn match_all_ignore_case_folds_both_sides() {
    assert!(match_all_ignore_case("hello world", "WOR"));
    assert!(match_all_ignore_case("HELLO WORLD", "wor"));
    assert!(match_all_ignore_case("HeLLo", "hEllO"));
    assert!(!match_all_ignore_case("hello world", "word"));
}

#[test]
fn the_fold_is_the_simple_one() {
    assert_eq!(lower_char('A'), 'a');
    assert_eq!(lower_char('Z'), 'z');
    assert_eq!(lower_char('a'), 'a');
    assert_eq!(lower_char('@'), '@');
    assert_eq!(lower_char('['), '[');
    assert_eq!(lower_char('\u{c9}'), '\u{c9}');
    assert!(!match_all_ignore_case("\u{e9}t\u{e9}", "\u{c9}T\u{c9}"));
    assert!(match_all_ignore_case("\u{c9}T\u{c9}", "\u{c9}t"));
    assert_eq!(folded_chars_of("AbC\u{df}"), vec!['a', 'b', 'c', '\u{df}']);
}

#[test]
fn characters_are_whole_characters() {
    assert_eq!(chars_of("h\u{e9}!"), vec!['h', '\u{e9}', '!']);
    assert!(match_all("na\u{ef}ve caf\u{e9}", "ve caf\u{e9}"));
    assert!(find_in(&chars_of("abc"), &chars_of("bc")));
    assert!(!find_in(&chars_of("abc"), &chars_of("cb")));
}

#[test]
fn regex_match_finds_a_match_anywhere() {
    let digits = CompiledPattern::compile("[0-9]+").unwrap();
    assert!(regex_match("abc123", &digits));
    assert!(!regex_not_match("abc123", &digits));
    assert!(!regex_match("abc", &digits));
    assert!(regex_not_match("abc", &digits));
}

#[test]
fn compiled_pattern_keeps_its_text() {
    let digits = CompiledPattern::compile("[0-9]+").unwrap();
    assert_eq!(digits.pattern(), "[0-9]+");
}

#[test]
fn bad_pattern_is_reported_with_its_text() {
    let refused = CompiledPattern::compile("[unterminated").unwrap_err();
    assert_eq!(refused.pattern, "[unterminated");
    assert!(matches!(refused.cause, regex::Error::Syntax(_)));
    for kind in [MatchKind::RegexMatch, MatchKind::RegexNotMatch] {
        match Matcher::new(kind, "[unterminated") {
            Err(e) => assert_eq!(e.pattern, "[unterminated"),
            Ok(_) => panic!("a pattern that does not compile gives no predicate"),
        }
    }
}

#[test]
fn full_text_predicates_take_any_pattern() {
    let plain = Matcher::new(MatchKind::MatchAll, "[unterminated").unwrap();
    assert!(plain.evaluate("x [unterminated y"));
    assert!(!plain.evaluate("x [UNTERMINATED y"));
    let folded = Matcher::new(MatchKind::MatchAllIgnoreCase, "[Unterminated").unwrap();
    assert!(folded.evaluate("x [UNTERMINATED y"));
}

#[test]
fn matcher_applies_each_predicate() {
    let m = Matcher::new(MatchKind::MatchAll, "wor").unwrap();
    assert!(m.evaluate("hello world"));
    assert!(!m.evaluate("hello WORLD"));
    let m = Matcher::new(MatchKind::MatchAllIgnoreCase, "WOR").unwrap();
    assert!(m.evaluate("hello world"));
    let m = Matcher::new(MatchKind::RegexMatch, "^a.c$").unwrap();
    assert!(m.evaluate("abc"));
    assert!(!m.evaluate("abcd"));
    let m = Matcher::new(MatchKind::RegexNotMatch, "^a.c$").unwrap();
    assert!(!m.evaluate("abc"));
    assert!(m.evaluate("abcd"));
}

#[test]
fn names_resolve_to_their_predicates() {
    assert_eq!(MatchKind::from_name("match_all"), Some(MatchKind::MatchAll));
    assert_eq!(MatchKind::from_name("str_match"), Some(MatchKind::MatchAll));
    assert_eq!(
        MatchKind::from_name("str_match_ignore_case"),
        Some(MatchKind::MatchAllIgnoreCase)
    );
    assert_eq!(MatchKind::from_name("re_match"), Some(MatchKind::RegexMatch));
    assert_eq!(MatchKind::from_name("re_not_match"), Some(MatchKind::RegexNotMatch));
    assert_eq!(MatchKind::from_name("match_all_raw"), None);
    assert_eq!(MatchKind::from_name("STR_MATCH"), None);
    assert_eq!(MatchKind::from_name(""), None);
    for kind in [
        MatchKind::MatchAll,
        MatchKind::MatchAllIgnoreCase,
        MatchKind::RegexMatch,
        MatchKind::RegexNotMatch,
    ] {
        assert_eq!(MatchKind::from_name(kind.name()), Some(kind));
    }
}

#[test]
fn aliased_names_give_the_same_answer() {
    let cases = [("hello world", "wor"), ("hello world", "WOR"), ("", ""), ("abc", "abcd")];
    for (value, pattern) in cases {
        let first = Matcher::for_name("match_all", pattern).unwrap();
        let second = Matcher::for_name("str_match", pattern).unwrap();
        assert_eq!(first.evaluate(value), second.evaluate(value));
        assert_eq!(first.evaluate(value), match_all(value, pattern));
    }
}

#[test]
fn for_name_refuses_unknown_names_and_bad_patterns() {
    assert!(matches!(
        Matcher::for_name("no_such_function", "x"),
        Err(PrepareError::UnknownFunction)
    ));
    match Matcher::for_name("re_match", "[unterminated") {
        Err(PrepareError::Pattern(e)) => assert_eq!(e.pattern, "[unterminated"),
        _ => panic!("the pattern does not compile"),
    }
    let m = Matcher::for_name("re_not_match", "[0-9]+").unwrap();
    assert!(m.evaluate("abc"));
    assert!(!m.evaluate("abc123"));
}

#[test]
fn from_outcome_keeps_what_the_compiler_made() {
    let kept = CompiledPattern::from_outcome("a+", regex::Regex::new("a+")).unwrap();
    assert_eq!(kept.pattern(), "a+");
    assert!(regex_match("caat", &kept));
    assert!(regex_not_match("ct", &kept));
    let refused = CompiledPattern::from_outcome("(", regex::Regex::new("(")).unwrap_err();
    assert_eq!(refused.pattern, "(");
    assert_eq!(refused.cause, regex::Regex::new("(").unwrap_err());
}

#[test]
fn prepared_follows_the_name_and_the_pattern() {
    let made = Matcher::new(MatchKind::MatchAll, "b");
    assert!(matches!(Matcher::prepared(None, made), Err(PrepareError::UnknownFunction)));
    let made = Matcher::new(MatchKind::MatchAll, "b");
    let ready = Matcher::prepared(Some(MatchKind::MatchAll), made).unwrap();
    assert!(ready.evaluate("abc"));
    let made = Matcher::new(MatchKind::RegexMatch, "(");
    match Matcher::prepared(Some(MatchKind::RegexMatch), made) {
        Err(PrepareError::Pattern(e)) => assert_eq!(e.pattern, "("),
        _ => panic!("the pattern does not compile"),
    }
}
