use bwmp::search::{contains, first_answer, name_answers};

#[test]
fn contains_finds_a_part() {
    assert!(contains("hello world", "lo w"));
    assert!(contains("hello", "hello"));
    assert!(contains("hello", "h"));
    assert!(contains("hello", "o"));
    assert!(contains("hello", ""));
    assert!(contains("", ""));
    assert!(contains("aab", "ab"));
    assert!(contains("na\u{ef}ve", "\u{ef}v"));
}

#[test]
fn contains_misses_what_is_not_there() {
    assert!(!contains("hello", "world"));
    assert!(!contains("hello", "hello!"));
    assert!(!contains("", "a"));
    assert!(!contains("abc", "ac"));
    assert!(!contains("Hello", "hello"));
}

#[test]
fn name_answers_whatever_the_case() {
    assert!(name_answers("Hello World", "hello"));
    assert!(name_answers("hello world", "HELLO"));
    assert!(name_answers("HeLLo", "hEllO"));
    assert!(name_answers("\u{c9}cole", "\u{e9}COLE"));
    assert!(!name_answers("hello", "help"));
}

#[test]
fn first_answer_is_the_first_by_index() {
    let names: Vec<String> = vec!["Alpha".into(), "Beta".into(), "alphabet".into(), "Gamma".into()];
    assert_eq!(first_answer(&names, "alpha"), Some(0));
    assert_eq!(first_answer(&names, "ALPHAB"), Some(2));
    assert_eq!(first_answer(&names, "eta"), Some(1));
    assert_eq!(first_answer(&names, "mm"), Some(3));
    assert_eq!(first_answer(&names, "a"), Some(0));
    assert_eq!(first_answer(&names, ""), Some(0));
}

#[test]
fn first_answer_is_nothing_without_a_match() {
    let names: Vec<String> = vec!["Alpha".into(), "Beta".into()];
    assert_eq!(first_answer(&names, "delta"), None);
    assert_eq!(first_answer(&Vec::new(), "a"), None);
    assert_eq!(first_answer(&Vec::new(), ""), None);
}
