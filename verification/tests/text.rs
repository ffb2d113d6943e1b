use mmcli::text::{
    chars_of, contains, ends_with, eq_ignore_ascii_case, find, join, replace, split,
    split_whitespace, starts_with, string_of, trim,
};

fn chars(s: &str) -> Vec<char> {
    s.chars().collect()
}

fn text(v: Vec<char>) -> String {
    v.into_iter().collect()
}

#[test]
fn strings_and_characters_convert() {
    assert_eq!(chars_of("añ🔧"), vec!['a', 'ñ', '🔧']);
    assert_eq!(string_of(&chars("añ🔧")), "añ🔧");
    assert_eq!(string_of(&vec![]), "");
}

#[test]
fn substrings_are_found() {
    assert!(contains(&chars("socket head"), "head"));
    assert!(contains(&chars("socket head"), ""));
    assert!(!contains(&chars("head"), "socket head"));
    assert!(!contains(&chars("Head"), "head"));
    assert_eq!(find(&chars("abcabc"), &chars("bc")), Some(1));
    assert_eq!(find(&chars("abc"), &chars("")), Some(0));
    assert_eq!(find(&chars("abc"), &chars("d")), None);
    assert!(starts_with(&chars("thread size"), "thread"));
    assert!(!starts_with(&chars("th"), "thread"));
    assert!(ends_with(&chars("overall length"), " length"));
    assert!(!ends_with(&chars("length"), " length"));
}

#[test]
fn ascii_case_is_ignored() {
    assert!(eq_ignore_ascii_case("Finish", "fINISH"));
    assert!(!eq_ignore_ascii_case("Finish", "Finis"));
    assert!(!eq_ignore_ascii_case("É", "é"));
    assert!(!eq_ignore_ascii_case("@", "`"));
    assert!(!eq_ignore_ascii_case("[", "{"));
}

#[test]
fn occurrences_are_replaced() {
    assert_eq!(text(replace(&chars("1-3/8-x"), "-", "x")), "1x3/8xx");
    assert_eq!(text(replace(&chars("aaa"), "aa", "b")), "ba");
    assert_eq!(text(replace(&chars("25.4mm"), "mm", "")), "25.4");
    assert_eq!(text(replace(&chars("abc"), "", "x")), "abc");
    assert_eq!(text(replace(&chars(""), "a", "x")), "");
}

#[test]
fn whitespace_is_trimmed_and_split() {
    assert_eq!(text(trim(&chars("  a b \t\n"))), "a b");
    assert_eq!(text(trim(&chars("   "))), "");
    assert_eq!(text(trim(&chars("\u{a0}x\u{2003}"))), "x");
    assert_eq!(split_whitespace(&chars("  a  bc\td ")), vec!["a", "bc", "d"]);
    assert!(split_whitespace(&chars(" \n ")).is_empty());
    assert_eq!(split(&chars("a-b--c"), '-'), vec!["a", "b", "", "c"]);
    assert_eq!(split(&chars(""), '-'), vec![""]);
    assert_eq!(split(&chars("-"), '-'), vec!["", ""]);
}

#[test]
fn parts_are_joined() {
    let parts = vec!["a".to_string(), "".to_string(), "c".to_string()];
    assert_eq!(text(join(&parts, "-")), "a--c");
    assert_eq!(text(join(&vec!["a".to_string()], "-")), "a");
    assert_eq!(text(join(&vec![], "-")), "");
}
