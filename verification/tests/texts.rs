use work_driver::notifier::{alert_arguments, classify, Kind};
use work_driver::text::{
    chars_of, contains, find, join, replace, same, split, starts_with, to_decimal,
};

#[test]
fn find_gives_the_first_character_position() {
    assert_eq!(find("hello world", "o"), Some(4));
    assert_eq!(find("hello world", "world"), Some(6));
    assert_eq!(find("hello", "xyz"), None);
    assert_eq!(find("hello", ""), Some(0));
    assert_eq!(find("", ""), Some(0));
    assert_eq!(find("", "a"), None);
    assert_eq!(find("ab", "abc"), None);
    assert_eq!(find("h\u{e9}llo w\u{f6}rld", "w"), Some(6));
    assert_eq!(find("aaab", "aab"), Some(1));
}

#[test]
fn contains_and_starts_with() {
    assert!(contains("PR #1 'x' has failing checks", "has failing checks"));
    assert!(!contains("PR #1 'x' has failing check", "has failing checks"));
    assert!(contains("abc", ""));
    assert!(starts_with("PR #12", "PR #"));
    assert!(!starts_with("A PR #12", "PR #"));
    assert!(!starts_with("PR", "PR #"));
    assert!(starts_with("", ""));
}

#[test]
fn same_compares_whole_texts() {
    assert!(same("abc", "abc"));
    assert!(!same("abc", "abd"));
    assert!(!same("abc", "ab"));
    assert!(!same("ab", "abc"));
    assert!(same("", ""));
}

#[test]
fn replace_scans_from_the_left() {
    assert_eq!(replace("a-b-c", "-", "+"), "a+b+c");
    assert_eq!(replace("aaa", "aa", "b"), "ba");
    assert_eq!(replace("abc", "x", "y"), "abc");
    assert_eq!(replace("abc", "", "y"), "abc");
    assert_eq!(replace("abcabc", "abc", ""), "");
    assert_eq!(replace("xabc", "abc", "abcabc"), "xabcabc");
    assert_eq!(replace("", "a", "b"), "");
    assert_eq!(replace("\u{e9}t\u{e9}", "\u{e9}", "e"), "ete");
}

#[test]
fn split_has_one_piece_more_than_separators() {
    assert_eq!(split("a:b:c", ':'), vec!["a", "b", "c"]);
    assert_eq!(split("", ':'), vec![""]);
    assert_eq!(split(":", ':'), vec!["", ""]);
    assert_eq!(split("a:", ':'), vec!["a", ""]);
    assert_eq!(split("abc", ':'), vec!["abc"]);
}

#[test]
fn decimal_numerals() {
    assert_eq!(to_decimal(0), "0");
    assert_eq!(to_decimal(7), "7");
    assert_eq!(to_decimal(10), "10");
    assert_eq!(to_decimal(591746), "591746");
    assert_eq!(to_decimal(u64::MAX), "18446744073709551615");
}

#[test]
fn join_puts_the_separator_between() {
    assert_eq!(join(&Vec::new(), ", "), "");
    assert_eq!(join(&vec!["a".to_string()], ", "), "a");
    assert_eq!(join(&vec!["a".to_string(), "b".to_string(), "".to_string()], ", "), "a, b, ");
}

#[test]
fn chars_are_kept_in_order() {
    assert_eq!(chars_of("h\u{e9}!"), vec!['h', '\u{e9}', '!']);
    assert!(chars_of("").is_empty());
}

#[test]
fn kinds_follow_the_markers() {
    assert_eq!(classify("PR #1 'x' has failing checks"), Some(Kind::FailingChecks));
    assert_eq!(classify("PR #1 'x' awaiting your review"), Some(Kind::ReviewWaiting));
    assert_eq!(
        classify("PR #1 'x' is draft with all checks passing"),
        Some(Kind::DraftReady)
    );
    assert_eq!(classify("Flag 'x' [a:b:c] in staging"), Some(Kind::FlagRollout));
    assert_eq!(classify("Flag x"), None);
    assert_eq!(classify(""), None);
}

#[test]
fn alert_arguments_name_the_page() {
    assert_eq!(
        alert_arguments("1 failing check", "/home/me/Desktop/work-driver-issues.html"),
        vec![
            "-title",
            "Work Driver",
            "-message",
            "1 failing check",
            "-sound",
            "Blow",
            "-execute",
            "open -a 'Google Chrome' /home/me/Desktop/work-driver-issues.html",
        ]
    );
}
