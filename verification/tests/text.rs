use zfetch::text::{
    char_is_ascii_alphabetic, chars_of, contains_exec, lines_exec, occurs_at_exec, push_decimal,
    push_right_justified, push_spaces, push_wide_decimal, same_text, split_exec,
    starts_with_exec, str_contains, string_of, string_of_range, tail, trim_bounds, trim_exec,
    words_exec, CharClass,
};

fn cs(s: &str) -> Vec<char> {
    s.chars().collect()
}

fn parts(list: &[&str]) -> Vec<Vec<char>> {
    list.iter().map(|s| cs(s)).collect()
}

fn decimal(n: u64) -> String {
    let mut out = String::new();
    push_decimal(&mut out, n);
    out
}

#[test]
fn chars_and_back() {
    assert_eq!(chars_of("aé日"), vec!['a', 'é', '日']);
    assert_eq!(chars_of(""), Vec::<char>::new());
    assert_eq!(string_of(&cs("aé日")), "aé日");
    assert_eq!(string_of_range(&cs("abcdef"), 2, 4), "cd");
    assert_eq!(string_of_range(&cs("abcdef"), 3, 3), "");
    assert_eq!(tail(&cs("ID=arch"), 3), cs("arch"));
    assert_eq!(tail(&cs("abc"), 3), cs(""));
}

#[test]
fn decimal_numerals() {
    assert_eq!(decimal(0), "0");
    assert_eq!(decimal(7), "7");
    assert_eq!(decimal(10), "10");
    assert_eq!(decimal(1234567890), "1234567890");
    assert_eq!(decimal(u64::MAX), "18446744073709551615");
    let mut out = String::from("n=");
    push_decimal(&mut out, 42);
    assert_eq!(out, "n=42");
    let mut out = String::new();
    push_wide_decimal(&mut out, u128::MAX);
    push_wide_decimal(&mut out, 0);
    assert_eq!(out, "3402823669209384634633746074317682114550");
}

#[test]
fn spaces_and_justification() {
    let mut out = String::from("|");
    push_spaces(&mut out, 3);
    push_spaces(&mut out, 0);
    assert_eq!(out, "|   ");
    let mut out = String::new();
    push_right_justified(&mut out, "ab", 5);
    push_right_justified(&mut out, "abcdef", 5);
    push_right_justified(&mut out, "é", 2);
    assert_eq!(out, "   ababcdef é");
}

#[test]
fn substring_search() {
    assert!(str_contains("cachyos-desktop", "cachy"));
    assert!(str_contains("abc", ""));
    assert!(str_contains("", ""));
    assert!(str_contains("abc", "abc"));
    assert!(str_contains("abc", "c"));
    assert!(!str_contains("abc", "abcd"));
    assert!(!str_contains("abc", "ac"));
    assert!(!str_contains("", "a"));
    assert!(contains_exec(&cs("aab"), &cs("ab")));
    assert!(occurs_at_exec(&cs("hello"), &cs("ll"), 2));
    assert!(!occurs_at_exec(&cs("hello"), &cs("ll"), 3));
    assert!(!occurs_at_exec(&cs("hello"), &cs("lo"), 4));
    assert!(occurs_at_exec(&cs("hello"), &cs(""), 5));
    assert!(!occurs_at_exec(&cs("hello"), &cs(""), 6));
    assert!(starts_with_exec(&cs("ID=x"), &cs("ID=")));
    assert!(!starts_with_exec(&cs(" ID=x"), &cs("ID=")));
    assert!(!starts_with_exec(&cs("ID"), &cs("ID=")));
    assert!(same_text(&cs("abc"), &cs("abc")));
    assert!(!same_text(&cs("abc"), &cs("abd")));
    assert!(!same_text(&cs("abc"), &cs("ab")));
}

#[test]
fn split_on_a_character() {
    let slash = CharClass::Exactly('/');
    assert_eq!(split_exec(&cs("/usr/bin/zsh"), slash), parts(&["", "usr", "bin", "zsh"]));
    assert_eq!(split_exec(&cs("zsh"), slash), parts(&["zsh"]));
    assert_eq!(split_exec(&cs(""), slash), parts(&[""]));
    assert_eq!(split_exec(&cs("a//b/"), slash), parts(&["a", "", "b", ""]));
    assert_eq!(split_exec(&cs("/"), slash), parts(&["", ""]));
}

#[test]
fn words_are_runs_without_whitespace() {
    assert_eq!(words_exec(&cs("  Linux version\t6.1 \n")), parts(&["Linux", "version", "6.1"]));
    assert_eq!(words_exec(&cs("")), parts(&[]));
    assert_eq!(words_exec(&cs(" \t\n")), parts(&[]));
    assert_eq!(words_exec(&cs("a\u{2003}b\u{a0}c")), parts(&["a", "b", "c"]));
    assert_eq!(words_exec(&cs("a\u{200b}b")), parts(&["a\u{200b}b"]));
}

#[test]
fn lines_end_with_line_feeds() {
    assert_eq!(lines_exec(&cs("a\nb\n")), parts(&["a", "b"]));
    assert_eq!(lines_exec(&cs("a\nb")), parts(&["a", "b"]));
    assert_eq!(lines_exec(&cs("a\r\nb\r\n")), parts(&["a", "b"]));
    assert_eq!(lines_exec(&cs("a\n\nb")), parts(&["a", "", "b"]));
    assert_eq!(lines_exec(&cs("")), parts(&[]));
    assert_eq!(lines_exec(&cs("\n")), parts(&[""]));
    assert_eq!(lines_exec(&cs("a\r")), parts(&["a\r"]));
    assert_eq!(lines_exec(&cs("a\rb\n")), parts(&["a\rb"]));
    assert_eq!(lines_exec(&cs("a\r\r\n")), parts(&["a\r"]));
}

#[test]
fn lines_agree_with_the_standard_library() {
    for text in ["", "\n", "\r\n", "x", "x\n", "x\r\n", "x\ry\n", "\n\n", "a\nb\r\n\r\nc\r", "\r"] {
        let expected: Vec<Vec<char>> = text.lines().map(|l| l.chars().collect()).collect();
        assert_eq!(lines_exec(&cs(text)), expected);
    }
}

#[test]
fn trimming() {
    assert_eq!(trim_exec(&cs("  a b \n"), CharClass::Whitespace), "a b");
    assert_eq!(trim_exec(&cs(" \t "), CharClass::Whitespace), "");
    assert_eq!(trim_exec(&cs(""), CharClass::Whitespace), "");
    assert_eq!(trim_exec(&cs("\"quoted\""), CharClass::Exactly('"')), "quoted");
    assert_eq!(trim_exec(&cs("\"\"a\"b\"\""), CharClass::Exactly('"')), "a\"b");
    assert_eq!(trim_exec(&cs("\""), CharClass::Exactly('"')), "");
    assert_eq!(trim_bounds(&cs("  ab "), CharClass::Whitespace), (2, 4));
}

#[test]
fn trimming_agrees_with_the_standard_library() {
    for text in ["", " ", "a", " a", "a ", "\u{85}a\u{2028}", "\u{1680}x\u{202f}\u{205f}", "\u{200b}a", "\u{feff}a\u{180e}"] {
        assert_eq!(trim_exec(&cs(text), CharClass::Whitespace), text.trim());
    }
    for code in 0u32..=0x10FFFF {
        if let Some(c) = char::from_u32(code) {
            assert_eq!(CharClass::Whitespace.test(c), c.is_whitespace());
        }
    }
}

#[test]
fn ascii_letters() {
    for code in 0u32..=0x10FFFF {
        if let Some(c) = char::from_u32(code) {
            assert_eq!(char_is_ascii_alphabetic(c), c.is_ascii_alphabetic());
        }
    }
}
