use proxy_core::text::{
    chars_of, contains, decimal_chars, is_whitespace, join, join_strings, lines, matches_at,
    replace, same_text, slice_chars, starts_with_char, string_of, trim, wrap_each,
};

fn c(text: &str) -> Vec<char> {
    chars_of(text)
}

fn s(chars: &Vec<char>) -> String {
    string_of(chars)
}

fn line_texts(text: &str) -> Vec<String> {
    lines(&c(text)).iter().map(s).collect()
}

#[test]
fn characters_and_back() {
    assert_eq!(c("a\u{e9}\u{4e2d}"), vec!['a', '\u{e9}', '\u{4e2d}']);
    assert_eq!(s(&vec!['x', '\u{2713}']), "x\u{2713}");
    assert_eq!(s(&vec![]), "");
    assert_eq!(s(&slice_chars(&c("hello"), 1, 3)), "el");
    assert!(same_text("abc", "abc"));
    assert!(!same_text("abc", "abd"));
    assert!(!same_text("abc", "ab"));
}

#[test]
fn lines_split_at_line_feeds() {
    assert_eq!(line_texts(""), Vec::<String>::new());
    assert_eq!(line_texts("\n"), vec![""]);
    assert_eq!(line_texts("a"), vec!["a"]);
    assert_eq!(line_texts("a\n"), vec!["a"]);
    assert_eq!(line_texts("a\n\nb"), vec!["a", "", "b"]);
    assert_eq!(line_texts("a\r\nb\r\n"), vec!["a", "b"]);
    assert_eq!(line_texts("a\rb\n"), vec!["a\rb"]);
    assert_eq!(line_texts("a\r"), vec!["a\r"]);
    assert_eq!(line_texts("\r\n\r\n"), vec!["", ""]);
    for text in ["", "x", "x\n", "\n\nx\r\n\r", "one\ntwo\r\nthree"] {
        let expected: Vec<String> = text.lines().map(|l| l.to_string()).collect();
        assert_eq!(line_texts(text), expected, "lines of {:?}", text);
    }
}

#[test]
fn trimming_removes_white_space_at_both_ends() {
    assert_eq!(s(&trim(&c("  a b \t\r\n"))), "a b");
    assert_eq!(s(&trim(&c(""))), "");
    assert_eq!(s(&trim(&c(" \n\t "))), "");
    assert_eq!(s(&trim(&c("x"))), "x");
    assert_eq!(s(&trim(&c("\u{2003}x\u{85}"))), "x");
    for text in ["", " ", " a", "a ", "\u{a0}a\u{3000}", "\u{b}\u{c}z\u{1680}\u{2028}\u{2029}\u{202f}\u{205f}", "\u{200b}a"] {
        assert_eq!(s(&trim(&c(text))), text.trim(), "trim of {:?}", text);
    }
    for code in 0u32..0x3100 {
        if let Some(ch) = char::from_u32(code) {
            assert_eq!(is_whitespace(ch), ch.is_whitespace(), "U+{:04X}", code);
        }
    }
}

#[test]
fn searching() {
    assert!(contains(&c("hello world"), &c("o w")));
    assert!(contains(&c("hello"), &c("hello")));
    assert!(contains(&c("hello"), &c("")));
    assert!(contains(&c(""), &c("")));
    assert!(!contains(&c("hello"), &c("hellos")));
    assert!(!contains(&c(""), &c("a")));
    assert!(!contains(&c("abab"), &c("bb")));
    assert!(matches_at(&c("abc"), &c("bc"), 1));
    assert!(!matches_at(&c("abc"), &c("bc"), 2));
    assert!(!matches_at(&c("abc"), &c("bc"), 7));
    assert!(matches_at(&c("abc"), &c(""), 3));
    assert!(starts_with_char(&c("!x"), '!'));
    assert!(!starts_with_char(&c(""), '!'));
}

#[test]
fn replacing_goes_from_left_to_right() {
    assert_eq!(s(&replace(&c("aaa"), &c("aa"), &c("b"))), "ba");
    assert_eq!(s(&replace(&c("a-b-c"), &c("-"), &c("--"))), "a--b--c");
    assert_eq!(s(&replace(&c("abc"), &c("abc"), &c(""))), "");
    assert_eq!(s(&replace(&c("abc"), &c("x"), &c("y"))), "abc");
    assert_eq!(s(&replace(&c(""), &c("x"), &c("y"))), "");
    assert_eq!(s(&replace(&c("abc"), &c(""), &c("y"))), "abc");
    for (text, from, to) in [("xxyxx", "xx", "x"), ("__A____A__", "__A__", "1"), ("abcabc", "bc", "cb")] {
        assert_eq!(s(&replace(&c(text), &c(from), &c(to))), text.replace(from, to));
    }
}

#[test]
fn numerals() {
    assert_eq!(s(&decimal_chars(0)), "0");
    assert_eq!(s(&decimal_chars(9)), "9");
    assert_eq!(s(&decimal_chars(10)), "10");
    assert_eq!(s(&decimal_chars(65535)), "65535");
    assert_eq!(s(&decimal_chars(u64::MAX)), "18446744073709551615");
}

#[test]
fn joining() {
    assert_eq!(s(&join(&vec![], &c(", "))), "");
    assert_eq!(s(&join(&vec![c("a")], &c(", "))), "a");
    assert_eq!(s(&join(&vec![c("a"), c(""), c("b")], &c(", "))), "a, , b");
    assert_eq!(join_strings(&vec!["x".to_string(), "y".to_string()], ","), "x,y");
    assert_eq!(join_strings(&vec![], ","), "");
    let wrapped = wrap_each(&vec!["a".to_string(), "b".to_string()], "<", ">");
    assert_eq!(s(&join(&wrapped, &c(""))), "<a><b>");
}
