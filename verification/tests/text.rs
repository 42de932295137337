use rot_management::text::{
    join, contains_char, contains_text, decimal_chars, eq_ignore_ascii_case, equals,
    find_char, find_text, first_word_of, is_space_char, slice, split_char, split_lines,
    split_words, starts_with, strip_prefix, strip_prefixes, to_ascii_lower, to_chars, trim,
};

fn chars(s: &str) -> Vec<char> {
    s.chars().collect()
}

fn text(v: &Vec<char>) -> String {
    v.iter().collect()
}

fn texts(v: &Vec<Vec<char>>) -> Vec<String> {
    v.iter().map(text).collect()
}

#[test]
fn characters_of_a_string() {
    assert_eq!(to_chars("a\u{25cf}b"), vec!['a', '\u{25cf}', 'b']);
    assert_eq!(to_chars(""), Vec::<char>::new());
}

#[test]
fn white_space_is_unicode_white_space() {
    for c in ['\t', '\n', '\u{b}', '\u{c}', '\r', ' ', '\u{85}', '\u{a0}', '\u{1680}', '\u{2000}',
        '\u{200a}', '\u{2028}', '\u{2029}', '\u{202f}', '\u{205f}', '\u{3000}']
    {
        assert!(is_space_char(c));
        assert!(c.is_whitespace());
    }
    for c in ['a', '0', '\u{8}', '\u{e}', '\u{200b}', '\u{25cf}', '\u{feff}'] {
        assert!(!is_space_char(c));
        assert!(!c.is_whitespace());
    }
}

#[test]
fn trim_agrees_with_std() {
    for s in ["", " ", "  a b \t\n", "a", "\u{a0}x\u{3000}", " \u{25cf} x"] {
        assert_eq!(text(&trim(&chars(s))), s.trim());
    }
}

#[test]
fn lines_agree_with_std() {
    for s in ["", "\n", "a", "a\n", "a\nb", "a\r\nb\r\n", "a\n\nb\n", "a\r", "\r\n", "a\rb\n"] {
        let expected: Vec<String> = s.lines().map(|l| l.to_string()).collect();
        assert_eq!(texts(&split_lines(&chars(s))), expected);
    }
}

#[test]
fn words_agree_with_std() {
    for s in ["", "  ", "a", " a  b\tc\n", "\u{a0}x\u{3000}y"] {
        let expected: Vec<String> = s.split_whitespace().map(|l| l.to_string()).collect();
        assert_eq!(texts(&split_words(&chars(s))), expected);
    }
    assert_eq!(text(&first_word_of(&chars("  one two"))), "one");
    assert_eq!(text(&first_word_of(&chars("   "))), "");
}

#[test]
fn fields_agree_with_std() {
    for s in ["", " ", "a b", "a  b", " a", "a "] {
        let expected: Vec<String> = s.split(' ').map(|l| l.to_string()).collect();
        assert_eq!(texts(&split_char(&chars(s), ' ')), expected);
    }
}

#[test]
fn prefixes() {
    assert!(starts_with(&chars("Version: 1"), "Version:"));
    assert!(starts_with(&chars("abc"), ""));
    assert!(!starts_with(&chars("Ver"), "Version:"));
    assert!(!starts_with(&chars("version: 1"), "Version:"));
    assert_eq!(text(&strip_prefixes(&chars("ababc"), "ab")), "c");
    assert_eq!(text(&strip_prefixes(&chars("abc"), "")), "abc");
    assert_eq!(text(&strip_prefixes(&chars("abc"), "x")), "abc");
    assert_eq!("ababc".trim_start_matches("ab"), "c");
    assert_eq!(strip_prefix(&chars("ababc"), "ab"), Some(chars("abc")));
    assert_eq!(strip_prefix(&chars("ababc"), "b"), None);
    assert_eq!(strip_prefix(&chars("ab"), "ab"), Some(chars("")));
}

#[test]
fn searching() {
    assert_eq!(find_char(&chars("a:b:c"), ':'), Some(1));
    assert_eq!(find_char(&chars("abc"), ':'), None);
    assert!(contains_char(&chars("a/b"), '/'));
    assert!(!contains_char(&chars(""), '/'));
    assert_eq!(find_text(&chars("a : b : c"), " : "), Some(1));
    assert_eq!(find_text(&chars("abc"), ""), Some(0));
    assert_eq!(find_text(&chars(""), ""), Some(0));
    assert_eq!(find_text(&chars("ab"), "abc"), None);
    assert_eq!(find_text(&chars("xxabc"), "abc"), Some(2));
    assert!(contains_text(&chars("x AvailableUpdate: y"), "AvailableUpdate:"));
    assert!(!contains_text(&chars("Available"), "AvailableUpdate:"));
}

#[test]
fn comparing() {
    assert!(equals(&chars("abc"), "abc"));
    assert!(!equals(&chars("abc"), "abd"));
    assert!(!equals(&chars("abc"), "ab"));
    assert!(eq_ignore_ascii_case(&chars("YeS"), "yes"));
    assert!(!eq_ignore_ascii_case(&chars("yes "), "yes"));
    assert!(!eq_ignore_ascii_case(&chars("yez"), "yes"));
    assert_eq!(to_ascii_lower('A'), 'a');
    assert_eq!(to_ascii_lower('Z'), 'z');
    assert_eq!(to_ascii_lower('a'), 'a');
    assert_eq!(to_ascii_lower('@'), '@');
    assert_eq!(to_ascii_lower('['), '[');
    assert_eq!(to_ascii_lower('\u{c4}'), '\u{c4}');
}

#[test]
fn slicing_and_joining() {
    assert_eq!(text(&slice(&chars("abcdef"), 1, 4)), "bcd");
    assert_eq!(text(&slice(&chars("abc"), 3, 3)), "");
    assert_eq!(text(&join(&chars("ab"), &chars("cd"))), "abcd");
    assert_eq!(text(&join(&chars(""), &chars(""))), "");
}

#[test]
fn decimal_digits() {
    for n in [0usize, 1, 9, 10, 11, 99, 100, 12345, usize::MAX] {
        assert_eq!(text(&decimal_chars(n)), n.to_string());
    }
}
