use webdriver_manager::text::{
    char_is_ascii_digit, char_is_whitespace, chars_of, contains, matches_at, slice_of, text_eq,
};

#[test]
fn characters_of_a_text() {
    assert_eq!(chars_of("a\u{e9}b"), vec!['a', '\u{e9}', 'b']);
    assert_eq!(chars_of(""), Vec::<char>::new());
}

#[test]
fn slices_count_characters() {
    assert_eq!(slice_of("a\u{e9}bc", 1, 3), "\u{e9}b");
    assert_eq!(slice_of("abc", 0, 3), "abc");
    assert_eq!(slice_of("abc", 2, 2), "");
}

#[test]
fn whitespace_is_what_std_takes_for_it() {
    for code in 0u32..0x11_0000 {
        if let Some(c) = char::from_u32(code) {
            assert_eq!(char_is_whitespace(c), c.is_whitespace(), "U+{:04X}", code);
            assert_eq!(char_is_ascii_digit(c), c.is_ascii_digit(), "U+{:04X}", code);
        }
    }
}

#[test]
fn finds_a_pattern() {
    assert!(contains("Google Chrome 1.2", "Chrome"));
    assert!(contains("chrome", "chrome"));
    assert!(contains("abc", ""));
    assert!(contains("", ""));
    assert!(!contains("", "a"));
    assert!(!contains("chrom", "chrome"));
    assert!(!contains("Chrome", "chrome"));
    assert!(contains("aab", "ab"));
}

#[test]
fn matches_at_a_position() {
    let text = chars_of("Version=1");
    assert!(matches_at(&text, &chars_of("Version="), 0));
    assert!(!matches_at(&text, &chars_of("Version="), 1));
    assert!(matches_at(&text, &chars_of("=1"), 7));
    assert!(!matches_at(&text, &chars_of("=1"), 8));
    assert!(matches_at(&text, &chars_of(""), 9));
    assert!(!matches_at(&text, &chars_of(""), 10));
}

#[test]
fn compares_texts() {
    assert!(text_eq("linux", "linux"));
    assert!(!text_eq("linux", "linu"));
    assert!(!text_eq("linux", "linuy"));
    assert!(text_eq("", ""));
}
