use bookmarks_browser::text::{decimal, escape_quoted, is_white_space, strip_white_space};

#[test]
fn decimal_writes_numbers_without_leading_zeros() {
    assert_eq!(decimal(0), "0");
    assert_eq!(decimal(7), "7");
    assert_eq!(decimal(10), "10");
    assert_eq!(decimal(404), "404");
    assert_eq!(decimal(500), "500");
    assert_eq!(decimal(9999), "9999");
    assert_eq!(decimal(65535), "65535");
}

#[test]
fn decimal_agrees_with_the_standard_formatting() {
    let mut n: u16 = 0;
    loop {
        assert_eq!(decimal(n), format!("{}", n));
        if n == u16::MAX {
            break;
        }
        n += 1;
    }
}

#[test]
fn white_space_is_what_the_standard_library_calls_so() {
    let mut code: u32 = 0;
    while code <= 0x10FFFF {
        if let Some(c) = char::from_u32(code) {
            assert_eq!(is_white_space(c), c.is_whitespace(), "U+{:04X}", code);
        }
        code += 1;
    }
}

#[test]
fn strip_white_space_removes_it_everywhere() {
    assert_eq!(strip_white_space(""), "");
    assert_eq!(strip_white_space("abc"), "abc");
    assert_eq!(strip_white_space(" a b\tc\n"), "abc");
    assert_eq!(strip_white_space("aGVs\nbG8=\n"), "aGVsbG8=");
    assert_eq!(strip_white_space("\r\n \t"), "");
    assert_eq!(strip_white_space("a\u{00A0}b\u{3000}c\u{2028}d"), "abcd");
    assert_eq!(strip_white_space("é x ü"), "éxü");
}

#[test]
fn escape_quoted_puts_a_backslash_before_quotes() {
    assert_eq!(escape_quoted("", false), "");
    assert_eq!(escape_quoted("user/bookmarks", false), "user/bookmarks");
    assert_eq!(escape_quoted("o'neil/b'marks", false), "o\\'neil/b\\'marks");
    assert_eq!(escape_quoted("a\\b", false), "a\\b");
    assert_eq!(escape_quoted("'", false), "\\'");
}

#[test]
fn escape_quoted_escapes_backslashes_where_asked() {
    assert_eq!(escape_quoted("a\\b", true), "a\\\\b");
    assert_eq!(escape_quoted("it's a \\ test", true), "it\\'s a \\\\ test");
    assert_eq!(escape_quoted("\\'", true), "\\\\\\'");
    assert_eq!(
        escape_quoted("Push failed: can't", true),
        "Push failed: can't".replace('\\', "\\\\").replace('\'', "\\'")
    );
}
