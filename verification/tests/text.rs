use carola::file::{content_type, extension, get_supported_filetypes, join};
use carola::text::{
    find_char, find_last, find_other, find_non_space, find_space, is_whitespace, next_token,
    starts_with, str_eq, to_chars, to_decimal, trimmed,
};

#[test]
fn decimal_numerals() {
    assert_eq!(to_decimal(0), "0");
    assert_eq!(to_decimal(7), "7");
    assert_eq!(to_decimal(10), "10");
    assert_eq!(to_decimal(13), "13");
    assert_eq!(to_decimal(404), "404");
    assert_eq!(to_decimal(1234567890), "1234567890");
    assert_eq!(to_decimal(usize::MAX), usize::MAX.to_string());
}

#[test]
fn whitespace_is_the_unicode_property() {
    for c in ['\t', '\n', '\u{b}', '\u{c}', '\r', ' ', '\u{85}', '\u{a0}', '\u{1680}', '\u{2000}',
        '\u{2005}', '\u{200a}', '\u{2028}', '\u{2029}', '\u{202f}', '\u{205f}', '\u{3000}']
    {
        assert!(is_whitespace(c));
        assert!(c.is_whitespace());
    }
    for c in ['a', '0', ':', '/', '\u{8}', '\u{e}', '\u{1f}', '\u{200b}', '\u{2060}', '\u{feff}'] {
        assert!(!is_whitespace(c));
        assert!(!c.is_whitespace());
    }
}

#[test]
fn whitespace_agrees_with_the_standard_library_on_every_character() {
    let mut code: u32 = 0;
    while code <= 0x10ffff {
        if let Some(c) = char::from_u32(code) {
            assert_eq!(is_whitespace(c), c.is_whitespace());
        }
        code += 1;
    }
}

#[test]
fn trimming() {
    assert_eq!(trimmed("  a b \t"), "a b");
    assert_eq!(trimmed("a"), "a");
    assert_eq!(trimmed(""), "");
    assert_eq!(trimmed(" \u{3000}\n"), "");
    assert_eq!(trimmed("\u{a0}\u{e9}t\u{e9} "), "\u{e9}t\u{e9}");
}

#[test]
fn searching() {
    let chars = to_chars("ab  cd:e/f");
    assert_eq!(chars.len(), 10);
    assert_eq!(find_space(&chars, 0), 2);
    assert_eq!(find_space(&chars, 4), 10);
    assert_eq!(find_non_space(&chars, 2), 4);
    assert_eq!(find_non_space(&chars, 10), 10);
    assert_eq!(find_char(&chars, ':', 0), 6);
    assert_eq!(find_char(&chars, ':', 7), 10);
    assert_eq!(find_other(&chars, 'a', 0), 1);
    assert_eq!(find_last(&chars, '/'), Some(8));
    assert_eq!(find_last(&chars, 'x'), None);
    assert_eq!(next_token(&chars, 0), Some((0, 2)));
    assert_eq!(next_token(&chars, 2), Some((4, 10)));
    assert_eq!(next_token(&chars, 10), None);
    assert!(starts_with(&chars, "ab "));
    assert!(starts_with(&chars, ""));
    assert!(!starts_with(&chars, "b"));
    assert!(!starts_with(&to_chars("HTT"), "HTTP"));
}

#[test]
fn string_equality() {
    assert!(str_eq("", ""));
    assert!(str_eq("GET", "GET"));
    assert!(!str_eq("GET", "GE"));
    assert!(!str_eq("GET", "GEt"));
    assert!(str_eq("\u{e9}", "\u{e9}"));
}

#[test]
fn content_types() {
    assert_eq!(content_type(Some("html")), "text/html");
    assert_eq!(content_type(Some("css")), "text/css");
    assert_eq!(content_type(Some("js")), "text/javascript");
    assert_eq!(content_type(Some("jpeg")), "image/jpeg");
    assert_eq!(content_type(Some("svg")), "image/svg+xml");
    assert_eq!(content_type(Some("mp4")), "video/mp4");
    assert_eq!(content_type(Some("txt")), "text/plain");
    assert_eq!(content_type(Some("HTML")), "text/plain");
    assert_eq!(content_type(Some("exe")), "text/plain");
    assert_eq!(content_type(Some("")), "text/plain");
    assert_eq!(content_type(None), "text/plain");
    let table = get_supported_filetypes();
    assert_eq!(table.len(), 19);
    assert_eq!(table[0], ("html", "text/html"));
    assert_eq!(table[18], ("mp4", "video/mp4"));
}

#[test]
fn extensions() {
    assert_eq!(extension("public/index.html"), Some("html".to_string()));
    assert_eq!(extension("a.b/c"), None);
    assert_eq!(extension("a/b.tar.gz"), Some("gz".to_string()));
    assert_eq!(extension("a/.hidden"), None);
    assert_eq!(extension("a/.hidden.txt"), Some("txt".to_string()));
    assert_eq!(extension("a/b."), Some(String::new()));
    assert_eq!(extension(""), None);
    assert_eq!(extension("a/"), None);
}

#[test]
fn joining() {
    assert_eq!(join("./public", "/index.html"), "./public/index.html");
    assert_eq!(join("./public/", "/index.html"), "./public/index.html");
    assert_eq!(join("public", "//a/b.css"), "public/a/b.css");
    assert_eq!(join("public", "a"), "public/a");
    assert_eq!(join("public", "/"), "public/");
    assert_eq!(join("", "/a"), "a");
}
