use docln_fetch::text::{
    concat_texts, from_chars, join, replace_all, same_text, text_contains, text_ends_with,
    texts_contain, to_chars, to_hex, trim, usize_to_string,
};

#[test]
fn chars_round_trip() {
    let chars = to_chars("a多b");
    assert_eq!(chars, vec!['a', '多', 'b']);
    assert_eq!(from_chars(&chars, 0, 3), "a多b");
    assert_eq!(from_chars(&chars, 1, 2), "多");
    assert_eq!(from_chars(&chars, 2, 2), "");
}

#[test]
fn same_text_compares_characters() {
    assert!(same_text("href", "href"));
    assert!(!same_text("href", "hre"));
    assert!(!same_text("href", "hreg"));
    assert!(same_text("", ""));
}

#[test]
fn trim_removes_whitespace_at_both_ends() {
    assert_eq!(trim("  My Book \n"), "My Book");
    assert_eq!(trim("\u{3000}\t标题 a\u{a0}"), "标题 a");
    assert_eq!(trim("x"), "x");
}

#[test]
fn trim_of_blank_text_is_empty() {
    assert_eq!(trim(" \n\t "), "");
    assert_eq!(trim(""), "");
}

#[test]
fn trim_agrees_with_std() {
    for s in ["", " a", "a ", " a b ", "\r\n x \u{2003}", "no-space", "\u{85}y"] {
        assert_eq!(trim(s), s.trim());
    }
}

#[test]
fn contains_finds_a_fragment_anywhere() {
    assert!(text_contains("Tác giả: Jane", "giả:"));
    assert!(text_contains("abc", "abc"));
    assert!(text_contains("abc", "c"));
    assert!(text_contains("abc", ""));
    assert!(text_contains("", ""));
    assert!(!text_contains("abc", "abcd"));
    assert!(!text_contains("abc", "ca"));
    assert!(!text_contains("", "a"));
}

#[test]
fn texts_contain_looks_in_every_text() {
    let texts = vec!["one".to_string(), "two".to_string()];
    assert!(texts_contain(&texts, "wo"));
    assert!(!texts_contain(&texts, "three"));
    assert!(!texts_contain(&Vec::new(), ""));
}

#[test]
fn ends_with_looks_at_the_end() {
    assert!(text_ends_with("a.png", ".png"));
    assert!(text_ends_with("a.png", ""));
    assert!(!text_ends_with("a.png.txt", ".png"));
    assert!(!text_ends_with("png", ".png"));
}

#[test]
fn replace_all_replaces_every_occurrence() {
    assert_eq!(replace_all("a-b-c", "-", "+"), "a+b+c");
    assert_eq!(replace_all("^{title}$ {title}", "{title}", "第一章"), "^第一章$ 第一章");
    assert_eq!(replace_all("abc", "x", "y"), "abc");
    assert_eq!(replace_all("", "x", "y"), "");
}

#[test]
fn replace_all_scans_from_the_left() {
    assert_eq!(replace_all("aaa", "aa", "b"), "ba");
    assert_eq!(replace_all("aaaa", "aa", "a"), "aa");
}

#[test]
fn replace_all_of_nothing_goes_between_all_characters() {
    assert_eq!(replace_all("abc", "", "-"), "-a-b-c-");
    assert_eq!(replace_all("", "", "-"), "-");
}

#[test]
fn replace_all_agrees_with_std() {
    let cases = [
        ("<img src=\"a.png\"><img src=\"a.png\">", "a.png", "../Images/x.png"),
        ("abab", "ab", ""),
        ("abab", "ba", "x"),
        ("多多多", "多多", "少"),
        ("xyz", "", "多"),
    ];
    for (s, from, to) in cases {
        assert_eq!(replace_all(s, from, to), s.replace(from, to));
    }
}

#[test]
fn decimal_notation() {
    assert_eq!(usize_to_string(0), "0");
    assert_eq!(usize_to_string(7), "7");
    assert_eq!(usize_to_string(10), "10");
    assert_eq!(usize_to_string(12), "12");
    assert_eq!(usize_to_string(1000), "1000");
    assert_eq!(usize_to_string(usize::MAX), format!("{}", usize::MAX));
}

#[test]
fn hexadecimal_notation() {
    assert_eq!(to_hex(&vec![0x00, 0x0f, 0xa0, 0xff, 0x19]), "000fa0ff19");
    assert_eq!(to_hex(&Vec::new()), "");
}

#[test]
fn join_puts_the_separator_between() {
    let parts = vec!["a".to_string(), "b".to_string(), "c".to_string()];
    assert_eq!(join(&parts, ", "), "a, b, c");
    assert_eq!(join(&parts, ""), "abc");
    assert_eq!(join(&vec!["only".to_string()], ", "), "only");
    assert_eq!(join(&Vec::new(), ", "), "");
    assert_eq!(concat_texts(&parts), "abc");
}

#[test]
fn whitespace_is_the_unicode_property() {
    let spaces: Vec<u32> = vec![
        0x09, 0x0a, 0x0b, 0x0c, 0x0d, 0x20, 0x85, 0xa0, 0x1680, 0x2000, 0x2001, 0x2002, 0x2003,
        0x2004, 0x2005, 0x2006, 0x2007, 0x2008, 0x2009, 0x200a, 0x2028, 0x2029, 0x202f, 0x205f,
        0x3000,
    ];
    let mut text = String::new();
    for n in 0..=0x10ffff_u32 {
        let Some(c) = char::from_u32(n) else {
            continue;
        };
        text.clear();
        text.push(c);
        assert_eq!(trim(&text).is_empty(), spaces.contains(&n), "code point {:x}", n);
    }
}

#[test]
fn an_ordinary_word_is_not_blank() {
    assert_eq!(trim("word"), "word");
    assert_eq!(trim("\u{200b}"), "\u{200b}");
    assert_eq!(trim("\u{feff}x"), "\u{feff}x");
}
