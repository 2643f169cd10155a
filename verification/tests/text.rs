use bux::bytes::{read_be32, write_be16, write_be32, write_be64};
use bux::text::{
    chars_to_string, concat2, concat3, contains_char, decimal, decimal_signed, dedup, ends_with,
    find_char, hex_bytes, hex_padded, in_list, is_whitespace, parse_i32, parse_unsigned, path_join,
    replace_chars, rfind_char, rsplit_once, split_once, starts_with, str_eq, to_ascii_lowercase,
    to_ascii_uppercase, trim,
};

#[test]
fn big_endian_writes() {
    let mut buf = vec![0xffu8; 12];
    write_be16(&mut buf, 1, 0x1234);
    assert_eq!(&buf[..4], &[0xff, 0x12, 0x34, 0xff]);
    write_be32(&mut buf, 4, 0xdead_beef);
    assert_eq!(&buf[4..8], &[0xde, 0xad, 0xbe, 0xef]);
    assert_eq!(read_be32(&buf, 4), 0xdead_beef);
    let mut buf = vec![0u8; 8];
    write_be64(&mut buf, 0, 0x0102_0304_0506_0708);
    assert_eq!(buf, vec![1, 2, 3, 4, 5, 6, 7, 8]);
}

#[test]
fn strings_are_joined_and_searched() {
    assert_eq!(concat2("ab", "cd"), "abcd");
    assert_eq!(concat3("a", "", "c"), "ac");
    assert!(str_eq("abc", "abc") && !str_eq("abc", "abd") && !str_eq("", "a"));
    assert_eq!(find_char("a:b:c", ':'), Some(1));
    assert_eq!(rfind_char("a:b:c", ':'), Some(3));
    assert_eq!(find_char("abc", ':'), None);
    assert!(contains_char("a.b", '.') && !contains_char("ab", '.'));
    assert_eq!(split_once("k=v=w", '='), Some(("k", "v=w")));
    assert_eq!(rsplit_once("k=v=w", '='), Some(("k=v", "w")));
    assert_eq!(split_once("kv", '='), None);
    assert!(starts_with("prefix-x", "prefix") && !starts_with("pre", "prefix") && starts_with("x", ""));
    assert!(ends_with("a.raw", ".raw") && !ends_with("raw", ".raw") && ends_with("x", ""));
    // Characters, not bytes, are counted.
    assert_eq!(find_char("héllo:x", ':'), Some(5));
    assert_eq!(split_once("héllo:wörld", ':'), Some(("héllo", "wörld")));
}

#[test]
fn white_space_is_trimmed() {
    assert_eq!(trim("  a b \t\n"), "a b");
    assert_eq!(trim("\u{a0}x\u{3000}"), "x");
    assert_eq!(trim("   "), "");
    assert_eq!(trim(""), "");
    assert_eq!(trim("x"), "x");
    for c in ['\t', '\n', '\u{b}', '\u{c}', '\r', ' ', '\u{85}', '\u{a0}', '\u{1680}', '\u{2000}', '\u{200a}', '\u{2028}', '\u{2029}', '\u{202f}', '\u{205f}', '\u{3000}'] {
        assert!(is_whitespace(c), "{c:?}");
        assert!(c.is_whitespace());
    }
    for c in ['a', '0', '\u{200b}', '\u{feff}', '\u{1c}', '\0'] {
        assert_eq!(is_whitespace(c), c.is_whitespace(), "{c:?}");
    }
}

#[test]
fn paths_are_joined() {
    assert_eq!(path_join("/a", "b"), "/a/b");
    assert_eq!(path_join("/a/", "b"), "/a/b");
    assert_eq!(path_join("", "b"), "b");
    assert_eq!(path_join("/a", "/b"), "/b");
    assert_eq!(path_join("/a", ""), "/a/");
    for (base, name) in [("/a", "b"), ("/a/", "b"), ("", "b"), ("/a", "/b"), ("a", "b/c")] {
        assert_eq!(
            path_join(base, name),
            std::path::Path::new(base).join(name).to_string_lossy()
        );
    }
}

#[test]
fn numbers_are_written_and_read() {
    assert_eq!(decimal(0), "0");
    assert_eq!(decimal(1234567890), "1234567890");
    assert_eq!(decimal(u64::MAX), "18446744073709551615");
    assert_eq!(decimal_signed(-1), "-1");
    assert_eq!(decimal_signed(i64::MIN), "-9223372036854775808");
    assert_eq!(decimal_signed(42), "42");
    assert_eq!(hex_padded(0xabc, 6), "000abc");
    assert_eq!(hex_padded(0xabcdef12, 4), "abcdef12");
    assert_eq!(hex_padded(0, 0), "0");
    assert_eq!(hex_bytes(&[0x00, 0x0f, 0xa5, 0xff]), "000fa5ff");
    assert_eq!(hex_bytes(&[]), "");
    assert_eq!(parse_unsigned("0", 10), Some(0));
    assert_eq!(parse_unsigned("10", 10), Some(10));
    assert_eq!(parse_unsigned("11", 10), None);
    assert_eq!(parse_unsigned("007", 10), Some(7));
    assert_eq!(parse_unsigned("+5", 10), Some(5));
    assert_eq!(parse_unsigned("+", 10), None);
    assert_eq!(parse_unsigned("", 10), None);
    assert_eq!(parse_unsigned("1a", 10), None);
    assert_eq!(parse_unsigned("18446744073709551615", u64::MAX), Some(u64::MAX));
    assert_eq!(parse_unsigned("18446744073709551616", u64::MAX), None);
    assert_eq!(parse_unsigned("99999999999999999999999", 5), None);
    for s in ["0", "-0", "+0", "2147483647", "-2147483648", "2147483648", "-2147483649", "", "-", "+", "1x", " 1", "٣"] {
        assert_eq!(parse_i32(s), s.parse::<i32>().ok(), "{s:?}");
    }
}

#[test]
fn letters_and_lists() {
    assert_eq!(to_ascii_lowercase("AbC-é-Z"), "abc-é-z");
    assert_eq!(to_ascii_uppercase("AbC-é-z"), "ABC-é-Z");
    assert_eq!(replace_chars("a/b:c/d", '/', ':', '_'), "a_b_c_d");
    assert_eq!(chars_to_string(&vec!['h', 'é', 'y']), "héy");
    let list: Vec<String> = ["a", "b", "a", "c", "b"].iter().map(|s| s.to_string()).collect();
    assert!(in_list(&list, "c") && !in_list(&list, "d"));
    assert_eq!(dedup(&list), vec!["a", "b", "c"]);
}
