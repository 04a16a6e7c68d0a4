use ocr_insertion::text::{char_is_whitespace, contains, format_i32, format_u64, parse_u32, trim};

#[test]
fn whitespace_agrees_with_std() {
    let mut code: u32 = 0;
    while code <= 0x3100 {
        if let Some(c) = char::from_u32(code) {
            assert_eq!(char_is_whitespace(c), c.is_whitespace(), "U+{:04X}", code);
        }
        code += 1;
    }
    assert!(!char_is_whitespace('\u{FEFF}'));
}

#[test]
fn trim_agrees_with_std() {
    let samples = [
        "",
        " ",
        "  a  ",
        "\t\nHello World\r\n",
        "no-trim",
        "\u{3000}wide\u{2003}",
        " inner  space ",
        "x ",
        " x",
    ];
    for s in samples {
        assert_eq!(trim(s), s.trim());
    }
    assert_eq!(trim("  Hello  "), "Hello");
    assert_eq!(trim("h\u{e9}llo\u{a0}"), "h\u{e9}llo");
}

#[test]
fn contains_agrees_with_std() {
    let hays = ["", "a", "abc", "error 0x00000000 here", "0x0000000", "aaab", "xyz"];
    let needles = ["", "a", "ab", "bc", "0x00000000", "aab", "zz", "abcd"];
    for h in hays {
        for n in needles {
            assert_eq!(contains(h, n), h.contains(n), "{:?} in {:?}", n, h);
        }
    }
}

#[test]
fn decimal_numerals_are_exact() {
    assert_eq!(format_u64(0), "0");
    assert_eq!(format_u64(7), "7");
    assert_eq!(format_u64(10), "10");
    assert_eq!(format_u64(999), "999");
    assert_eq!(format_u64(1000), "1000");
    assert_eq!(format_u64(u64::MAX), "18446744073709551615");
    assert_eq!(format_i32(0), "0");
    assert_eq!(format_i32(-1), "-1");
    assert_eq!(format_i32(127), "127");
    assert_eq!(format_i32(i32::MIN), "-2147483648");
    assert_eq!(format_i32(i32::MAX), "2147483647");
}

#[test]
fn parse_u32_agrees_with_std() {
    let samples = [
        "", "+", "-", "0", "+0", "-0", "007", "42", "+42", "++42", "4294967295", "4294967296",
        "99999999999999999999999", "12a", "a12", " 12", "12 ", "1_000", "٣", "0x10", "４２",
    ];
    for s in samples {
        assert_eq!(parse_u32(s), s.parse::<u32>().ok(), "{:?}", s);
    }
    assert_eq!(parse_u32("4194311"), Some(4194311));
    assert_eq!(parse_u32("4294967296"), None);
}
