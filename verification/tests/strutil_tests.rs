use doay_core::strutil::{
    find_char, first_line, split_lines, str_contains, str_ends_with, str_eq, trim, u16_to_string,
    u32_to_string,
};

#[test]
fn decimal_rendering() {
    assert_eq!(u32_to_string(0), "0");
    assert_eq!(u32_to_string(7), "7");
    assert_eq!(u32_to_string(10), "10");
    assert_eq!(u32_to_string(1086), "1086");
    assert_eq!(u32_to_string(4294967295), "4294967295");
    assert_eq!(u16_to_string(65535), "65535");
    assert_eq!(u16_to_string(80), "80");
}

#[test]
fn string_equality() {
    assert!(str_eq("", ""));
    assert!(str_eq("xray", "xray"));
    assert!(!str_eq("xray", "xray.exe"));
    assert!(!str_eq("a", "b"));
}

#[test]
fn substring_search() {
    assert!(str_contains("/home/u/.local/share/doay/ray/xray", "doay"));
    assert!(str_contains("doay", "doay"));
    assert!(str_contains("xdoay", "doay"));
    assert!(!str_contains("doa", "doay"));
    assert!(!str_contains("", "doay"));
    assert!(str_contains("abc", ""));
}

#[test]
fn suffix_test() {
    assert!(str_ends_with("/usr/bin/xray", "xray"));
    assert!(str_ends_with("xray", "xray"));
    assert!(!str_ends_with("xray-wrapper", "xray"));
    assert!(!str_ends_with("ray", "xray"));
}

#[test]
fn char_search_and_lines() {
    assert_eq!(find_char("ab\ncd", '\n'), Some(2));
    assert_eq!(find_char("abcd", '\n'), None);
    assert_eq!(first_line("Xray 1.0\nmore"), "Xray 1.0");
    assert_eq!(first_line("single"), "single");
    assert_eq!(first_line(""), "");
    assert_eq!(split_lines("a\nb\nc"), vec!["a", "b", "c"]);
    assert_eq!(split_lines("a\nb\n"), vec!["a", "b"]);
    assert_eq!(split_lines("a\n\nb"), vec!["a", "", "b"]);
    assert_eq!(split_lines(""), Vec::<String>::new());
}

#[test]
fn whitespace_trimming() {
    assert_eq!(trim("  Wi-Fi  "), "Wi-Fi");
    assert_eq!(trim("\tv1.0\r\n"), "v1.0");
    assert_eq!(trim("   "), "");
    assert_eq!(trim(""), "");
    assert_eq!(trim("a"), "a");
}
