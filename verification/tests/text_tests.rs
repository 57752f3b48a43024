use seeder::text::{split_all, parse_u32, replace_all, str_eq, chars_of};

#[test]
fn splitting() {
    assert_eq!(split_all("a;b;c", ';'), vec!["a", "b", "c"]);
    assert_eq!(split_all("", ';'), vec![""]);
    assert_eq!(split_all(";x;", ';'), vec!["", "x", ""]);
    assert_eq!(split_all("12:30", ':'), vec!["12", "30"]);
    assert_eq!(split_all("no separator", ';'), vec!["no separator"]);
}

#[test]
fn parsing_numbers() {
    assert_eq!(parse_u32("12"), Some(12));
    assert_eq!(parse_u32("+7"), Some(7));
    assert_eq!(parse_u32("007"), Some(7));
    assert_eq!(parse_u32("4294967295"), Some(u32::MAX));
    assert_eq!(parse_u32("4294967296"), None);
    assert_eq!(parse_u32("99999999999999999999"), None);
    assert_eq!(parse_u32(""), None);
    assert_eq!(parse_u32("+"), None);
    assert_eq!(parse_u32("-1"), None);
    assert_eq!(parse_u32(" 1"), None);
    assert_eq!(parse_u32("1a"), None);
    for s in ["0", "+0", "123", "65536", "+4294967295", "4294967296", "", "x", "++1", "١"] {
        assert_eq!(parse_u32(s), s.parse::<u32>().ok(), "{}", s);
    }
}

#[test]
fn replacing() {
    assert_eq!(
        replace_all("C:\\EA\\EADesktop.exe", "EADesktop.exe", "Link2EA.exe"),
        "C:\\EA\\Link2EA.exe"
    );
    assert_eq!(replace_all("aaa", "aa", "b"), "ba");
    assert_eq!(replace_all("abc", "x", "y"), "abc");
    for (s, f, t) in [("xaxbx", "x", "--"), ("aaaa", "aa", "a"), ("", "a", "b"), ("a\u{e9}a", "\u{e9}", "e")] {
        assert_eq!(replace_all(s, f, t), s.replace(f, t));
    }
}

#[test]
fn comparing_and_reading() {
    assert!(str_eq("abc", "abc"));
    assert!(!str_eq("abc", "abd"));
    assert!(!str_eq("ab", "abc"));
    assert_eq!(chars_of("h\u{e9}"), vec!['h', '\u{e9}']);
}
