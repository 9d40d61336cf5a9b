use rawst::text::{
    contains, decimal, is_white_space, join, path_segments, starts_with, trim, trim_slashes,
};

#[test]
fn path_segments_drop_empty_pieces() {
    assert_eq!(path_segments("/api//users/1/"), vec!["api", "users", "1"]);
    assert_eq!(path_segments(""), Vec::<String>::new());
    assert_eq!(path_segments("///"), Vec::<String>::new());
    assert_eq!(path_segments("users"), vec!["users"]);
}

#[test]
fn trim_slashes_strips_both_ends() {
    assert_eq!(trim_slashes("/api/"), "api");
    assert_eq!(trim_slashes("//a/b//"), "a/b");
    assert_eq!(trim_slashes("///"), "");
    assert_eq!(trim_slashes(""), "");
}

#[test]
fn trim_strips_white_space() {
    assert_eq!(trim("  users \n"), "users");
    assert_eq!(trim("a b"), "a b");
    assert_eq!(trim(" \t "), "");
}

#[test]
fn contains_and_starts_with() {
    assert!(contains("GET:users/:id", "users"));
    assert!(!contains("GET:users", "orders"));
    assert!(contains("abc", ""));
    assert!(starts_with("GET:users", "GET"));
    assert!(!starts_with("GET:users", "POST"));
    assert!(!starts_with("GE", "GET"));
}

#[test]
fn decimal_notation() {
    assert_eq!(decimal(0), "0");
    assert_eq!(decimal(7), "7");
    assert_eq!(decimal(3306), "3306");
    assert_eq!(decimal(u64::MAX), "18446744073709551615");
}

#[test]
fn join_puts_separator_between() {
    assert_eq!(
        join(
            &vec!["a".to_string(), "b".to_string(), "c".to_string()],
            ", "
        ),
        "a, b, c"
    );
    assert_eq!(join(&vec!["a".to_string()], ", "), "a");
    assert_eq!(join(&Vec::new(), ", "), "");
}

#[test]
fn white_space_is_what_the_standard_library_takes_for_it() {
    let spaces: Vec<u32> = vec![
        0x9, 0xa, 0xb, 0xc, 0xd, 0x20, 0x85, 0xa0, 0x1680, 0x2000, 0x2001, 0x2002, 0x2003, 0x2004,
        0x2005, 0x2006, 0x2007, 0x2008, 0x2009, 0x200a, 0x2028, 0x2029, 0x202f, 0x205f, 0x3000,
    ];
    for code in 0u32..=0x10ffff {
        let c = match char::from_u32(code) {
            Some(c) => c,
            None => continue,
        };
        assert_eq!(is_white_space(c), c.is_whitespace(), "{:x}", code);
        assert_eq!(is_white_space(c), spaces.contains(&code), "{:x}", code);
    }
}

#[test]
fn trim_strips_what_the_standard_library_strips() {
    for code in 0u32..=0x10ffff {
        let c = match char::from_u32(code) {
            Some(c) => c,
            None => continue,
        };
        let text = format!("{}x{}", c, c);
        assert_eq!(trim(&text), text.trim(), "{:x}", code);
    }
    assert_eq!(trim("\u{3000}users\u{a0}\u{2003}"), "users");
    assert_eq!(trim("\u{200b}users\u{feff}"), "\u{200b}users\u{feff}");
    assert_eq!(trim(" a \t b \n"), " a \t b \n".trim());
}
