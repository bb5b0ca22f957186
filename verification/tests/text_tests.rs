use randomprime::text::{normalized, replace_all, str_contains, str_equal, to_lowercase, trim};

#[test]
fn lowercase_and_trim() {
    assert_eq!(to_lowercase("Power BEAM"), "power beam");
    assert_eq!(to_lowercase("ÉTÉ"), "été");
    assert_eq!(trim("  a b \t\n"), "a b");
    assert_eq!(trim("\u{3000}x\u{a0}"), "x");
    assert_eq!(normalized("  Ice Trap "), "ice trap");
}

#[test]
fn comparisons() {
    assert!(str_equal("abc", "abc"));
    assert!(!str_equal("abc", "abd"));
    assert!(!str_equal("abc", "ab"));
    assert!(str_contains("ambient underwater loop", "underwater"));
    assert!(!str_contains("under water", "underwater"));
    assert!(str_contains("x", ""));
}

#[test]
fn replace_all_scans_from_the_left() {
    assert_eq!(replace_all("a{room}b{room}", "{room}", "X"), "aXbX");
    assert_eq!(replace_all("aaa", "aa", "b"), "ba");
    assert_eq!(replace_all("none here", "{pickup}", "Missile"), "none here");
    assert_eq!(replace_all("", "x", "y"), "");
}
