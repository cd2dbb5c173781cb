use npins::text::{chars_of, starts_with, str_eq, trim, trim_ascii_end};

#[test]
fn trims_ascii_whitespace_at_end() {
    assert_eq!(trim_ascii_end(b"0abc \n\t\r\x0c"), b"0abc".to_vec());
    assert_eq!(trim_ascii_end(b"  x  "), b"  x".to_vec());
    assert_eq!(trim_ascii_end(b" \n"), Vec::<u8>::new());
    // a vertical tab is not ASCII whitespace in Rust's sense
    assert_eq!(trim_ascii_end(b"x\x0b"), b"x\x0b".to_vec());
}

#[test]
fn trims_unicode_whitespace() {
    assert_eq!(trim("  a b  "), "a b");
    assert_eq!(trim("\u{2003}x\u{2029}"), "x");
    assert_eq!(trim("   "), "");
    assert_eq!(trim(""), "");
    assert_eq!(trim("ä"), "ä");
    assert_eq!(trim("\u{85}\u{1680}y\u{202f}\u{205f}\u{b}"), "y");
    // zero width space is not White_Space
    assert_eq!(trim("\u{200b}z"), "\u{200b}z");
}

#[test]
fn prefixes_and_equality() {
    assert!(starts_with("lix-module", "lix"));
    assert!(starts_with("lix", ""));
    assert!(!starts_with("li", "lix"));
    assert!(!starts_with("nix", "lix"));
    assert!(str_eq("tarball", "tarball"));
    assert!(!str_eq("tarball", "tarballs"));
    assert_eq!(chars_of("aé"), vec!['a', 'é']);
}
