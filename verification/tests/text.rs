use pcb_toolkit::text::{chars_of, eq_str, is_whitespace, lower_trimmed, strip_prefix, strip_suffix, to_ascii_lowercase, trim};

fn s(v: &[char]) -> String {
    v.iter().collect()
}

#[test]
fn trim_removes_unicode_white_space_at_both_ends() {
    let v = chars_of("\u{2003} \tA b\r\n\u{3000}");
    assert_eq!(s(&trim(&v)), "A b");
    assert_eq!(s(&trim(&chars_of("   "))), "");
    assert_eq!(s(&trim(&chars_of("x"))), "x");
}

#[test]
fn white_space_matches_std() {
    for c in ['\t', '\n', '\u{0B}', '\u{0C}', '\r', ' ', '\u{85}', '\u{A0}', '\u{1680}', '\u{2000}', '\u{200A}', '\u{2028}', '\u{2029}', '\u{202F}', '\u{205F}', '\u{3000}', 'a', '0', '\u{200B}', '\u{FEFF}', '/'] {
        assert_eq!(is_whitespace(c), c.is_whitespace(), "{c:?}");
    }
}

#[test]
fn lowering_touches_only_ascii_letters() {
    assert_eq!(s(&to_ascii_lowercase(&chars_of("AbZ-ÄÉ9"))), "abz-ÄÉ9");
    assert_eq!(s(&lower_trimmed("  AWG 4/0 ")), "awg 4/0");
}

#[test]
fn prefix_and_suffix_stripping() {
    let v = chars_of("awg22");
    assert_eq!(strip_prefix(&v, "awg").map(|t| s(&t)), Some("22".to_string()));
    assert_eq!(strip_prefix(&v, "22"), None);
    assert_eq!(strip_suffix(&v, "22").map(|t| s(&t)), Some("awg".to_string()));
    assert_eq!(strip_suffix(&chars_of("z"), "oz"), None);
    assert!(eq_str(&v, "awg22"));
    assert!(!eq_str(&v, "awg2"));
}
