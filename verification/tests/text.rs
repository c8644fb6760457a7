use openvmm_ctl::text::{decimal, same_text, upper_hex};

#[test]
fn decimal_matches_display() {
    for n in [0u64, 1, 9, 10, 11, 99, 100, 1023, 65535, 1 << 32, u64::MAX - 1, u64::MAX] {
        assert_eq!(decimal(n), format!("{}", n));
    }
}

#[test]
fn upper_hex_is_padded() {
    for n in [0u64, 1, 0xf, 0x10, 0x1414, 0xc0ff, 0xabcdef, u64::MAX] {
        assert_eq!(upper_hex(n, 4), format!("{:04X}", n));
        assert_eq!(upper_hex(n, 0), format!("{:X}", n));
    }
    assert_eq!(upper_hex(0x1d, 4), "001D");
    assert_eq!(upper_hex(0x12345, 4), "12345");
}

#[test]
fn same_text_compares_characters() {
    assert!(same_text("", ""));
    assert!(same_text("halted", "halted"));
    assert!(same_text("h\u{e4}lt", "h\u{e4}lt"));
    assert!(!same_text("halted", "halte"));
    assert!(!same_text("halted", "Halted"));
    assert!(!same_text("h\u{e4}lt", "h\u{e5}lt"));
}
