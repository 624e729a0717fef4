use pza_plugin_std::text::{
    copy_prefix, decimal_string, escape_payload, parse_u32, same_text, trim,
};

#[test]
fn parse_u32_accepts_decimal() {
    assert_eq!(parse_u32("115200"), Some(115200));
    assert_eq!(parse_u32("0"), Some(0));
    assert_eq!(parse_u32("007"), Some(7));
    assert_eq!(parse_u32("4294967295"), Some(u32::MAX));
}

#[test]
fn parse_u32_accepts_plus_sign() {
    assert_eq!(parse_u32("+9600"), Some(9600));
}

#[test]
fn parse_u32_rejects_bad_text() {
    assert_eq!(parse_u32(""), None);
    assert_eq!(parse_u32("+"), None);
    assert_eq!(parse_u32("-1"), None);
    assert_eq!(parse_u32("12a"), None);
    assert_eq!(parse_u32(" 12"), None);
    assert_eq!(parse_u32("4294967296"), None);
    assert_eq!(parse_u32("99999999999999999999"), None);
}

#[test]
fn parse_u32_agrees_with_std() {
    for s in ["", "+", "-", "-0", "+0", "1", "+12", "0042", "4294967295", "4294967296", "1_0", "٣", "12 "] {
        assert_eq!(parse_u32(s), s.parse::<u32>().ok(), "input {:?}", s);
    }
}

#[test]
fn decimal_string_writes_numbers() {
    assert_eq!(decimal_string(0), "0");
    assert_eq!(decimal_string(7), "7");
    assert_eq!(decimal_string(10), "10");
    assert_eq!(decimal_string(1883), "1883");
    assert_eq!(decimal_string(u32::MAX), "4294967295");
}

#[test]
fn decimal_then_parse_round_trips() {
    for n in [0u32, 1, 9, 10, 99, 12345, 65535, 115200, u32::MAX] {
        assert_eq!(parse_u32(&decimal_string(n)), Some(n));
    }
}

#[test]
fn same_text_compares_characters() {
    assert!(same_text("tcp", "tcp"));
    assert!(!same_text("tcp", "tcp "));
    assert!(!same_text("tcp", "TCP"));
    assert!(same_text("", ""));
    assert!(same_text("é∑", "é∑"));
}

#[test]
fn trim_removes_outer_whitespace() {
    assert_eq!(trim("  hello \n"), "hello");
    assert_eq!(trim("a b"), "a b");
    assert_eq!(trim(""), "");
    assert_eq!(trim(" \t\r\n"), "");
    assert_eq!(trim("\u{3000}x\u{85}"), "x");
}

#[test]
fn trim_agrees_with_std() {
    for s in ["", " ", " a ", "\u{a0}b\u{2028}", "\u{200b}c", "x\u{1680}", "\u{feff}y", "  mid dle  "] {
        assert_eq!(trim(s), s.trim(), "input {:?}", s);
    }
}

#[test]
fn trim_is_idempotent() {
    for s in [" a ", "\t\tb c\n", "   "] {
        let once = trim(s);
        assert_eq!(trim(&once), once);
    }
}

#[test]
fn escape_payload_matches_escape_default() {
    let payload: Vec<u8> = (0u8..=255).collect();
    let expected: Vec<u8> = payload.iter().flat_map(|b| std::ascii::escape_default(*b)).collect();
    assert_eq!(escape_payload(&payload), expected);
}

#[test]
fn escape_payload_examples() {
    assert_eq!(escape_payload(b"ok\n"), b"ok\\n".to_vec());
    assert_eq!(escape_payload(&[0x00, 0xff]), b"\\x00\\xff".to_vec());
    assert_eq!(escape_payload(b"'\"\\"), b"\\'\\\"\\\\".to_vec());
    assert_eq!(escape_payload(b""), Vec::<u8>::new());
}

#[test]
fn escaped_bytes_are_printable() {
    let payload: Vec<u8> = (0u8..=255).rev().collect();
    assert!(escape_payload(&payload).iter().all(|b| (0x20..=0x7e).contains(b)));
}

#[test]
fn copy_prefix_copies_first_bytes() {
    assert_eq!(copy_prefix(&[1, 2, 3, 4], 2), vec![1, 2]);
    assert_eq!(copy_prefix(&[1, 2, 3], 0), Vec::<u8>::new());
    assert_eq!(copy_prefix(&[1, 2, 3], 3), vec![1, 2, 3]);
}
