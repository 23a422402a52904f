use red4ext_rs::text::{is_valid_utf8, log_line, to_decimal, truncated_cstring};

#[test]
fn decimal_notation() {
    assert_eq!(to_decimal(0), "0");
    assert_eq!(to_decimal(7), "7");
    assert_eq!(to_decimal(10), "10");
    assert_eq!(to_decimal(1234), "1234");
    assert_eq!(to_decimal(usize::MAX), usize::MAX.to_string());
}

#[test]
fn truncated_cstring_cuts_at_first_nul() {
    assert_eq!(truncated_cstring("ab\0cd"), b"ab".to_vec());
    assert_eq!(truncated_cstring("\0"), Vec::<u8>::new());
    assert_eq!(truncated_cstring("héllo"), "héllo".as_bytes().to_vec());
    assert_eq!(truncated_cstring(""), Vec::<u8>::new());
}

#[test]
fn log_line_checks_utf8_then_cuts() {
    assert_eq!(log_line(b"hello\n"), Some(b"hello\n".to_vec()));
    assert_eq!(log_line("h\u{e9}\0rest".as_bytes()), Some("h\u{e9}".as_bytes().to_vec()));
    assert_eq!(log_line(&[0xff]), None);
    assert_eq!(log_line(&[0x61, 0xc0, 0x80]), None);
}

#[test]
fn utf8_validation_matches_std() {
    let samples: Vec<Vec<u8>> = vec![
        vec![],
        vec![0xe2, 0x82, 0xac],
        vec![0xe2, 0x82],
        vec![0xed, 0xa0, 0x80],
        vec![0xef, 0xbf, 0xbf],
        vec![0xf0, 0x9f, 0x98, 0x80],
        vec![0xf0, 0x8f, 0xbf, 0xbf],
        vec![0xf4, 0x8f, 0xbf, 0xbf],
        vec![0xf4, 0x90, 0x80, 0x80],
        vec![0xf8, 0x88, 0x80, 0x80, 0x80],
        vec![0xc2, 0x7f],
        vec![0xe0, 0x9f, 0xbf],
        vec![0xe0, 0xa0, 0x80],
    ];
    for s in &samples {
        assert_eq!(is_valid_utf8(s), std::str::from_utf8(s).is_ok(), "{:x?}", s);
    }
    for a in 0..=255u8 {
        for b in 0..=255u8 {
            let s = [a, b];
            assert_eq!(is_valid_utf8(&s), std::str::from_utf8(&s).is_ok(), "{:x?}", s);
        }
    }
    for a in [0xe0u8, 0xe1, 0xec, 0xed, 0xee, 0xef, 0xf0, 0xf1, 0xf3, 0xf4, 0xf5] {
        for b in 0x70..=0xc0u8 {
            for c in [0x7fu8, 0x80, 0xbf, 0xc0] {
                let s = [a, b, c];
                assert_eq!(is_valid_utf8(&s), std::str::from_utf8(&s).is_ok(), "{:x?}", s);
                let s4 = [a, b, c, 0x80];
                assert_eq!(is_valid_utf8(&s4), std::str::from_utf8(&s4).is_ok(), "{:x?}", s4);
            }
        }
    }
}
