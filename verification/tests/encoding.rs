use crustchan::encoding::{i64_from_be_slice, i64_to_be_bytes, str_eq, u64_to_decimal};

#[test]
fn be_bytes_of_small_and_negative_values() {
    assert_eq!(i64_to_be_bytes(1), [0, 0, 0, 0, 0, 0, 0, 1]);
    assert_eq!(i64_to_be_bytes(0x0102030405060708), [1, 2, 3, 4, 5, 6, 7, 8]);
    assert_eq!(i64_to_be_bytes(-1), [0xff; 8]);
    assert_eq!(i64_to_be_bytes(i64::MIN), [0x80, 0, 0, 0, 0, 0, 0, 0]);
    for x in [0i64, 1, -1, 86400, i64::MAX, i64::MIN, 1_700_000_000] {
        assert_eq!(i64_to_be_bytes(x), x.to_be_bytes());
    }
}

#[test]
fn be_bytes_read_back_at_an_offset() {
    let mut buf = vec![9u8, 9, 9];
    buf.extend_from_slice(&(-1234567890123i64).to_be_bytes());
    assert_eq!(i64_from_be_slice(&buf, 3), -1234567890123);
    for x in [0i64, 42, -42, i64::MAX, i64::MIN] {
        let b = i64_to_be_bytes(x);
        assert_eq!(i64_from_be_slice(&b, 0), x);
    }
}

#[test]
fn decimal_text_of_integers() {
    assert_eq!(u64_to_decimal(0), "0");
    assert_eq!(u64_to_decimal(7), "7");
    assert_eq!(u64_to_decimal(10), "10");
    assert_eq!(u64_to_decimal(12345), "12345");
    assert_eq!(u64_to_decimal(u64::MAX), u64::MAX.to_string());
}

#[test]
fn string_equality() {
    assert!(str_eq("abc", "abc"));
    assert!(!str_eq("abc", "abd"));
    assert!(!str_eq("", "a"));
    assert!(str_eq("", ""));
}
