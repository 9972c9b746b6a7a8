use lsp_mcp_rs::decimal::{read_decimal, write_decimal, write_signed_decimal};

#[test]
fn write_decimal_gives_shortest_numeral() {
    assert_eq!(write_decimal(0), b"0".to_vec());
    assert_eq!(write_decimal(7), b"7".to_vec());
    assert_eq!(write_decimal(10), b"10".to_vec());
    assert_eq!(write_decimal(1234567890), b"1234567890".to_vec());
    assert_eq!(write_decimal(u64::MAX), b"18446744073709551615".to_vec());
}

#[test]
fn write_signed_decimal_puts_minus_before_negative() {
    assert_eq!(write_signed_decimal(0), b"0".to_vec());
    assert_eq!(write_signed_decimal(42), b"42".to_vec());
    assert_eq!(write_signed_decimal(-1), b"-1".to_vec());
    assert_eq!(write_signed_decimal(i64::MAX), b"9223372036854775807".to_vec());
    assert_eq!(write_signed_decimal(i64::MIN), b"-9223372036854775808".to_vec());
}

#[test]
fn read_decimal_reads_digits_with_optional_plus() {
    assert_eq!(read_decimal(b"0"), Some(0));
    assert_eq!(read_decimal(b"007"), Some(7));
    assert_eq!(read_decimal(b"+15"), Some(15));
    assert_eq!(read_decimal(b"4096"), Some(4096));
}

#[test]
fn read_decimal_refuses_what_is_no_numeral() {
    assert_eq!(read_decimal(b""), None);
    assert_eq!(read_decimal(b"+"), None);
    assert_eq!(read_decimal(b"-3"), None);
    assert_eq!(read_decimal(b"12a"), None);
    assert_eq!(read_decimal(b" 12"), None);
    assert_eq!(read_decimal(b"++1"), None);
    assert_eq!(read_decimal(b"1.5"), None);
}

#[test]
fn read_decimal_stops_at_the_largest_usize() {
    let largest = usize::MAX.to_string();
    assert_eq!(read_decimal(largest.as_bytes()), Some(usize::MAX));
    let mut beyond = largest.clone().into_bytes();
    let last = beyond.len() - 1;
    beyond[last] += 1;
    assert_eq!(read_decimal(&beyond), None);
    let mut longer = largest.into_bytes();
    longer.push(b'0');
    assert_eq!(read_decimal(&longer), None);
}

#[test]
fn reading_back_what_was_written_gives_the_number() {
    for n in [0u64, 1, 9, 10, 99, 100, 65535, 4294967295] {
        assert_eq!(read_decimal(&write_decimal(n)), Some(n as usize));
    }
}
