use sdscan::sizefmt::{decimal_digits, format_size};

fn s(v: Vec<u8>) -> String {
    String::from_utf8(v).unwrap()
}

#[test]
fn decimal_renders_exact_numerals() {
    assert_eq!(s(decimal_digits(0)), "0");
    assert_eq!(s(decimal_digits(7)), "7");
    assert_eq!(s(decimal_digits(10)), "10");
    assert_eq!(s(decimal_digits(12345)), "12345");
    assert_eq!(s(decimal_digits(4294967295)), "4294967295");
}

#[test]
fn sizes_below_one_kib_are_bytes() {
    assert_eq!(s(format_size(0)), "0 B");
    assert_eq!(s(format_size(1)), "1 B");
    assert_eq!(s(format_size(1023)), "1023 B");
}

#[test]
fn sizes_below_one_mib_are_whole_kib() {
    assert_eq!(s(format_size(1024)), "1 KB");
    assert_eq!(s(format_size(1536)), "1 KB");
    assert_eq!(s(format_size(10240)), "10 KB");
    assert_eq!(s(format_size(1048575)), "1023 KB");
}

#[test]
fn larger_sizes_are_whole_mib() {
    assert_eq!(s(format_size(1048576)), "1 MB");
    assert_eq!(s(format_size(52428800)), "50 MB");
    assert_eq!(s(format_size(u32::MAX)), "4095 MB");
}
