use trap_core::render::{push_bytes, push_decimal, push_hex};

fn decimal(n: u64) -> String {
    let mut out = Vec::new();
    push_decimal(&mut out, n);
    String::from_utf8(out).unwrap()
}

fn hex(n: u64, width: usize) -> String {
    let mut out = Vec::new();
    push_hex(&mut out, n, width);
    String::from_utf8(out).unwrap()
}

#[test]
fn decimal_of_small_numbers() {
    assert_eq!(decimal(0), "0");
    assert_eq!(decimal(7), "7");
    assert_eq!(decimal(9), "9");
    assert_eq!(decimal(10), "10");
    assert_eq!(decimal(4095), "4095");
}

#[test]
fn decimal_of_the_largest_number() {
    assert_eq!(decimal(u64::MAX), "18446744073709551615");
}

#[test]
fn decimal_agrees_with_the_standard_formatter() {
    let mut n: u64 = 1;
    for _ in 0..64 {
        assert_eq!(decimal(n), format!("{}", n));
        assert_eq!(decimal(n - 1), format!("{}", n - 1));
        n = n.wrapping_mul(2);
    }
    for n in 0..2000u64 {
        assert_eq!(decimal(n), format!("{}", n));
    }
}

#[test]
fn hex_pads_to_eight_digits() {
    assert_eq!(hex(0, 8), "00000000");
    assert_eq!(hex(0x1f, 8), "0000001f");
    assert_eq!(hex(0x8000_1000, 8), "80001000");
    assert_eq!(hex(0xdead_beef, 8), "deadbeef");
}

#[test]
fn hex_grows_past_its_width() {
    assert_eq!(hex(0x1_0000_0000, 8), "100000000");
    assert_eq!(hex(u64::MAX, 8), "ffffffffffffffff");
    assert_eq!(hex(0xabc, 2), "abc");
}

#[test]
fn hex_without_padding() {
    assert_eq!(hex(0, 0), "0");
    assert_eq!(hex(0, 1), "0");
    assert_eq!(hex(0xa, 0), "a");
    assert_eq!(hex(0x10, 1), "10");
}

#[test]
fn hex_agrees_with_the_standard_formatter() {
    let mut n: u64 = 1;
    for _ in 0..64 {
        assert_eq!(hex(n, 8), format!("{:08x}", n));
        assert_eq!(hex(n - 1, 8), format!("{:08x}", n - 1));
        assert_eq!(hex(n, 0), format!("{:x}", n));
        assert_eq!(hex(n, 3), format!("{:03x}", n));
        n = n.wrapping_mul(2);
    }
    for n in 0..2000u64 {
        assert_eq!(hex(n, 8), format!("{:08x}", n));
    }
}

#[test]
fn push_keeps_what_is_there() {
    let mut out = vec![b'#'];
    push_decimal(&mut out, 42);
    push_bytes(&mut out, b" 0x");
    push_hex(&mut out, 0xbeef, 8);
    push_bytes(&mut out, b"");
    assert_eq!(out, b"#42 0x0000beef".to_vec());
}
