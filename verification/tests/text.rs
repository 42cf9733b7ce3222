use veloconv::text::{digit_str, push_decimal, push_metres, push_signed_decimal, push_zero_padded};

fn decimal(n: u64) -> String {
    let mut out = String::new();
    push_decimal(&mut out, n);
    out
}

fn padded(n: u64, width: usize) -> String {
    let mut out = String::new();
    push_zero_padded(&mut out, n, width);
    out
}

fn signed(n: i64) -> String {
    let mut out = String::new();
    push_signed_decimal(&mut out, n);
    out
}

fn metres(mm: u32) -> String {
    let mut out = String::new();
    push_metres(&mut out, mm);
    out
}

#[test]
fn digits() {
    let all: Vec<&str> = (0..10).map(digit_str).collect();
    assert_eq!(all, vec!["0", "1", "2", "3", "4", "5", "6", "7", "8", "9"]);
}

#[test]
fn decimal_text() {
    assert_eq!(decimal(0), "0");
    assert_eq!(decimal(9), "9");
    assert_eq!(decimal(10), "10");
    assert_eq!(decimal(1_234_567_890), "1234567890");
    assert_eq!(decimal(u64::MAX), "18446744073709551615");
    for n in (0..100_000u64).step_by(37) {
        assert_eq!(decimal(n), format!("{}", n));
    }
}

#[test]
fn decimal_text_is_appended() {
    let mut out = String::from("n=");
    push_decimal(&mut out, 42);
    push_decimal(&mut out, 7);
    assert_eq!(out, "n=427");
}

#[test]
fn zero_padded_text() {
    assert_eq!(padded(0, 4), "0000");
    assert_eq!(padded(7, 4), "0007");
    assert_eq!(padded(999, 4), "0999");
    assert_eq!(padded(1000, 4), "1000");
    assert_eq!(padded(12_345, 4), "12345");
    assert_eq!(padded(42, 5), "00042");
    assert_eq!(padded(42, 0), "42");
    assert_eq!(padded(42, 1), "42");
    assert_eq!(padded(0, 0), "0");
    assert_eq!(padded(u64::MAX, 25), "0000018446744073709551615");
    for n in (0..20_000u64).step_by(13) {
        assert_eq!(padded(n, 4), format!("{:04}", n));
        assert_eq!(padded(n, 5), format!("{:0>5}", n));
    }
}

#[test]
fn signed_text() {
    assert_eq!(signed(0), "0");
    assert_eq!(signed(16), "16");
    assert_eq!(signed(-15), "-15");
    assert_eq!(signed(i64::MAX), "9223372036854775807");
    assert_eq!(signed(i64::MIN + 1), "-9223372036854775807");
}

#[test]
fn metres_text() {
    assert_eq!(metres(0), "0");
    assert_eq!(metres(1), "0.001");
    assert_eq!(metres(10), "0.01");
    assert_eq!(metres(100), "0.1");
    assert_eq!(metres(101), "0.101");
    assert_eq!(metres(110), "0.11");
    assert_eq!(metres(1000), "1");
    assert_eq!(metres(10_000), "10");
    assert_eq!(metres(12_340), "12.34");
    assert_eq!(metres(u32::MAX), "4294967.295");
}
