use spending::money::format_cents;

#[test]
fn format_zero() {
    assert_eq!(format_cents(0), "$0.00");
}

#[test]
fn format_pads_cents() {
    assert_eq!(format_cents(1), "$0.01");
    assert_eq!(format_cents(11), "$0.11");
    assert_eq!(format_cents(111), "$1.11");
    assert_eq!(format_cents(1111), "$11.11");
}

#[test]
fn format_round_values() {
    assert_eq!(format_cents(100), "$1.00");
    assert_eq!(format_cents(50000), "$500.00");
    assert_eq!(format_cents(49877), "$498.77");
}

#[test]
fn format_negative() {
    assert_eq!(format_cents(-1), "-$0.01");
    assert_eq!(format_cents(-123), "-$1.23");
    assert_eq!(format_cents(-50000), "-$500.00");
}

#[test]
fn format_large_amounts() {
    assert_eq!(format_cents(9007199254740992), "$90071992547409.92");
    assert_eq!(format_cents(-9007199254740992), "-$90071992547409.92");
    assert_eq!(format_cents(i64::MAX), "$92233720368547758.07");
}

#[test]
fn format_no_separators() {
    let s = format_cents(123456789);
    assert_eq!(s, "$1234567.89");
    assert!(!s.contains(','));
}

#[test]
fn format_parses_back() {
    for n in [0i64, 1, 9, 10, 99, 100, 101, 999, 12345, 1000000, 987654321] {
        let s = format_cents(n);
        let rest = s.strip_prefix('$').unwrap();
        let (dollars, cents) = rest.split_at(rest.len() - 3);
        assert!(cents.starts_with('.'));
        assert_eq!(cents[1..].len(), 2);
        let parsed: i64 = dollars.parse::<i64>().unwrap() * 100 + cents[1..].parse::<i64>().unwrap();
        assert_eq!(parsed, n);
    }
}
