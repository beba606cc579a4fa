use namada_ping_middleware::model::shared::{
    DenomAmount, PaginationInfo, SuffixedDur, Timestamp, DEFAULT_TIMESTAMP, NAM,
    ZERO_TIMESTAMP_SECONDS,
};
use namada_ping_middleware::text::{i32_to_decimal, u64_to_decimal, usize_to_decimal};

#[test]
fn decimal_of_unsigned() {
    assert_eq!(u64_to_decimal(0), "0");
    assert_eq!(u64_to_decimal(7), "7");
    assert_eq!(u64_to_decimal(10), "10");
    assert_eq!(u64_to_decimal(1905), "1905");
    assert_eq!(u64_to_decimal(u64::MAX), "18446744073709551615");
    assert_eq!(usize_to_decimal(42), "42");
    for n in [1u64, 9, 11, 99, 100, 101, 12345678901234567890] {
        assert_eq!(u64_to_decimal(n), n.to_string());
    }
}

#[test]
fn decimal_of_signed() {
    assert_eq!(i32_to_decimal(0), "0");
    assert_eq!(i32_to_decimal(3), "3");
    assert_eq!(i32_to_decimal(-1), "-1");
    assert_eq!(i32_to_decimal(i32::MAX), "2147483647");
    assert_eq!(i32_to_decimal(i32::MIN), "-2147483648");
}

#[test]
fn shared_constants() {
    assert_eq!(NAM, "nam");
    assert_eq!(DEFAULT_TIMESTAMP, "1970-01-01T00:00:00Z");
    assert_eq!(ZERO_TIMESTAMP_SECONDS, -62135596800);
    assert_eq!(Timestamp::zero(), Timestamp { seconds: -62135596800, nanos: 0 });
}

#[test]
fn native_amount() {
    let a = DenomAmount::nam_amount("12.000000".to_string());
    assert_eq!(a.denom, "nam");
    assert_eq!(a.amount, "12.000000");
}

#[test]
fn pagination_blocks() {
    let none = PaginationInfo::default();
    assert_eq!(none.next_key, None);
    assert_eq!(none.total, None);
    let page = PaginationInfo::single_page(17);
    assert_eq!(page.next_key, None);
    assert_eq!(page.total, Some("17".to_string()));
}

#[test]
fn duration_text() {
    assert_eq!(SuffixedDur(0).to_text(), "0s");
    assert_eq!(SuffixedDur(600).to_text(), "600s");
}
