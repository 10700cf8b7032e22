use woofi_jupiter::decimals::{checked_pow10_u64, Decimals};

#[test]
fn decimals_round_trip() {
    let d = Decimals::new(8, 6, 9).unwrap();
    assert_eq!(d.price_dec, 100_000_000);
    assert_eq!(d.quote_dec, 1_000_000);
    assert_eq!(d.base_dec, 1_000_000_000);
}

#[test]
fn decimals_zero_exponents() {
    let d = Decimals::new(0, 0, 0).unwrap();
    assert_eq!(d.price_dec, 1);
    assert_eq!(d.quote_dec, 1);
    assert_eq!(d.base_dec, 1);
}

#[test]
fn decimals_largest_exponent() {
    let d = Decimals::new(19, 1, 2).unwrap();
    assert_eq!(d.price_dec, 10_000_000_000_000_000_000);
}

#[test]
fn decimals_overflow() {
    // 10^20 does not fit in 64 bits, whichever slot it lands in
    assert!(Decimals::new(20, 6, 9).is_none());
    assert!(Decimals::new(8, 20, 9).is_none());
    assert!(Decimals::new(8, 6, 20).is_none());
}

#[test]
fn pow10_u64_limits() {
    assert_eq!(checked_pow10_u64(0), Some(1));
    assert_eq!(checked_pow10_u64(19), Some(10u64.pow(19)));
    assert_eq!(checked_pow10_u64(20), None);
}
