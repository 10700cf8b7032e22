use woofi_jupiter::spread::update_spread_for_new_price;

const ONE_E18: u64 = 1_000_000_000_000_000_000;

#[test]
fn spread_no_op_on_zero_prices() {
    assert_eq!(update_spread_for_new_price(0, 42, 1_000), Ok(42));
    assert_eq!(update_spread_for_new_price(1_000, 42, 0), Ok(42));
}

#[test]
fn spread_no_op_when_saturated() {
    assert_eq!(update_spread_for_new_price(1_000, ONE_E18, 2_000), Ok(ONE_E18));
    assert_eq!(update_spread_for_new_price(1_000, ONE_E18 + 5, 999_999), Ok(ONE_E18 + 5));
}

#[test]
fn spread_widens_on_price_move() {
    // min/max = 1000/1100, ratio 0.909090... at scale 1e18,
    // candidate = 1e18 - 909090909090909090
    assert_eq!(
        update_spread_for_new_price(1_000, 0, 1_100),
        Ok(90_909_090_909_090_910)
    );
    // the same move downward widens identically
    assert_eq!(
        update_spread_for_new_price(1_100, 0, 1_000),
        Ok(90_909_090_909_090_910)
    );
}

#[test]
fn spread_never_narrows() {
    // a small move cannot narrow a wide spread
    let wide = 500_000_000_000_000_000;
    assert_eq!(update_spread_for_new_price(1_000, wide, 1_001), Ok(wide));
}

#[test]
fn spread_unchanged_on_equal_prices() {
    assert_eq!(update_spread_for_new_price(1_000, 42, 1_000), Ok(42));
}

#[test]
fn spread_monotone_over_sequence() {
    // arbitrary price walk from (1000, 0): the spread never decreases
    let prices = [1_100u128, 900, 905, 2_000, 1, 1_000_000, 999_999];
    let mut price = 1_000u128;
    let mut spread = 0u64;
    for &p in prices.iter() {
        let next = update_spread_for_new_price(price, spread, p).unwrap();
        assert!(next >= spread);
        price = p;
        spread = next;
    }
    assert!(spread > 0);
}

#[test]
fn spread_saturation_freezes_updates() {
    // once at or above 1e18 every further call is a no-op, for any prices
    let spread = ONE_E18;
    let mut price = 1u128;
    for &p in [7u128, 1_000_000_000, 3, u128::MAX].iter() {
        assert_eq!(update_spread_for_new_price(price, spread, p), Ok(spread));
        price = p;
    }
}

#[test]
fn spread_near_saturation_widens_to_limit() {
    // with spread one below 1e18, an extreme move leaves it unchanged
    // (the anti-spread ratio saturates) rather than crossing 1e18
    let spread = 999_999_999_999_999_999u64;
    let r = update_spread_for_new_price(1_000_000, spread, 1).unwrap();
    assert!(r >= spread);
    assert!(r < ONE_E18 + 1);
}
