use stablebond_arb::math::{
    checked_add, checked_div, checked_mul, checked_pow10, checked_sub, integer_sqrt, mul_div,
    profit_from_arb, quote_value, to_token_amount, to_ui_amount, token_quantity, unit_price,
    MathError, TokenAmountExt, UiAmount, UiAmountExt, PRICE_SCALE,
};

#[test]
fn checked_mul_reports_overflow_instead_of_wrapping() {
    assert_eq!(checked_mul(u64::MAX, 2), Err(MathError::Overflow));
    assert_eq!(checked_mul(1 << 32, 1 << 32), Err(MathError::Overflow));
    assert_eq!(checked_mul(u64::MAX, 1), Ok(u64::MAX));
    assert_eq!(checked_mul(3, 4), Ok(12));
}

#[test]
fn checked_add_sub_div() {
    assert_eq!(checked_add(u64::MAX, 1), Err(MathError::Overflow));
    assert_eq!(checked_add(2, 5), Ok(7));
    assert_eq!(checked_sub(2, 5), Err(MathError::Overflow));
    assert_eq!(checked_sub(5, 2), Ok(3));
    assert_eq!(checked_div(7, 2), Ok(3));
    assert_eq!(checked_div(7, 0), Err(MathError::DivisionByZero));
}

#[test]
fn pow10_fits_up_to_38() {
    assert_eq!(checked_pow10(0), Ok(1));
    assert_eq!(checked_pow10(6), Ok(1_000_000));
    assert_eq!(checked_pow10(38), Ok(10u128.pow(38)));
    assert_eq!(checked_pow10(39), Err(MathError::Overflow));
}

#[test]
fn ui_amount_scales_by_decimals() {
    assert_eq!(to_ui_amount(1_500_000, 6), Ok(UiAmount { scaled: 1_500_000_000_000_000_000 }));
    assert_eq!(to_ui_amount(7, 18), Ok(UiAmount { scaled: 7 }));
    assert_eq!(to_ui_amount(12_345, 20), Ok(UiAmount { scaled: 123 }));
    assert_eq!(to_ui_amount(1, 57), Ok(UiAmount { scaled: 0 }));
    assert_eq!(to_ui_amount(u64::MAX, 60), Ok(UiAmount { scaled: 0 }));
    assert_eq!(to_ui_amount(u64::MAX, 255), Ok(UiAmount { scaled: 0 }));
}

#[test]
fn token_amount_truncates_and_checks_range() {
    let ui = UiAmount { scaled: 1_999_999_999_999_999_999 };
    assert_eq!(to_token_amount(ui, 6), Ok(1_999_999));
    assert_eq!(to_token_amount(ui, 0), Ok(1));
    let huge = UiAmount { scaled: u128::MAX };
    assert_eq!(to_token_amount(huge, 0), Err(MathError::Overflow));
    assert_eq!(to_token_amount(UiAmount { scaled: 3 }, 19), Ok(30));
    assert_eq!(to_token_amount(UiAmount { scaled: 0 }, 60), Ok(0));
    assert_eq!(to_token_amount(UiAmount { scaled: 0 }, 255), Ok(0));
    assert_eq!(to_token_amount(UiAmount { scaled: 1 }, 60), Err(MathError::Overflow));
    assert_eq!(to_token_amount(UiAmount { scaled: 1 }, 37), Ok(10_000_000_000_000_000_000));
}

#[test]
fn ui_round_trip_recovers_raw_amount() {
    for &raw in &[0u64, 1, 999, 1_000_000, 123_456_789_012, u64::MAX] {
        for decimals in 0u8..=18 {
            let ui = to_ui_amount(raw, decimals).unwrap();
            assert_eq!(to_token_amount(ui, decimals), Ok(raw));
        }
    }
}

#[test]
fn extension_traits_convert() {
    let ui = 2_500_000u64.to_ui_amount(6);
    assert_eq!(ui, UiAmount { scaled: 2_500_000_000_000_000_000 });
    assert_eq!(ui.to_token_amount(6), 2_500_000);
    assert_eq!(ui.to_token_amount(9), 2_500_000_000);
}

#[test]
fn profit_from_arb_exact_value() {
    // 500 tokens bought at 1.00 and sold at 1.05: 25 quote units.
    let p = profit_from_arb(1_050_000_000, 1_000_000_000, 500_000_000).unwrap();
    assert_eq!(p, 25_000_000 * PRICE_SCALE as i128);
    let loss = profit_from_arb(990_000_000, 1_000_000_000, 100).unwrap();
    assert_eq!(loss, -1_000_000_000);
}

#[test]
fn profit_from_arb_is_linear_in_amount() {
    let cases = [(1_050_000_000u64, 1_000_000_000u64, 123_456u64), (7, 9, 1_000_001), (0, 5, 42)];
    for &(sell, buy, amount) in &cases {
        let single = profit_from_arb(sell, buy, amount).unwrap();
        let double = profit_from_arb(sell, buy, 2 * amount).unwrap();
        assert_eq!(double, 2 * single);
    }
}

#[test]
fn profit_from_arb_overflow_is_an_error() {
    assert_eq!(profit_from_arb(u64::MAX, 1, u64::MAX), Err(MathError::Overflow));
    assert_eq!(profit_from_arb(1, u64::MAX, u64::MAX), Err(MathError::Overflow));
}

#[test]
fn price_helpers() {
    assert_eq!(mul_div(10, 3, 4), Ok(7));
    assert_eq!(mul_div(1, 1, 0), Err(MathError::DivisionByZero));
    assert_eq!(mul_div(u64::MAX, 2, 1), Err(MathError::Overflow));
    assert_eq!(mul_div(u64::MAX, u64::MAX, u64::MAX), Ok(u64::MAX));
    assert_eq!(unit_price(525, 500), Ok(1_050_000_000));
    assert_eq!(unit_price(1, 0), Err(MathError::DivisionByZero));
    assert_eq!(quote_value(2_000_000, 1_500_000_000), Ok(3_000_000));
    assert_eq!(token_quantity(3_000_000, 1_500_000_000), Ok(2_000_000));
}

#[test]
fn integer_square_roots() {
    assert_eq!(integer_sqrt(0), 0);
    assert_eq!(integer_sqrt(1), 1);
    assert_eq!(integer_sqrt(15), 3);
    assert_eq!(integer_sqrt(16), 4);
    assert_eq!(integer_sqrt(2_915_451_895), 53_994);
    assert_eq!(integer_sqrt(u64::MAX), 4_294_967_295);
}
