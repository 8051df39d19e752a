//! Tests for the token swap program's constant price curve.

use lending_core::constant_price::{
    ConstantPriceCurve, SwapError, SwapWithoutFeesResult, TradeDirection,
};

#[test]
fn swap_calculation_no_price() {
    let swap_source_amount: u128 = 0;
    let swap_destination_amount: u128 = 0;
    let source_amount: u128 = 100;
    let token_b_price = 1;
    let curve = ConstantPriceCurve { token_b_price };

    let expected_result = SwapWithoutFeesResult {
        source_amount_swapped: source_amount,
        destination_amount_swapped: source_amount,
    };

    let result = curve
        .swap_without_fees(source_amount, swap_source_amount, swap_destination_amount, TradeDirection::AtoB)
        .unwrap();
    assert_eq!(result, expected_result);

    let result = curve
        .swap_without_fees(source_amount, swap_source_amount, swap_destination_amount, TradeDirection::BtoA)
        .unwrap();
    assert_eq!(result, expected_result);
}

#[test]
fn pack_flat_curve() {
    let token_b_price = 1_251_258;
    let curve = ConstantPriceCurve { token_b_price };

    let packed = curve.pack_into_slice();
    let unpacked = ConstantPriceCurve::unpack_from_slice(&packed).unwrap();
    assert_eq!(curve, unpacked);

    let mut packed = vec![];
    packed.extend_from_slice(&token_b_price.to_le_bytes());
    let unpacked = ConstantPriceCurve::unpack_from_slice(&packed).unwrap();
    assert_eq!(curve, unpacked);
}

#[test]
fn swap_calculation_large_price() {
    let token_b_price = 1123513u128;
    let curve = ConstantPriceCurve {
        token_b_price: token_b_price as u64,
    };
    let token_b_amount = 500u128;
    let token_a_amount = token_b_amount * token_b_price;
    let bad_result = curve.swap_without_fees(token_b_price - 1u128, token_a_amount, token_b_amount, TradeDirection::AtoB);
    assert!(bad_result.is_none());
    let bad_result = curve.swap_without_fees(1u128, token_a_amount, token_b_amount, TradeDirection::AtoB);
    assert!(bad_result.is_none());
    let result = curve
        .swap_without_fees(token_b_price, token_a_amount, token_b_amount, TradeDirection::AtoB)
        .unwrap();
    assert_eq!(result.source_amount_swapped, token_b_price);
    assert_eq!(result.destination_amount_swapped, 1u128);
}

#[test]
fn swap_calculation_max_min() {
    let token_b_price = u64::MAX as u128;
    let curve = ConstantPriceCurve {
        token_b_price: token_b_price as u64,
    };
    let token_b_amount = 1u128;
    let token_a_amount = token_b_price;
    let bad_result = curve.swap_without_fees(token_b_price - 1u128, token_a_amount, token_b_amount, TradeDirection::AtoB);
    assert!(bad_result.is_none());
    let bad_result = curve.swap_without_fees(1u128, token_a_amount, token_b_amount, TradeDirection::AtoB);
    assert!(bad_result.is_none());
    let bad_result = curve.swap_without_fees(0u128, token_a_amount, token_b_amount, TradeDirection::AtoB);
    assert!(bad_result.is_none());
    let result = curve
        .swap_without_fees(token_b_price, token_a_amount, token_b_amount, TradeDirection::AtoB)
        .unwrap();
    assert_eq!(result.source_amount_swapped, token_b_price);
    assert_eq!(result.destination_amount_swapped, 1u128);
}

#[test]
fn pool_tokens_split_between_sides() {
    // 10 pool tokens of a 100-token supply, pool holding 1000 A and 50 B
    // at a price of 20: total value 2000, so 5 pool tokens redeem
    // 100 of A and 5 redeem 100-value of B, which is 5 B.
    let curve = ConstantPriceCurve { token_b_price: 20 };
    let result = curve
        .pool_tokens_to_trading_tokens(10, 100, 1000, 50)
        .unwrap();
    assert_eq!(result.token_a_amount, 100);
    assert_eq!(result.token_b_amount, 5);
}

#[test]
fn curve_validation() {

    let curve = ConstantPriceCurve { token_b_price: 0 };
    assert_eq!(curve.validate(), Err(SwapError::InvalidCurve));
    let curve = ConstantPriceCurve { token_b_price: 3 };
    assert_eq!(curve.validate(), Ok(()));
    assert_eq!(curve.validate_supply(0, 5), Err(SwapError::EmptySupply));
    assert_eq!(curve.validate_supply(1, 0), Ok(()));
}
