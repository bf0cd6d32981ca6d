use nft_pass_book::utils::{
    calculate_amount_for_points, calculate_shares, calculate_shares_less_points,
    calculate_user_shares_by_points,
};

#[test]
fn it_works() {
    let result = 2 + 2;
    assert_eq!(result, 4);
}

#[test]
fn price_splits_between_creators_and_market() {
    // A price of 10_000_000 with a market fee of 250 basis points.
    assert_eq!(calculate_shares_less_points(10_000_000, 250).unwrap(), 9_750_000);
    assert_eq!(calculate_amount_for_points(10_000_000, 250).unwrap(), 250_000);
    // Half of the market fee goes to the referrer.
    assert_eq!(calculate_shares(250_000, 50).unwrap(), 125_000);
    assert_eq!(calculate_shares(250_000, 100 - 50).unwrap(), 125_000);
}

#[test]
fn shares_by_points() {
    // 5% royalty of 1_000_000 is 50_000, of which 40% is 20_000.
    assert_eq!(calculate_user_shares_by_points(1_000_000, 500, 40).unwrap(), 20_000);
    // Rounding down.
    assert_eq!(calculate_shares(99, 50).unwrap(), 49);
    assert_eq!(calculate_amount_for_points(9_999, 1).unwrap(), 0);
}

#[test]
fn overflow_is_math_overflow() {
    let e = calculate_shares(u64::MAX, 2).unwrap_err();
    assert_eq!(
        e,
        nft_pass_book::error::ProgramError::Custom(
            nft_pass_book::error::NFTPassError::MathOverflow.code()
        )
    );
}
