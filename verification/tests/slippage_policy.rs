use muggle_swap::admin::write_admin;
use muggle_swap::errors::SwapError;
use muggle_swap::slippage::{
    output_floor, SlippageManager, BPS_SCALE, MAX_SLIPPAGE_BPS, MIN_SLIPPAGE_BPS,
};
use muggle_swap::types::Store;
use soroban_sdk::{Address, Env};

const ADMIN: &str = "GAAQCAIBAEAQCAIBAEAQCAIBAEAQCAIBAEAQCAIBAEAQCAIBAEAQDZ7H";
const OTHER: &str = "GABAEAQCAIBAEAQCAIBAEAQCAIBAEAQCAIBAEAQCAIBAEAQCAIBAEJXA";

#[test]
fn policy_bounds_are_one_basis_point_and_one_half() {
    assert_eq!(BPS_SCALE, 10_000);
    assert_eq!(MIN_SLIPPAGE_BPS, 1);
    assert_eq!(MAX_SLIPPAGE_BPS, 5000);
    assert_eq!(SlippageManager::DEFAULT_SLIPPAGE_BPS, 5);
}

#[test]
fn floor_is_the_quote_less_the_tolerated_share() {
    assert_eq!(output_floor(1_000_000, 50), 995_000);
    assert_eq!(output_floor(1_000_000, 5), 999_500);
    assert_eq!(output_floor(1_000_000, 5000), 500_000);
    assert_eq!(output_floor(1_000_000, 10_000), 0);
    assert_eq!(output_floor(1_000_000, 0), 1_000_000);
    assert_eq!(output_floor(0, 50), 0);
}

#[test]
fn floor_rounds_the_share_down() {
    // 199 * 50 / 10000 = 0.995: nothing is taken off.
    assert_eq!(output_floor(199, 50), 199);
    // 200 * 50 / 10000 = 1.
    assert_eq!(output_floor(200, 50), 199);
    assert_eq!(output_floor(9_999, 1), 9_999);
    assert_eq!(output_floor(10_000, 1), 9_999);
    assert_eq!(output_floor(19_999, 1), 19_998);
    assert_eq!(output_floor(12_345, 4_321), 12_345 - 12_345 * 4_321 / 10_000);
    assert_eq!(output_floor(1, 9_999), 1);
    assert_eq!(output_floor(1, 10_000), 0);
}

#[test]
fn floor_of_the_largest_quote_does_not_overflow() {
    let q = i128::MAX;
    // i128::MAX = 17014118346046923173168730371588410 * 10000 + 5727.
    let whole: i128 = q / 10_000;
    let rest: i128 = q % 10_000;
    assert_eq!(output_floor(q, 10_000), 0);
    assert_eq!(output_floor(q, 5_000), q - (whole * 5_000 + rest * 5_000 / 10_000));
    assert_eq!(output_floor(q, 1), q - whole);
    assert_eq!(output_floor(q, 0), q);
    assert_eq!(output_floor(q, 50), q - (whole * 50 + rest * 50 / 10_000));
}

#[test]
fn floor_honours_the_tolerance() {
    for bps in [0u32, 1, 5, 50, 4_999, 5_000, 10_000] {
        for quote in [0i128, 1, 7, 199, 200, 10_000, 999_999, 5_000_000, 1 << 100] {
            let floor = output_floor(quote, bps);
            assert!(0 <= floor && floor <= quote);
            // floor >= quote * (1 - tolerance)
            assert!(floor * 10_000 >= quote * (10_000 - bps as i128));
            // and it is the least such amount that the rounding allows
            assert!((floor - 1) * 10_000 < quote * (10_000 - bps as i128));
        }
    }
}

#[test]
fn tolerance_defaults_to_five_basis_points() {
    let mut e = Store::new();
    assert_eq!(SlippageManager::get_slippage_tolerance(&e), 5);
    e.slippage = Some(120);
    assert_eq!(SlippageManager::get_slippage_tolerance(&e), 120);
}

#[test]
fn tolerance_is_set_by_the_administrator_within_bounds() {
    let env = Env::default();
    let admin = Address::from_str(&env, ADMIN);
    let other = Address::from_str(&env, OTHER);
    let mut e = Store::new();
    assert_eq!(
        SlippageManager::set_slippage_tolerance(&mut e, &admin, 50),
        Err(SwapError::NotInitialized)
    );
    write_admin(&mut e, &admin);
    assert_eq!(
        SlippageManager::set_slippage_tolerance(&mut e, &other, 50),
        Err(SwapError::NotAuthorized)
    );
    assert_eq!(e.slippage, None);
    for bad in [0i128, -1, 5001, i128::MAX, i128::MIN] {
        assert_eq!(
            SlippageManager::set_slippage_tolerance(&mut e, &admin, bad),
            Err(SwapError::InvalidAmount)
        );
        assert_eq!(SlippageManager::get_slippage_tolerance(&e), 5);
    }
    for good in [1i128, 50, 5000] {
        // A copy of the administrator's address is the administrator too.
        assert_eq!(SlippageManager::set_slippage_tolerance(&mut e, &admin.clone(), good), Ok(()));
        assert_eq!(SlippageManager::get_slippage_tolerance(&e), good);
        assert!(e.is_valid());
    }
    // A refused value leaves the last good one in force.
    assert_eq!(
        SlippageManager::set_slippage_tolerance(&mut e, &admin, 5001),
        Err(SwapError::InvalidAmount)
    );
    assert_eq!(SlippageManager::get_slippage_tolerance(&e), 5000);
    // Who is not the administrator is told so before the value is looked at.
    assert_eq!(
        SlippageManager::set_slippage_tolerance(&mut e, &other, 5001),
        Err(SwapError::NotAuthorized)
    );
}
