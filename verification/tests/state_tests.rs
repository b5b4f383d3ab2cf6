//! Tests of the reserve engine: market price staleness, the borrow-rate
//! curve, cumulative-rate updates and obligation accrual.

use token_lending::decimal::Decimal;
use token_lending::error::LendingError;
use token_lending::keys::Key;
use token_lending::state::{
    MintData, Obligation, Reserve, TokenAccountData, INITIAL_COLLATERAL_RATE, SLOTS_PER_YEAR,
};

fn fresh_reserve() -> Reserve {
    Reserve {
        is_initialized: true,
        lending_market: Key::new(1, 0),
        liquidity_supply: Key::new(2, 0),
        liquidity_mint: Key::new(3, 0),
        collateral_supply: Key::new(4, 0),
        collateral_mint: Key::new(5, 0),
        dex_market: None,
        dex_market_price: 0,
        dex_market_price_updated_slot: 0,
        cumulative_borrow_rate: Decimal::from_u64(0),
        total_borrows: Decimal::from_u64(0),
        borrow_state_update_slot: 0,
    }
}

fn token_account(amount: u64) -> TokenAccountData {
    TokenAccountData {
        mint: Key::new(3, 0),
        owner: Key::new(9, 0),
        amount,
        has_delegate: false,
        has_close_authority: false,
        is_initialized: true,
    }
}

#[test]
fn quote_reserve_prices_at_one() {
    let r = fresh_reserve();
    assert_eq!(r.current_dex_market_price(10), Ok(1));
}

#[test]
fn unset_price_is_rejected() {
    let mut r = fresh_reserve();
    r.dex_market = Some(Key::new(7, 0));
    r.dex_market_price_updated_slot = 0;
    assert_eq!(r.current_dex_market_price(10), Err(LendingError::ReservePriceUnset));
}

#[test]
fn price_exactly_five_slots_old_is_stale() {
    let mut r = fresh_reserve();
    r.dex_market = Some(Key::new(7, 0));
    r.dex_market_price = 2204;
    r.dex_market_price_updated_slot = 100;
    // four slots old: still fresh
    assert_eq!(r.current_dex_market_price(104), Ok(2204));
    // exactly five slots old: stale
    assert_eq!(r.current_dex_market_price(105), Err(LendingError::ReservePriceExpired));
}

#[test]
fn borrow_rate_at_zero_utilization_is_zero() {
    let r = fresh_reserve();
    let rate = r.current_borrow_rate(&token_account(1000));
    assert_eq!(rate.to_scaled_val(), 0);
}

#[test]
fn borrow_rate_at_optimal_utilization_is_optimal() {
    let mut r = fresh_reserve();
    r.total_borrows = Decimal::from_u64(80);
    let rate = r.current_borrow_rate(&token_account(20));
    assert_eq!(rate.to_scaled_val(), 40_000_000_000_000_000);
}

#[test]
fn borrow_rate_at_full_utilization_is_max() {
    let mut r = fresh_reserve();
    r.total_borrows = Decimal::from_u64(10);
    let rate = r.current_borrow_rate(&token_account(0));
    assert_eq!(rate.to_scaled_val(), 300_000_000_000_000_000);
}

#[test]
fn first_update_initializes_the_integrator() {
    let mut r = fresh_reserve();
    let cum = r.update_cumulative_rate(5, &token_account(1000));
    assert_eq!(cum.to_scaled_val(), 1_000_000_000_000_000_000);
    assert_eq!(r.borrow_state_update_slot, 5);
}

#[test]
fn repeated_update_in_one_slot_changes_nothing() {
    let mut r = fresh_reserve();
    r.total_borrows = Decimal::from_u64(80);
    let supply = token_account(20);
    r.update_cumulative_rate(5, &supply);
    r.update_cumulative_rate(5 + SLOTS_PER_YEAR, &supply);
    let cum_once = r.cumulative_borrow_rate.to_scaled_val();
    let borrows_once = r.total_borrows.to_scaled_val();
    let slot_once = r.borrow_state_update_slot;
    r.update_cumulative_rate(5 + SLOTS_PER_YEAR, &supply);
    assert_eq!(r.cumulative_borrow_rate.to_scaled_val(), cum_once);
    assert_eq!(r.total_borrows.to_scaled_val(), borrows_once);
    assert_eq!(r.borrow_state_update_slot, slot_once);
}

#[test]
fn one_year_at_full_utilization_accrues_the_max_rate() {
    let mut r = fresh_reserve();
    r.total_borrows = Decimal::from_u64(2204000);
    r.cumulative_borrow_rate = Decimal::from_u64(1);
    r.borrow_state_update_slot = 1;
    let supply = token_account(0);
    let cum = r.update_cumulative_rate(1 + SLOTS_PER_YEAR, &supply);
    // the year at the 0.30 max rate multiplies the integrator by 1.3
    assert_eq!(cum.to_scaled_val(), 1_300_000_000_000_000_000);
    // and grows the outstanding borrows by 30 percent
    assert_eq!(
        r.total_borrows.to_scaled_val(),
        2_865_200_000_000_000_000_000_000
    );
}

#[test]
fn empty_collateral_mint_uses_the_initial_rate() {
    let mut r = fresh_reserve();
    r.borrow_state_update_slot = 3;
    let supply = token_account(1000);
    let mint = MintData { supply: 0, is_initialized: true };
    let rate = r.collateral_exchange_rate(3, &supply, &mint).unwrap();
    assert_eq!(
        rate.to_scaled_val(),
        INITIAL_COLLATERAL_RATE as u128 * 1_000_000_000_000_000_000
    );
}

#[test]
fn stale_reserve_cannot_quote_an_exchange_rate() {
    let mut r = fresh_reserve();
    r.borrow_state_update_slot = 3;
    let supply = token_account(1000);
    let mint = MintData { supply: 0, is_initialized: true };
    assert!(matches!(
        r.collateral_exchange_rate(4, &supply, &mint),
        Err(LendingError::InvalidInput)
    ));
}

#[test]
fn conversions_follow_the_exchange_rate() {
    let mut r = fresh_reserve();
    r.borrow_state_update_slot = 3;
    let supply = token_account(1000);
    let mint = MintData { supply: 5000, is_initialized: true };
    // rate = 5000 / (0 + 1000) = 5
    let collateral = r.liquidity_to_collateral(3, &supply, &mint, 200).unwrap();
    assert_eq!(collateral.round_u64(), 1000);
    let liquidity = r.collateral_to_liquidity(3, &supply, &mint, 1000).unwrap();
    assert_eq!(liquidity.round_u64(), 200);
}

#[test]
fn accrual_snapshots_the_reserve_rate() {
    let mut r = fresh_reserve();
    r.cumulative_borrow_rate = Decimal::from_scaled_val(1_300_000_000_000_000_000);
    r.total_borrows = Decimal::from_u64(2865200);
    r.borrow_state_update_slot = 1 + SLOTS_PER_YEAR;
    let mut o = Obligation {
        last_update_slot: 1,
        collateral_amount: 5000,
        collateral_supply: Key::new(4, 0),
        cumulative_borrow_rate: Decimal::from_u64(1),
        borrow_amount: Decimal::from_u64(2204000),
        borrow_reserve: Key::new(2, 0),
        token_mint: Key::new(6, 0),
    };
    // a stale reserve is rejected and nothing changes
    assert_eq!(o.accrue_interest(1, &r), Err(LendingError::InvalidInput));
    assert_eq!(o.last_update_slot, 1);
    // accruing against the advanced reserve adopts its snapshot
    assert_eq!(o.accrue_interest(1 + SLOTS_PER_YEAR, &r), Ok(()));
    assert_eq!(
        o.cumulative_borrow_rate.to_scaled_val(),
        r.cumulative_borrow_rate.to_scaled_val()
    );
    assert_eq!(o.last_update_slot, 1 + SLOTS_PER_YEAR);
    // the 30 percent rate delta over one year adds 661200 of interest
    assert_eq!(
        o.borrow_amount.to_scaled_val(),
        2_865_200_000_000_000_000_000_000
    );
}

#[test]
fn add_and_subtract_borrows() {
    let mut r = fresh_reserve();
    r.add_borrow(Decimal::from_u64(100));
    r.add_borrow(Decimal::from_u64(50));
    r.subtract_repay(Decimal::from_u64(30));
    assert_eq!(r.total_borrows.round_u64(), 120);
}

#[test]
fn cumulative_rate_compounds_across_updates() {
    // two updates with no borrow or repayment in between: the second
    // multiplies the first result by one plus its own period rate
    let mut two_step = fresh_reserve();
    two_step.total_borrows = Decimal::from_u64(80);
    two_step.cumulative_borrow_rate = Decimal::from_u64(1);
    two_step.borrow_state_update_slot = 1;
    let supply = token_account(20);
    let mid = 1 + SLOTS_PER_YEAR / 2;
    let last = 1 + SLOTS_PER_YEAR;
    let first_rate = two_step.current_borrow_rate(&supply);
    two_step.update_cumulative_rate(mid, &supply);
    let first_factor = Decimal::from_u64(1).add(
        Decimal::from_u64(mid - 1).mul(first_rate).div(Decimal::from_u64(SLOTS_PER_YEAR)),
    );
    // recompute the second factor from the state the first update left
    let second_rate = two_step.current_borrow_rate(&supply);
    let second_factor = Decimal::from_u64(1).add(
        Decimal::from_u64(last - mid)
            .mul(second_rate)
            .div(Decimal::from_u64(SLOTS_PER_YEAR)),
    );
    let cum_mid = two_step.cumulative_borrow_rate;
    two_step.update_cumulative_rate(last, &supply);
    assert_eq!(
        two_step.cumulative_borrow_rate.to_scaled_val(),
        cum_mid.mul(second_factor).to_scaled_val()
    );
    // and the first step itself was the initial rate times its factor
    assert_eq!(cum_mid.to_scaled_val(), first_factor.to_scaled_val());
}

#[test]
fn deposit_withdraw_round_trip_loses_at_most_one_unit() {
    // a rate of 3.5 collateral per liquidity unit: 7000 collateral
    // against 2000 liquidity
    let mut r = fresh_reserve();
    r.borrow_state_update_slot = 3;
    let supply = token_account(2000);
    let mint = MintData { supply: 7000, is_initialized: true };
    let minted = r.liquidity_to_collateral(3, &supply, &mint, 1001).unwrap().round_u64();
    assert_eq!(minted, 3503);
    let returned = r.collateral_to_liquidity(3, &supply, &mint, minted).unwrap().round_u64();
    // the fractional half-unit was truncated away: one unit is lost
    assert_eq!(returned, 1000);
}
