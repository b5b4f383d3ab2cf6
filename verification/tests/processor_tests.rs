//! Tests of the lending instruction handlers: market initialization,
//! deposit and withdraw, and the deposit-withdraw round trip.

use token_lending::authority::{authority_id, find_authority_bump_seed};
use token_lending::decimal::Decimal;
use token_lending::error::LendingError;
use token_lending::keys::Key;
use token_lending::processor::{
    process_deposit, process_init_lending_market, process_init_reserve, process_withdraw,
};
use token_lending::state::{LendingMarket, MintData, Reserve, TokenAccountData};

fn token_program() -> Key {
    Key::new(200, 0)
}

fn quote_mint_key() -> Key {
    Key::new(201, 0)
}

#[test]
fn init_lending_market_then_reinit_is_already_in_use() {
    let empty = LendingMarket { is_initialized: false, quote_token_mint: Key::new(0, 0) };
    let data = empty.pack();
    let mint = MintData { supply: 0, is_initialized: true };

    let packed = process_init_lending_market(
        &data,
        true,
        &quote_mint_key(),
        &mint,
        &token_program(),
        &token_program(),
    )
    .unwrap();
    let market = LendingMarket::unpack(&packed).unwrap();
    assert!(market.is_initialized);
    assert_eq!(market.quote_token_mint, quote_mint_key());

    // running the initializer again on the written record is rejected
    assert_eq!(
        process_init_lending_market(
            &packed,
            true,
            &quote_mint_key(),
            &mint,
            &token_program(),
            &token_program(),
        ),
        Err(LendingError::AlreadyInUse)
    );
}

#[test]
fn init_lending_market_validates_its_inputs() {
    let empty = LendingMarket { is_initialized: false, quote_token_mint: Key::new(0, 0) };
    let data = empty.pack();
    let mint = MintData { supply: 0, is_initialized: true };
    assert_eq!(
        process_init_lending_market(&data, false, &quote_mint_key(), &mint, &token_program(),
            &token_program()),
        Err(LendingError::NotRentExempt)
    );
    assert_eq!(
        process_init_lending_market(&data, true, &quote_mint_key(), &mint, &Key::new(9, 9),
            &token_program()),
        Err(LendingError::InvalidTokenProgram)
    );
    let uninit = MintData { supply: 0, is_initialized: false };
    assert_eq!(
        process_init_lending_market(&data, true, &quote_mint_key(), &uninit, &token_program(),
            &token_program()),
        Err(LendingError::ExpectedTokenMint)
    );
}

fn reserve_with_market(market: Key) -> Reserve {
    Reserve {
        is_initialized: true,
        lending_market: market,
        liquidity_supply: Key::new(301, 0),
        liquidity_mint: Key::new(302, 0),
        collateral_supply: Key::new(303, 0),
        collateral_mint: Key::new(304, 0),
        dex_market: None,
        dex_market_price: 0,
        dex_market_price_updated_slot: 0,
        cumulative_borrow_rate: Decimal::from_u64(0),
        total_borrows: Decimal::from_u64(0),
        borrow_state_update_slot: 0,
    }
}

fn liquidity(amount: u64) -> TokenAccountData {
    TokenAccountData {
        mint: Key::new(302, 0),
        owner: Key::new(9, 9),
        amount,
        has_delegate: false,
        has_close_authority: false,
        is_initialized: true,
    }
}

#[test]
fn derived_authority_validates_against_its_bump_seed() {
    let program_id = Key::new(400, 0);
    let market = Key::new(401, 0);
    let (authority, bump) = find_authority_bump_seed(&program_id, &market).unwrap();
    // recomputing from the found bump seed reaches the same address
    assert_eq!(authority_id(&program_id, &market, bump), Ok(authority));
    assert_ne!(authority, market);
}

#[test]
fn deposit_mints_at_the_initial_rate() {
    let program_id = Key::new(400, 0);
    let market = Key::new(401, 0);
    let (authority, _bump) = find_authority_bump_seed(&program_id, &market).unwrap();
    let reserve = reserve_with_market(market);
    let supply = liquidity(1000);
    let collateral_mint = MintData { supply: 0, is_initialized: true };

    let out = process_deposit(
        &program_id,
        1000,
        &reserve.pack(),
        &authority,
        &Key::new(310, 0),
        &reserve.liquidity_supply,
        &Key::new(311, 0),
        &reserve.collateral_mint,
        &supply,
        &collateral_mint,
        5,
    )
    .unwrap();
    // the empty collateral mint values deposits at five to one
    assert_eq!(out.collateral_mint_amount, 5000);
    let advanced = Reserve::unpack(&out.reserve).unwrap();
    assert_eq!(advanced.borrow_state_update_slot, 5);
    assert_eq!(
        advanced.cumulative_borrow_rate.to_scaled_val(),
        1_000_000_000_000_000_000
    );

    // a wrong authority is rejected
    assert!(matches!(
        process_deposit(
            &program_id,
            1000,
            &reserve.pack(),
            &Key::new(9, 9),
            &Key::new(310, 0),
            &reserve.liquidity_supply,
            &Key::new(311, 0),
            &reserve.collateral_mint,
            &supply,
            &collateral_mint,
            5,
        ),
        Err(LendingError::InvalidProgramAddress)
    ));
}

#[test]
fn deposit_then_withdraw_returns_the_liquidity() {
    let program_id = Key::new(400, 0);
    let market = Key::new(401, 0);
    let (authority, _bump) = find_authority_bump_seed(&program_id, &market).unwrap();
    let reserve = reserve_with_market(market);
    // the pool starts consistent at the five-to-one rate: 1000 liquidity
    // against 5000 outstanding collateral
    let supply = liquidity(1000);
    let collateral_mint = MintData { supply: 5000, is_initialized: true };

    let deposited = process_deposit(
        &program_id,
        1000,
        &reserve.pack(),
        &authority,
        &Key::new(310, 0),
        &reserve.liquidity_supply,
        &Key::new(311, 0),
        &reserve.collateral_mint,
        &supply,
        &collateral_mint,
        5,
    )
    .unwrap();
    assert_eq!(deposited.collateral_mint_amount, 5000);

    // the deposit moved 1000 into the supply and minted 5000 collateral
    let supply_after = liquidity(2000);
    let mint_after = MintData { supply: 10000, is_initialized: true };
    let withdrawn = process_withdraw(
        &program_id,
        5000,
        &deposited.reserve,
        &authority,
        &Key::new(312, 0),
        &reserve.liquidity_supply,
        &Key::new(313, 0),
        &reserve.collateral_mint,
        &supply_after,
        &mint_after,
        5,
    )
    .unwrap();
    // redeeming the freshly minted collateral at the same slot returns
    // the deposited 1000 liquidity exactly
    assert_eq!(withdrawn.liquidity_withdraw_amount, 1000);
}

fn uninitialized_token(mint: Key) -> TokenAccountData {
    TokenAccountData {
        mint,
        owner: Key::new(0, 0),
        amount: 0,
        has_delegate: false,
        has_close_authority: false,
        is_initialized: false,
    }
}

#[test]
fn init_reserve_mints_against_existing_liquidity() {
    let program_id = Key::new(400, 0);
    let market_key = Key::new(402, 0);
    let quote_mint = Key::new(302, 0);
    let (authority, _bump) = find_authority_bump_seed(&program_id, &market_key).unwrap();

    let market = LendingMarket { is_initialized: true, quote_token_mint: quote_mint };
    let reserve_data = vec![0u8; 253];
    let liquidity_supply_key = Key::new(301, 0);
    // the supply account is owned by the derived authority and holds the
    // reserve's own mint, which equals the quote mint: no order book
    let supply = TokenAccountData {
        mint: quote_mint,
        owner: authority,
        amount: 1000,
        has_delegate: false,
        has_close_authority: false,
        is_initialized: true,
    };
    let collateral_mint_key = Key::new(304, 0);
    let out = process_init_reserve(
        &program_id,
        &reserve_data,
        true,
        &market.pack(),
        &market_key,
        true,
        &authority,
        &liquidity_supply_key,
        &supply,
        &token_program(),
        &collateral_mint_key,
        &MintData { supply: 0, is_initialized: false },
        &token_program(),
        &Key::new(303, 0),
        &uninitialized_token(collateral_mint_key),
        &token_program(),
        &uninitialized_token(collateral_mint_key),
        &token_program(),
        false,
        &Key::new(0, 0),
        &vec![0u8; 117],
        true,
        9,
    )
    .unwrap();

    // the pre-existing 1000 liquidity is valued at the initial 5:1 rate
    assert_eq!(out.collateral_mint_amount, 5000);
    let reserve = Reserve::unpack(&out.reserve).unwrap();
    assert!(reserve.is_initialized);
    assert_eq!(reserve.lending_market, market_key);
    assert_eq!(reserve.liquidity_supply, liquidity_supply_key);
    assert_eq!(reserve.liquidity_mint, quote_mint);
    assert_eq!(reserve.collateral_mint, collateral_mint_key);
    assert_eq!(reserve.dex_market, None);
    assert_eq!(reserve.borrow_state_update_slot, 9);
    assert_eq!(
        reserve.cumulative_borrow_rate.to_scaled_val(),
        1_000_000_000_000_000_000
    );
}

#[test]
fn init_reserve_binds_the_order_book_for_base_currencies() {
    let program_id = Key::new(400, 0);
    let market_key = Key::new(402, 0);
    let quote_mint = Key::new(700, 0);
    let base_mint = Key::new(701, 0);
    let dex_market_key = Key::new(702, 0);
    let (authority, _bump) = find_authority_bump_seed(&program_id, &market_key).unwrap();

    let market = LendingMarket { is_initialized: true, quote_token_mint: quote_mint };
    let supply = TokenAccountData {
        mint: base_mint,
        owner: authority,
        amount: 1000,
        has_delegate: false,
        has_close_authority: false,
        is_initialized: true,
    };
    // market state bytes carrying the base mint at offset 53 and the
    // quote mint at offset 85
    let mut dex_data = vec![0u8; 117];
    dex_data[53..85].copy_from_slice(&base_mint.to_bytes());
    dex_data[85..117].copy_from_slice(&quote_mint.to_bytes());

    let collateral_mint_key = Key::new(304, 0);
    let out = process_init_reserve(
        &program_id,
        &vec![0u8; 253],
        true,
        &market.pack(),
        &market_key,
        true,
        &authority,
        &Key::new(301, 0),
        &supply,
        &token_program(),
        &collateral_mint_key,
        &MintData { supply: 0, is_initialized: false },
        &token_program(),
        &Key::new(303, 0),
        &uninitialized_token(collateral_mint_key),
        &token_program(),
        &uninitialized_token(collateral_mint_key),
        &token_program(),
        true,
        &dex_market_key,
        &dex_data,
        true,
        9,
    )
    .unwrap();
    let reserve = Reserve::unpack(&out.reserve).unwrap();
    assert_eq!(reserve.dex_market, Some(dex_market_key));

    // a market whose quote mint differs from the lending market's is
    // rejected
    let mut wrong = dex_data.clone();
    wrong[85..117].copy_from_slice(&Key::new(9, 9).to_bytes());
    assert!(matches!(
        process_init_reserve(
            &program_id,
            &vec![0u8; 253],
            true,
            &market.pack(),
            &market_key,
            true,
            &authority,
            &Key::new(301, 0),
            &supply,
            &token_program(),
            &collateral_mint_key,
            &MintData { supply: 0, is_initialized: false },
            &token_program(),
            &Key::new(303, 0),
            &uninitialized_token(collateral_mint_key),
            &token_program(),
            &uninitialized_token(collateral_mint_key),
            &token_program(),
            true,
            &dex_market_key,
            &wrong,
            true,
            9,
        ),
        Err(LendingError::InvalidInput)
    ));
}

#[test]
fn init_reserve_checks_the_supply_account() {
    let program_id = Key::new(400, 0);
    let market_key = Key::new(402, 0);
    let quote_mint = Key::new(302, 0);
    let (authority, _bump) = find_authority_bump_seed(&program_id, &market_key).unwrap();
    let market = LendingMarket { is_initialized: true, quote_token_mint: quote_mint };
    let collateral_mint_key = Key::new(304, 0);

    let run = |supply: TokenAccountData| {
        process_init_reserve(
            &program_id,
            &vec![0u8; 253],
            true,
            &market.pack(),
            &market_key,
            true,
            &authority,
            &Key::new(301, 0),
            &supply,
            &token_program(),
            &collateral_mint_key,
            &MintData { supply: 0, is_initialized: false },
            &token_program(),
            &Key::new(303, 0),
            &uninitialized_token(collateral_mint_key),
            &token_program(),
            &uninitialized_token(collateral_mint_key),
            &token_program(),
            false,
            &Key::new(0, 0),
            &vec![0u8; 117],
            true,
            9,
        )
    };

    let good = TokenAccountData {
        mint: quote_mint,
        owner: authority,
        amount: 1000,
        has_delegate: false,
        has_close_authority: false,
        is_initialized: true,
    };
    // an uninitialized supply account
    assert!(matches!(
        run(TokenAccountData { is_initialized: false, ..good }),
        Err(LendingError::ExpectedTokenAccount)
    ));
    // a supply account not owned by the derived authority
    assert!(matches!(
        run(TokenAccountData { owner: Key::new(9, 9), ..good }),
        Err(LendingError::InvalidOwner)
    ));
    // a supply account with a close authority or a delegate
    assert!(matches!(
        run(TokenAccountData { has_close_authority: true, ..good }),
        Err(LendingError::InvalidCloseAuthority)
    ));
    assert!(matches!(
        run(TokenAccountData { has_delegate: true, ..good }),
        Err(LendingError::InvalidDelegate)
    ));
    // an empty supply account
    assert!(matches!(
        run(TokenAccountData { amount: 0, ..good }),
        Err(LendingError::InvalidInput)
    ));
}
