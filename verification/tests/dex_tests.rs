//! Tests of the order-book exchange, midpoint, and end-to-end borrow and
//! repay flows, driven through a real critbit slab of the order-book
//! crate.

use token_lending::codec::RESERVE_LEN;
use token_lending::decimal::Decimal;
use token_lending::dex::{
    dex_market_midpoint, exchange_with_order_book, fill_with_order, Fill, Side,
};
use token_lending::error::LendingError;
use token_lending::keys::Key;
use token_lending::processor::{process_borrow, process_repay, process_set_price};
use token_lending::state::{
    MintData, Obligation, Reserve, TokenAccountData, SLOTS_PER_YEAR,
};

/// A slab header: bump index, free-list length and head, root node, and
/// leaf count.
fn slab_header(bump_index: u64, root: u32, leaf_count: u64) -> Vec<u8> {
    let mut bytes = Vec::new();
    bytes.extend_from_slice(&bump_index.to_le_bytes());
    bytes.extend_from_slice(&0u64.to_le_bytes());
    bytes.extend_from_slice(&0u32.to_le_bytes());
    bytes.extend_from_slice(&root.to_le_bytes());
    bytes.extend_from_slice(&leaf_count.to_le_bytes());
    bytes
}

/// A 72-byte leaf node whose key carries the price in its high half.
fn leaf_node(price: u64, quantity: u64) -> Vec<u8> {
    let mut bytes = Vec::new();
    bytes.extend_from_slice(&2u32.to_le_bytes()); // leaf tag
    bytes.extend_from_slice(&[0u8; 4]); // owner slot, fee tier, padding
    bytes.extend_from_slice(&(((price as u128) << 64).to_le_bytes()));
    bytes.extend_from_slice(&[0u8; 32]); // owner
    bytes.extend_from_slice(&quantity.to_le_bytes());
    bytes.extend_from_slice(&0u64.to_le_bytes()); // client order id
    bytes
}

/// A 72-byte inner node pointing left and right.
fn inner_node(left: u32, right: u32) -> Vec<u8> {
    let mut bytes = Vec::new();
    bytes.extend_from_slice(&1u32.to_le_bytes()); // inner tag
    bytes.extend_from_slice(&0u32.to_le_bytes()); // prefix length
    bytes.extend_from_slice(&0u128.to_le_bytes()); // key
    bytes.extend_from_slice(&left.to_le_bytes());
    bytes.extend_from_slice(&right.to_le_bytes());
    bytes.extend_from_slice(&[0u8; 40]); // padding
    bytes
}

/// A slab with no orders.
fn empty_slab() -> Vec<u8> {
    let mut bytes = slab_header(0, 0, 0);
    bytes.extend_from_slice(&vec![0u8; 72]);
    bytes
}

/// A slab holding a single order.
fn one_order_slab(price: u64, quantity: u64) -> Vec<u8> {
    let mut bytes = slab_header(1, 0, 1);
    bytes.append(&mut leaf_node(price, quantity));
    bytes
}

/// A slab holding two orders under one inner node, the lower-keyed
/// order on the left.
fn two_order_slab(low: (u64, u64), high: (u64, u64)) -> Vec<u8> {
    let mut bytes = slab_header(3, 0, 2);
    bytes.append(&mut inner_node(1, 2));
    bytes.append(&mut leaf_node(low.0, low.1));
    bytes.append(&mut leaf_node(high.0, high.1));
    bytes
}

/// Wraps a slab payload in the order-book account layout: a 5-byte and
/// an 8-byte header region, then the payload, then a 7-byte trailer.
fn order_book_account(payload: &[u8]) -> Vec<u8> {
    let mut data = vec![0u8; 13];
    data.extend_from_slice(payload);
    data.extend_from_slice(&[0u8; 7]);
    data
}

#[test]
fn exchange_zero_input_yields_zero() {
    let payload = empty_slab();
    assert_eq!(
        exchange_with_order_book(&payload, Side::Ask, Fill::Base, 0),
        Ok(0)
    );
}

#[test]
fn exchange_on_empty_book_is_rejected() {
    let payload = empty_slab();
    assert_eq!(
        exchange_with_order_book(&payload, Side::Ask, Fill::Base, 1000),
        Err(LendingError::InvalidInput)
    );
}

#[test]
fn exchange_converts_base_to_quote_at_the_ask() {
    // one ask of 1000 base units at price 2204
    let payload = one_order_slab(2204, 1000);
    assert_eq!(
        exchange_with_order_book(&payload, Side::Ask, Fill::Base, 1000),
        Ok(2_204_000)
    );
}

#[test]
fn exchange_converts_quote_to_base_at_the_bid() {
    let payload = one_order_slab(2204, 1000);
    assert_eq!(
        exchange_with_order_book(&payload, Side::Bid, Fill::Quote, 2_204_000),
        Ok(1000)
    );
}

#[test]
fn exchange_picks_the_extremal_order() {
    // two bids: the higher price must be taken; two asks: the lower one
    let payload = two_order_slab((2000, 10), (2204, 10));
    // 22040 quote units buy the full 10 base units at the best bid of
    // 2204; at the lower bid they would buy eleven
    assert_eq!(
        exchange_with_order_book(&payload, Side::Bid, Fill::Quote, 22_040),
        Ok(10)
    );
    assert_eq!(
        exchange_with_order_book(&payload, Side::Ask, Fill::Base, 10),
        Ok(20_000)
    );
}

#[test]
fn fill_accumulates_in_chunks() {
    // filling 2500 against an order quoting 1000 takes three passes at
    // the same order: 1000 + 1000 + 500, each at base/quote = 2
    assert_eq!(fill_with_order(2500, 2000, 1000), Some(5000));
}

#[test]
fn midpoint_averages_best_bid_and_ask() {
    let bids = order_book_account(&two_order_slab((2200, 5), (2204, 5)));
    let asks = order_book_account(&two_order_slab((2206, 5), (2300, 5)));
    assert_eq!(dex_market_midpoint(&bids, &asks), Ok(2205));
    let empty = order_book_account(&empty_slab());
    assert_eq!(
        dex_market_midpoint(&bids, &empty),
        Err(LendingError::InvalidInput)
    );
}

fn market_key() -> Key {
    Key::new(600, 0)
}

fn usdc_mint() -> Key {
    Key::new(100, 0)
}

fn sol_mint() -> Key {
    Key::new(101, 0)
}

/// Market state bytes with the base mint at offset 53 and the quote mint
/// at offset 85.
fn market_state_data() -> Vec<u8> {
    let mut data = vec![0u8; 117];
    data[53..85].copy_from_slice(&sol_mint().to_bytes());
    data[85..117].copy_from_slice(&usdc_mint().to_bytes());
    data
}

fn sol_reserve(slot: u64) -> Reserve {
    Reserve {
        is_initialized: true,
        lending_market: Key::new(10, 0),
        liquidity_supply: Key::new(11, 0),
        liquidity_mint: sol_mint(),
        collateral_supply: Key::new(12, 0),
        collateral_mint: Key::new(13, 0),
        dex_market: Some(market_key()),
        dex_market_price: 2204,
        dex_market_price_updated_slot: slot,
        cumulative_borrow_rate: Decimal::from_u64(1),
        total_borrows: Decimal::from_u64(0),
        borrow_state_update_slot: slot,
    }
}

fn usdc_reserve(slot: u64) -> Reserve {
    Reserve {
        is_initialized: true,
        lending_market: Key::new(10, 0),
        liquidity_supply: Key::new(21, 0),
        liquidity_mint: usdc_mint(),
        collateral_supply: Key::new(22, 0),
        collateral_mint: Key::new(23, 0),
        dex_market: None,
        dex_market_price: 0,
        dex_market_price_updated_slot: 0,
        cumulative_borrow_rate: Decimal::from_u64(1),
        total_borrows: Decimal::from_u64(0),
        borrow_state_update_slot: slot,
    }
}

fn token(mint: Key, amount: u64) -> TokenAccountData {
    TokenAccountData {
        mint,
        owner: Key::new(9, 9),
        amount,
        has_delegate: false,
        has_close_authority: false,
        is_initialized: true,
    }
}

#[test]
fn set_price_writes_the_midpoint_and_slot() {
    let reserve = sol_reserve(1);
    let bids = order_book_account(&one_order_slab(2204, 5));
    let asks = order_book_account(&one_order_slab(2206, 5));
    let packed = process_set_price(&reserve.pack(), &market_key(), &bids, &asks, 33).unwrap();
    let back = Reserve::unpack(&packed).unwrap();
    assert_eq!(back.dex_market_price, 2205);
    assert_eq!(back.dex_market_price_updated_slot, 33);
    // a reserve bound to a different market is rejected
    assert_eq!(
        process_set_price(&reserve.pack(), &Key::new(1, 1), &bids, &asks, 33),
        Err(LendingError::InvalidInput)
    );
}

#[test]
fn borrow_and_repay_against_the_order_book() {
    let program_id = Key::new(500, 0);
    let slot: u64 = 7;

    // SOL reserve: 2000 liquidity, 10000 collateral minted, rate 5:1
    let deposit_reserve = sol_reserve(slot);
    let deposit_reserve_key = Key::new(30, 0);
    // USDC reserve holding exactly the borrowed liquidity
    let borrow_reserve = usdc_reserve(slot);
    let borrow_reserve_key = Key::new(31, 0);

    let orders = order_book_account(&one_order_slab(2204, 1000));
    let market_data = market_state_data();

    let obligation_mint_key = Key::new(40, 0);
    let empty_obligation = Obligation {
        last_update_slot: 0,
        collateral_amount: 0,
        collateral_supply: Key::new(0, 0),
        cumulative_borrow_rate: Decimal::from_u64(0),
        borrow_amount: Decimal::from_u64(0),
        borrow_reserve: Key::new(0, 0),
        token_mint: Key::new(0, 0),
    };

    let out = process_borrow(
        &program_id,
        5000,
        &deposit_reserve.pack(),
        &borrow_reserve.pack(),
        &deposit_reserve_key,
        &borrow_reserve_key,
        &borrow_reserve.liquidity_supply,
        &token(deposit_reserve.collateral_mint, 0),
        &token(sol_mint(), 2000),
        &MintData { supply: 10000, is_initialized: true },
        &token(usdc_mint(), 2_204_000),
        &market_data,
        &orders,
        &empty_obligation.pack(),
        true,
        &obligation_mint_key,
        &MintData { supply: 0, is_initialized: false },
        &Key::new(55, 0),
        &TokenAccountData {
            mint: obligation_mint_key,
            owner: Key::new(9, 9),
            amount: 0,
            has_delegate: false,
            has_close_authority: false,
            is_initialized: false,
        },
        &Key::new(55, 0),
        &Key::new(55, 0),
        slot,
    )
    .unwrap();

    // 5000 collateral converts to 1000 liquidity at the 5:1 rate, and the
    // order book exchanges it into 2204000 quote units
    assert_eq!(out.collateral_deposit_amount, 5000);
    assert_eq!(out.obligation_token_mint_amount, 1000);
    assert_eq!(out.borrow_amount, 2_204_000);

    let obligation = Obligation::unpack(&out.obligation).unwrap();
    assert_eq!(obligation.collateral_amount, 5000);
    assert_eq!(obligation.borrow_amount.round_u64(), 2_204_000);
    assert_eq!(obligation.borrow_reserve, borrow_reserve_key);
    assert_eq!(obligation.collateral_supply, deposit_reserve_key);
    assert_eq!(obligation.token_mint, obligation_mint_key);

    let updated_borrow_reserve = Reserve::unpack(&out.borrow_reserve).unwrap();
    assert_eq!(updated_borrow_reserve.total_borrows.round_u64(), 2_204_000);

    // a year later the whole pool is lent out, so the max rate applies
    let repay_slot = slot + SLOTS_PER_YEAR;
    let withdraw_reserve = sol_reserve(slot);
    let withdraw_reserve_key = deposit_reserve_key;

    let repay = process_repay(
        &program_id,
        2_204_000,
        &out.borrow_reserve,
        &withdraw_reserve.pack(),
        &out.obligation,
        &borrow_reserve_key,
        &withdraw_reserve_key,
        &updated_borrow_reserve.liquidity_supply,
        &withdraw_reserve.collateral_supply,
        &obligation_mint_key,
        &MintData { supply: 1000, is_initialized: true },
        &token(usdc_mint(), 0),
        repay_slot,
    )
    .unwrap();

    // interest of 30 percent accrued: the debt grew to 2865200, so the
    // full 2204000 repayment leaves 661200 outstanding
    assert_eq!(repay.repay_amount, 2_204_000);
    let obligation_after = Obligation::unpack(&repay.obligation).unwrap();
    assert_eq!(obligation_after.borrow_amount.round_u64(), 661_200);
    // ten thirteenths of the debt was repaid, releasing that share of
    // the 5000 collateral and of the 1000 obligation claim tokens
    assert_eq!(repay.collateral_withdraw_amount, 3846);
    assert_eq!(repay.obligation_token_amount, 769);
    assert_eq!(obligation_after.collateral_amount, 5000 - 3846);

    let reserve_after = Reserve::unpack(&repay.repay_reserve).unwrap();
    assert_eq!(reserve_after.total_borrows.round_u64(), 661_200);
}

#[test]
fn reserve_pack_len_matches_layout() {
    assert_eq!(sol_reserve(1).pack().len(), RESERVE_LEN);
}

#[test]
fn borrow_rejects_reserves_of_different_markets() {
    let slot: u64 = 7;
    let deposit_reserve = sol_reserve(slot);
    let mut borrow_reserve = usdc_reserve(slot);
    borrow_reserve.lending_market = Key::new(99, 0);
    let orders = order_book_account(&one_order_slab(2204, 1000));
    let market_data = market_state_data();
    let obligation_mint_key = Key::new(40, 0);
    let result = process_borrow(
        &Key::new(500, 0),
        5000,
        &deposit_reserve.pack(),
        &borrow_reserve.pack(),
        &Key::new(30, 0),
        &Key::new(31, 0),
        &borrow_reserve.liquidity_supply,
        &token(deposit_reserve.collateral_mint, 0),
        &token(sol_mint(), 2000),
        &MintData { supply: 10000, is_initialized: true },
        &token(usdc_mint(), 2_204_000),
        &market_data,
        &orders,
        &vec![0u8; 144],
        true,
        &obligation_mint_key,
        &MintData { supply: 0, is_initialized: false },
        &Key::new(55, 0),
        &TokenAccountData {
            mint: obligation_mint_key,
            owner: Key::new(9, 9),
            amount: 0,
            has_delegate: false,
            has_close_authority: false,
            is_initialized: false,
        },
        &Key::new(55, 0),
        &Key::new(55, 0),
        slot,
    );
    assert!(matches!(result, Err(LendingError::LendingMarketMismatch)));
}

#[test]
fn malformed_slabs_are_rejected_not_walked() {
    // a nonzero leaf count whose root handle points past the nodes
    let mut dangling_root = slab_header(1, 9, 1);
    dangling_root.append(&mut leaf_node(2204, 1000));
    assert_eq!(
        exchange_with_order_book(&dangling_root, Side::Ask, Fill::Base, 1000),
        Err(LendingError::InvalidInput)
    );
    // an inner node pointing back at itself would never terminate
    let mut cyclic = slab_header(1, 0, 1);
    cyclic.append(&mut inner_node(0, 0));
    assert_eq!(
        exchange_with_order_book(&cyclic, Side::Ask, Fill::Base, 1000),
        Err(LendingError::InvalidInput)
    );
    // a best leaf with a zero price would not parse as an order
    let zero_price = one_order_slab(0, 1000);
    assert_eq!(
        exchange_with_order_book(&zero_price, Side::Ask, Fill::Base, 1000),
        Err(LendingError::InvalidInput)
    );
    // a root marked as a freed node is not a valid tree
    let mut freed = slab_header(1, 0, 1);
    let mut node = leaf_node(2204, 1000);
    node[0] = 3;
    freed.append(&mut node);
    assert_eq!(
        exchange_with_order_book(&freed, Side::Ask, Fill::Base, 1000),
        Err(LendingError::InvalidInput)
    );
}
