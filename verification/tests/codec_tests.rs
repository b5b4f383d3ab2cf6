//! Round-trip and rejection tests of the record and instruction codecs.

use token_lending::codec::{LENDING_MARKET_LEN, OBLIGATION_LEN, RESERVE_LEN};
use token_lending::decimal::Decimal;
use token_lending::error::LendingError;
use token_lending::instruction::LendingInstruction;
use token_lending::keys::Key;
use token_lending::state::{LendingMarket, Obligation, Reserve};

fn sample_reserve(dex: bool) -> Reserve {
    Reserve {
        is_initialized: true,
        lending_market: Key::new(1, 2),
        liquidity_supply: Key::new(3, 4),
        liquidity_mint: Key::new(5, 6),
        collateral_supply: Key::new(7, 8),
        collateral_mint: Key::new(9, 10),
        dex_market: if dex { Some(Key::new(11, 12)) } else { None },
        dex_market_price: 2204,
        dex_market_price_updated_slot: 42,
        cumulative_borrow_rate: Decimal::from_u64(1),
        total_borrows: Decimal::from_scaled_val(123_456_789),
        borrow_state_update_slot: 7,
    }
}

#[test]
fn reserve_round_trip_with_dex_market() {
    let r = sample_reserve(true);
    let bytes = r.pack();
    assert_eq!(bytes.len(), RESERVE_LEN);
    let back = Reserve::unpack(&bytes).unwrap();
    assert!(back.is_initialized);
    assert_eq!(back.lending_market, r.lending_market);
    assert_eq!(back.liquidity_supply, r.liquidity_supply);
    assert_eq!(back.liquidity_mint, r.liquidity_mint);
    assert_eq!(back.collateral_supply, r.collateral_supply);
    assert_eq!(back.collateral_mint, r.collateral_mint);
    assert_eq!(back.dex_market, Some(Key::new(11, 12)));
    assert_eq!(back.dex_market_price, 2204);
    assert_eq!(back.dex_market_price_updated_slot, 42);
    assert!(back.cumulative_borrow_rate.eq_val(&r.cumulative_borrow_rate));
    assert!(back.total_borrows.eq_val(&r.total_borrows));
    assert_eq!(back.borrow_state_update_slot, 7);
}

#[test]
fn reserve_round_trip_without_dex_market() {
    let r = sample_reserve(false);
    let bytes = r.pack();
    let back = Reserve::unpack(&bytes).unwrap();
    assert_eq!(back.dex_market, None);
}

#[test]
fn reserve_rejects_malformed_bytes() {
    assert!(matches!(Reserve::unpack(&[0u8; 10]), Err(LendingError::InvalidInput)));
    let mut bytes = sample_reserve(true).pack();
    bytes[0] = 9; // not a boolean
    assert!(matches!(Reserve::unpack(&bytes), Err(LendingError::InvalidInput)));
    let mut bytes = sample_reserve(true).pack();
    bytes[161] = 7; // not an option tag
    assert!(matches!(Reserve::unpack(&bytes), Err(LendingError::InvalidInput)));
}

#[test]
fn lending_market_round_trip() {
    let m = LendingMarket { is_initialized: true, quote_token_mint: Key::new(77, 88) };
    let bytes = m.pack();
    assert_eq!(bytes.len(), LENDING_MARKET_LEN);
    let back = LendingMarket::unpack(&bytes).unwrap();
    assert!(back.is_initialized);
    assert_eq!(back.quote_token_mint, Key::new(77, 88));
}

#[test]
fn obligation_round_trip() {
    let o = Obligation {
        last_update_slot: 9,
        collateral_amount: 5000,
        collateral_supply: Key::new(1, 1),
        cumulative_borrow_rate: Decimal::from_u64(1),
        borrow_amount: Decimal::from_u64(2204000),
        borrow_reserve: Key::new(2, 2),
        token_mint: Key::new(3, 3),
    };
    let bytes = o.pack();
    assert_eq!(bytes.len(), OBLIGATION_LEN);
    let back = Obligation::unpack(&bytes).unwrap();
    assert_eq!(back.last_update_slot, 9);
    assert_eq!(back.collateral_amount, 5000);
    assert_eq!(back.collateral_supply, Key::new(1, 1));
    assert!(back.borrow_amount.eq_val(&o.borrow_amount));
    assert_eq!(back.borrow_reserve, Key::new(2, 2));
    assert_eq!(back.token_mint, Key::new(3, 3));
    assert!(back.is_initialized());
}

#[test]
fn key_bytes_round_trip() {
    let k = Key::new(0x0123_4567_89ab_cdef, 0xfedc_ba98_7654_3210);
    let bytes = k.to_bytes();
    assert_eq!(bytes.len(), 32);
    assert_eq!(Key::from_bytes(&bytes), k);
}

#[test]
fn instruction_pack_unpack_round_trips() {
    let cases = vec![
        LendingInstruction::InitLendingMarket,
        LendingInstruction::InitReserve,
        LendingInstruction::DepositReserveLiquidity { liquidity_amount: 1000 },
        LendingInstruction::WithdrawReserveLiquidity { collateral_amount: 5000 },
        LendingInstruction::BorrowReserveLiquidity { collateral_amount: 5000 },
        LendingInstruction::RepayReserveLiquidity { liquidity_amount: 2204000 },
        LendingInstruction::SetPrice,
    ];
    for case in cases {
        let packed = case.pack();
        assert_eq!(LendingInstruction::unpack(&packed), Ok(case));
    }
}

#[test]
fn instruction_unpack_rejects_bad_input() {
    assert_eq!(
        LendingInstruction::unpack(&[]),
        Err(LendingError::InvalidInstruction)
    );
    assert_eq!(
        LendingInstruction::unpack(&[7]),
        Err(LendingError::InvalidInstruction)
    );
    // amount-carrying tags need eight more bytes
    assert_eq!(
        LendingInstruction::unpack(&[2, 1, 2, 3]),
        Err(LendingError::InvalidInstruction)
    );
}

#[test]
fn instruction_amount_is_little_endian() {
    let packed = LendingInstruction::DepositReserveLiquidity { liquidity_amount: 0x0102 }.pack();
    assert_eq!(packed, vec![2, 0x02, 0x01, 0, 0, 0, 0, 0, 0]);
}
