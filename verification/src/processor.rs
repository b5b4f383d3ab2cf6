//! Instruction handlers of the lending engine.
//!
//! Each handler takes the hydrated state an instruction names — record
//! bytes, token-account views, keys and the current slot — performs every
//! rule check in the order the instruction defines, and returns either the
//! repacked records together with the token amounts to move, or the first
//! error encountered with nothing committed.  The host performs the account
//! plumbing and token transfers around these functions.

use vstd::prelude::*;
use crate::authority::{find_authority_bump_seed, pda_search_of};
use crate::codec::{
    spec_unpack_lending_market, spec_unpack_obligation, spec_unpack_reserve,
    spec_pack_lending_market,
};
use crate::decimal::{Decimal, dec_from_u64, dec_mul, dec_div, dec_round, scale_nat};
use crate::error::LendingError;
use crate::keys::Key;
use crate::state::{
    LendingMarket, MintData, Obligation, Reserve, TokenAccountData, spec_exchange_rate,
    spec_interest_rate,
};
use crate::u256::{p64, p128, p256};

verus! {

/// The reserve's outstanding borrows after advancing its borrow state to
/// `slot` against `liquidity_amount` idle tokens.
pub open spec fn spec_updated_borrows(r: Reserve, slot: u64, liquidity_amount: u64) -> nat {
    if r.borrow_state_update_slot == 0 || r.borrow_state_update_slot == slot {
        r.total_borrows@
    } else {
        r.total_borrows@ + dec_mul(
            r.total_borrows@,
            spec_interest_rate(
                r.total_borrows@,
                liquidity_amount,
                (slot - r.borrow_state_update_slot) as u64,
            ),
        )
    }
}

/// The reserve's cumulative borrow rate after advancing its borrow state
/// to `slot` against `liquidity_amount` idle tokens.
pub open spec fn spec_updated_cumulative_rate(r: Reserve, slot: u64, liquidity_amount: u64) -> nat {
    if r.borrow_state_update_slot == 0 {
        scale_nat()
    } else if r.borrow_state_update_slot == slot {
        r.cumulative_borrow_rate@
    } else {
        dec_mul(
            r.cumulative_borrow_rate@,
            scale_nat() + spec_interest_rate(
                r.total_borrows@,
                liquidity_amount,
                (slot - r.borrow_state_update_slot) as u64,
            ),
        )
    }
}

/// The conditions under which advancing a reserve's borrow state to
/// `slot` is defined: slots are monotone and interest only accrues
/// against a nonempty pool.
pub open spec fn spec_update_ok(r: Reserve, slot: u64, liquidity_amount: u64) -> bool {
    &&& r.borrow_state_update_slot != 0 ==> r.borrow_state_update_slot <= slot
    &&& (r.borrow_state_update_slot != 0 && r.borrow_state_update_slot < slot)
        ==> r.total_borrows@ + dec_from_u64(liquidity_amount) > 0
}

/// The first error an init-lending-market instruction hits, if any.
pub open spec fn spec_init_lending_market_error(
    lending_market_data: Seq<u8>,
    lending_market_rent_exempt: bool,
    quote_token_mint: MintData,
    quote_mint_owner: Key,
    token_program_id: Key,
) -> Option<LendingError> {
    if !lending_market_rent_exempt {
        Some(LendingError::NotRentExempt)
    } else if quote_mint_owner != token_program_id {
        Some(LendingError::InvalidTokenProgram)
    } else if !quote_token_mint.is_initialized {
        Some(LendingError::ExpectedTokenMint)
    } else if spec_unpack_lending_market(lending_market_data) is Err {
        Some(LendingError::InvalidInput)
    } else if spec_unpack_lending_market(lending_market_data)->Ok_0.is_initialized {
        Some(LendingError::AlreadyInUse)
    } else {
        None
    }
}

/// Initializes a lending market record bound to a quote-currency mint.
///
/// The record account must be rent exempt and not yet initialized, and
/// the quote mint must be an initialized mint of the token subsystem.
/// Returns the packed record.
pub fn process_init_lending_market(
    lending_market_data: &[u8],
    lending_market_rent_exempt: bool,
    quote_token_mint_key: &Key,
    quote_token_mint: &MintData,
    quote_mint_owner: &Key,
    token_program_id: &Key,
) -> (r: Result<Vec<u8>, LendingError>)
    ensures
        spec_init_lending_market_error(
            lending_market_data@,
            lending_market_rent_exempt,
            *quote_token_mint,
            *quote_mint_owner,
            *token_program_id,
        ) matches Some(e) ==> r == Err::<Vec<u8>, LendingError>(e),
        spec_init_lending_market_error(
            lending_market_data@,
            lending_market_rent_exempt,
            *quote_token_mint,
            *quote_mint_owner,
            *token_program_id,
        ) is None ==> (r matches Ok(out) && out@ == spec_pack_lending_market(
            LendingMarket { is_initialized: true, quote_token_mint: *quote_token_mint_key },
        )),
{
    if !lending_market_rent_exempt {
        return Err(LendingError::NotRentExempt);
    }
    if quote_mint_owner != token_program_id {
        return Err(LendingError::InvalidTokenProgram);
    }
    if !quote_token_mint.is_initialized {
        return Err(LendingError::ExpectedTokenMint);
    }
    let mut new_lending_market = match LendingMarket::unpack(lending_market_data) {
        Ok(m) => m,
        Err(_) => {
            return Err(LendingError::InvalidInput);
        },
    };
    if new_lending_market.is_initialized() {
        return Err(LendingError::AlreadyInUse);
    }
    new_lending_market.is_initialized = true;
    new_lending_market.quote_token_mint = *quote_token_mint_key;
    Ok(new_lending_market.pack())
}

/// Advancing this reserve to `slot` would price interest against an
/// empty pool: no outstanding borrows and no idle liquidity.
pub open spec fn spec_pool_empty_while_advancing(
    r: Reserve,
    slot: u64,
    liquidity_amount: u64,
) -> bool {
    &&& r.borrow_state_update_slot != 0
    &&& r.borrow_state_update_slot != slot
    &&& r.total_borrows@ == 0
    &&& liquidity_amount == 0
}

/// The collateral exchange rate would divide by an empty pool: shares
/// are outstanding but nothing backs them.
pub open spec fn spec_rate_pool_empty(
    borrows: nat,
    liquidity_amount: u64,
    collateral_supply: u64,
) -> bool {
    &&& collateral_supply != 0
    &&& borrows == 0
    &&& liquidity_amount == 0
}

/// What a deposit instructs the host to do once its checks pass.
pub struct DepositResult {
    /// The packed reserve with its borrow state advanced to the current
    /// slot, for the host to persist.
    pub reserve: Vec<u8>,
    /// Collateral tokens to mint to the depositor's output account.
    pub collateral_mint_amount: u64,
}

/// The first error a deposit instruction hits, if any.  The authority the
/// caller supplied must be the one derived from the reserve's lending
/// market, the named accounts must be the reserve's own, the pool must
/// not be empty where rates divide by it, the advanced state must fit
/// its serialized form, and the converted collateral amount must be
/// representable.
pub open spec fn spec_deposit_error(
    program_id: Key,
    liquidity_amount: u64,
    reserve_data: Seq<u8>,
    lending_market_authority: Key,
    liquidity_input_key: Key,
    liquidity_supply_key: Key,
    collateral_output_key: Key,
    collateral_mint_key: Key,
    liquidity_supply: TokenAccountData,
    collateral_mint: MintData,
    slot: u64,
) -> Option<LendingError> {
    if spec_unpack_reserve(reserve_data) is Err {
        Some(LendingError::InvalidInput)
    } else {
        let reserve = spec_unpack_reserve(reserve_data)->Ok_0;
        let updated_borrows = spec_updated_borrows(reserve, slot, liquidity_supply.amount);
        if !(pda_search_of(seq![reserve.lending_market.bytes()], program_id.bytes())
            matches Some((k, _b)) && k == lending_market_authority) {
            Some(LendingError::InvalidProgramAddress)
        } else if liquidity_supply_key != reserve.liquidity_supply || collateral_mint_key
            != reserve.collateral_mint {
            Some(LendingError::InvalidInput)
        } else if liquidity_supply_key == liquidity_input_key {
            Some(LendingError::InvalidInput)
        } else if collateral_output_key == reserve.collateral_supply {
            Some(LendingError::InvalidInput)
        } else if spec_pool_empty_while_advancing(reserve, slot, liquidity_supply.amount) {
            Some(LendingError::InvalidInput)
        } else if spec_updated_cumulative_rate(reserve, slot, liquidity_supply.amount) >= p128()
            || updated_borrows >= p128() {
            Some(LendingError::InvalidInput)
        } else if spec_rate_pool_empty(
            updated_borrows,
            liquidity_supply.amount,
            collateral_mint.supply,
        ) {
            Some(LendingError::InvalidInput)
        } else if spec_exchange_rate(
            updated_borrows,
            liquidity_supply.amount,
            collateral_mint.supply,
        ) >= p128() {
            Some(LendingError::InvalidInput)
        } else if dec_round(
            dec_mul(
                dec_from_u64(liquidity_amount),
                spec_exchange_rate(
                    updated_borrows,
                    liquidity_supply.amount,
                    collateral_mint.supply,
                ),
            ),
        ) >= p64() {
            Some(LendingError::InvalidInput)
        } else {
            None
        }
    }
}

/// Deposits liquidity into a reserve in exchange for collateral tokens.
///
/// Advances the reserve's borrow state to the current slot, then converts
/// the deposited amount at the resulting collateral exchange rate.  The
/// host transfers `liquidity_amount` into the liquidity supply, mints
/// the returned collateral amount to the depositor, and persists the
/// returned reserve.
pub fn process_deposit(
    program_id: &Key,
    liquidity_amount: u64,
    reserve_data: &[u8],
    lending_market_authority: &Key,
    liquidity_input_key: &Key,
    liquidity_supply_key: &Key,
    collateral_output_key: &Key,
    collateral_mint_key: &Key,
    liquidity_supply: &TokenAccountData,
    collateral_mint: &MintData,
    slot: u64,
) -> (r: Result<DepositResult, LendingError>)
    requires
        spec_unpack_reserve(reserve_data@) matches Ok(reserve)
            ==> (reserve.borrow_state_update_slot != 0 ==> reserve.borrow_state_update_slot
            <= slot),
    ensures
        spec_deposit_error(
            *program_id,
            liquidity_amount,
            reserve_data@,
            *lending_market_authority,
            *liquidity_input_key,
            *liquidity_supply_key,
            *collateral_output_key,
            *collateral_mint_key,
            *liquidity_supply,
            *collateral_mint,
            slot,
        ) matches Some(e) ==> r == Err::<DepositResult, LendingError>(e),
        spec_deposit_error(
            *program_id,
            liquidity_amount,
            reserve_data@,
            *lending_market_authority,
            *liquidity_input_key,
            *liquidity_supply_key,
            *collateral_output_key,
            *collateral_mint_key,
            *liquidity_supply,
            *collateral_mint,
            slot,
        ) is None ==> (r matches Ok(out) && {
            let reserve = spec_unpack_reserve(reserve_data@)->Ok_0;
            &&& out.collateral_mint_amount == dec_round(
                dec_mul(
                    dec_from_u64(liquidity_amount),
                    spec_exchange_rate(
                        spec_updated_borrows(reserve, slot, liquidity_supply.amount),
                        liquidity_supply.amount,
                        collateral_mint.supply,
                    ),
                ),
            )
            &&& spec_unpack_reserve(out.reserve@) matches Ok(updated) && {
                &&& updated.total_borrows@ == spec_updated_borrows(
                    reserve,
                    slot,
                    liquidity_supply.amount,
                )
                &&& updated.cumulative_borrow_rate@ == spec_updated_cumulative_rate(
                    reserve,
                    slot,
                    liquidity_supply.amount,
                )
                &&& updated.borrow_state_update_slot == slot
                &&& crate::state::reserve_static_eq(updated, reserve)
            }
        }),
{
    let mut reserve = match Reserve::unpack(reserve_data) {
        Ok(res) => res,
        Err(_) => {
            return Err(LendingError::InvalidInput);
        },
    };
    proof {
        crate::codec::lemma_unpack_reserve_bounds(reserve_data@);
    }
    let authority_ok = match find_authority_bump_seed(program_id, &reserve.lending_market) {
        Some((key, _bump)) => key == *lending_market_authority,
        None => false,
    };
    if !authority_ok {
        return Err(LendingError::InvalidProgramAddress);
    }
    if *liquidity_supply_key != reserve.liquidity_supply || *collateral_mint_key
        != reserve.collateral_mint {
        return Err(LendingError::InvalidInput);
    }
    if *liquidity_supply_key == *liquidity_input_key {
        return Err(LendingError::InvalidInput);
    }
    if *collateral_output_key == reserve.collateral_supply {
        return Err(LendingError::InvalidInput);
    }
    if reserve.borrow_state_update_slot != 0 && reserve.borrow_state_update_slot != slot
        && reserve.total_borrows.eq_val(&Decimal::zero()) && liquidity_supply.amount == 0 {
        return Err(LendingError::InvalidInput);
    }

    reserve.update_cumulative_rate(slot, liquidity_supply);
    if !reserve.cumulative_borrow_rate.fits_u128() || !reserve.total_borrows.fits_u128() {
        return Err(LendingError::InvalidInput);
    }
    if collateral_mint.supply != 0 && reserve.total_borrows.eq_val(&Decimal::zero())
        && liquidity_supply.amount == 0 {
        return Err(LendingError::InvalidInput);
    }
    let exchange_rate = match reserve.collateral_exchange_rate(
        slot,
        liquidity_supply,
        collateral_mint,
    ) {
        Ok(rate) => rate,
        Err(e) => {
            return Err(e);
        },
    };
    if !exchange_rate.fits_u128() {
        return Err(LendingError::InvalidInput);
    }
    proof {
        crate::decimal::lemma_from_u64_bound(liquidity_amount);
        assert(dec_from_u64(liquidity_amount) * exchange_rate@ < p256()) by (nonlinear_arith)
            requires
                dec_from_u64(liquidity_amount) < 0x1_0000_0000_0000_0000nat
                    * 1_000_000_000_000_000_000,
                exchange_rate@ < p128();
    }
    let collateral_amount = Decimal::from_u64(liquidity_amount).mul(exchange_rate);
    let minted = match collateral_amount.try_round_u64() {
        Some(v) => v,
        None => {
            return Err(LendingError::InvalidInput);
        },
    };
    proof {
        crate::codec::lemma_reserve_round_trip(reserve);
    }
    Ok(DepositResult { reserve: reserve.pack(), collateral_mint_amount: minted })
}

/// The first error a withdraw instruction hits, if any.
pub open spec fn spec_withdraw_error(
    program_id: Key,
    collateral_amount: u64,
    reserve_data: Seq<u8>,
    lending_market_authority: Key,
    liquidity_output_key: Key,
    liquidity_supply_key: Key,
    collateral_input_key: Key,
    collateral_mint_key: Key,
    liquidity_supply: TokenAccountData,
    collateral_mint: MintData,
    slot: u64,
) -> Option<LendingError> {
    if spec_unpack_reserve(reserve_data) is Err {
        Some(LendingError::InvalidInput)
    } else {
        let reserve = spec_unpack_reserve(reserve_data)->Ok_0;
        let rate = spec_exchange_rate(
            spec_updated_borrows(reserve, slot, liquidity_supply.amount),
            liquidity_supply.amount,
            collateral_mint.supply,
        );
        if !(pda_search_of(seq![reserve.lending_market.bytes()], program_id.bytes())
            matches Some((k, _b)) && k == lending_market_authority) {
            Some(LendingError::InvalidProgramAddress)
        } else if liquidity_supply_key != reserve.liquidity_supply || collateral_mint_key
            != reserve.collateral_mint {
            Some(LendingError::InvalidInput)
        } else if liquidity_supply_key == liquidity_output_key {
            Some(LendingError::InvalidInput)
        } else if collateral_input_key == reserve.collateral_supply {
            Some(LendingError::InvalidInput)
        } else if spec_pool_empty_while_advancing(reserve, slot, liquidity_supply.amount) {
            Some(LendingError::InvalidInput)
        } else if spec_updated_cumulative_rate(reserve, slot, liquidity_supply.amount) >= p128()
            || spec_updated_borrows(reserve, slot, liquidity_supply.amount) >= p128() {
            Some(LendingError::InvalidInput)
        } else if spec_rate_pool_empty(
            spec_updated_borrows(reserve, slot, liquidity_supply.amount),
            liquidity_supply.amount,
            collateral_mint.supply,
        ) {
            Some(LendingError::InvalidInput)
        } else if rate == 0 || dec_round(dec_div(dec_from_u64(collateral_amount), rate)) >= p64() {
            Some(LendingError::InvalidInput)
        } else {
            None
        }
    }
}

/// What a withdraw instructs the host to do once its checks pass.
pub struct WithdrawResult {
    /// The packed reserve with its borrow state advanced.
    pub reserve: Vec<u8>,
    /// Liquidity tokens to transfer from the supply to the withdrawer.
    pub liquidity_withdraw_amount: u64,
}

/// Withdraws liquidity from a reserve by redeeming collateral tokens.
///
/// Advances the reserve's borrow state to the current slot, converts the
/// collateral at the resulting exchange rate, and returns the repacked
/// reserve with the liquidity amount to pay out; the host burns the
/// collateral.
pub fn process_withdraw(
    program_id: &Key,
    collateral_amount: u64,
    reserve_data: &[u8],
    lending_market_authority: &Key,
    liquidity_output_key: &Key,
    liquidity_supply_key: &Key,
    collateral_input_key: &Key,
    collateral_mint_key: &Key,
    liquidity_supply: &TokenAccountData,
    collateral_mint: &MintData,
    slot: u64,
) -> (r: Result<WithdrawResult, LendingError>)
    requires
        spec_unpack_reserve(reserve_data@) matches Ok(reserve)
            ==> (reserve.borrow_state_update_slot != 0 ==> reserve.borrow_state_update_slot
            <= slot),
    ensures
        spec_withdraw_error(
            *program_id,
            collateral_amount,
            reserve_data@,
            *lending_market_authority,
            *liquidity_output_key,
            *liquidity_supply_key,
            *collateral_input_key,
            *collateral_mint_key,
            *liquidity_supply,
            *collateral_mint,
            slot,
        ) matches Some(e) ==> r == Err::<WithdrawResult, LendingError>(e),
        spec_withdraw_error(
            *program_id,
            collateral_amount,
            reserve_data@,
            *lending_market_authority,
            *liquidity_output_key,
            *liquidity_supply_key,
            *collateral_input_key,
            *collateral_mint_key,
            *liquidity_supply,
            *collateral_mint,
            slot,
        ) is None ==> (r matches Ok(out) && {
            let reserve = spec_unpack_reserve(reserve_data@)->Ok_0;
            &&& out.liquidity_withdraw_amount == dec_round(
                dec_div(
                    dec_from_u64(collateral_amount),
                    spec_exchange_rate(
                        spec_updated_borrows(reserve, slot, liquidity_supply.amount),
                        liquidity_supply.amount,
                        collateral_mint.supply,
                    ),
                ),
            )
            &&& spec_unpack_reserve(out.reserve@) matches Ok(updated) && {
                &&& updated.total_borrows@ == spec_updated_borrows(
                    reserve,
                    slot,
                    liquidity_supply.amount,
                )
                &&& updated.cumulative_borrow_rate@ == spec_updated_cumulative_rate(
                    reserve,
                    slot,
                    liquidity_supply.amount,
                )
                &&& updated.borrow_state_update_slot == slot
                &&& crate::state::reserve_static_eq(updated, reserve)
            }
        }),
{
    let mut reserve = match Reserve::unpack(reserve_data) {
        Ok(res) => res,
        Err(_) => {
            return Err(LendingError::InvalidInput);
        },
    };
    let ghost reserve0 = reserve;
    proof {
        crate::codec::lemma_unpack_reserve_bounds(reserve_data@);
    }
    let authority_ok = match find_authority_bump_seed(program_id, &reserve.lending_market) {
        Some((key, _bump)) => key == *lending_market_authority,
        None => false,
    };
    if !authority_ok {
        return Err(LendingError::InvalidProgramAddress);
    }
    if *liquidity_supply_key != reserve.liquidity_supply || *collateral_mint_key
        != reserve.collateral_mint {
        return Err(LendingError::InvalidInput);
    }
    if *liquidity_supply_key == *liquidity_output_key {
        return Err(LendingError::InvalidInput);
    }
    if *collateral_input_key == reserve.collateral_supply {
        return Err(LendingError::InvalidInput);
    }
    if reserve.borrow_state_update_slot != 0 && reserve.borrow_state_update_slot != slot
        && reserve.total_borrows.eq_val(&Decimal::zero()) && liquidity_supply.amount == 0 {
        return Err(LendingError::InvalidInput);
    }

    reserve.update_cumulative_rate(slot, liquidity_supply);
    if !reserve.cumulative_borrow_rate.fits_u128() || !reserve.total_borrows.fits_u128() {
        return Err(LendingError::InvalidInput);
    }
    if collateral_mint.supply != 0 && reserve.total_borrows.eq_val(&Decimal::zero())
        && liquidity_supply.amount == 0 {
        return Err(LendingError::InvalidInput);
    }
    let exchange_rate = match reserve.collateral_exchange_rate(
        slot,
        liquidity_supply,
        collateral_mint,
    ) {
        Ok(rate) => rate,
        Err(e) => {
            return Err(e);
        },
    };
    if exchange_rate.eq_val(&Decimal::zero()) {
        return Err(LendingError::InvalidInput);
    }
    proof {
        crate::decimal::lemma_from_u64_bound(collateral_amount);
        assert(dec_from_u64(collateral_amount) * scale_nat() < p256()) by (nonlinear_arith)
            requires
                dec_from_u64(collateral_amount) < 0x1_0000_0000_0000_0000nat
                    * 1_000_000_000_000_000_000;
    }
    let liquidity_withdraw = Decimal::from_u64(collateral_amount).div(exchange_rate);
    let amount = match liquidity_withdraw.try_round_u64() {
        Some(v) => v,
        None => {
            return Err(LendingError::InvalidInput);
        },
    };
    proof {
        crate::codec::lemma_reserve_round_trip(reserve);
    }
    Ok(WithdrawResult { reserve: reserve.pack(), liquidity_withdraw_amount: amount })
}

/// Advancing the borrow state leaves ample headroom below the 256-bit
/// range, so a further 64-bit borrow can always be added.
pub proof fn lemma_updated_borrows_bound(r: Reserve, slot: u64, liquidity_amount: u64)
    requires
        r.total_borrows@ < p128(),
        spec_update_ok(r, slot, liquidity_amount),
    ensures
        spec_updated_borrows(r, slot, liquidity_amount) + 0x1_0000_0000_0000_0000nat
            * 1_000_000_000_000_000_000 < p256(),
{
    if r.borrow_state_update_slot != 0 && r.borrow_state_update_slot != slot {
        let dt = (slot - r.borrow_state_update_slot) as u64;
        crate::state::lemma_interest_rate_bound(r.total_borrows@, liquidity_amount, dt);
        crate::state::lemma_dec_mul_bound(
            r.total_borrows@,
            p128(),
            spec_interest_rate(r.total_borrows@, liquidity_amount, dt),
            dec_mul(0x1_0000_0000_0000_0000nat * 1_000_000_000_000_000_000, 300_000_000_000_000_000),
        );
        assert(p128() + dec_mul(
            p128(),
            dec_mul(0x1_0000_0000_0000_0000nat * 1_000_000_000_000_000_000, 300_000_000_000_000_000),
        ) + 0x1_0000_0000_0000_0000nat * 1_000_000_000_000_000_000 < p256()) by (nonlinear_arith);
    } else {
        assert(p128() + 0x1_0000_0000_0000_0000nat * 1_000_000_000_000_000_000 < p256())
            by (nonlinear_arith);
    }
}

/// The liquidity a collateral deposit converts to, at the deposit
/// reserve's current exchange rate.
pub open spec fn spec_borrow_deposit_amount(
    deposit_reserve: Reserve,
    liquidity_supply: TokenAccountData,
    collateral_mint: MintData,
    collateral_amount: u64,
) -> nat {
    dec_round(
        dec_div(
            dec_from_u64(collateral_amount),
            spec_exchange_rate(
                deposit_reserve.total_borrows@,
                liquidity_supply.amount,
                collateral_mint.supply,
            ),
        ),
    )
}

/// What a borrow instructs the host to do once its checks pass.
pub struct BorrowResult {
    /// The packed borrow reserve with the new borrow added.
    pub borrow_reserve: Vec<u8>,
    /// The packed, newly created obligation.
    pub obligation: Vec<u8>,
    /// Collateral tokens to transfer into the deposit reserve's supply.
    pub collateral_deposit_amount: u64,
    /// Liquidity tokens to transfer out of the borrow reserve's supply.
    pub borrow_amount: u64,
    /// Obligation claim tokens to mint to the borrower.
    pub obligation_token_mint_amount: u64,
}

/// The first error a borrow instruction hits, if any, in the order the
/// instruction performs its checks.
pub open spec fn spec_borrow_error(
    program_id: Key,
    collateral_amount: u64,
    deposit_reserve_data: Seq<u8>,
    borrow_reserve_data: Seq<u8>,
    borrow_reserve_liquidity_supply_key: Key,
    deposit_reserve_collateral_supply: TokenAccountData,
    deposit_reserve_liquidity_supply: TokenAccountData,
    deposit_reserve_collateral_mint: MintData,
    borrow_reserve_liquidity_supply: TokenAccountData,
    dex_market_data: Seq<u8>,
    dex_market_orders_data: Seq<u8>,
    obligation_data: Seq<u8>,
    obligation_rent_exempt: bool,
    obligation_token_mint: MintData,
    obligation_token_mint_owner: Key,
    obligation_token_output: TokenAccountData,
    obligation_token_output_owner: Key,
    token_program_id: Key,
    slot: u64,
) -> Option<LendingError> {
    if !obligation_rent_exempt {
        Some(LendingError::NotRentExempt)
    } else if spec_unpack_reserve(deposit_reserve_data) is Err {
        Some(LendingError::InvalidInput)
    } else if spec_unpack_reserve(borrow_reserve_data) is Err {
        Some(LendingError::InvalidInput)
    } else if !deposit_reserve_collateral_supply.is_initialized {
        Some(LendingError::ExpectedTokenAccount)
    } else {
        let deposit_reserve = spec_unpack_reserve(deposit_reserve_data)->Ok_0;
        let borrow_reserve = spec_unpack_reserve(borrow_reserve_data)->Ok_0;
        let rate = spec_exchange_rate(
            deposit_reserve.total_borrows@,
            deposit_reserve_liquidity_supply.amount,
            deposit_reserve_collateral_mint.supply,
        );
        if deposit_reserve.lending_market != borrow_reserve.lending_market {
            Some(LendingError::LendingMarketMismatch)
        } else if borrow_reserve.liquidity_supply != borrow_reserve_liquidity_supply_key {
            Some(LendingError::InvalidInput)
        } else if deposit_reserve.collateral_mint != deposit_reserve_collateral_supply.mint {
            Some(LendingError::InvalidInput)
        } else if pda_search_of(
            seq![deposit_reserve.lending_market.bytes()],
            program_id.bytes(),
        ) is None {
            Some(LendingError::InvalidProgramAddress)
        } else if !deposit_reserve_liquidity_supply.is_initialized {
            Some(LendingError::ExpectedTokenAccount)
        } else if !deposit_reserve_collateral_mint.is_initialized {
            Some(LendingError::ExpectedTokenMint)
        } else if deposit_reserve.borrow_state_update_slot == slot && spec_rate_pool_empty(
            deposit_reserve.total_borrows@,
            deposit_reserve_liquidity_supply.amount,
            deposit_reserve_collateral_mint.supply,
        ) {
            Some(LendingError::InvalidInput)
        } else if deposit_reserve.borrow_state_update_slot != slot {
            Some(LendingError::InvalidInput)
        } else if rate == 0 || dec_round(dec_div(dec_from_u64(collateral_amount), rate))
            >= p64() {
            Some(LendingError::InvalidInput)
        } else {
            let deposit_amount = spec_borrow_deposit_amount(
                deposit_reserve,
                deposit_reserve_liquidity_supply,
                deposit_reserve_collateral_mint,
                collateral_amount,
            );
            let exchange = crate::dex::spec_exchange_result(
                dex_market_orders_data.subrange(13, dex_market_orders_data.len() - 7),
                deposit_reserve.liquidity_mint == crate::keys::spec_key_of_bytes(
                    dex_market_data.subrange(85, 117),
                ),
                deposit_reserve.liquidity_mint != crate::keys::spec_key_of_bytes(
                    dex_market_data.subrange(85, 117),
                ),
                deposit_amount as u64,
            );
            if exchange is Err {
                Some(exchange->Err_0)
            } else if !borrow_reserve_liquidity_supply.is_initialized {
                Some(LendingError::ExpectedTokenAccount)
            } else if spec_pool_empty_while_advancing(
                borrow_reserve,
                slot,
                borrow_reserve_liquidity_supply.amount,
            ) {
                Some(LendingError::InvalidInput)
            } else if spec_updated_cumulative_rate(
                borrow_reserve,
                slot,
                borrow_reserve_liquidity_supply.amount,
            ) >= p128() || spec_updated_borrows(
                borrow_reserve,
                slot,
                borrow_reserve_liquidity_supply.amount,
            ) + dec_from_u64(exchange->Ok_0) >= p128() {
                Some(LendingError::InvalidInput)
            } else if obligation_token_mint_owner != token_program_id {
                Some(LendingError::InvalidTokenProgram)
            } else if obligation_token_output_owner != token_program_id {
                Some(LendingError::InvalidTokenProgram)
            } else if obligation_token_mint.is_initialized {
                Some(LendingError::AlreadyInUse)
            } else if obligation_token_output.is_initialized {
                Some(LendingError::AlreadyInUse)
            } else if spec_unpack_obligation(obligation_data) is Err {
                Some(LendingError::InvalidInput)
            } else if spec_unpack_obligation(obligation_data)->Ok_0.last_update_slot > 0 {
                Some(LendingError::AlreadyInUse)
            } else {
                None
            }
        }
    }
}

/// Borrows liquidity from one reserve against collateral deposited into
/// another.
///
/// The deposit reserve must have had its borrow state advanced to the
/// current slot by an earlier instruction.  The deposited collateral is
/// converted to liquidity at the deposit reserve's exchange rate, that
/// liquidity is exchanged through the order book into the borrow
/// reserve's currency, and a fresh obligation records the loan with the
/// borrow reserve's cumulative rate captured after its own update.
pub fn process_borrow(
    program_id: &Key,
    collateral_amount: u64,
    deposit_reserve_data: &[u8],
    borrow_reserve_data: &[u8],
    deposit_reserve_key: &Key,
    borrow_reserve_key: &Key,
    borrow_reserve_liquidity_supply_key: &Key,
    deposit_reserve_collateral_supply: &TokenAccountData,
    deposit_reserve_liquidity_supply: &TokenAccountData,
    deposit_reserve_collateral_mint: &MintData,
    borrow_reserve_liquidity_supply: &TokenAccountData,
    dex_market_data: &[u8],
    dex_market_orders_data: &[u8],
    obligation_data: &[u8],
    obligation_rent_exempt: bool,
    obligation_token_mint_key: &Key,
    obligation_token_mint: &MintData,
    obligation_token_mint_owner: &Key,
    obligation_token_output: &TokenAccountData,
    obligation_token_output_owner: &Key,
    token_program_id: &Key,
    slot: u64,
) -> (r: Result<BorrowResult, LendingError>)
    requires
        dex_market_data@.len() >= 117,
        dex_market_orders_data@.len() >= 52,
        spec_unpack_reserve(borrow_reserve_data@) matches Ok(borrow_reserve)
            ==> (borrow_reserve.borrow_state_update_slot != 0
            ==> borrow_reserve.borrow_state_update_slot <= slot),
    ensures
        spec_borrow_error(
            *program_id,
            collateral_amount,
            deposit_reserve_data@,
            borrow_reserve_data@,
            *borrow_reserve_liquidity_supply_key,
            *deposit_reserve_collateral_supply,
            *deposit_reserve_liquidity_supply,
            *deposit_reserve_collateral_mint,
            *borrow_reserve_liquidity_supply,
            dex_market_data@,
            dex_market_orders_data@,
            obligation_data@,
            obligation_rent_exempt,
            *obligation_token_mint,
            *obligation_token_mint_owner,
            *obligation_token_output,
            *obligation_token_output_owner,
            *token_program_id,
            slot,
        ) matches Some(e) ==> r == Err::<BorrowResult, LendingError>(e),
        spec_borrow_error(
            *program_id,
            collateral_amount,
            deposit_reserve_data@,
            borrow_reserve_data@,
            *borrow_reserve_liquidity_supply_key,
            *deposit_reserve_collateral_supply,
            *deposit_reserve_liquidity_supply,
            *deposit_reserve_collateral_mint,
            *borrow_reserve_liquidity_supply,
            dex_market_data@,
            dex_market_orders_data@,
            obligation_data@,
            obligation_rent_exempt,
            *obligation_token_mint,
            *obligation_token_mint_owner,
            *obligation_token_output,
            *obligation_token_output_owner,
            *token_program_id,
            slot,
        ) is None ==> (r matches Ok(out) && {
            let deposit_reserve = spec_unpack_reserve(deposit_reserve_data@)->Ok_0;
            let borrow_reserve = spec_unpack_reserve(borrow_reserve_data@)->Ok_0;
            let deposit_amount = spec_borrow_deposit_amount(
                deposit_reserve,
                *deposit_reserve_liquidity_supply,
                *deposit_reserve_collateral_mint,
                collateral_amount,
            );
            let borrow_amount = crate::dex::spec_exchange_result(
                dex_market_orders_data@.subrange(13, dex_market_orders_data@.len() - 7),
                deposit_reserve.liquidity_mint == crate::keys::spec_key_of_bytes(
                    dex_market_data@.subrange(85, 117),
                ),
                deposit_reserve.liquidity_mint != crate::keys::spec_key_of_bytes(
                    dex_market_data@.subrange(85, 117),
                ),
                deposit_amount as u64,
            )->Ok_0;
            &&& out.collateral_deposit_amount == collateral_amount
            &&& out.borrow_amount == borrow_amount
            &&& out.obligation_token_mint_amount == deposit_amount
            &&& spec_unpack_reserve(out.borrow_reserve@) matches Ok(updated) && {
                &&& updated.total_borrows@ == spec_updated_borrows(
                    borrow_reserve,
                    slot,
                    borrow_reserve_liquidity_supply.amount,
                ) + dec_from_u64(borrow_amount)
                &&& updated.cumulative_borrow_rate@ == spec_updated_cumulative_rate(
                    borrow_reserve,
                    slot,
                    borrow_reserve_liquidity_supply.amount,
                )
                &&& updated.borrow_state_update_slot == slot
                &&& crate::state::reserve_static_eq(updated, borrow_reserve)
            }
            &&& spec_unpack_obligation(out.obligation@) matches Ok(o) && {
                &&& o.last_update_slot == slot
                &&& o.collateral_amount == collateral_amount
                &&& o.collateral_supply == *deposit_reserve_key
                &&& o.cumulative_borrow_rate@ == spec_updated_cumulative_rate(
                    borrow_reserve,
                    slot,
                    borrow_reserve_liquidity_supply.amount,
                )
                &&& o.borrow_amount@ == dec_from_u64(borrow_amount)
                &&& o.borrow_reserve == *borrow_reserve_key
                &&& o.token_mint == *obligation_token_mint_key
            }
        }),
{
    if !obligation_rent_exempt {
        return Err(LendingError::NotRentExempt);
    }
    let deposit_reserve = match Reserve::unpack(deposit_reserve_data) {
        Ok(res) => res,
        Err(_) => {
            return Err(LendingError::InvalidInput);
        },
    };
    let mut borrow_reserve = match Reserve::unpack(borrow_reserve_data) {
        Ok(res) => res,
        Err(_) => {
            return Err(LendingError::InvalidInput);
        },
    };
    proof {
        crate::codec::lemma_unpack_reserve_bounds(deposit_reserve_data@);
        crate::codec::lemma_unpack_reserve_bounds(borrow_reserve_data@);
    }
    if !deposit_reserve_collateral_supply.is_initialized {
        return Err(LendingError::ExpectedTokenAccount);
    }
    if deposit_reserve.lending_market != borrow_reserve.lending_market {
        return Err(LendingError::LendingMarketMismatch);
    }
    if borrow_reserve.liquidity_supply != *borrow_reserve_liquidity_supply_key {
        return Err(LendingError::InvalidInput);
    }
    if deposit_reserve.collateral_mint != deposit_reserve_collateral_supply.mint {
        return Err(LendingError::InvalidInput);
    }
    let found = find_authority_bump_seed(program_id, &deposit_reserve.lending_market);
    if found.is_none() {
        return Err(LendingError::InvalidProgramAddress);
    }
    if !deposit_reserve_liquidity_supply.is_initialized {
        return Err(LendingError::ExpectedTokenAccount);
    }
    if !deposit_reserve_collateral_mint.is_initialized {
        return Err(LendingError::ExpectedTokenMint);
    }
    if deposit_reserve.borrow_state_update_slot == slot
        && deposit_reserve_collateral_mint.supply != 0
        && deposit_reserve.total_borrows.eq_val(&Decimal::zero())
        && deposit_reserve_liquidity_supply.amount == 0 {
        return Err(LendingError::InvalidInput);
    }
    let exchange_rate = match deposit_reserve.collateral_exchange_rate(
        slot,
        deposit_reserve_liquidity_supply,
        deposit_reserve_collateral_mint,
    ) {
        Ok(rate) => rate,
        Err(e) => {
            return Err(e);
        },
    };
    if exchange_rate.eq_val(&Decimal::zero()) {
        return Err(LendingError::InvalidInput);
    }
    proof {
        crate::decimal::lemma_from_u64_bound(collateral_amount);
        assert(dec_from_u64(collateral_amount) * scale_nat() < p256()) by (nonlinear_arith)
            requires
                dec_from_u64(collateral_amount) < 0x1_0000_0000_0000_0000nat
                    * 1_000_000_000_000_000_000;
    }
    let deposit_amount = match Decimal::from_u64(collateral_amount).div(
        exchange_rate,
    ).try_round_u64() {
        Some(v) => v,
        None => {
            return Err(LendingError::InvalidInput);
        },
    };
    let borrow_amount = match crate::dex::deposit_to_borrow(
        deposit_amount,
        dex_market_orders_data,
        dex_market_data,
        &deposit_reserve,
    ) {
        Ok(v) => v,
        Err(e) => {
            return Err(e);
        },
    };
    if !borrow_reserve_liquidity_supply.is_initialized {
        return Err(LendingError::ExpectedTokenAccount);
    }
    if borrow_reserve.borrow_state_update_slot != 0 && borrow_reserve.borrow_state_update_slot
        != slot && borrow_reserve.total_borrows.eq_val(&Decimal::zero())
        && borrow_reserve_liquidity_supply.amount == 0 {
        return Err(LendingError::InvalidInput);
    }
    let cumulative_borrow_rate = borrow_reserve.update_cumulative_rate(
        slot,
        borrow_reserve_liquidity_supply,
    );
    proof {
        lemma_updated_borrows_bound(
            spec_unpack_reserve(borrow_reserve_data@)->Ok_0,
            slot,
            borrow_reserve_liquidity_supply.amount,
        );
        crate::decimal::lemma_from_u64_bound(borrow_amount);
    }
    borrow_reserve.add_borrow(Decimal::from_u64(borrow_amount));
    if !borrow_reserve.cumulative_borrow_rate.fits_u128()
        || !borrow_reserve.total_borrows.fits_u128() {
        return Err(LendingError::InvalidInput);
    }
    if *obligation_token_mint_owner != *token_program_id {
        return Err(LendingError::InvalidTokenProgram);
    }
    if *obligation_token_output_owner != *token_program_id {
        return Err(LendingError::InvalidTokenProgram);
    }
    if obligation_token_mint.is_initialized {
        return Err(LendingError::AlreadyInUse);
    }
    if obligation_token_output.is_initialized {
        return Err(LendingError::AlreadyInUse);
    }
    let parsed_obligation = match Obligation::unpack(obligation_data) {
        Ok(o) => o,
        Err(_) => {
            return Err(LendingError::InvalidInput);
        },
    };
    if parsed_obligation.is_initialized() {
        return Err(LendingError::AlreadyInUse);
    }
    let new_obligation = Obligation {
        last_update_slot: slot,
        collateral_amount,
        collateral_supply: *deposit_reserve_key,
        cumulative_borrow_rate,
        borrow_amount: Decimal::from_u64(borrow_amount),
        borrow_reserve: *borrow_reserve_key,
        token_mint: *obligation_token_mint_key,
    };
    proof {
        crate::codec::lemma_reserve_round_trip(borrow_reserve);
        crate::codec::lemma_obligation_round_trip(new_obligation);
        crate::decimal::lemma_from_u64_bound(borrow_amount);
        assert(dec_from_u64(borrow_amount) < p128()) by (nonlinear_arith)
            requires
                dec_from_u64(borrow_amount) < 0x1_0000_0000_0000_0000nat
                    * 1_000_000_000_000_000_000;
    }
    Ok(
        BorrowResult {
            borrow_reserve: borrow_reserve.pack(),
            obligation: new_obligation.pack(),
            collateral_deposit_amount: collateral_amount,
            borrow_amount,
            obligation_token_mint_amount: deposit_amount,
        },
    )
}

/// A fraction of at most one takes no more than the whole amount.
pub proof fn lemma_fraction_of_amount(pct: nat, amount: u64)
    requires
        pct <= scale_nat(),
    ensures
        dec_round(dec_mul(pct, dec_from_u64(amount))) <= amount,
{
    crate::state::lemma_dec_mul_bound(pct, scale_nat(), dec_from_u64(amount), dec_from_u64(amount));
    assert(dec_mul(scale_nat(), dec_from_u64(amount)) == dec_from_u64(amount)) by {
        vstd::arithmetic::div_mod::lemma_div_multiples_vanish(
            dec_from_u64(amount) as int,
            scale_nat() as int,
        );
        assert(scale_nat() * dec_from_u64(amount) == dec_from_u64(amount) * scale_nat())
            by (nonlinear_arith);
    }
    vstd::arithmetic::div_mod::lemma_div_is_ordered(
        dec_mul(pct, dec_from_u64(amount)) as int,
        dec_from_u64(amount) as int,
        scale_nat() as int,
    );
    assert(dec_round(dec_from_u64(amount)) == amount) by {
        vstd::arithmetic::div_mod::lemma_div_multiples_vanish(amount as int, scale_nat() as int);
        assert(amount * scale_nat() == scale_nat() * amount) by (nonlinear_arith);
    }
}

/// What a repay instructs the host to do once its checks pass.
pub struct RepayResult {
    /// The packed repay reserve with the repayment subtracted.
    pub repay_reserve: Vec<u8>,
    /// The packed obligation after accrual and repayment.
    pub obligation: Vec<u8>,
    /// Liquidity tokens to transfer from the payer into the repay
    /// reserve's supply.
    pub repay_amount: u64,
    /// Collateral tokens to release from the withdraw reserve's supply to
    /// the payer.
    pub collateral_withdraw_amount: u64,
    /// Obligation claim tokens to burn from the payer.
    pub obligation_token_amount: u64,
}

/// The borrow amount an obligation owes after accruing interest against
/// its reserve advanced to `slot`.
pub open spec fn spec_accrued_borrow(
    o: Obligation,
    repay_reserve: Reserve,
    liquidity_amount: u64,
    slot: u64,
) -> nat {
    o.borrow_amount@ + crate::state::spec_obligation_accrued(
        o.borrow_amount@,
        spec_updated_cumulative_rate(repay_reserve, slot, liquidity_amount),
        o.cumulative_borrow_rate@,
        (slot - o.last_update_slot) as u64,
    )
}

/// The first error a repay instruction hits, if any, in the order the
/// instruction performs its checks.
pub open spec fn spec_repay_error(
    program_id: Key,
    liquidity_amount: u64,
    repay_reserve_data: Seq<u8>,
    withdraw_reserve_data: Seq<u8>,
    obligation_data: Seq<u8>,
    repay_reserve_key: Key,
    withdraw_reserve_key: Key,
    liquidity_supply_key: Key,
    collateral_supply_key: Key,
    obligation_mint_key: Key,
    obligation_mint: MintData,
    liquidity_supply: TokenAccountData,
    slot: u64,
) -> Option<LendingError> {
    if spec_unpack_obligation(obligation_data) is Err {
        Some(LendingError::InvalidInput)
    } else {
        let o = spec_unpack_obligation(obligation_data)->Ok_0;
        if o.token_mint != obligation_mint_key {
            Some(LendingError::InvalidInput)
        } else if o.borrow_reserve != repay_reserve_key {
            Some(LendingError::InvalidInput)
        } else if o.collateral_supply != withdraw_reserve_key {
            Some(LendingError::InvalidInput)
        } else if spec_unpack_reserve(repay_reserve_data) is Err {
            Some(LendingError::InvalidInput)
        } else if spec_unpack_reserve(withdraw_reserve_data) is Err {
            Some(LendingError::InvalidInput)
        } else {
            let repay_reserve = spec_unpack_reserve(repay_reserve_data)->Ok_0;
            let withdraw_reserve = spec_unpack_reserve(withdraw_reserve_data)->Ok_0;
            if repay_reserve.lending_market != withdraw_reserve.lending_market {
                Some(LendingError::LendingMarketMismatch)
            } else if repay_reserve.liquidity_supply != liquidity_supply_key {
                Some(LendingError::InvalidInput)
            } else if withdraw_reserve.collateral_supply != collateral_supply_key {
                Some(LendingError::InvalidInput)
            } else if pda_search_of(
                seq![repay_reserve.lending_market.bytes()],
                program_id.bytes(),
            ) is None {
                Some(LendingError::InvalidProgramAddress)
            } else if !liquidity_supply.is_initialized {
                Some(LendingError::ExpectedTokenAccount)
            } else if spec_pool_empty_while_advancing(
                repay_reserve,
                slot,
                liquidity_supply.amount,
            ) {
                Some(LendingError::InvalidInput)
            } else if spec_updated_cumulative_rate(repay_reserve, slot, liquidity_supply.amount)
                >= p128() {
                Some(LendingError::InvalidInput)
            } else if o.last_update_slot > slot {
                Some(LendingError::InvalidInput)
            } else if o.cumulative_borrow_rate@ < scale_nat() {
                Some(LendingError::InvalidInput)
            } else if spec_updated_cumulative_rate(repay_reserve, slot, liquidity_supply.amount)
                < o.cumulative_borrow_rate@ {
                Some(LendingError::InvalidInput)
            } else if dec_mul(
                o.borrow_amount@,
                crate::state::spec_rate_delta(
                    spec_updated_cumulative_rate(repay_reserve, slot, liquidity_supply.amount),
                    o.cumulative_borrow_rate@,
                ),
            ) >= p128() {
                Some(LendingError::InvalidInput)
            } else {
                let accrued = spec_accrued_borrow(o, repay_reserve, liquidity_supply.amount, slot);
                let borrowed = dec_round(accrued);
                if borrowed >= p64() {
                    Some(LendingError::InvalidInput)
                } else if accrued == 0 {
                    Some(LendingError::InvalidInput)
                } else if !obligation_mint.is_initialized {
                    Some(LendingError::ExpectedTokenMint)
                } else {
                    let repay_amount: u64 = if liquidity_amount < borrowed {
                        liquidity_amount
                    } else {
                        borrowed as u64
                    };
                    let reserve_borrows = spec_updated_borrows(
                        repay_reserve,
                        slot,
                        liquidity_supply.amount,
                    );
                    if accrued - dec_from_u64(repay_amount) >= p128() {
                        Some(LendingError::InvalidInput)
                    } else if reserve_borrows < dec_from_u64(repay_amount) {
                        Some(LendingError::InvalidInput)
                    } else if reserve_borrows - dec_from_u64(repay_amount) >= p128() {
                        Some(LendingError::InvalidInput)
                    } else {
                        None
                    }
                }
            }
        }
    }
}

/// Repays borrowed liquidity against an obligation, releasing a
/// proportional share of its collateral.
///
/// The repay reserve's borrow state is advanced to the current slot and
/// the obligation accrues interest against it; the repayment is capped at
/// the debt, and collateral and obligation claim tokens are released in
/// the proportion repaid.
pub fn process_repay(
    program_id: &Key,
    liquidity_amount: u64,
    repay_reserve_data: &[u8],
    withdraw_reserve_data: &[u8],
    obligation_data: &[u8],
    repay_reserve_key: &Key,
    withdraw_reserve_key: &Key,
    liquidity_supply_key: &Key,
    collateral_supply_key: &Key,
    obligation_mint_key: &Key,
    obligation_mint: &MintData,
    liquidity_supply: &TokenAccountData,
    slot: u64,
) -> (r: Result<RepayResult, LendingError>)
    requires
        spec_unpack_reserve(repay_reserve_data@) matches Ok(rr)
            ==> (rr.borrow_state_update_slot != 0 ==> rr.borrow_state_update_slot <= slot),
    ensures
        spec_repay_error(
            *program_id,
            liquidity_amount,
            repay_reserve_data@,
            withdraw_reserve_data@,
            obligation_data@,
            *repay_reserve_key,
            *withdraw_reserve_key,
            *liquidity_supply_key,
            *collateral_supply_key,
            *obligation_mint_key,
            *obligation_mint,
            *liquidity_supply,
            slot,
        ) matches Some(e) ==> r == Err::<RepayResult, LendingError>(e),
        spec_repay_error(
            *program_id,
            liquidity_amount,
            repay_reserve_data@,
            withdraw_reserve_data@,
            obligation_data@,
            *repay_reserve_key,
            *withdraw_reserve_key,
            *liquidity_supply_key,
            *collateral_supply_key,
            *obligation_mint_key,
            *obligation_mint,
            *liquidity_supply,
            slot,
        ) is None ==> (r matches Ok(out) && {
            let o = spec_unpack_obligation(obligation_data@)->Ok_0;
            let repay_reserve = spec_unpack_reserve(repay_reserve_data@)->Ok_0;
            let rcum = spec_updated_cumulative_rate(repay_reserve, slot, liquidity_supply.amount);
            let accrued = spec_accrued_borrow(o, repay_reserve, liquidity_supply.amount, slot);
            let borrowed = dec_round(accrued);
            let repay_amount: u64 = if liquidity_amount < borrowed {
                liquidity_amount
            } else {
                borrowed as u64
            };
            let pct = dec_div(dec_from_u64(repay_amount), accrued);
            &&& out.repay_amount == repay_amount
            &&& out.collateral_withdraw_amount == dec_round(
                dec_mul(pct, dec_from_u64(o.collateral_amount)),
            )
            &&& out.obligation_token_amount == dec_round(
                dec_mul(pct, dec_from_u64(obligation_mint.supply)),
            )
            &&& spec_unpack_obligation(out.obligation@) matches Ok(o2) && {
                &&& o2.last_update_slot == slot
                &&& o2.borrow_amount@ == accrued - dec_from_u64(repay_amount)
                &&& o2.collateral_amount == o.collateral_amount - dec_round(
                    dec_mul(pct, dec_from_u64(o.collateral_amount)),
                )
                &&& o2.cumulative_borrow_rate@ == rcum
                &&& o2.collateral_supply == o.collateral_supply
                &&& o2.borrow_reserve == o.borrow_reserve
                &&& o2.token_mint == o.token_mint
            }
            &&& spec_unpack_reserve(out.repay_reserve@) matches Ok(r2) && {
                &&& r2.total_borrows@ == spec_updated_borrows(
                    repay_reserve,
                    slot,
                    liquidity_supply.amount,
                ) - dec_from_u64(repay_amount)
                &&& r2.cumulative_borrow_rate@ == rcum
                &&& r2.borrow_state_update_slot == slot
                &&& crate::state::reserve_static_eq(r2, repay_reserve)
            }
        }),
{
    let mut obligation = match Obligation::unpack(obligation_data) {
        Ok(o) => o,
        Err(_) => {
            return Err(LendingError::InvalidInput);
        },
    };
    proof {
        crate::codec::lemma_unpack_obligation_bounds(obligation_data@);
    }
    if obligation.token_mint != *obligation_mint_key {
        return Err(LendingError::InvalidInput);
    }
    if obligation.borrow_reserve != *repay_reserve_key {
        return Err(LendingError::InvalidInput);
    }
    if obligation.collateral_supply != *withdraw_reserve_key {
        return Err(LendingError::InvalidInput);
    }
    let mut repay_reserve = match Reserve::unpack(repay_reserve_data) {
        Ok(res) => res,
        Err(_) => {
            return Err(LendingError::InvalidInput);
        },
    };
    let withdraw_reserve = match Reserve::unpack(withdraw_reserve_data) {
        Ok(res) => res,
        Err(_) => {
            return Err(LendingError::InvalidInput);
        },
    };
    proof {
        crate::codec::lemma_unpack_reserve_bounds(repay_reserve_data@);
    }
    if repay_reserve.lending_market != withdraw_reserve.lending_market {
        return Err(LendingError::LendingMarketMismatch);
    }
    if repay_reserve.liquidity_supply != *liquidity_supply_key {
        return Err(LendingError::InvalidInput);
    }
    if withdraw_reserve.collateral_supply != *collateral_supply_key {
        return Err(LendingError::InvalidInput);
    }
    let found = find_authority_bump_seed(program_id, &repay_reserve.lending_market);
    if found.is_none() {
        return Err(LendingError::InvalidProgramAddress);
    }
    if !liquidity_supply.is_initialized {
        return Err(LendingError::ExpectedTokenAccount);
    }
    if repay_reserve.borrow_state_update_slot != 0 && repay_reserve.borrow_state_update_slot
        != slot && repay_reserve.total_borrows.eq_val(&Decimal::zero())
        && liquidity_supply.amount == 0 {
        return Err(LendingError::InvalidInput);
    }

    repay_reserve.update_cumulative_rate(slot, liquidity_supply);
    if !repay_reserve.cumulative_borrow_rate.fits_u128() {
        return Err(LendingError::InvalidInput);
    }
    if obligation.last_update_slot > slot {
        return Err(LendingError::InvalidInput);
    }
    if obligation.cumulative_borrow_rate.lt(&Decimal::from_u64(1)) {
        return Err(LendingError::InvalidInput);
    }
    if repay_reserve.cumulative_borrow_rate.lt(&obligation.cumulative_borrow_rate) {
        return Err(LendingError::InvalidInput);
    }
    proof {
        // the rate quotient is at least one and under the 128-bit bound,
        // so the interest factor below is computable
        assert(repay_reserve.cumulative_borrow_rate@ * scale_nat() < p256())
            by (nonlinear_arith)
            requires repay_reserve.cumulative_borrow_rate@ < p128();
        crate::state::lemma_dec_div_mono(
            obligation.cumulative_borrow_rate@,
            repay_reserve.cumulative_borrow_rate@,
            obligation.cumulative_borrow_rate@,
        );
        crate::state::lemma_dec_div_le_one(
            obligation.cumulative_borrow_rate@,
            obligation.cumulative_borrow_rate@,
        );
        assert(dec_div(obligation.cumulative_borrow_rate@, obligation.cumulative_borrow_rate@)
            == scale_nat()) by {
            vstd::arithmetic::div_mod::lemma_div_multiples_vanish(
                scale_nat() as int,
                obligation.cumulative_borrow_rate@ as int,
            );
            assert(obligation.cumulative_borrow_rate@ * scale_nat() == scale_nat()
                * obligation.cumulative_borrow_rate@) by (nonlinear_arith);
        }
        crate::state::lemma_dec_div_shrinks(
            repay_reserve.cumulative_borrow_rate@,
            obligation.cumulative_borrow_rate@,
        );
    }
    let rate_delta = repay_reserve.cumulative_borrow_rate.div(
        obligation.cumulative_borrow_rate,
    ).sub(Decimal::from_u64(1));
    proof {
        assert(obligation.borrow_amount@ * rate_delta@ < p256()) by (nonlinear_arith)
            requires
                obligation.borrow_amount@ < p128(),
                rate_delta@ < p128();
    }
    let yearly_interest = obligation.borrow_amount.mul(rate_delta);
    if !yearly_interest.fits_u128() {
        return Err(LendingError::InvalidInput);
    }
    proof {
        crate::decimal::lemma_from_u64_bound((slot - obligation.last_update_slot) as u64);
        assert(dec_from_u64((slot - obligation.last_update_slot) as u64) * yearly_interest@
            < p256()) by (nonlinear_arith)
            requires
                dec_from_u64((slot - obligation.last_update_slot) as u64)
                    < 0x1_0000_0000_0000_0000nat * 1_000_000_000_000_000_000,
                yearly_interest@ < p128();
    }
    match obligation.accrue_interest(slot, &repay_reserve) {
        Ok(()) => (),
        Err(e) => {
            return Err(e);
        },
    }
    let borrowed_amount = match obligation.borrow_amount.try_round_u64() {
        Some(v) => v,
        None => {
            return Err(LendingError::InvalidInput);
        },
    };
    if obligation.borrow_amount.eq_val(&Decimal::zero()) {
        return Err(LendingError::InvalidInput);
    }
    if !obligation_mint.is_initialized {
        return Err(LendingError::ExpectedTokenMint);
    }
    let repay_amount: u64 = if liquidity_amount < borrowed_amount {
        liquidity_amount
    } else {
        borrowed_amount
    };
    let ghost accrued = obligation.borrow_amount@;
    proof {
        // the repayment never exceeds the accrued debt
        vstd::arithmetic::div_mod::lemma_fundamental_div_mod(
            accrued as int,
            scale_nat() as int,
        );
        assert(borrowed_amount * scale_nat() <= accrued);
        assert(repay_amount * scale_nat() <= borrowed_amount * scale_nat());
        crate::decimal::lemma_from_u64_bound(repay_amount);
        assert(dec_from_u64(repay_amount) * scale_nat() < p256()) by (nonlinear_arith)
            requires
                dec_from_u64(repay_amount) < 0x1_0000_0000_0000_0000nat
                    * 1_000_000_000_000_000_000;
        crate::state::lemma_dec_div_le_one(dec_from_u64(repay_amount), accrued);
    }
    let repay_pct = Decimal::from_u64(repay_amount).div(obligation.borrow_amount);
    proof {
        crate::decimal::lemma_from_u64_bound(obligation.collateral_amount);
        crate::decimal::lemma_from_u64_bound(obligation_mint.supply);
        assert(repay_pct@ * dec_from_u64(obligation.collateral_amount) < p256())
            by (nonlinear_arith)
            requires
                repay_pct@ <= scale_nat(),
                dec_from_u64(obligation.collateral_amount) < 0x1_0000_0000_0000_0000nat
                    * 1_000_000_000_000_000_000;
        assert(repay_pct@ * dec_from_u64(obligation_mint.supply) < p256()) by (nonlinear_arith)
            requires
                repay_pct@ <= scale_nat(),
                dec_from_u64(obligation_mint.supply) < 0x1_0000_0000_0000_0000nat
                    * 1_000_000_000_000_000_000;
        lemma_fraction_of_amount(repay_pct@, obligation.collateral_amount);
        lemma_fraction_of_amount(repay_pct@, obligation_mint.supply);
    }
    let collateral_withdraw_amount = repay_pct.mul(
        Decimal::from_u64(obligation.collateral_amount),
    ).round_u64();
    let obligation_token_amount = repay_pct.mul(
        Decimal::from_u64(obligation_mint.supply),
    ).round_u64();

    obligation.last_update_slot = slot;
    obligation.borrow_amount = obligation.borrow_amount.sub(Decimal::from_u64(repay_amount));
    obligation.collateral_amount = obligation.collateral_amount - collateral_withdraw_amount;
    if !obligation.borrow_amount.fits_u128() {
        return Err(LendingError::InvalidInput);
    }
    if repay_reserve.total_borrows.lt(&Decimal::from_u64(repay_amount)) {
        return Err(LendingError::InvalidInput);
    }
    repay_reserve.subtract_repay(Decimal::from_u64(repay_amount));
    if !repay_reserve.total_borrows.fits_u128() {
        return Err(LendingError::InvalidInput);
    }
    proof {
        crate::codec::lemma_obligation_round_trip(obligation);
        crate::codec::lemma_reserve_round_trip(repay_reserve);
    }
    Ok(
        RepayResult {
            repay_reserve: repay_reserve.pack(),
            obligation: obligation.pack(),
            repay_amount,
            collateral_withdraw_amount,
            obligation_token_amount,
        },
    )
}

/// What an init-reserve instructs the host to do once its checks pass.
pub struct InitReserveResult {
    /// The packed, freshly initialized reserve.
    pub reserve: Vec<u8>,
    /// Collateral tokens to mint against the pre-existing liquidity.
    pub collateral_mint_amount: u64,
}

/// The first error an init-reserve instruction hits, if any, in the
/// order the instruction performs its checks.
pub open spec fn spec_init_reserve_error(
    program_id: Key,
    reserve_data: Seq<u8>,
    reserve_rent_exempt: bool,
    lending_market_data: Seq<u8>,
    lending_market_key: Key,
    lending_market_is_signer: bool,
    lending_market_authority_key: Key,
    liquidity_supply_key: Key,
    liquidity_supply: TokenAccountData,
    liquidity_supply_account_owner: Key,
    collateral_mint_key: Key,
    collateral_mint: MintData,
    collateral_mint_account_owner: Key,
    collateral_supply_key: Key,
    collateral_supply: TokenAccountData,
    collateral_supply_account_owner: Key,
    collateral_output: TokenAccountData,
    token_program_id: Key,
    dex_market_present: bool,
    dex_market_data: Seq<u8>,
    dex_market_rent_exempt: bool,
    slot: u64,
) -> Option<LendingError> {
    if !reserve_rent_exempt {
        Some(LendingError::NotRentExempt)
    } else if spec_unpack_lending_market(lending_market_data) is Err {
        Some(LendingError::InvalidInput)
    } else if !spec_unpack_lending_market(lending_market_data)->Ok_0.is_initialized {
        Some(LendingError::InvalidInput)
    } else if pda_search_of(seq![lending_market_key.bytes()], program_id.bytes()) is None {
        Some(LendingError::InvalidProgramAddress)
    } else if !(pda_search_of(seq![lending_market_key.bytes()], program_id.bytes())
        matches Some((k, _b)) && k == lending_market_authority_key) {
        Some(LendingError::InvalidInput)
    } else if !lending_market_is_signer {
        Some(LendingError::InvalidInput)
    } else if liquidity_supply_account_owner != token_program_id {
        Some(LendingError::InvalidTokenProgram)
    } else if collateral_supply_account_owner != token_program_id {
        Some(LendingError::InvalidTokenProgram)
    } else if collateral_mint_account_owner != token_program_id {
        Some(LendingError::InvalidTokenProgram)
    } else if !liquidity_supply.is_initialized {
        Some(LendingError::ExpectedTokenAccount)
    } else if liquidity_supply.owner != lending_market_authority_key {
        Some(LendingError::InvalidOwner)
    } else if liquidity_supply.has_close_authority {
        Some(LendingError::InvalidCloseAuthority)
    } else if liquidity_supply.has_delegate {
        Some(LendingError::InvalidDelegate)
    } else if liquidity_supply.amount == 0 {
        Some(LendingError::InvalidInput)
    } else if collateral_output.is_initialized {
        Some(LendingError::AlreadyInUse)
    } else if collateral_supply.is_initialized {
        Some(LendingError::AlreadyInUse)
    } else if collateral_mint.is_initialized {
        Some(LendingError::AlreadyInUse)
    } else if spec_unpack_reserve(reserve_data) is Err {
        Some(LendingError::InvalidInput)
    } else if spec_unpack_reserve(reserve_data)->Ok_0.is_initialized {
        Some(LendingError::AlreadyInUse)
    } else {
        let parsed = spec_unpack_reserve(reserve_data)->Ok_0;
        let quote = spec_unpack_lending_market(lending_market_data)->Ok_0.quote_token_mint;
        if spec_updated_cumulative_rate(parsed, slot, liquidity_supply.amount) >= p128()
            || spec_updated_borrows(parsed, slot, liquidity_supply.amount) >= p128() {
            Some(LendingError::InvalidInput)
        } else if dec_round(
            dec_mul(
                dec_from_u64(liquidity_supply.amount),
                dec_from_u64(crate::state::INITIAL_COLLATERAL_RATE),
            ),
        ) >= p64() {
            Some(LendingError::InvalidInput)
        } else if liquidity_supply.mint != quote && !dex_market_present {
            Some(LendingError::InvalidInput)
        } else if liquidity_supply.mint != quote && !dex_market_rent_exempt {
            Some(LendingError::NotRentExempt)
        } else if liquidity_supply.mint != quote && quote != crate::keys::spec_key_of_bytes(
            dex_market_data.subrange(85, 117),
        ) {
            Some(LendingError::InvalidInput)
        } else if liquidity_supply.mint != quote && liquidity_supply.mint
            != crate::keys::spec_key_of_bytes(dex_market_data.subrange(53, 85)) {
            Some(LendingError::InvalidInput)
        } else {
            None
        }
    }
}

/// Creates and initializes a reserve under a signed lending market.
///
/// The collateral mint and its two accounts must be uninitialized; the
/// host initializes them and mints the returned collateral amount, which
/// values the pre-existing liquidity at the fixed initial rate.  A
/// reserve whose liquidity mint differs from the market's quote mint
/// binds the external order book after validating its mint keys.
pub fn process_init_reserve(
    program_id: &Key,
    reserve_data: &[u8],
    reserve_rent_exempt: bool,
    lending_market_data: &[u8],
    lending_market_key: &Key,
    lending_market_is_signer: bool,
    lending_market_authority_key: &Key,
    liquidity_supply_key: &Key,
    liquidity_supply: &TokenAccountData,
    liquidity_supply_account_owner: &Key,
    collateral_mint_key: &Key,
    collateral_mint: &MintData,
    collateral_mint_account_owner: &Key,
    collateral_supply_key: &Key,
    collateral_supply: &TokenAccountData,
    collateral_supply_account_owner: &Key,
    collateral_output: &TokenAccountData,
    token_program_id: &Key,
    dex_market_present: bool,
    dex_market_key: &Key,
    dex_market_data: &[u8],
    dex_market_rent_exempt: bool,
    slot: u64,
) -> (r: Result<InitReserveResult, LendingError>)
    requires
        dex_market_data@.len() >= 117,
        spec_unpack_reserve(reserve_data@) matches Ok(parsed)
            ==> (parsed.borrow_state_update_slot != 0 ==> parsed.borrow_state_update_slot
            <= slot),
    ensures
        spec_init_reserve_error(
            *program_id,
            reserve_data@,
            reserve_rent_exempt,
            lending_market_data@,
            *lending_market_key,
            lending_market_is_signer,
            *lending_market_authority_key,
            *liquidity_supply_key,
            *liquidity_supply,
            *liquidity_supply_account_owner,
            *collateral_mint_key,
            *collateral_mint,
            *collateral_mint_account_owner,
            *collateral_supply_key,
            *collateral_supply,
            *collateral_supply_account_owner,
            *collateral_output,
            *token_program_id,
            dex_market_present,
            dex_market_data@,
            dex_market_rent_exempt,
            slot,
        ) matches Some(e) ==> r == Err::<InitReserveResult, LendingError>(e),
        spec_init_reserve_error(
            *program_id,
            reserve_data@,
            reserve_rent_exempt,
            lending_market_data@,
            *lending_market_key,
            lending_market_is_signer,
            *lending_market_authority_key,
            *liquidity_supply_key,
            *liquidity_supply,
            *liquidity_supply_account_owner,
            *collateral_mint_key,
            *collateral_mint,
            *collateral_mint_account_owner,
            *collateral_supply_key,
            *collateral_supply,
            *collateral_supply_account_owner,
            *collateral_output,
            *token_program_id,
            dex_market_present,
            dex_market_data@,
            dex_market_rent_exempt,
            slot,
        ) is None ==> (r matches Ok(out) && {
            let parsed = spec_unpack_reserve(reserve_data@)->Ok_0;
            let quote = spec_unpack_lending_market(lending_market_data@)->Ok_0.quote_token_mint;
            &&& out.collateral_mint_amount == dec_round(
                dec_mul(
                    dec_from_u64(liquidity_supply.amount),
                    dec_from_u64(crate::state::INITIAL_COLLATERAL_RATE),
                ),
            )
            &&& spec_unpack_reserve(out.reserve@) matches Ok(new) && {
                &&& new.is_initialized
                &&& new.lending_market == *lending_market_key
                &&& new.liquidity_supply == *liquidity_supply_key
                &&& new.liquidity_mint == liquidity_supply.mint
                &&& new.collateral_supply == *collateral_supply_key
                &&& new.collateral_mint == *collateral_mint_key
                &&& new.dex_market == (if liquidity_supply.mint != quote {
                    Some(*dex_market_key)
                } else {
                    None::<Key>
                })
                &&& new.dex_market_price == parsed.dex_market_price
                &&& new.dex_market_price_updated_slot == parsed.dex_market_price_updated_slot
                &&& new.cumulative_borrow_rate@ == spec_updated_cumulative_rate(
                    parsed,
                    slot,
                    liquidity_supply.amount,
                )
                &&& new.total_borrows@ == spec_updated_borrows(
                    parsed,
                    slot,
                    liquidity_supply.amount,
                )
                &&& new.borrow_state_update_slot == slot
            }
        }),
{
    if !reserve_rent_exempt {
        return Err(LendingError::NotRentExempt);
    }
    let lending_market = match LendingMarket::unpack(lending_market_data) {
        Ok(m) => m,
        Err(_) => {
            return Err(LendingError::InvalidInput);
        },
    };
    if !lending_market.is_initialized() {
        return Err(LendingError::InvalidInput);
    }
    let (authority, _bump_seed) = match find_authority_bump_seed(program_id, lending_market_key) {
        Some(pair) => pair,
        None => {
            return Err(LendingError::InvalidProgramAddress);
        },
    };
    if authority != *lending_market_authority_key {
        return Err(LendingError::InvalidInput);
    }
    if !lending_market_is_signer {
        return Err(LendingError::InvalidInput);
    }
    if *liquidity_supply_account_owner != *token_program_id {
        return Err(LendingError::InvalidTokenProgram);
    }
    if *collateral_supply_account_owner != *token_program_id {
        return Err(LendingError::InvalidTokenProgram);
    }
    if *collateral_mint_account_owner != *token_program_id {
        return Err(LendingError::InvalidTokenProgram);
    }
    if !liquidity_supply.is_initialized {
        return Err(LendingError::ExpectedTokenAccount);
    }
    if liquidity_supply.owner != *lending_market_authority_key {
        return Err(LendingError::InvalidOwner);
    }
    if liquidity_supply.has_close_authority {
        return Err(LendingError::InvalidCloseAuthority);
    }
    if liquidity_supply.has_delegate {
        return Err(LendingError::InvalidDelegate);
    }
    if liquidity_supply.amount == 0 {
        return Err(LendingError::InvalidInput);
    }
    if collateral_output.is_initialized {
        return Err(LendingError::AlreadyInUse);
    }
    if collateral_supply.is_initialized {
        return Err(LendingError::AlreadyInUse);
    }
    if collateral_mint.is_initialized {
        return Err(LendingError::AlreadyInUse);
    }
    let mut new_reserve = match Reserve::unpack(reserve_data) {
        Ok(res) => res,
        Err(_) => {
            return Err(LendingError::InvalidInput);
        },
    };
    if new_reserve.is_initialized() {
        return Err(LendingError::AlreadyInUse);
    }
    proof {
        crate::codec::lemma_unpack_reserve_bounds(reserve_data@);
    }
    new_reserve.is_initialized = true;
    new_reserve.lending_market = *lending_market_key;
    new_reserve.liquidity_supply = *liquidity_supply_key;
    new_reserve.liquidity_mint = liquidity_supply.mint;
    new_reserve.collateral_supply = *collateral_supply_key;
    new_reserve.collateral_mint = *collateral_mint_key;

    new_reserve.update_cumulative_rate(slot, liquidity_supply);
    if !new_reserve.cumulative_borrow_rate.fits_u128() || !new_reserve.total_borrows.fits_u128() {
        return Err(LendingError::InvalidInput);
    }
    // the collateral mint was just initialized by the host, so its supply
    // is zero and the initial rate applies
    let fresh_collateral_mint = MintData { supply: 0, is_initialized: true };
    proof {
        crate::decimal::lemma_from_u64_bound(liquidity_supply.amount);
        assert(dec_from_u64(liquidity_supply.amount) * dec_from_u64(5) < p256())
            by (nonlinear_arith)
            requires
                dec_from_u64(liquidity_supply.amount) < 0x1_0000_0000_0000_0000nat
                    * 1_000_000_000_000_000_000;
    }
    let collateral_amount = match new_reserve.liquidity_to_collateral(
        slot,
        liquidity_supply,
        &fresh_collateral_mint,
        liquidity_supply.amount,
    ) {
        Ok(amount) => amount,
        Err(e) => {
            return Err(e);
        },
    };
    let collateral_mint_amount = match collateral_amount.try_round_u64() {
        Some(v) => v,
        None => {
            return Err(LendingError::InvalidInput);
        },
    };

    let dex_market: Option<Key> = if liquidity_supply.mint != lending_market.quote_token_mint {
        if !dex_market_present {
            return Err(LendingError::InvalidInput);
        }
        if !dex_market_rent_exempt {
            return Err(LendingError::NotRentExempt);
        }
        let market_quote_mint = crate::dex::quote_mint_pubkey(dex_market_data);
        if lending_market.quote_token_mint != market_quote_mint {
            return Err(LendingError::InvalidInput);
        }
        let market_base_mint = crate::dex::base_mint_pubkey(dex_market_data);
        if liquidity_supply.mint != market_base_mint {
            return Err(LendingError::InvalidInput);
        }
        Some(*dex_market_key)
    } else {
        None
    };
    new_reserve.dex_market = dex_market;
    proof {
        crate::codec::lemma_reserve_round_trip(new_reserve);
    }
    Ok(InitReserveResult { reserve: new_reserve.pack(), collateral_mint_amount })
}

/// The first error a set-price instruction hits, if any.
pub open spec fn spec_set_price_error(
    reserve_data: Seq<u8>,
    dex_market_key: Key,
    bids_data: Seq<u8>,
    asks_data: Seq<u8>,
) -> Option<LendingError> {
    if spec_unpack_reserve(reserve_data) is Err {
        Some(LendingError::InvalidInput)
    } else {
        let reserve = spec_unpack_reserve(reserve_data)->Ok_0;
        if reserve.dex_market != Some(dex_market_key) {
            Some(LendingError::InvalidInput)
        } else if crate::dex::spec_market_midpoint(
            bids_data.subrange(13, bids_data.len() - 7),
            asks_data.subrange(13, asks_data.len() - 7),
        ) is Err {
            Some(
                crate::dex::spec_market_midpoint(
                    bids_data.subrange(13, bids_data.len() - 7),
                    asks_data.subrange(13, asks_data.len() - 7),
                )->Err_0,
            )
        } else {
            None
        }
    }
}

/// Refreshes a reserve's cached market price from its bound order book.
///
/// Reads the midpoint of the best bid and best ask and stamps it with the
/// current slot.  Returns the repacked reserve.
pub fn process_set_price(
    reserve_data: &[u8],
    dex_market_key: &Key,
    bids_data: &[u8],
    asks_data: &[u8],
    slot: u64,
) -> (r: Result<Vec<u8>, LendingError>)
    requires
        bids_data@.len() >= 52,
        asks_data@.len() >= 52,
    ensures
        spec_set_price_error(reserve_data@, *dex_market_key, bids_data@, asks_data@)
            matches Some(e) ==> r == Err::<Vec<u8>, LendingError>(e),
        spec_set_price_error(reserve_data@, *dex_market_key, bids_data@, asks_data@) is None
            ==> (r matches Ok(out) && spec_unpack_reserve(out@) matches Ok(new) && {
            let reserve = spec_unpack_reserve(reserve_data@)->Ok_0;
            &&& new.dex_market_price == crate::dex::spec_market_midpoint(
                bids_data@.subrange(13, bids_data@.len() - 7),
                asks_data@.subrange(13, asks_data@.len() - 7),
            )->Ok_0
            &&& new.dex_market_price_updated_slot == slot
            &&& new.cumulative_borrow_rate@ == reserve.cumulative_borrow_rate@
            &&& new.total_borrows@ == reserve.total_borrows@
            &&& new.borrow_state_update_slot == reserve.borrow_state_update_slot
            &&& new.is_initialized == reserve.is_initialized
            &&& new.lending_market == reserve.lending_market
            &&& new.liquidity_supply == reserve.liquidity_supply
            &&& new.liquidity_mint == reserve.liquidity_mint
            &&& new.collateral_supply == reserve.collateral_supply
            &&& new.collateral_mint == reserve.collateral_mint
            &&& new.dex_market == reserve.dex_market
        }),
{
    let mut reserve = match Reserve::unpack(reserve_data) {
        Ok(res) => res,
        Err(_) => {
            return Err(LendingError::InvalidInput);
        },
    };
    let market_ok = match reserve.dex_market {
        Some(k) => k == *dex_market_key,
        None => false,
    };
    if !market_ok {
        return Err(LendingError::InvalidInput);
    }
    let price = match crate::dex::dex_market_midpoint(bids_data, asks_data) {
        Ok(p) => p,
        Err(e) => {
            return Err(e);
        },
    };
    reserve.dex_market_price = price;
    reserve.dex_market_price_updated_slot = slot;
    proof {
        crate::codec::lemma_unpack_reserve_bounds(reserve_data@);
        crate::codec::lemma_reserve_round_trip(reserve);
    }
    Ok(reserve.pack())
}

} // verus!
