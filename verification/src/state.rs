//! Persistent records of the lending engine and their state machines.
//!
//! [`LendingMarket`] is the initialized-once configuration of a reserve
//! family, [`Reserve`] the interest-accruing liquidity pool, and
//! [`Obligation`] the per-loan record.  Token accounts and mints live in the
//! external token subsystem; the engine only reads a few of their fields,
//! modeled here as [`TokenAccountData`] and [`MintData`].

use vstd::prelude::*;
use vstd::arithmetic::div_mod::{
    lemma_div_is_ordered, lemma_div_is_ordered_by_denominator, lemma_div_multiples_vanish,
};
use vstd::arithmetic::mul::lemma_mul_upper_bound;
use crate::decimal::{Decimal, dec_from_u64, dec_mul, dec_div, scale_nat};
use crate::error::LendingError;
use crate::keys::Key;
use crate::u256::{p64, p128, p256};

verus! {

/// Prices are only valid for a few slots before needing to be updated again.
pub const PRICE_EXPIRATION_SLOTS: u64 = 5;

/// Collateral tokens are initially valued at a ratio of 5:1 (collateral:liquidity).
pub const INITIAL_COLLATERAL_RATE: u64 = 5;

/// Number of slots per year, from the host's tick rate (the quotient
/// truncates, exactly as the host computes it).
pub const SLOTS_PER_YEAR: u64 = 160 / 64 * 86400 * 365;

/// What the engine reads of an external fungible token account.
#[derive(Clone, Copy, Debug)]
pub struct TokenAccountData {
    /// The mint this account holds tokens of.
    pub mint: Key,
    /// The account's owner.
    pub owner: Key,
    /// Token balance.
    pub amount: u64,
    /// Whether a transfer delegate is set.
    pub has_delegate: bool,
    /// Whether a close authority is set.
    pub has_close_authority: bool,
    /// Whether the account is initialized.
    pub is_initialized: bool,
}

/// What the engine reads of an external token mint.
#[derive(Clone, Copy, Debug)]
pub struct MintData {
    /// Total supply of the mint.
    pub supply: u64,
    /// Whether the mint is initialized.
    pub is_initialized: bool,
}

/// Lending market state.
#[derive(Clone, Copy, Debug)]
pub struct LendingMarket {
    /// Initialized state.
    pub is_initialized: bool,
    /// Quote currency token mint.
    pub quote_token_mint: Key,
}

/// Lending market reserve state.
#[derive(Clone, Copy, Debug)]
pub struct Reserve {
    /// Initialized state.
    pub is_initialized: bool,
    /// Lending market address.
    pub lending_market: Key,
    /// Reserve liquidity supply token account.
    pub liquidity_supply: Key,
    /// Reserve liquidity mint.
    pub liquidity_mint: Key,
    /// Reserve collateral supply token account.
    pub collateral_supply: Key,
    /// Mint whose supply represents depositor shares of the reserve.
    pub collateral_mint: Key,
    /// External order-book account; absent for quote-currency reserves.
    pub dex_market: Option<Key>,
    /// Cached order-book midpoint price.
    pub dex_market_price: u64,
    /// Slot at which the cached price was last written.
    pub dex_market_price_updated_slot: u64,
    /// Cumulative borrow rate, a multiplicative interest integrator.
    pub cumulative_borrow_rate: Decimal,
    /// Outstanding principal plus accrued interest.
    pub total_borrows: Decimal,
    /// Slot at which the borrow state was last advanced.
    pub borrow_state_update_slot: u64,
}

/// Borrow obligation state.
#[derive(Clone, Copy, Debug)]
pub struct Obligation {
    /// Slot when the obligation was last advanced.
    pub last_update_slot: u64,
    /// Amount of collateral tokens deposited for this obligation.
    pub collateral_amount: u64,
    /// Reserve whose collateral supply holds the deposit.
    pub collateral_supply: Key,
    /// Snapshot of the borrow reserve's cumulative rate at the last touch.
    pub cumulative_borrow_rate: Decimal,
    /// Amount of tokens borrowed plus accrued interest.
    pub borrow_amount: Decimal,
    /// Reserve the liquidity was borrowed from.
    pub borrow_reserve: Key,
    /// Mint whose supply represents transferable claims on this obligation.
    pub token_mint: Key,
}

/// Raw value of the borrow-rate curve at the utilization implied by
/// `borrows` outstanding against `liquidity_amount` idle tokens.
pub open spec fn spec_borrow_rate(borrows: nat, liquidity_amount: u64) -> nat {
    let supply = borrows + dec_from_u64(liquidity_amount);
    let util = dec_div(borrows, supply);
    if util < 800_000_000_000_000_000 {
        dec_mul(dec_div(util, 800_000_000_000_000_000), 40_000_000_000_000_000) + 0
    } else {
        dec_mul(
            dec_div((util - 800_000_000_000_000_000) as nat, 200_000_000_000_000_000),
            260_000_000_000_000_000,
        ) + 40_000_000_000_000_000
    }
}

/// The quotient of two decimals is at most one when the numerator does not
/// exceed the denominator.
pub proof fn lemma_dec_div_le_one(a: nat, b: nat)
    requires
        a <= b,
        0 < b,
    ensures
        dec_div(a, b) <= scale_nat(),
{
    lemma_div_is_ordered((a * scale_nat()) as int, (b * scale_nat()) as int, b as int);
    lemma_div_multiples_vanish(scale_nat() as int, b as int);
    assert(b * scale_nat() == scale_nat() * b) by (nonlinear_arith);
}

/// Decimal division is monotone in the numerator.
pub proof fn lemma_dec_div_mono(a1: nat, a2: nat, b: nat)
    requires
        a1 <= a2,
        0 < b,
    ensures
        dec_div(a1, b) <= dec_div(a2, b),
{
    lemma_div_is_ordered((a1 * scale_nat()) as int, (a2 * scale_nat()) as int, b as int);
}

/// Decimal multiplication is monotone in both factors.
pub proof fn lemma_dec_mul_bound(a: nat, amax: nat, b: nat, bmax: nat)
    requires
        a <= amax,
        b <= bmax,
    ensures
        dec_mul(a, b) <= dec_mul(amax, bmax),
{
    lemma_mul_upper_bound(a as int, amax as int, b as int, bmax as int);
    lemma_div_is_ordered((a * b) as int, (amax * bmax) as int, scale_nat() as int);
}

/// Dividing by at least one never increases a decimal.
pub proof fn lemma_dec_div_shrinks(a: nat, b: nat)
    requires
        scale_nat() <= b,
    ensures
        dec_div(a, b) <= a,
{
    lemma_div_is_ordered_by_denominator((a * scale_nat()) as int, scale_nat() as int, b as int);
    lemma_div_multiples_vanish(a as int, scale_nat() as int);
    assert(a * scale_nat() == scale_nat() * a) by (nonlinear_arith);
}

/// The borrow-rate curve never exceeds the maximum rate of 0.30.
pub proof fn lemma_borrow_rate_bound(borrows: nat, liquidity_amount: u64)
    requires
        borrows + dec_from_u64(liquidity_amount) > 0,
    ensures
        spec_borrow_rate(borrows, liquidity_amount) <= 300_000_000_000_000_000,
{
    let supply = borrows + dec_from_u64(liquidity_amount);
    let util = dec_div(borrows, supply);
    lemma_dec_div_le_one(borrows, supply);
    if util < 800_000_000_000_000_000 {
        let norm = dec_div(util, 800_000_000_000_000_000);
        lemma_dec_div_mono(util, scale_nat(), 800_000_000_000_000_000);
        assert(dec_div(scale_nat(), 800_000_000_000_000_000) == 1_250_000_000_000_000_000nat);
        lemma_dec_mul_bound(norm, 1_250_000_000_000_000_000, 40_000_000_000_000_000, 40_000_000_000_000_000);
        assert(dec_mul(1_250_000_000_000_000_000nat, 40_000_000_000_000_000nat)
            == 50_000_000_000_000_000nat);
    } else {
        let excess = (util - 800_000_000_000_000_000) as nat;
        let norm = dec_div(excess, 200_000_000_000_000_000);
        lemma_dec_div_mono(excess, 200_000_000_000_000_000, 200_000_000_000_000_000);
        assert(dec_div(200_000_000_000_000_000nat, 200_000_000_000_000_000nat) == scale_nat());
        lemma_dec_mul_bound(norm, scale_nat(), 260_000_000_000_000_000, 260_000_000_000_000_000);
        assert(dec_mul(scale_nat(), 260_000_000_000_000_000nat) == 260_000_000_000_000_000nat);
    }
}

impl Reserve {
    /// Fetch the current market price.
    ///
    /// A reserve without a bound order book is the quote currency itself and
    /// always prices at one.  A bound price must have been set, and is stale
    /// once `PRICE_EXPIRATION_SLOTS` slots have passed since it was written.
    pub fn current_dex_market_price(&self, slot: u64) -> (r: Result<u64, LendingError>)
        requires
            self.dex_market_price_updated_slot + PRICE_EXPIRATION_SLOTS <= u64::MAX,
        ensures
            self.dex_market is None ==> r == Ok::<u64, LendingError>(1),
            self.dex_market is Some && self.dex_market_price_updated_slot == 0
                ==> r == Err::<u64, LendingError>(LendingError::ReservePriceUnset),
            self.dex_market is Some && self.dex_market_price_updated_slot != 0
                && self.dex_market_price_updated_slot + PRICE_EXPIRATION_SLOTS <= slot
                ==> r == Err::<u64, LendingError>(LendingError::ReservePriceExpired),
            self.dex_market is Some && self.dex_market_price_updated_slot != 0
                && slot < self.dex_market_price_updated_slot + PRICE_EXPIRATION_SLOTS
                ==> r == Ok::<u64, LendingError>(self.dex_market_price),
    {
        if self.dex_market.is_none() {
            Ok(1)
        } else if self.dex_market_price_updated_slot == 0 {
            Err(LendingError::ReservePriceUnset)
        } else if self.dex_market_price_updated_slot + PRICE_EXPIRATION_SLOTS <= slot {
            Err(LendingError::ReservePriceExpired)
        } else {
            Ok(self.dex_market_price)
        }
    }

    /// Add new borrow amount to total borrows.
    pub fn add_borrow(&mut self, borrow_amount: Decimal)
        requires
            old(self).total_borrows@ + borrow_amount@ < p256(),
        ensures
            *final(self) == (Reserve {
                total_borrows: final(self).total_borrows,
                ..*old(self)
            }),
            final(self).total_borrows@ == old(self).total_borrows@ + borrow_amount@,
    {
        self.total_borrows = self.total_borrows.add(borrow_amount);
    }

    /// Subtract repay amount from total borrows; underflow is a failure.
    pub fn subtract_repay(&mut self, repay_amount: Decimal)
        requires
            repay_amount@ <= old(self).total_borrows@,
        ensures
            *final(self) == (Reserve {
                total_borrows: final(self).total_borrows,
                ..*old(self)
            }),
            final(self).total_borrows@ == old(self).total_borrows@ - repay_amount@,
    {
        self.total_borrows = self.total_borrows.sub(repay_amount);
    }

    /// Calculate the current borrow rate from the utilization curve.
    ///
    /// Utilization is outstanding borrows over outstanding plus idle
    /// liquidity; below the optimal utilization of 0.80 the rate climbs
    /// linearly to 0.04, above it linearly from 0.04 to 0.30.
    pub fn current_borrow_rate(&self, liquidity_supply: &TokenAccountData) -> (r: Decimal)
        requires
            self.total_borrows@ < p128(),
            self.total_borrows@ + dec_from_u64(liquidity_supply.amount) > 0,
        ensures
            r@ == spec_borrow_rate(self.total_borrows@, liquidity_supply.amount),
            r@ <= 300_000_000_000_000_000,
    {
        let total_liquidity = Decimal::from_u64(liquidity_supply.amount);
        proof {
            assert(dec_from_u64(liquidity_supply.amount)
                <= 0xffff_ffff_ffff_ffff * 1_000_000_000_000_000_000nat) by (nonlinear_arith)
                requires liquidity_supply.amount <= 0xffff_ffff_ffff_ffff;
            assert(self.total_borrows@ * scale_nat() < p256()) by (nonlinear_arith)
                requires self.total_borrows@ < p128();
        }
        let total_supply = self.total_borrows.add(total_liquidity);

        let optimal_utilization_rate = Decimal::new(80, 2);
        let optimal_borrow_rate = Decimal::new(4, 2);
        let base_borrow_rate = Decimal::new(0, 2);
        let max_borrow_rate = Decimal::new(30, 2);
        proof {
            crate::decimal::lemma_pow10_18();
            assert(optimal_utilization_rate@ == 800_000_000_000_000_000nat);
            assert(optimal_borrow_rate@ == 40_000_000_000_000_000nat);
            assert(base_borrow_rate@ == 0nat);
            assert(max_borrow_rate@ == 300_000_000_000_000_000nat);
        }

        let utilization_rate = self.total_borrows.div(total_supply);
        proof {
            lemma_dec_div_le_one(self.total_borrows@, total_supply@);
            lemma_borrow_rate_bound(self.total_borrows@, liquidity_supply.amount);
        }
        if utilization_rate.lt(&optimal_utilization_rate) {
            let normalized_rate = utilization_rate.div(optimal_utilization_rate);
            proof {
                lemma_dec_div_mono(utilization_rate@, scale_nat(), 800_000_000_000_000_000);
            }
            normalized_rate.mul(optimal_borrow_rate.sub(base_borrow_rate)).add(base_borrow_rate)
        } else {
            let normalized_rate = utilization_rate.sub(optimal_utilization_rate).div(
                Decimal::from_u64(1).sub(optimal_utilization_rate),
            );
            proof {
                lemma_dec_div_mono(
                    (utilization_rate@ - 800_000_000_000_000_000) as nat,
                    200_000_000_000_000_000,
                    200_000_000_000_000_000,
                );
            }
            normalized_rate.mul(max_borrow_rate.sub(optimal_borrow_rate)).add(optimal_borrow_rate)
        }
    }
}

/// Raw value of the interest rate accrued over `slots_elapsed` slots at the
/// current curve rate: `slots_elapsed * rate / SLOTS_PER_YEAR`.
pub open spec fn spec_interest_rate(borrows: nat, liquidity_amount: u64, slots_elapsed: u64) -> nat {
    dec_div(
        dec_mul(dec_from_u64(slots_elapsed), spec_borrow_rate(borrows, liquidity_amount)),
        dec_from_u64(SLOTS_PER_YEAR),
    )
}

/// The fields of a reserve that a borrow-state update leaves untouched.
pub open spec fn reserve_static_eq(a: Reserve, b: Reserve) -> bool {
    &&& a.is_initialized == b.is_initialized
    &&& a.lending_market == b.lending_market
    &&& a.liquidity_supply == b.liquidity_supply
    &&& a.liquidity_mint == b.liquidity_mint
    &&& a.collateral_supply == b.collateral_supply
    &&& a.collateral_mint == b.collateral_mint
    &&& a.dex_market == b.dex_market
    &&& a.dex_market_price == b.dex_market_price
    &&& a.dex_market_price_updated_slot == b.dex_market_price_updated_slot
}

/// Raw value of the collateral exchange rate: collateral tokens per unit of
/// liquidity.  An empty collateral mint uses the fixed initial rate.
pub open spec fn spec_exchange_rate(
    borrows: nat,
    liquidity_amount: u64,
    collateral_supply: u64,
) -> nat {
    if collateral_supply == 0 {
        dec_from_u64(INITIAL_COLLATERAL_RATE)
    } else {
        dec_div(dec_from_u64(collateral_supply), borrows + dec_from_u64(liquidity_amount))
    }
}

impl Reserve {
    /// Update the cumulative borrow rate for the reserve.
    ///
    /// The first update initializes the integrator to one.  A repeated
    /// update within one slot is a no-op.  Otherwise the outstanding
    /// borrows grow by the period interest and the integrator is scaled by
    /// one plus the period rate.  Returns the new cumulative rate.
    pub fn update_cumulative_rate(
        &mut self,
        slot: u64,
        liquidity_supply: &TokenAccountData,
    ) -> (r: Decimal)
        requires
            old(self).total_borrows@ < p128(),
            old(self).cumulative_borrow_rate@ < p128(),
            old(self).borrow_state_update_slot != 0 ==> old(self).borrow_state_update_slot <= slot,
            old(self).borrow_state_update_slot != 0 && old(self).borrow_state_update_slot < slot
                ==> old(self).total_borrows@ + dec_from_u64(liquidity_supply.amount) > 0,
        ensures
            reserve_static_eq(*final(self), *old(self)),
            r@ == final(self).cumulative_borrow_rate@,
            old(self).borrow_state_update_slot == 0 ==> {
                &&& final(self).cumulative_borrow_rate@ == scale_nat()
                &&& final(self).total_borrows@ == old(self).total_borrows@
                &&& final(self).borrow_state_update_slot == slot
            },
            old(self).borrow_state_update_slot == slot && slot != 0 ==> *final(self) == *old(self),
            old(self).borrow_state_update_slot != 0 && old(self).borrow_state_update_slot != slot
                ==> {
                let ir = spec_interest_rate(
                    old(self).total_borrows@,
                    liquidity_supply.amount,
                    (slot - old(self).borrow_state_update_slot) as u64,
                );
                &&& final(self).total_borrows@ == old(self).total_borrows@ + dec_mul(
                    old(self).total_borrows@,
                    ir,
                )
                &&& final(self).cumulative_borrow_rate@ == dec_mul(
                    old(self).cumulative_borrow_rate@,
                    scale_nat() + ir,
                )
                &&& final(self).borrow_state_update_slot == slot
            },
    {
        if self.borrow_state_update_slot == 0 {
            self.borrow_state_update_slot = slot;
            self.cumulative_borrow_rate = Decimal::from_u64(1);
        } else if self.borrow_state_update_slot != slot {
            let borrow_rate = self.current_borrow_rate(liquidity_supply);
            let slots_elapsed = Decimal::from_u64(slot - self.borrow_state_update_slot);
            proof {
                crate::decimal::lemma_from_u64_bound(
                    (slot - self.borrow_state_update_slot) as u64,
                );
                assert(slots_elapsed@ * borrow_rate@
                    < 0x1_0000_0000_0000_0000_0000_0000_0000_0000_0000_0000_0000_0000_0000_0000_0000_0000nat)
                    by (nonlinear_arith)
                    requires
                        slots_elapsed@ < 0x1_0000_0000_0000_0000nat * 1_000_000_000_000_000_000,
                        borrow_rate@ <= 300_000_000_000_000_000;
            }
            let product = slots_elapsed.mul(borrow_rate);
            proof {
                lemma_dec_mul_bound(
                    product@,
                    product@,
                    1,
                    1,
                );
                lemma_dec_mul_bound(
                    slots_elapsed@,
                    0x1_0000_0000_0000_0000nat * 1_000_000_000_000_000_000,
                    borrow_rate@,
                    300_000_000_000_000_000,
                );
                assert(dec_mul(
                    0x1_0000_0000_0000_0000nat * 1_000_000_000_000_000_000,
                    300_000_000_000_000_000,
                ) * scale_nat()
                    < 0x1_0000_0000_0000_0000_0000_0000_0000_0000_0000_0000_0000_0000_0000_0000_0000_0000nat)
                    by (nonlinear_arith);
            }
            let interest_rate = product.div(Decimal::from_u64(SLOTS_PER_YEAR));
            proof {
                lemma_dec_div_shrinks(product@, dec_from_u64(SLOTS_PER_YEAR));
                assert(interest_rate@ <= dec_mul(
                    0x1_0000_0000_0000_0000nat * 1_000_000_000_000_000_000,
                    300_000_000_000_000_000,
                ));
                assert(self.total_borrows@ * interest_rate@
                    < 0x1_0000_0000_0000_0000_0000_0000_0000_0000_0000_0000_0000_0000_0000_0000_0000_0000nat)
                    by (nonlinear_arith)
                    requires
                        self.total_borrows@ < p128(),
                        interest_rate@ <= dec_mul(
                            0x1_0000_0000_0000_0000nat * 1_000_000_000_000_000_000,
                            300_000_000_000_000_000,
                        );
            }
            let accrued_interest = self.total_borrows.mul(interest_rate);
            proof {
                lemma_dec_mul_bound(
                    self.total_borrows@,
                    p128(),
                    interest_rate@,
                    dec_mul(
                        0x1_0000_0000_0000_0000nat * 1_000_000_000_000_000_000,
                        300_000_000_000_000_000,
                    ),
                );
                assert(p128() + dec_mul(
                    p128(),
                    dec_mul(
                        0x1_0000_0000_0000_0000nat * 1_000_000_000_000_000_000,
                        300_000_000_000_000_000,
                    ),
                ) < p256()) by (nonlinear_arith);
                assert(self.cumulative_borrow_rate@ * (scale_nat() + interest_rate@) < p256())
                    by (nonlinear_arith)
                    requires
                        self.cumulative_borrow_rate@ < p128(),
                        interest_rate@ <= dec_mul(
                            0x1_0000_0000_0000_0000nat * 1_000_000_000_000_000_000,
                            300_000_000_000_000_000,
                        );
            }
            self.total_borrows = self.total_borrows.add(accrued_interest);
            self.cumulative_borrow_rate = self.cumulative_borrow_rate.mul(
                Decimal::from_u64(1).add(interest_rate),
            );
            self.borrow_state_update_slot = slot;
        }

        self.cumulative_borrow_rate
    }

    /// Return the current collateral exchange rate.
    ///
    /// The borrow state must have been advanced to `slot` in the same
    /// instruction; otherwise the rate would be stale and the call fails.
    pub fn collateral_exchange_rate(
        &self,
        slot: u64,
        liquidity_supply: &TokenAccountData,
        collateral_mint: &MintData,
    ) -> (r: Result<Decimal, LendingError>)
        requires
            self.borrow_state_update_slot == slot ==> self.total_borrows@ < p128(),
            self.borrow_state_update_slot == slot && collateral_mint.supply != 0
                ==> self.total_borrows@ + dec_from_u64(liquidity_supply.amount) > 0,
        ensures
            self.borrow_state_update_slot != slot ==> r == Err::<Decimal, LendingError>(
                LendingError::InvalidInput,
            ),
            self.borrow_state_update_slot == slot ==> (r matches Ok(d) && d@
                == spec_exchange_rate(
                self.total_borrows@,
                liquidity_supply.amount,
                collateral_mint.supply,
            )),
    {
        if self.borrow_state_update_slot != slot {
            Err(LendingError::InvalidInput)
        } else if collateral_mint.supply == 0 {
            Ok(Decimal::from_u64(INITIAL_COLLATERAL_RATE))
        } else {
            let collateral_supply = Decimal::from_u64(collateral_mint.supply);
            let liquidity = Decimal::from_u64(liquidity_supply.amount);
            proof {
                crate::decimal::lemma_from_u64_bound(collateral_mint.supply);
                crate::decimal::lemma_from_u64_bound(liquidity_supply.amount);
                assert(collateral_supply@ * scale_nat() < p256()) by (nonlinear_arith)
                    requires
                        collateral_supply@ < 0x1_0000_0000_0000_0000nat
                            * 1_000_000_000_000_000_000;
            }
            let rate = collateral_supply.div(self.total_borrows.add(liquidity));
            Ok(rate)
        }
    }

    /// Convert reserve collateral to liquidity at the current rate.
    pub fn collateral_to_liquidity(
        &self,
        slot: u64,
        liquidity_supply: &TokenAccountData,
        collateral_mint: &MintData,
        collateral_amount: u64,
    ) -> (r: Result<Decimal, LendingError>)
        requires
            self.borrow_state_update_slot == slot ==> {
                &&& self.total_borrows@ < p128()
                &&& collateral_mint.supply != 0 ==> self.total_borrows@ + dec_from_u64(
                    liquidity_supply.amount,
                ) > 0
                &&& spec_exchange_rate(
                    self.total_borrows@,
                    liquidity_supply.amount,
                    collateral_mint.supply,
                ) > 0
            },
        ensures
            self.borrow_state_update_slot != slot ==> r == Err::<Decimal, LendingError>(
                LendingError::InvalidInput,
            ),
            self.borrow_state_update_slot == slot ==> (r matches Ok(d) && d@ == dec_div(
                dec_from_u64(collateral_amount),
                spec_exchange_rate(
                    self.total_borrows@,
                    liquidity_supply.amount,
                    collateral_mint.supply,
                ),
            )),
    {
        let exchange_rate = match self.collateral_exchange_rate(
            slot,
            liquidity_supply,
            collateral_mint,
        ) {
            Ok(rate) => rate,
            Err(e) => {
                return Err(e);
            },
        };
        proof {
            crate::decimal::lemma_from_u64_bound(collateral_amount);
            assert(dec_from_u64(collateral_amount) * scale_nat() < p256()) by (nonlinear_arith)
                requires
                    dec_from_u64(collateral_amount) < 0x1_0000_0000_0000_0000nat
                        * 1_000_000_000_000_000_000;
        }
        Ok(Decimal::from_u64(collateral_amount).div(exchange_rate))
    }

    /// Convert reserve liquidity to collateral at the current rate.
    pub fn liquidity_to_collateral(
        &self,
        slot: u64,
        liquidity_supply: &TokenAccountData,
        collateral_mint: &MintData,
        liquidity_amount: u64,
    ) -> (r: Result<Decimal, LendingError>)
        requires
            self.borrow_state_update_slot == slot ==> {
                &&& self.total_borrows@ < p128()
                &&& collateral_mint.supply != 0 ==> self.total_borrows@ + dec_from_u64(
                    liquidity_supply.amount,
                ) > 0
                &&& dec_from_u64(liquidity_amount) * spec_exchange_rate(
                    self.total_borrows@,
                    liquidity_supply.amount,
                    collateral_mint.supply,
                ) < p256()
            },
        ensures
            self.borrow_state_update_slot != slot ==> r == Err::<Decimal, LendingError>(
                LendingError::InvalidInput,
            ),
            self.borrow_state_update_slot == slot ==> (r matches Ok(d) && d@ == dec_mul(
                dec_from_u64(liquidity_amount),
                spec_exchange_rate(
                    self.total_borrows@,
                    liquidity_supply.amount,
                    collateral_mint.supply,
                ),
            )),
    {
        let exchange_rate = match self.collateral_exchange_rate(
            slot,
            liquidity_supply,
            collateral_mint,
        ) {
            Ok(rate) => rate,
            Err(e) => {
                return Err(e);
            },
        };
        Ok(Decimal::from_u64(liquidity_amount).mul(exchange_rate))
    }
}

/// Raw value of the interest factor an obligation owes: the growth of the
/// reserve's cumulative rate since the obligation's snapshot, minus one.
pub open spec fn spec_rate_delta(reserve_cum: nat, obligation_cum: nat) -> nat {
    (dec_div(reserve_cum, obligation_cum) - scale_nat()) as nat
}

/// Raw value of the interest accrued by an obligation over
/// `slots_elapsed` slots.
pub open spec fn spec_obligation_accrued(
    borrow: nat,
    reserve_cum: nat,
    obligation_cum: nat,
    slots_elapsed: u64,
) -> nat {
    dec_div(
        dec_mul(
            dec_from_u64(slots_elapsed),
            dec_mul(borrow, spec_rate_delta(reserve_cum, obligation_cum)),
        ),
        dec_from_u64(SLOTS_PER_YEAR),
    )
}

/// Advancing the borrow state keeps the outstanding borrows well under
/// the 256-bit range, leaving room to add a further 64-bit borrow.
pub proof fn lemma_interest_rate_bound(borrows: nat, liquidity_amount: u64, slots_elapsed: u64)
    requires
        borrows + dec_from_u64(liquidity_amount) > 0,
    ensures
        spec_interest_rate(borrows, liquidity_amount, slots_elapsed) <= dec_mul(
            0x1_0000_0000_0000_0000nat * 1_000_000_000_000_000_000,
            300_000_000_000_000_000,
        ),
{
    lemma_borrow_rate_bound(borrows, liquidity_amount);
    crate::decimal::lemma_from_u64_bound(slots_elapsed);
    lemma_dec_mul_bound(
        dec_from_u64(slots_elapsed),
        0x1_0000_0000_0000_0000nat * 1_000_000_000_000_000_000,
        spec_borrow_rate(borrows, liquidity_amount),
        300_000_000_000_000_000,
    );
    lemma_dec_div_shrinks(
        dec_mul(dec_from_u64(slots_elapsed), spec_borrow_rate(borrows, liquidity_amount)),
        dec_from_u64(SLOTS_PER_YEAR),
    );
}

impl Obligation {
    /// Accrue interest against the borrow reserve.
    ///
    /// The reserve's own borrow state must have been advanced to `slot`
    /// first, or the snapshot would be stale and the call fails with the
    /// obligation unchanged.  On success the borrow amount grows by the
    /// accrued interest, the cumulative-rate snapshot is refreshed to the
    /// reserve's, and the obligation is stamped with `slot`.
    pub fn accrue_interest(&mut self, slot: u64, reserve: &Reserve) -> (r: Result<
        (),
        LendingError,
    >)
        requires
            slot == reserve.borrow_state_update_slot ==> {
                &&& old(self).cumulative_borrow_rate@ >= scale_nat()
                &&& reserve.cumulative_borrow_rate@ >= old(self).cumulative_borrow_rate@
                &&& reserve.cumulative_borrow_rate@ < p128()
                &&& old(self).borrow_amount@ < p128()
                &&& old(self).last_update_slot <= slot
                &&& dec_from_u64((slot - old(self).last_update_slot) as u64) * dec_mul(
                    old(self).borrow_amount@,
                    spec_rate_delta(
                        reserve.cumulative_borrow_rate@,
                        old(self).cumulative_borrow_rate@,
                    ),
                ) < p256()
            },
        ensures
            slot != reserve.borrow_state_update_slot ==> r == Err::<(), LendingError>(
                LendingError::InvalidInput,
            ) && *final(self) == *old(self),
            slot == reserve.borrow_state_update_slot ==> {
                &&& r == Ok::<(), LendingError>(())
                &&& final(self).borrow_amount@ == old(self).borrow_amount@
                    + spec_obligation_accrued(
                    old(self).borrow_amount@,
                    reserve.cumulative_borrow_rate@,
                    old(self).cumulative_borrow_rate@,
                    (slot - old(self).last_update_slot) as u64,
                )
                &&& final(self).cumulative_borrow_rate@ == reserve.cumulative_borrow_rate@
                &&& final(self).last_update_slot == slot
                &&& final(self).collateral_amount == old(self).collateral_amount
                &&& final(self).collateral_supply == old(self).collateral_supply
                &&& final(self).borrow_reserve == old(self).borrow_reserve
                &&& final(self).token_mint == old(self).token_mint
            },
    {
        if slot != reserve.borrow_state_update_slot {
            return Err(LendingError::InvalidInput);
        }

        let slots_elapsed = Decimal::from_u64(slot - self.last_update_slot);
        proof {
            // the quotient of the cumulative rates is at least one and at
            // most the reserve's rate, so the subtraction stays in range
            assert(reserve.cumulative_borrow_rate@ * scale_nat() < p256()) by (nonlinear_arith)
                requires reserve.cumulative_borrow_rate@ < p128();
            lemma_dec_div_mono(
                self.cumulative_borrow_rate@,
                reserve.cumulative_borrow_rate@,
                self.cumulative_borrow_rate@,
            );
            lemma_dec_div_le_one(
                self.cumulative_borrow_rate@,
                self.cumulative_borrow_rate@,
            );
            assert(dec_div(self.cumulative_borrow_rate@, self.cumulative_borrow_rate@)
                == scale_nat()) by {
                lemma_div_multiples_vanish(
                    scale_nat() as int,
                    self.cumulative_borrow_rate@ as int,
                );
                assert(self.cumulative_borrow_rate@ * scale_nat()
                    == scale_nat() * self.cumulative_borrow_rate@) by (nonlinear_arith);
            }
            lemma_dec_div_shrinks(
                reserve.cumulative_borrow_rate@,
                self.cumulative_borrow_rate@,
            );
        }
        let borrow_rate = reserve.cumulative_borrow_rate.div(self.cumulative_borrow_rate).sub(
            Decimal::from_u64(1),
        );
        proof {
            assert(self.borrow_amount@ * borrow_rate@ < p256()) by (nonlinear_arith)
                requires
                    self.borrow_amount@ < p128(),
                    borrow_rate@ < p128();
        }
        let yearly_interest = self.borrow_amount.mul(borrow_rate);
        let product = slots_elapsed.mul(yearly_interest);
        proof {
            // product * 10^18 stays under the 256-bit bound that the
            // precondition puts on slots_elapsed * yearly_interest
            vstd::arithmetic::div_mod::lemma_fundamental_div_mod(
                (slots_elapsed@ * yearly_interest@) as int,
                scale_nat() as int,
            );
            assert(product@ * scale_nat() <= slots_elapsed@ * yearly_interest@);
            lemma_div_is_ordered(
                (slots_elapsed@ * yearly_interest@) as int,
                (p256() - 1) as int,
                scale_nat() as int,
            );
            lemma_dec_div_shrinks(product@, dec_from_u64(SLOTS_PER_YEAR));
            assert(p128() + (p256() - 1) / (scale_nat() as int) < p256()) by (nonlinear_arith);
        }
        let accrued_interest = product.div(Decimal::from_u64(SLOTS_PER_YEAR));

        self.borrow_amount = self.borrow_amount.add(accrued_interest);
        self.cumulative_borrow_rate = reserve.cumulative_borrow_rate;
        self.last_update_slot = slot;

        Ok(())
    }
}

} // verus!
