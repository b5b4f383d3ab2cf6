//! Laws of the interest accrual and the collateral exchange.
//!
//! These proof functions state, once and for all inputs, the properties
//! the rest of the library is designed around: how the cumulative borrow
//! rate compounds across updates, that a repeated update in one slot
//! changes nothing, and that a deposit immediately withdrawn returns the
//! same liquidity to within one unit.

use vstd::prelude::*;
use vstd::arithmetic::div_mod::{
    lemma_fundamental_div_mod, lemma_div_is_ordered, lemma_div_multiples_vanish,
    lemma_div_multiples_vanish_fancy, lemma_div_multiples_vanish_quotient, lemma_div_denominator,
};
use crate::decimal::{
    dec_from_u64, dec_mul, dec_div, dec_round, scale_nat, dec_of, lemma_dec_of, lemma_dec_of_view,
};
use crate::processor::{
    spec_updated_borrows, spec_updated_cumulative_rate, spec_update_ok, lemma_updated_borrows_bound,
};
use crate::state::{
    Reserve, spec_interest_rate, lemma_interest_rate_bound, lemma_dec_mul_bound,
};
use crate::u256::{p64, p128, p256};

verus! {

/// The reserve value an update leaves behind, as a record.
pub open spec fn spec_reserve_after_update(r: Reserve, slot: u64, liquidity_amount: u64) -> Reserve {
    Reserve {
        cumulative_borrow_rate: dec_of(spec_updated_cumulative_rate(r, slot, liquidity_amount)),
        total_borrows: dec_of(spec_updated_borrows(r, slot, liquidity_amount)),
        borrow_state_update_slot: slot,
        ..r
    }
}

/// The updated cumulative rate stays well inside the 256-bit range.
pub proof fn lemma_updated_cumulative_rate_bound(r: Reserve, slot: u64, liquidity_amount: u64)
    requires
        r.total_borrows@ < p128(),
        r.cumulative_borrow_rate@ < p128(),
        spec_update_ok(r, slot, liquidity_amount),
    ensures
        spec_updated_cumulative_rate(r, slot, liquidity_amount) < p256(),
{
    if r.borrow_state_update_slot != 0 && r.borrow_state_update_slot != slot {
        let dt = (slot - r.borrow_state_update_slot) as u64;
        lemma_interest_rate_bound(r.total_borrows@, liquidity_amount, dt);
        lemma_dec_mul_bound(
            r.cumulative_borrow_rate@,
            p128(),
            scale_nat() + spec_interest_rate(r.total_borrows@, liquidity_amount, dt),
            scale_nat() + dec_mul(
                0x1_0000_0000_0000_0000nat * 1_000_000_000_000_000_000,
                300_000_000_000_000_000,
            ),
        );
        assert(dec_mul(
            p128(),
            scale_nat() + dec_mul(
                0x1_0000_0000_0000_0000nat * 1_000_000_000_000_000_000,
                300_000_000_000_000_000,
            ),
        ) < p256()) by (nonlinear_arith);
    }
}

/// Across two successive updates with no borrow or repayment in
/// between, the cumulative borrow rate compounds: the second update
/// multiplies the first result by one plus the period rate derived from
/// the curve at the utilization the first update left behind.
pub proof fn lemma_cumulative_rate_compounds(r: Reserve, mid: u64, last: u64, liquidity_amount: u64)
    requires
        r.total_borrows@ < p128(),
        r.cumulative_borrow_rate@ < p128(),
        r.borrow_state_update_slot != 0,
        r.borrow_state_update_slot <= mid < last,
        spec_update_ok(r, mid, liquidity_amount),
        r.total_borrows@ + dec_from_u64(liquidity_amount) > 0,
    ensures
        spec_updated_cumulative_rate(
            spec_reserve_after_update(r, mid, liquidity_amount),
            last,
            liquidity_amount,
        ) == dec_mul(
            spec_updated_cumulative_rate(r, mid, liquidity_amount),
            scale_nat() + spec_interest_rate(
                spec_updated_borrows(r, mid, liquidity_amount),
                liquidity_amount,
                (last - mid) as u64,
            ),
        ),
{
    let r1 = spec_reserve_after_update(r, mid, liquidity_amount);
    lemma_updated_cumulative_rate_bound(r, mid, liquidity_amount);
    lemma_updated_borrows_bound(r, mid, liquidity_amount);
    lemma_dec_of(spec_updated_cumulative_rate(r, mid, liquidity_amount));
    lemma_dec_of(spec_updated_borrows(r, mid, liquidity_amount));
    assert(r1.borrow_state_update_slot == mid);
    assert(mid != 0);
    assert(r1.cumulative_borrow_rate@ == spec_updated_cumulative_rate(r, mid, liquidity_amount));
    assert(r1.total_borrows@ == spec_updated_borrows(r, mid, liquidity_amount));
}

/// Advancing the borrow state twice at one slot is the same as advancing
/// it once: the second update leaves the reserve unchanged.
pub proof fn lemma_update_idempotent(r: Reserve, slot: u64, liquidity_amount: u64)
    requires
        r.total_borrows@ < p128(),
        r.cumulative_borrow_rate@ < p128(),
        spec_update_ok(r, slot, liquidity_amount),
    ensures
        spec_reserve_after_update(
            spec_reserve_after_update(r, slot, liquidity_amount),
            slot,
            liquidity_amount,
        ) == spec_reserve_after_update(r, slot, liquidity_amount),
{
    let r1 = spec_reserve_after_update(r, slot, liquidity_amount);
    lemma_updated_cumulative_rate_bound(r, slot, liquidity_amount);
    lemma_updated_borrows_bound(r, slot, liquidity_amount);
    lemma_dec_of(spec_updated_cumulative_rate(r, slot, liquidity_amount));
    lemma_dec_of(spec_updated_borrows(r, slot, liquidity_amount));
    if slot == 0 {
        // a reserve never touched keeps slot zero, and the repeated
        // first update writes the same unit rate again
        assert(r1.borrow_state_update_slot == 0);
        assert(spec_updated_cumulative_rate(r1, slot, liquidity_amount) == scale_nat());
        assert(spec_updated_borrows(r1, slot, liquidity_amount) == r1.total_borrows@);
        lemma_dec_of_view(r1.cumulative_borrow_rate);
        lemma_dec_of_view(r1.total_borrows);
        if r.borrow_state_update_slot == 0 {
            assert(r1.cumulative_borrow_rate@ == scale_nat());
        } else {
            assert(r.borrow_state_update_slot <= slot);
            assert(r.borrow_state_update_slot == 0);
        }
    } else {
        assert(r1.borrow_state_update_slot == slot);
        assert(spec_updated_cumulative_rate(r1, slot, liquidity_amount)
            == r1.cumulative_borrow_rate@);
        assert(spec_updated_borrows(r1, slot, liquidity_amount) == r1.total_borrows@);
        lemma_dec_of_view(r1.cumulative_borrow_rate);
        lemma_dec_of_view(r1.total_borrows);
    }
}

/// The cumulative borrow rate never decreases across an update, and
/// never drops below one.
pub proof fn lemma_cumulative_rate_monotone(r: Reserve, slot: u64, liquidity_amount: u64)
    requires
        r.cumulative_borrow_rate@ >= scale_nat(),
        spec_update_ok(r, slot, liquidity_amount),
    ensures
        spec_updated_cumulative_rate(r, slot, liquidity_amount) >= scale_nat(),
        r.borrow_state_update_slot != 0 ==> spec_updated_cumulative_rate(
            r,
            slot,
            liquidity_amount,
        ) >= r.cumulative_borrow_rate@,
{
    if r.borrow_state_update_slot != 0 && r.borrow_state_update_slot != slot {
        let dt = (slot - r.borrow_state_update_slot) as u64;
        let ir = spec_interest_rate(r.total_borrows@, liquidity_amount, dt);
        let cum = r.cumulative_borrow_rate@;
        assert(cum * scale_nat() <= cum * (scale_nat() + ir)) by (nonlinear_arith);
        lemma_div_is_ordered(
            (cum * scale_nat()) as int,
            (cum * (scale_nat() + ir)) as int,
            scale_nat() as int,
        );
        assert((cum * scale_nat()) / scale_nat() == cum) by {
            lemma_div_multiples_vanish(cum as int, scale_nat() as int);
            assert(cum * scale_nat() == scale_nat() * cum) by (nonlinear_arith);
        }
    }
}

/// Depositing `x` liquidity and withdrawing the minted collateral at the
/// same exchange rate returns the deposit to within one unit, whenever
/// the rate is at least one collateral token per liquidity unit.  (At
/// rates below one — say a raw rate of one tenth — the rounding loss can
/// reach several units, so such rates are excluded here.)
pub proof fn lemma_deposit_withdraw_round_trip(x: u64, rate: nat)
    requires
        rate >= scale_nat(),
        dec_from_u64(x) * rate < p256(),
        dec_round(dec_mul(dec_from_u64(x), rate)) < p64(),
    ensures
        ({
            let minted = dec_round(dec_mul(dec_from_u64(x), rate)) as u64;
            let returned = dec_round(dec_div(dec_from_u64(minted), rate));
            returned <= x && x <= returned + 1
        }),
{
    let s = scale_nat();
    // the minted collateral is exactly floor(x * rate / scale)
    assert(dec_mul(dec_from_u64(x), rate) == (x * rate) as nat) by {
        assert((x * s) * rate == (x * rate) * s) by (nonlinear_arith);
        lemma_div_multiples_vanish((x * rate) as int, s as int);
        assert(s * (x * rate) == (x * rate) * s) by (nonlinear_arith);
    }
    let c = dec_round((x * rate) as nat);
    // the returned liquidity is exactly floor(c * scale / rate)
    let y = dec_round(dec_div(dec_from_u64(c as u64), rate));
    assert(y == (c * s) / rate) by {
        lemma_div_denominator(((c * s) * s) as int, rate as int, s as int);
        assert(dec_div((c as u64 * s) as nat, rate) == ((c * s) * s) as int / (rate as int)) by {
            assert((c as u64) * s == c * s);
        }
        assert(((c * s) * s) as int / (rate as int) / (s as int) == ((c * s) * s) as int / ((rate
            * s) as int)) by {
            lemma_div_denominator(((c * s) * s) as int, rate as int, s as int);
        }
        assert(((c * s) * s) as int / ((rate * s) as int) == (c * s) as int / (rate as int)) by {
            lemma_div_multiples_vanish_quotient(s as int, (c * s) as int, rate as int);
            assert((c * s) * s == s * (c * s)) by (nonlinear_arith);
            assert(rate * s == s * rate) by (nonlinear_arith);
        }
    }
    // upper bound: c * scale <= x * rate, so y <= x
    lemma_fundamental_div_mod((x * rate) as int, s as int);
    assert(c * s <= x * rate);
    lemma_div_is_ordered((c * s) as int, (x * rate) as int, rate as int);
    assert((x * rate) as int / (rate as int) == x) by {
        lemma_div_multiples_vanish(x as int, rate as int);
        assert(x * rate == rate * x) by (nonlinear_arith);
    }
    // lower bound: the remainder lost is under scale <= rate, so y >= x - 1
    let rem = ((x * rate) as nat) % s;
    assert(c * s == x * rate - rem);
    assert(rem < s);
    if x >= 1 {
        assert(c * s >= (x - 1) * rate + 1) by (nonlinear_arith)
            requires
                c * s == x * rate - rem,
                rem < s,
                s <= rate,
                x >= 1;
        assert((((x - 1) * rate) + 1) as int / (rate as int) == x - 1) by {
            lemma_div_multiples_vanish_fancy((x - 1) as int, 1int, rate as int);
            assert((rate as int) * ((x - 1) as int) == ((x - 1) as int) * (rate as int))
                by (nonlinear_arith);
        }
        lemma_div_is_ordered((((x - 1) * rate) + 1) as int, (c * s) as int, rate as int);
    }
}

} // verus!
