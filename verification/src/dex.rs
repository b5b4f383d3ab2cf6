//! Order-book price derivation.
//!
//! A market's bid and ask sides are opaque byte regions laid out as a 5-byte
//! skip, an 8-byte skip, a variable payload, and a 7-byte trailer.  The
//! payload is a binary tree of orders whose extremal leaf — highest bid or
//! lowest ask — the external order-book crate resolves.  Everything after
//! that lookup is verified here: fill accumulation, midpoint, and the
//! extraction of the market's mint keys from its state region.

use vstd::prelude::*;
use vstd::slice::{slice_subrange, slice_to_vec};
use vstd::bytes::{spec_u32_from_le_bytes, spec_u64_from_le_bytes, u32_from_le_bytes, u64_from_le_bytes};
use vstd::arithmetic::div_mod::{
    lemma_div_is_ordered, lemma_div_multiples_vanish, lemma_div_multiples_vanish_quotient,
};
use serum_dex::critbit::{Slab, SlabView};
use crate::decimal::{Decimal, dec_from_u64, dec_mul, dec_div, dec_round, scale_nat};
use crate::error::LendingError;
use crate::keys::{Key, spec_key_of_bytes};
use crate::state::Reserve;
use crate::u256::{p64, p256};

verus! {

/// Which side of the book to take orders from.
#[derive(Clone, Copy, PartialEq, Eq, Structural, Debug)]
pub enum Side {
    /// Highest-priced order first.
    Bid,
    /// Lowest-priced order first.
    Ask,
}

/// Which quantity of an order the input is matched against.
#[derive(Clone, Copy, PartialEq, Eq, Structural, Debug)]
pub enum Fill {
    /// The input consumes base quantity.
    Base,
    /// The input consumes quote quantity.
    Quote,
}

/// The extremal order of a side's payload: its price and base quantity.
/// This is whatever the order-book crate's tree lookup resolves for the
/// bytes; it is a function of the bytes alone.
pub uninterp spec fn slab_best_order(payload: Seq<u8>, max_side: bool) -> Option<(u64, u64)>;

/// A slab payload is a 32-byte header — its root handle at offset 20 and
/// its leaf count at offset 24 — followed by 72-byte nodes; trailing
/// bytes that fill no whole node are ignored.
pub open spec fn spec_slab_node_count(s: Seq<u8>) -> int {
    (s.len() - 32) / 72
}

/// The leaf count of the slab header.
pub open spec fn spec_slab_leaf_count(s: Seq<u8>) -> u64 {
    spec_u64_from_le_bytes(s.subrange(24, 32))
}

/// The root handle of the slab header.
pub open spec fn spec_slab_root(s: Seq<u8>) -> u32 {
    spec_u32_from_le_bytes(s.subrange(20, 24))
}

/// The type tag of node `i`: one marks an inner node, two a leaf.
pub open spec fn spec_slab_node_tag(s: Seq<u8>, i: int) -> u32 {
    spec_u32_from_le_bytes(s.subrange(32 + 72 * i, 36 + 72 * i))
}

/// The child handle an extremal walk follows out of inner node `i`: the
/// right child when seeking the maximum, the left otherwise.
pub open spec fn spec_slab_child(s: Seq<u8>, i: int, max_side: bool) -> u32 {
    if max_side {
        spec_u32_from_le_bytes(s.subrange(32 + 72 * i + 28, 32 + 72 * i + 32))
    } else {
        spec_u32_from_le_bytes(s.subrange(32 + 72 * i + 24, 32 + 72 * i + 28))
    }
}

/// The price of leaf node `i`: the upper half of its 128-bit key.
pub open spec fn spec_slab_leaf_price(s: Seq<u8>, i: int) -> u64 {
    spec_u64_from_le_bytes(s.subrange(32 + 72 * i + 16, 32 + 72 * i + 24))
}

/// The extremal walk from handle `h`: follow one-sided children of inner
/// nodes until a leaf, failing on an out-of-range handle, a node that is
/// neither inner nor leaf, or exhausted fuel.
pub open spec fn spec_slab_walk(s: Seq<u8>, h: int, max_side: bool, fuel: nat) -> Option<int>
    decreases fuel,
{
    if fuel == 0 {
        None
    } else if !(0 <= h < spec_slab_node_count(s)) {
        None
    } else if spec_slab_node_tag(s, h) == 2 {
        Some(h)
    } else if spec_slab_node_tag(s, h) == 1 {
        spec_slab_walk(s, spec_slab_child(s, h, max_side) as int, max_side, (fuel - 1) as nat)
    } else {
        None
    }
}

/// A slab payload on which the order-book crate's extremal lookup is
/// defined: either it holds no leaves, or the walk from the root reaches
/// a leaf with a nonzero price without revisiting a node.  (A walk
/// longer than the node count must revisit a node and so never
/// terminates; out-of-range or freed handles and zero prices make the
/// lookup panic.)
pub open spec fn spec_slab_well_formed(s: Seq<u8>, max_side: bool) -> bool {
    &&& s.len() >= 32
    &&& (spec_slab_leaf_count(s) != 0 ==> (match spec_slab_walk(
        s,
        spec_slab_root(s) as int,
        max_side,
        (spec_slab_node_count(s) + 1) as nat,
    ) {
        Some(leaf) => spec_slab_leaf_price(s, leaf) != 0,
        None => false,
    }))
}

/// Decides [`spec_slab_well_formed`] by running the walk with a fuel of
/// one more than the node count.
pub fn slab_well_formed(payload: &[u8], max_side: bool) -> (r: bool)
    ensures
        r <==> spec_slab_well_formed(payload@, max_side),
{
    if payload.len() < 32 {
        return false;
    }
    let leaf_count = u64_from_le_bytes(slice_subrange(payload, 24, 32));
    if leaf_count == 0 {
        return true;
    }
    let node_count = (payload.len() - 32) / 72;
    let root = u32_from_le_bytes(slice_subrange(payload, 20, 24));
    let ghost s = payload@;
    let mut h: u64 = root as u64;
    let mut fuel: usize = node_count + 1;
    proof {
        vstd::arithmetic::div_mod::lemma_fundamental_div_mod(
            (payload@.len() - 32) as int,
            72,
        );
    }
    loop
        invariant
            s == payload@,
            32 <= s.len() <= usize::MAX,
            spec_slab_leaf_count(s) != 0,
            node_count == spec_slab_node_count(s),
            72 * node_count <= s.len() - 32,
            fuel <= node_count + 1,
            spec_slab_walk(s, spec_slab_root(s) as int, max_side, (node_count + 1) as nat)
                == spec_slab_walk(s, h as int, max_side, fuel as nat),
        decreases fuel,
    {
        if fuel == 0 {
            return false;
        }
        if h >= node_count as u64 {
            return false;
        }
        let i = h as usize;
        proof {
            assert(72 * (i + 1) <= 72 * node_count) by (nonlinear_arith)
                requires i + 1 <= node_count;
        }
        let off = 32 + 72 * i;
        let tag = u32_from_le_bytes(slice_subrange(payload, off, off + 4));
        proof {
            assert(payload@.subrange(off as int, off + 4) =~= s.subrange(
                32 + 72 * (h as int),
                36 + 72 * (h as int),
            ));
        }
        if tag == 2 {
            let price = u64_from_le_bytes(slice_subrange(payload, off + 16, off + 24));
            proof {
                assert(payload@.subrange(off + 16, off + 24) =~= s.subrange(
                    32 + 72 * (h as int) + 16,
                    32 + 72 * (h as int) + 24,
                ));
            }
            return price != 0;
        } else if tag == 1 {
            let child_off = if max_side {
                off + 28
            } else {
                off + 24
            };
            let child = u32_from_le_bytes(slice_subrange(payload, child_off, child_off + 4));
            proof {
                if max_side {
                    assert(payload@.subrange(child_off as int, child_off + 4) =~= s.subrange(
                        32 + 72 * (h as int) + 28,
                        32 + 72 * (h as int) + 32,
                    ));
                } else {
                    assert(payload@.subrange(child_off as int, child_off + 4) =~= s.subrange(
                        32 + 72 * (h as int) + 24,
                        32 + 72 * (h as int) + 28,
                    ));
                }
            }
            h = child as u64;
            fuel = fuel - 1;
        } else {
            return false;
        }
    }
}

/// Relies on the order-book crate's critbit slab: `Slab::new` reinterprets
/// the bytes, `find_max`/`find_min` resolve the extremal leaf, and
/// `price`/`quantity` read its fields.  The result depends on the bytes
/// and side alone.  The precondition admits only well-formed slabs, on
/// which the crate's walk provably terminates without panicking: the
/// crate unwraps out-of-range or freed handles, unwraps a zero price,
/// and follows child handles without a cycle check.  Its source also
/// shows that an empty slab yields no order and a well-formed nonempty
/// one always yields its extremal leaf.
#[verifier::external_body]
fn best_order(payload: &[u8], max_side: bool) -> (r: Option<(u64, u64)>)
    requires
        payload@.len() >= 32,
        spec_slab_well_formed(payload@, max_side),
    ensures
        r == slab_best_order(payload@, max_side),
        spec_slab_leaf_count(payload@) == 0 ==> r is None,
        spec_slab_leaf_count(payload@) != 0 ==> r is Some,
{
    let mut buf = payload.to_vec();
    let slab = Slab::new(&mut buf);
    let handle = if max_side { slab.find_max() } else { slab.find_min() }?;
    let node = slab.get(handle)?;
    let leaf = node.as_leaf()?;
    Some((leaf.price().get(), leaf.quantity()))
}

/// Output accumulated by repeatedly filling against the best order:
/// each step consumes `min(input, quote)` and credits
/// `fill * base / quote` as a decimal.
pub open spec fn spec_fill_output(input: u64, base: u64, quote: u64, acc: nat) -> nat
    decreases input,
{
    if input == 0 || quote == 0 {
        acc
    } else {
        let f = if input < quote {
            input
        } else {
            quote
        };
        spec_fill_output(
            (input - f) as u64,
            base,
            quote,
            acc + dec_div(dec_mul(dec_from_u64(f), dec_from_u64(base)), dec_from_u64(quote)),
        )
    }
}

/// One fill step credits at most the order's whole base quantity.
proof fn lemma_fill_term(f: u64, base: u64, quote: u64)
    requires
        1 <= quote,
        f <= quote,
    ensures
        dec_mul(dec_from_u64(f), dec_from_u64(base)) == f * base * scale_nat(),
        dec_div(dec_mul(dec_from_u64(f), dec_from_u64(base)), dec_from_u64(quote))
            <= dec_from_u64(base),
{
    let fb = (f * base) as nat;
    assert((f * scale_nat()) * (base * scale_nat()) == (fb * scale_nat()) * scale_nat())
        by (nonlinear_arith)
        requires fb == f * base;
    lemma_div_multiples_vanish((fb * scale_nat()) as int, scale_nat() as int);
    assert(scale_nat() * (fb * scale_nat()) == (fb * scale_nat()) * scale_nat())
        by (nonlinear_arith);
    assert(dec_mul(dec_from_u64(f), dec_from_u64(base)) == fb * scale_nat());
    // (f*b*s * s) / (q*s) == (f*b*s) / q
    lemma_div_multiples_vanish_quotient(
        scale_nat() as int,
        (fb * scale_nat()) as int,
        quote as int,
    );
    assert((fb * scale_nat()) * scale_nat() == scale_nat() * (fb * scale_nat()))
        by (nonlinear_arith);
    assert((quote * scale_nat()) == scale_nat() * (quote as int)) by (nonlinear_arith);
    assert(dec_div(fb * scale_nat(), dec_from_u64(quote)) == fb * scale_nat() / (quote as nat)) by {
        assert(((fb * scale_nat()) * scale_nat()) as int / ((quote * scale_nat()) as int)
            == (scale_nat() * (fb * scale_nat())) as int / (scale_nat() * (quote as int)));
    }
    // f <= quote makes the step at most base * scale
    assert(fb * scale_nat() <= quote * ((base * scale_nat()) as int)) by (nonlinear_arith)
        requires f <= quote, fb == f * base;
    lemma_div_is_ordered(
        (fb * scale_nat()) as int,
        (quote * ((base * scale_nat()) as int)) as int,
        quote as int,
    );
    lemma_div_multiples_vanish((base * scale_nat()) as int, quote as int);
}

/// What exchanging against a side's best order yields: the filled output,
/// or rejection when the slab bytes are malformed, the book is empty,
/// the order's quote quantity is zero or overflows 64 bits, or the
/// result is too large to represent.
pub open spec fn spec_exchange_result(
    payload: Seq<u8>,
    max_side: bool,
    fill_base: bool,
    input: u64,
) -> Result<u64, LendingError> {
    if input == 0 {
        Ok(0)
    } else if !spec_slab_well_formed(payload, max_side) {
        Err(LendingError::InvalidInput)
    } else {
        match slab_best_order(payload, max_side) {
            None => Err(LendingError::InvalidInput),
            Some((price, qty)) => {
                let quote_qty = (qty * price) as nat;
                let base: nat = if fill_base {
                    quote_qty
                } else {
                    qty as nat
                };
                let quote: nat = if fill_base {
                    qty as nat
                } else {
                    quote_qty
                };
                if quote_qty > u64::MAX || quote == 0 || dec_round(
                    spec_fill_output(input, base as u64, quote as u64, 0),
                ) >= p64() {
                    Err(LendingError::InvalidInput)
                } else {
                    Ok(dec_round(spec_fill_output(input, base as u64, quote as u64, 0)) as u64)
                }
            },
        }
    }
}

/// Exchanges `input_quantity` against the order book side, walking from
/// the extremum and accumulating output as [`spec_exchange_result`]
/// describes.
pub fn exchange_with_order_book(
    orders_payload: &[u8],
    side: Side,
    fill: Fill,
    input_quantity: u64,
) -> (r: Result<u64, LendingError>)
    requires
        orders_payload@.len() >= 32,
    ensures
        r == spec_exchange_result(
            orders_payload@,
            side is Bid,
            fill is Base,
            input_quantity,
        ),
{
    if input_quantity == 0 {
        return Ok(0);
    }
    let max_side = match side {
        Side::Bid => true,
        Side::Ask => false,
    };
    if !slab_well_formed(orders_payload, max_side) {
        return Err(LendingError::InvalidInput);
    }
    let best = best_order(orders_payload, max_side);
    match best {
        None => Err(LendingError::InvalidInput),
        Some((price, qty)) => {
            proof {
                assert(qty * price <= 0xffff_ffff_ffff_ffffnat * 0xffff_ffff_ffff_ffffnat)
                    by (nonlinear_arith)
                    requires
                        qty <= 0xffff_ffff_ffff_ffffnat,
                        price <= 0xffff_ffff_ffff_ffffnat;
            }
            let quote_wide = (qty as u128) * (price as u128);
            if quote_wide > u64::MAX as u128 {
                return Err(LendingError::InvalidInput);
            }
            let quote_qty = quote_wide as u64;
            let (base, quote): (u64, u64) = match fill {
                Fill::Base => (quote_qty, qty),
                Fill::Quote => (qty, quote_qty),
            };
            if quote == 0 {
                return Err(LendingError::InvalidInput);
            }
            match fill_with_order(input_quantity, base, quote) {
                Some(v) => Ok(v),
                None => Err(LendingError::InvalidInput),
            }
        },
    }
}

/// Fills `input_quantity` against the best order `(base, quote)`,
/// accumulating decimal output exactly as [`spec_fill_output`] describes
/// and rounding down to whole units; `None` when the rounded output would
/// not fit 64 bits.
pub fn fill_with_order(input_quantity: u64, base: u64, quote: u64) -> (r: Option<u64>)
    requires
        quote > 0,
    ensures
        dec_round(spec_fill_output(input_quantity, base, quote, 0)) < p64() ==> r == Some(
            dec_round(spec_fill_output(input_quantity, base, quote, 0)) as u64,
        ),
        dec_round(spec_fill_output(input_quantity, base, quote, 0)) >= p64() ==> r is None,
{
    let ghost input0 = input_quantity;
    let mut input = input_quantity;
    let mut output = Decimal::zero();
    proof {
        crate::decimal::lemma_from_u64_bound(base);
    }
    while input > 0
        invariant
            quote > 0,
            spec_fill_output(input0, base, quote, 0) == spec_fill_output(
                input,
                base,
                quote,
                output@,
            ),
            input <= input0,
            output@ <= (input0 - input) * (dec_from_u64(base) + 1),
        decreases input,
    {
        let fill_quantity = if input < quote {
            input
        } else {
            quote
        };
        proof {
            lemma_fill_term(fill_quantity, base, quote);
            crate::decimal::lemma_from_u64_bound(fill_quantity);
            assert(dec_from_u64(fill_quantity) * dec_from_u64(base) < p256())
                by (nonlinear_arith)
                requires
                    dec_from_u64(fill_quantity) < 0x1_0000_0000_0000_0000nat
                        * 1_000_000_000_000_000_000,
                    dec_from_u64(base) < 0x1_0000_0000_0000_0000nat * 1_000_000_000_000_000_000;
            assert(dec_mul(dec_from_u64(fill_quantity), dec_from_u64(base)) * scale_nat()
                < p256()) by (nonlinear_arith)
                requires
                    dec_mul(dec_from_u64(fill_quantity), dec_from_u64(base)) == fill_quantity
                        * base * scale_nat(),
                    fill_quantity < 0x1_0000_0000_0000_0000nat,
                    base < 0x1_0000_0000_0000_0000nat;
            assert((input0 - input) * (dec_from_u64(base) + 1) + dec_from_u64(base) + 1
                <= (input0 - input + fill_quantity) * (dec_from_u64(base) + 1))
                by (nonlinear_arith)
                requires fill_quantity >= 1;
            assert(input0 * (dec_from_u64(base) + 1) < p256()) by (nonlinear_arith)
                requires
                    input0 < 0x1_0000_0000_0000_0000nat,
                    dec_from_u64(base) < 0x1_0000_0000_0000_0000nat * 1_000_000_000_000_000_000;
            assert((input0 - input) * (dec_from_u64(base) + 1)
                <= input0 * (dec_from_u64(base) + 1)) by (nonlinear_arith);
        }
        input = input - fill_quantity;
        let term = Decimal::from_u64(fill_quantity).mul(Decimal::from_u64(base)).div(
            Decimal::from_u64(quote),
        );
        proof {
            assert(output@ + term@ < p256()) by (nonlinear_arith)
                requires
                    output@ <= input0 * (dec_from_u64(base) + 1),
                    term@ <= dec_from_u64(base),
                    input0 < 0x1_0000_0000_0000_0000nat,
                    dec_from_u64(base) < 0x1_0000_0000_0000_0000nat * 1_000_000_000_000_000_000;
        }
        output = output.add(term);
        proof {
            assert((input0 - input) * (dec_from_u64(base) + 1) <= input0 * (dec_from_u64(base)
                + 1)) by (nonlinear_arith);
        }
    }
    output.try_round_u64()
}

/// Extracts the tree payload of an order-book side: the bytes between the
/// 13-byte header and the 7-byte trailer.
pub fn order_book_payload(data: &[u8]) -> (r: Vec<u8>)
    requires
        data@.len() >= 52,
    ensures
        r@ == data@.subrange(13, data@.len() - 7),
        r@.len() >= 32,
{
    slice_to_vec(slice_subrange(data, 13, data.len() - 7))
}

/// Reads the market's base-currency mint key from its state region.
pub fn base_mint_pubkey(data: &[u8]) -> (r: Key)
    requires
        data@.len() >= 85,
    ensures
        r == spec_key_of_bytes(data@.subrange(53, 85)),
{
    Key::from_bytes(slice_subrange(data, 53, 85))
}

/// Reads the market's quote-currency mint key from its state region.
pub fn quote_mint_pubkey(data: &[u8]) -> (r: Key)
    requires
        data@.len() >= 117,
    ensures
        r == spec_key_of_bytes(data@.subrange(85, 117)),
{
    Key::from_bytes(slice_subrange(data, 85, 117))
}

/// The midpoint of the best bid and best ask, truncated; rejected when
/// either side's bytes are malformed or either side of the book is
/// empty.
pub open spec fn spec_market_midpoint(bids_payload: Seq<u8>, asks_payload: Seq<u8>) -> Result<
    u64,
    LendingError,
> {
    if !spec_slab_well_formed(bids_payload, true) || !spec_slab_well_formed(
        asks_payload,
        false,
    ) {
        Err(LendingError::InvalidInput)
    } else {
        match (slab_best_order(bids_payload, true), slab_best_order(asks_payload, false)) {
            (Some((bid_price, _bq)), Some((ask_price, _aq))) => Ok(
                (((bid_price + ask_price) as nat / 2) as u64),
            ),
            _ => Err(LendingError::InvalidInput),
        }
    }
}

/// Derives the market midpoint price from the bid and ask regions.
pub fn dex_market_midpoint(bids_data: &[u8], asks_data: &[u8]) -> (r: Result<u64, LendingError>)
    requires
        bids_data@.len() >= 52,
        asks_data@.len() >= 52,
    ensures
        r == spec_market_midpoint(
            bids_data@.subrange(13, bids_data@.len() - 7),
            asks_data@.subrange(13, asks_data@.len() - 7),
        ),
{
    let bids_payload = order_book_payload(bids_data);
    let asks_payload = order_book_payload(asks_data);
    if !slab_well_formed(bids_payload.as_slice(), true) || !slab_well_formed(
        asks_payload.as_slice(),
        false,
    ) {
        return Err(LendingError::InvalidInput);
    }
    let best_bid = best_order(bids_payload.as_slice(), true);
    let best_ask = best_order(asks_payload.as_slice(), false);
    match (best_bid, best_ask) {
        (Some((bid_price, _bq)), Some((ask_price, _aq))) => {
            let mid = ((bid_price as u128) + (ask_price as u128)) / 2;
            Ok(mid as u64)
        },
        _ => Err(LendingError::InvalidInput),
    }
}

/// Converts liquidity deposited against one reserve into the amount
/// borrowed from the other, by exchanging through the order book.
///
/// When the deposit reserve's liquidity mint is the market's quote
/// currency, the deposit is quote-denominated: it is matched against the
/// bids, consuming their quote quantities and accumulating base.
/// Otherwise the deposit is base-denominated: it is matched against the
/// asks, consuming base and accumulating quote.  The conversion
/// directions — quote into base at the bids, base into quote at the
/// asks — are what the fill arithmetic fixes; the side names follow the
/// book side whose quantities the deposit consumes.
pub fn deposit_to_borrow(
    deposit_amount: u64,
    dex_market_orders_data: &[u8],
    dex_market_data: &[u8],
    deposit_reserve: &Reserve,
) -> (r: Result<u64, LendingError>)
    requires
        dex_market_orders_data@.len() >= 52,
        dex_market_data@.len() >= 117,
    ensures
        deposit_reserve.liquidity_mint == spec_key_of_bytes(dex_market_data@.subrange(85, 117))
            ==> r == spec_exchange_result(
            dex_market_orders_data@.subrange(13, dex_market_orders_data@.len() - 7),
            true,
            false,
            deposit_amount,
        ),
        deposit_reserve.liquidity_mint != spec_key_of_bytes(dex_market_data@.subrange(85, 117))
            ==> r == spec_exchange_result(
            dex_market_orders_data@.subrange(13, dex_market_orders_data@.len() - 7),
            false,
            true,
            deposit_amount,
        ),
{
    let orders_payload = order_book_payload(dex_market_orders_data);
    let market_quote_mint = quote_mint_pubkey(dex_market_data);
    let (fill, side) = if deposit_reserve.liquidity_mint == market_quote_mint {
        (Fill::Quote, Side::Bid)
    } else {
        (Fill::Base, Side::Ask)
    };
    exchange_with_order_book(orders_payload.as_slice(), side, fill, deposit_amount)
}

} // verus!
