//! Bit-exact record layouts.
//!
//! Every persistent record has a fixed byte width; integers are
//! little-endian, keys are 32 raw bytes, decimals are the low 128 bits of
//! their raw scaled value, and an optional key is a 4-byte tag followed by
//! 32 key bytes.  Packing and unpacking are exact inverses, proved by the
//! round-trip lemmas at the bottom.

use vstd::prelude::*;
use vstd::bytes::{
    spec_u64_to_le_bytes, spec_u64_from_le_bytes, u64_from_le_bytes, u64_to_le_bytes,
    spec_u128_to_le_bytes, spec_u128_from_le_bytes, u128_from_le_bytes, u128_to_le_bytes,
    lemma_auto_spec_u64_to_from_le_bytes, lemma_auto_spec_u128_to_from_le_bytes,
};
use vstd::slice::{slice_subrange, slice_index_get};
use crate::decimal::{Decimal, dec_of, lemma_dec_of_view};
use crate::error::LendingError;
use crate::keys::{Key, spec_key_of_bytes, lemma_key_of_bytes_of};
use crate::state::{LendingMarket, Obligation, Reserve};
use crate::u256::p128;

verus! {

/// Packed length of a [`Reserve`].
pub const RESERVE_LEN: usize = 253;

/// Packed length of a [`LendingMarket`].
pub const LENDING_MARKET_LEN: usize = 33;

/// Packed length of an [`Obligation`].
pub const OBLIGATION_LEN: usize = 144;

/// A boolean packs to a single 0 or 1 byte.
pub open spec fn spec_pack_bool(b: bool) -> Seq<u8> {
    if b {
        seq![1u8]
    } else {
        seq![0u8]
    }
}

/// A decimal packs to the low 128 bits of its raw scaled value.
pub open spec fn spec_pack_decimal(d: nat) -> Seq<u8> {
    spec_u128_to_le_bytes(d as u128)
}

/// An optional key packs to a 4-byte presence tag and 32 key bytes.
pub open spec fn spec_pack_coption_key(o: Option<Key>) -> Seq<u8> {
    match o {
        Option::Some(k) => seq![1u8, 0u8, 0u8, 0u8] + k.bytes(),
        Option::None => seq![0u8, 0u8, 0u8, 0u8] + Seq::new(32, |i: int| 0u8),
    }
}

/// The bytes that encode a reserve.
pub open spec fn spec_pack_reserve(r: Reserve) -> Seq<u8> {
    spec_pack_bool(r.is_initialized) + r.lending_market.bytes() + r.liquidity_supply.bytes()
        + r.liquidity_mint.bytes() + r.collateral_supply.bytes() + r.collateral_mint.bytes()
        + spec_pack_coption_key(r.dex_market) + spec_u64_to_le_bytes(r.dex_market_price)
        + spec_u64_to_le_bytes(r.dex_market_price_updated_slot)
        + spec_pack_decimal(r.cumulative_borrow_rate@) + spec_pack_decimal(r.total_borrows@)
        + spec_u64_to_le_bytes(r.borrow_state_update_slot)
}

/// The reserve a byte string decodes to, or the error rejecting it.
pub open spec fn spec_unpack_reserve(s: Seq<u8>) -> Result<Reserve, LendingError> {
    if s.len() != 253 {
        Err(LendingError::InvalidInput)
    } else if !(s[0] == 0 || s[0] == 1) {
        Err(LendingError::InvalidInput)
    } else if !((s[161] == 0 || s[161] == 1) && s[162] == 0 && s[163] == 0 && s[164] == 0) {
        Err(LendingError::InvalidInput)
    } else {
        Ok(
            Reserve {
                is_initialized: s[0] == 1,
                lending_market: spec_key_of_bytes(s.subrange(1, 33)),
                liquidity_supply: spec_key_of_bytes(s.subrange(33, 65)),
                liquidity_mint: spec_key_of_bytes(s.subrange(65, 97)),
                collateral_supply: spec_key_of_bytes(s.subrange(97, 129)),
                collateral_mint: spec_key_of_bytes(s.subrange(129, 161)),
                dex_market: if s[161] == 1 {
                    Some(spec_key_of_bytes(s.subrange(165, 197)))
                } else {
                    None
                },
                dex_market_price: spec_u64_from_le_bytes(s.subrange(197, 205)),
                dex_market_price_updated_slot: spec_u64_from_le_bytes(s.subrange(205, 213)),
                cumulative_borrow_rate: dec_of(
                    spec_u128_from_le_bytes(s.subrange(213, 229)) as nat,
                ),
                total_borrows: dec_of(spec_u128_from_le_bytes(s.subrange(229, 245)) as nat),
                borrow_state_update_slot: spec_u64_from_le_bytes(s.subrange(245, 253)),
            },
        )
    }
}

/// The bytes that encode a lending market.
pub open spec fn spec_pack_lending_market(m: LendingMarket) -> Seq<u8> {
    spec_pack_bool(m.is_initialized) + m.quote_token_mint.bytes()
}

/// The lending market a byte string decodes to, or the error rejecting it.
pub open spec fn spec_unpack_lending_market(s: Seq<u8>) -> Result<LendingMarket, LendingError> {
    if s.len() != 33 {
        Err(LendingError::InvalidInput)
    } else if !(s[0] == 0 || s[0] == 1) {
        Err(LendingError::InvalidInput)
    } else {
        Ok(
            LendingMarket {
                is_initialized: s[0] == 1,
                quote_token_mint: spec_key_of_bytes(s.subrange(1, 33)),
            },
        )
    }
}

/// The bytes that encode an obligation.
pub open spec fn spec_pack_obligation(o: Obligation) -> Seq<u8> {
    spec_u64_to_le_bytes(o.last_update_slot) + spec_u64_to_le_bytes(o.collateral_amount)
        + o.collateral_supply.bytes() + spec_pack_decimal(o.cumulative_borrow_rate@)
        + spec_pack_decimal(o.borrow_amount@) + o.borrow_reserve.bytes() + o.token_mint.bytes()
}

/// The obligation a byte string decodes to, or the error rejecting it.
pub open spec fn spec_unpack_obligation(s: Seq<u8>) -> Result<Obligation, LendingError> {
    if s.len() != 144 {
        Err(LendingError::InvalidInput)
    } else {
        Ok(
            Obligation {
                last_update_slot: spec_u64_from_le_bytes(s.subrange(0, 8)),
                collateral_amount: spec_u64_from_le_bytes(s.subrange(8, 16)),
                collateral_supply: spec_key_of_bytes(s.subrange(16, 48)),
                cumulative_borrow_rate: dec_of(spec_u128_from_le_bytes(s.subrange(48, 64)) as nat),
                borrow_amount: dec_of(spec_u128_from_le_bytes(s.subrange(64, 80)) as nat),
                borrow_reserve: spec_key_of_bytes(s.subrange(80, 112)),
                token_mint: spec_key_of_bytes(s.subrange(112, 144)),
            },
        )
    }
}

/// Appends a decimal's 16 packed bytes to `dst`.
pub fn pack_decimal(decimal: Decimal, dst: &mut Vec<u8>)
    requires
        decimal@ < p128(),
    ensures
        final(dst)@ == old(dst)@ + spec_pack_decimal(decimal@),
{
    let v = decimal.to_scaled_val();
    let mut bytes = u128_to_le_bytes(v);
    dst.append(&mut bytes);
}

/// Reads a decimal from its 16 packed bytes.
pub fn unpack_decimal(src: &[u8]) -> (r: Decimal)
    requires
        src@.len() == 16,
    ensures
        r == dec_of(spec_u128_from_le_bytes(src@) as nat),
        r@ == spec_u128_from_le_bytes(src@),
{
    Decimal::from_scaled_val(u128_from_le_bytes(src))
}

/// Appends an optional key's 36 packed bytes to `dst`.
pub fn pack_coption_key(src: &Option<Key>, dst: &mut Vec<u8>)
    ensures
        final(dst)@ == old(dst)@ + spec_pack_coption_key(*src),
{
    match src {
        Some(key) => {
            dst.push(1);
            dst.push(0);
            dst.push(0);
            dst.push(0);
            let mut bytes = key.to_bytes();
            dst.append(&mut bytes);
            proof {
                assert(dst@ =~= old(dst)@ + spec_pack_coption_key(*src));
            }
        },
        None => {
            dst.push(0);
            dst.push(0);
            dst.push(0);
            dst.push(0);
            let mut zeros: Vec<u8> = vec![0u8; 32];
            dst.append(&mut zeros);
            proof {
                assert(dst@ =~= old(dst)@ + spec_pack_coption_key(*src));
            }
        },
    }
}

/// Reads an optional key from its 36 packed bytes.
pub fn unpack_coption_key(src: &[u8]) -> (r: Result<Option<Key>, LendingError>)
    requires
        src@.len() == 36,
    ensures
        (src@[0] == 0 || src@[0] == 1) && src@[1] == 0 && src@[2] == 0 && src@[3] == 0 ==> {
            &&& src@[0] == 1 ==> r == Ok::<Option<Key>, LendingError>(
                Some(spec_key_of_bytes(src@.subrange(4, 36))),
            )
            &&& src@[0] == 0 ==> r == Ok::<Option<Key>, LendingError>(None)
        },
        !((src@[0] == 0 || src@[0] == 1) && src@[1] == 0 && src@[2] == 0 && src@[3] == 0) ==> r
            == Err::<Option<Key>, LendingError>(LendingError::InvalidInput),
{
    let t0 = *slice_index_get(src, 0);
    let t1 = *slice_index_get(src, 1);
    let t2 = *slice_index_get(src, 2);
    let t3 = *slice_index_get(src, 3);
    if t1 != 0 || t2 != 0 || t3 != 0 {
        Err(LendingError::InvalidInput)
    } else if t0 == 0 {
        Ok(None)
    } else if t0 == 1 {
        Ok(Some(Key::from_bytes(slice_subrange(src, 4, 36))))
    } else {
        Err(LendingError::InvalidInput)
    }
}

impl LendingMarket {
    /// Whether this record has been initialized.
    pub fn is_initialized(&self) -> (r: bool)
        ensures
            r == self.is_initialized,
    {
        self.is_initialized
    }

    /// Encodes the record as its 33-byte string.
    pub fn pack(&self) -> (r: Vec<u8>)
        ensures
            r@ == spec_pack_lending_market(*self),
            r@.len() == 33,
    {
        let mut out: Vec<u8> = Vec::new();
        out.push(if self.is_initialized { 1 } else { 0 });
        let mut key_bytes = self.quote_token_mint.to_bytes();
        out.append(&mut key_bytes);
        proof {
            self.quote_token_mint.lemma_bytes();
            assert(out@ =~= spec_pack_lending_market(*self));
        }
        out
    }

    /// Decodes the record from a byte string.
    pub fn unpack(input: &[u8]) -> (r: Result<Self, LendingError>)
        ensures
            r == spec_unpack_lending_market(input@),
    {
        if input.len() != LENDING_MARKET_LEN {
            return Err(LendingError::InvalidInput);
        }
        let tag = *slice_index_get(input, 0);
        if tag != 0 && tag != 1 {
            return Err(LendingError::InvalidInput);
        }
        Ok(
            LendingMarket {
                is_initialized: tag == 1,
                quote_token_mint: Key::from_bytes(slice_subrange(input, 1, 33)),
            },
        )
    }
}

/// Packing then unpacking a lending market yields the record back.
pub proof fn lemma_lending_market_round_trip(m: LendingMarket)
    ensures
        spec_unpack_lending_market(spec_pack_lending_market(m)) == Ok::<
            LendingMarket,
            LendingError,
        >(m),
{
    let s = spec_pack_lending_market(m);
    m.quote_token_mint.lemma_bytes();
    assert(s.subrange(1, 33) =~= m.quote_token_mint.bytes());
    lemma_key_of_bytes_of(m.quote_token_mint);
}

impl Reserve {
    /// Whether this record has been initialized.
    pub fn is_initialized(&self) -> (r: bool)
        ensures
            r == self.is_initialized,
    {
        self.is_initialized
    }

    /// Encodes the record as its 253-byte string.
    pub fn pack(&self) -> (r: Vec<u8>)
        requires
            self.cumulative_borrow_rate@ < p128(),
            self.total_borrows@ < p128(),
        ensures
            r@ == spec_pack_reserve(*self),
            r@.len() == 253,
    {
        let mut out: Vec<u8> = Vec::new();
        out.push(if self.is_initialized { 1 } else { 0 });
        let mut b = self.lending_market.to_bytes();
        out.append(&mut b);
        let mut b = self.liquidity_supply.to_bytes();
        out.append(&mut b);
        let mut b = self.liquidity_mint.to_bytes();
        out.append(&mut b);
        let mut b = self.collateral_supply.to_bytes();
        out.append(&mut b);
        let mut b = self.collateral_mint.to_bytes();
        out.append(&mut b);
        pack_coption_key(&self.dex_market, &mut out);
        let mut b = u64_to_le_bytes(self.dex_market_price);
        out.append(&mut b);
        let mut b = u64_to_le_bytes(self.dex_market_price_updated_slot);
        out.append(&mut b);
        pack_decimal(self.cumulative_borrow_rate, &mut out);
        pack_decimal(self.total_borrows, &mut out);
        let mut b = u64_to_le_bytes(self.borrow_state_update_slot);
        out.append(&mut b);
        proof {
            self.lending_market.lemma_bytes();
            self.liquidity_supply.lemma_bytes();
            self.liquidity_mint.lemma_bytes();
            self.collateral_supply.lemma_bytes();
            self.collateral_mint.lemma_bytes();
            if let Some(k) = self.dex_market {
                k.lemma_bytes();
            }
            lemma_auto_spec_u64_to_from_le_bytes();
            lemma_auto_spec_u128_to_from_le_bytes();
            assert(out@ =~= spec_pack_reserve(*self));
        }
        out
    }

    /// Decodes the record from a byte string.
    pub fn unpack(input: &[u8]) -> (r: Result<Self, LendingError>)
        ensures
            r == spec_unpack_reserve(input@),
    {
        if input.len() != RESERVE_LEN {
            return Err(LendingError::InvalidInput);
        }
        let tag = *slice_index_get(input, 0);
        if tag != 0 && tag != 1 {
            return Err(LendingError::InvalidInput);
        }
        let coption_bytes = slice_subrange(input, 161, 197);
        let dex_market = match unpack_coption_key(coption_bytes) {
            Ok(o) => o,
            Err(e) => {
                return Err(e);
            },
        };
        proof {
            assert(coption_bytes@.subrange(4, 36) =~= input@.subrange(165, 197));
        }
        Ok(
            Reserve {
                is_initialized: tag == 1,
                lending_market: Key::from_bytes(slice_subrange(input, 1, 33)),
                liquidity_supply: Key::from_bytes(slice_subrange(input, 33, 65)),
                liquidity_mint: Key::from_bytes(slice_subrange(input, 65, 97)),
                collateral_supply: Key::from_bytes(slice_subrange(input, 97, 129)),
                collateral_mint: Key::from_bytes(slice_subrange(input, 129, 161)),
                dex_market,
                dex_market_price: u64_from_le_bytes(slice_subrange(input, 197, 205)),
                dex_market_price_updated_slot: u64_from_le_bytes(
                    slice_subrange(input, 205, 213),
                ),
                cumulative_borrow_rate: unpack_decimal(slice_subrange(input, 213, 229)),
                total_borrows: unpack_decimal(slice_subrange(input, 229, 245)),
                borrow_state_update_slot: u64_from_le_bytes(slice_subrange(input, 245, 253)),
            },
        )
    }
}

impl Obligation {
    /// Whether this record has been initialized: a live obligation has
    /// been touched at a nonzero slot.
    pub fn is_initialized(&self) -> (r: bool)
        ensures
            r == (self.last_update_slot > 0),
    {
        self.last_update_slot > 0
    }

    /// Encodes the record as its 144-byte string.
    pub fn pack(&self) -> (r: Vec<u8>)
        requires
            self.cumulative_borrow_rate@ < p128(),
            self.borrow_amount@ < p128(),
        ensures
            r@ == spec_pack_obligation(*self),
            r@.len() == 144,
    {
        let mut out: Vec<u8> = Vec::new();
        let mut b = u64_to_le_bytes(self.last_update_slot);
        out.append(&mut b);
        let mut b = u64_to_le_bytes(self.collateral_amount);
        out.append(&mut b);
        let mut b = self.collateral_supply.to_bytes();
        out.append(&mut b);
        pack_decimal(self.cumulative_borrow_rate, &mut out);
        pack_decimal(self.borrow_amount, &mut out);
        let mut b = self.borrow_reserve.to_bytes();
        out.append(&mut b);
        let mut b = self.token_mint.to_bytes();
        out.append(&mut b);
        proof {
            self.collateral_supply.lemma_bytes();
            self.borrow_reserve.lemma_bytes();
            self.token_mint.lemma_bytes();
            lemma_auto_spec_u64_to_from_le_bytes();
            lemma_auto_spec_u128_to_from_le_bytes();
            assert(out@ =~= spec_pack_obligation(*self));
        }
        out
    }

    /// Decodes the record from a byte string.
    pub fn unpack(input: &[u8]) -> (r: Result<Self, LendingError>)
        ensures
            r == spec_unpack_obligation(input@),
    {
        if input.len() != OBLIGATION_LEN {
            return Err(LendingError::InvalidInput);
        }
        Ok(
            Obligation {
                last_update_slot: u64_from_le_bytes(slice_subrange(input, 0, 8)),
                collateral_amount: u64_from_le_bytes(slice_subrange(input, 8, 16)),
                collateral_supply: Key::from_bytes(slice_subrange(input, 16, 48)),
                cumulative_borrow_rate: unpack_decimal(slice_subrange(input, 48, 64)),
                borrow_amount: unpack_decimal(slice_subrange(input, 64, 80)),
                borrow_reserve: Key::from_bytes(slice_subrange(input, 80, 112)),
                token_mint: Key::from_bytes(slice_subrange(input, 112, 144)),
            },
        )
    }
}

/// Every decimal read back from a record fits the 128-bit serialized form.
pub proof fn lemma_unpack_reserve_bounds(s: Seq<u8>)
    ensures
        spec_unpack_reserve(s) matches Ok(r) ==> r.cumulative_borrow_rate@ < p128()
            && r.total_borrows@ < p128(),
{
    if spec_unpack_reserve(s) is Ok {
        crate::decimal::lemma_dec_of(spec_u128_from_le_bytes(s.subrange(213, 229)) as nat);
        crate::decimal::lemma_dec_of(spec_u128_from_le_bytes(s.subrange(229, 245)) as nat);
    }
}

/// Every decimal read back from an obligation fits the 128-bit serialized
/// form.
pub proof fn lemma_unpack_obligation_bounds(s: Seq<u8>)
    ensures
        spec_unpack_obligation(s) matches Ok(o) ==> o.cumulative_borrow_rate@ < p128()
            && o.borrow_amount@ < p128(),
{
    if spec_unpack_obligation(s) is Ok {
        crate::decimal::lemma_dec_of(spec_u128_from_le_bytes(s.subrange(48, 64)) as nat);
        crate::decimal::lemma_dec_of(spec_u128_from_le_bytes(s.subrange(64, 80)) as nat);
    }
}

/// Packing then unpacking a reserve yields the record back, for every
/// reserve whose stored decimals fit the 128-bit serialized form.
pub proof fn lemma_reserve_round_trip(r: Reserve)
    requires
        r.cumulative_borrow_rate@ < p128(),
        r.total_borrows@ < p128(),
    ensures
        spec_unpack_reserve(spec_pack_reserve(r)) == Ok::<Reserve, LendingError>(r),
{
    let s = spec_pack_reserve(r);
    r.lending_market.lemma_bytes();
    r.liquidity_supply.lemma_bytes();
    r.liquidity_mint.lemma_bytes();
    r.collateral_supply.lemma_bytes();
    r.collateral_mint.lemma_bytes();
    if let Some(k) = r.dex_market {
        k.lemma_bytes();
    }
    lemma_auto_spec_u64_to_from_le_bytes();
    lemma_auto_spec_u128_to_from_le_bytes();
    assert(s.len() == 253);
    assert(s.subrange(1, 33) =~= r.lending_market.bytes());
    assert(s.subrange(33, 65) =~= r.liquidity_supply.bytes());
    assert(s.subrange(65, 97) =~= r.liquidity_mint.bytes());
    assert(s.subrange(97, 129) =~= r.collateral_supply.bytes());
    assert(s.subrange(129, 161) =~= r.collateral_mint.bytes());
    lemma_key_of_bytes_of(r.lending_market);
    lemma_key_of_bytes_of(r.liquidity_supply);
    lemma_key_of_bytes_of(r.liquidity_mint);
    lemma_key_of_bytes_of(r.collateral_supply);
    lemma_key_of_bytes_of(r.collateral_mint);
    match r.dex_market {
        Some(k) => {
            assert(s[161] == 1 && s[162] == 0 && s[163] == 0 && s[164] == 0);
            assert(s.subrange(165, 197) =~= k.bytes());
            lemma_key_of_bytes_of(k);
        },
        None => {
            assert(s[161] == 0 && s[162] == 0 && s[163] == 0 && s[164] == 0);
        },
    }
    assert(s.subrange(197, 205) =~= spec_u64_to_le_bytes(r.dex_market_price));
    assert(s.subrange(205, 213) =~= spec_u64_to_le_bytes(r.dex_market_price_updated_slot));
    assert(s.subrange(213, 229) =~= spec_pack_decimal(r.cumulative_borrow_rate@));
    assert(s.subrange(229, 245) =~= spec_pack_decimal(r.total_borrows@));
    assert(s.subrange(245, 253) =~= spec_u64_to_le_bytes(r.borrow_state_update_slot));
    lemma_dec_of_view(r.cumulative_borrow_rate);
    lemma_dec_of_view(r.total_borrows);
}

/// Packing then unpacking an obligation yields the record back, for every
/// obligation whose stored decimals fit the 128-bit serialized form.
pub proof fn lemma_obligation_round_trip(o: Obligation)
    requires
        o.cumulative_borrow_rate@ < p128(),
        o.borrow_amount@ < p128(),
    ensures
        spec_unpack_obligation(spec_pack_obligation(o)) == Ok::<Obligation, LendingError>(o),
{
    let s = spec_pack_obligation(o);
    o.collateral_supply.lemma_bytes();
    o.borrow_reserve.lemma_bytes();
    o.token_mint.lemma_bytes();
    lemma_auto_spec_u64_to_from_le_bytes();
    lemma_auto_spec_u128_to_from_le_bytes();
    assert(s.len() == 144);
    assert(s.subrange(0, 8) =~= spec_u64_to_le_bytes(o.last_update_slot));
    assert(s.subrange(8, 16) =~= spec_u64_to_le_bytes(o.collateral_amount));
    assert(s.subrange(16, 48) =~= o.collateral_supply.bytes());
    assert(s.subrange(48, 64) =~= spec_pack_decimal(o.cumulative_borrow_rate@));
    assert(s.subrange(64, 80) =~= spec_pack_decimal(o.borrow_amount@));
    assert(s.subrange(80, 112) =~= o.borrow_reserve.bytes());
    assert(s.subrange(112, 144) =~= o.token_mint.bytes());
    lemma_key_of_bytes_of(o.collateral_supply);
    lemma_key_of_bytes_of(o.borrow_reserve);
    lemma_key_of_bytes_of(o.token_mint);
    lemma_dec_of_view(o.cumulative_borrow_rate);
    lemma_dec_of_view(o.borrow_amount);
}

} // verus!
