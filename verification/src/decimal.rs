//! Fixed-point decimal arithmetic, precise to 18 fractional digits.
//!
//! A [`Decimal`] stores `raw = value * 10^18` in a 256-bit unsigned integer.
//! All operations truncate toward zero, so that independent implementations
//! produce bit-identical monetary state.  The mathematical semantics of each
//! operation over raw values is given by the `dec_*` spec functions, which the
//! rest of the library's contracts are written against.

use vstd::prelude::*;
use crate::u256::{U256, p64, p128, p256};

verus! {

/// 10^18, the fixed scaling factor.
pub const TEN_POW_18: u64 = 1_000_000_000_000_000_000;

/// The scaling factor as a mathematical value.
pub open spec fn scale_nat() -> nat {
    1_000_000_000_000_000_000
}

/// Raw value of the decimal representing the integer `v`.
pub open spec fn dec_from_u64(v: u64) -> nat {
    (v * scale_nat()) as nat
}

/// Raw value of a truncating decimal product.
pub open spec fn dec_mul(a: nat, b: nat) -> nat {
    (a * b) / scale_nat()
}

/// Raw value of a truncating decimal quotient.
pub open spec fn dec_div(a: nat, b: nat) -> nat {
    (a * scale_nat()) / b
}

/// The decimal truncated to a whole number.
pub open spec fn dec_round(a: nat) -> nat {
    a / scale_nat()
}

/// 10^e.
pub open spec fn spec_pow10(e: nat) -> nat
    decreases e,
{
    if e == 0 {
        1
    } else {
        10 * spec_pow10((e - 1) as nat)
    }
}

pub proof fn lemma_pow10_le(e1: nat, e2: nat)
    requires
        e1 <= e2,
    ensures
        spec_pow10(e1) <= spec_pow10(e2),
    decreases e2,
{
    if e1 < e2 {
        lemma_pow10_le(e1, (e2 - 1) as nat);
    }
}

pub proof fn lemma_pow10_18()
    ensures
        spec_pow10(15) == 1000000000000000,
        spec_pow10(16) == 10000000000000000,
        spec_pow10(17) == 100000000000000000,
        spec_pow10(18) == scale_nat(),
{
    assert(spec_pow10(0) == 1);
    assert(spec_pow10(1) == 10);
    assert(spec_pow10(2) == 100);
    assert(spec_pow10(3) == 1000);
    assert(spec_pow10(4) == 10000);
    assert(spec_pow10(5) == 100000);
    assert(spec_pow10(6) == 1000000);
    assert(spec_pow10(7) == 10000000);
    assert(spec_pow10(8) == 100000000);
    assert(spec_pow10(9) == 1000000000);
    assert(spec_pow10(10) == 10000000000);
    assert(spec_pow10(11) == 100000000000);
    assert(spec_pow10(12) == 1000000000000);
    assert(spec_pow10(13) == 10000000000000);
    assert(spec_pow10(14) == 100000000000000);
    assert(spec_pow10(15) == 1000000000000000);
    assert(spec_pow10(16) == 10000000000000000);
    assert(spec_pow10(17) == 100000000000000000);
    assert(spec_pow10(18) == 1000000000000000000);
}

impl Default for Decimal {
    /// The zero value.
    fn default() -> (r: Self)
        ensures
            r@ == 0,
    {
        Decimal::zero()
    }
}

impl From<u64> for Decimal {
    /// The decimal representing the integer `val`.
    fn from(val: u64) -> (r: Self) {
        proof {
            assert(val * scale_nat() < p128()) by (nonlinear_arith)
                requires val < 0x1_0000_0000_0000_0000nat;
        }
        let raw = (val as u128) * (TEN_POW_18 as u128);
        Decimal::from_scaled_val(raw)
    }
}

impl vstd::std_specs::convert::FromSpecImpl<u64> for Decimal {
    open spec fn obeys_from_spec() -> bool {
        true
    }

    open spec fn from_spec(val: u64) -> Decimal {
        dec_of(dec_from_u64(val))
    }
}

/// Every decimal made from a 64-bit integer is below 2^64 * 10^18.
pub proof fn lemma_from_u64_bound(v: u64)
    ensures
        dec_from_u64(v) < 0x1_0000_0000_0000_0000nat * 1_000_000_000_000_000_000,
{
    assert(v * scale_nat() < 0x1_0000_0000_0000_0000nat * 1_000_000_000_000_000_000)
        by (nonlinear_arith)
        requires v < 0x1_0000_0000_0000_0000nat;
}

/// Decimal value precise to 18 digits.
#[derive(Clone, Copy, Debug)]
pub struct Decimal {
    raw: U256,
}

/// The decimal whose raw scaled value is `v`.
pub closed spec fn dec_of(v: nat) -> Decimal {
    Decimal { raw: U256 { lo: (v % p128()) as u128, hi: (v / p128()) as u128 } }
}

pub proof fn lemma_dec_of(v: nat)
    requires
        v < p256(),
    ensures
        dec_of(v)@ == v,
{
    vstd::arithmetic::div_mod::lemma_fundamental_div_mod(v as int, p128() as int);
    assert(v / p128() < p128()) by {
        vstd::arithmetic::div_mod::lemma_multiply_divide_lt(v as int, p128() as int, p128() as int);
    }
}

/// A decimal is determined by its raw scaled value.
pub proof fn lemma_dec_of_view(d: Decimal)
    ensures
        dec_of(d@) == d,
{
    let v = d@;
    assert(v == d.raw.lo + d.raw.hi * p128());
    vstd::arithmetic::div_mod::lemma_fundamental_div_mod_converse(
        v as int,
        p128() as int,
        d.raw.hi as int,
        d.raw.lo as int,
    );
}

impl View for Decimal {
    type V = nat;

    /// A decimal is abstracted as its raw scaled value.
    closed spec fn view(&self) -> nat {
        self.raw.as_nat()
    }
}

impl Decimal {
    /// The scaling factor as a 256-bit integer.
    pub fn scaler() -> (r: U256)
        ensures
            r.as_nat() == scale_nat(),
    {
        U256::from_u64(TEN_POW_18)
    }

    /// The zero value.
    pub fn zero() -> (r: Self)
        ensures
            r@ == 0,
    {
        Decimal { raw: U256::zero() }
    }

    /// The decimal representing the integer `val`.
    pub fn from_u64(val: u64) -> (r: Self)
        ensures
            r@ == dec_from_u64(val),
    {
        proof {
            assert(val * scale_nat() <= 0xffff_ffff_ffff_ffff * 1_000_000_000_000_000_000nat)
                by (nonlinear_arith)
                requires val <= 0xffff_ffff_ffff_ffff;
        }
        let raw = (val as u128) * (TEN_POW_18 as u128);
        Decimal { raw: U256::from_u128(raw) }
    }

    /// Create a scaled decimal: `val * 10^(18 - scale)`.
    pub fn new(val: u64, scale: usize) -> (r: Self)
        requires
            scale <= 18,
        ensures
            r@ == val * spec_pow10((18 - scale) as nat),
    {
        let e = 18 - scale;
        let mut m: u128 = 1;
        let mut k: usize = 0;
        proof {
            lemma_pow10_18();
        }
        while k < e
            invariant
                k <= e <= 18,
                m == spec_pow10(k as nat),
            decreases e - k,
        {
            proof {
                lemma_pow10_le(k as nat, 17);
                lemma_pow10_18();
            }
            m = m * 10;
            k = k + 1;
        }
        proof {
            lemma_pow10_le(e as nat, 18);
            lemma_pow10_18();
            assert(val * m <= 0xffff_ffff_ffff_ffff * 1_000_000_000_000_000_000nat)
                by (nonlinear_arith)
                requires
                    val <= 0xffff_ffff_ffff_ffff,
                    m <= 1_000_000_000_000_000_000,
                    m >= 0;
        }
        let raw = (val as u128) * m;
        Decimal { raw: U256::from_u128(raw) }
    }

    /// Return the raw scaled value; defined when it fits in 128 bits.
    pub fn to_scaled_val(&self) -> (r: u128)
        requires
            self@ < p128(),
        ensures
            r == self@,
    {
        self.raw.as_u128()
    }

    /// Create a decimal from a raw scaled value.
    pub fn from_scaled_val(scaled_val: u128) -> (r: Self)
        ensures
            r@ == scaled_val,
            r == dec_of(scaled_val as nat),
    {
        proof {
            vstd::arithmetic::div_mod::lemma_small_mod(scaled_val as nat, p128());
            vstd::arithmetic::div_mod::lemma_basic_div(scaled_val as int, p128() as int);
        }
        Decimal { raw: U256::from_u128(scaled_val) }
    }

    /// Round the scaled decimal down to a whole 64-bit number.
    pub fn round_u64(&self) -> (r: u64)
        requires
            dec_round(self@) < p64(),
        ensures
            r == dec_round(self@),
    {
        let (q, _r) = self.raw.div_rem(Decimal::scaler());
        q.as_u64()
    }

    /// Round to a whole 64-bit number, or report that the value is too
    /// large to round.
    pub fn try_round_u64(&self) -> (r: Option<u64>)
        ensures
            dec_round(self@) < p64() ==> r == Some(dec_round(self@) as u64),
            dec_round(self@) >= p64() ==> r is None,
    {
        let (q, _rem) = self.raw.div_rem(Decimal::scaler());
        if q.hi == 0 && q.lo < crate::u256::B64 {
            Some(q.as_u64())
        } else {
            proof {
                if q.hi != 0 {
                    assert(q.as_nat() >= p128()) by (nonlinear_arith)
                        requires q.hi >= 1;
                }
            }
            None
        }
    }

    /// Addition of raw values; the sum must fit in 256 bits.
    pub fn add(self, rhs: Self) -> (r: Self)
        requires
            self@ + rhs@ < p256(),
        ensures
            r@ == self@ + rhs@,
    {
        Decimal { raw: self.raw.add(rhs.raw) }
    }

    /// Subtraction of raw values; fails (by precondition) when the
    /// subtrahend exceeds the minuend, as decimals have no negatives.
    pub fn sub(self, rhs: Self) -> (r: Self)
        requires
            rhs@ <= self@,
        ensures
            r@ == self@ - rhs@,
    {
        Decimal { raw: self.raw.sub(rhs.raw) }
    }

    /// Truncating product: `(a.raw * b.raw) / 10^18`.
    pub fn mul(self, rhs: Self) -> (r: Self)
        requires
            self@ * rhs@ < p256(),
        ensures
            r@ == dec_mul(self@, rhs@),
    {
        let prod = self.raw.mul(rhs.raw);
        let (q, _r) = prod.div_rem(Decimal::scaler());
        Decimal { raw: q }
    }

    /// Truncating quotient: `(a.raw * 10^18) / b.raw`.
    pub fn div(self, rhs: Self) -> (r: Self)
        requires
            rhs@ > 0,
            self@ * scale_nat() < p256(),
        ensures
            r@ == dec_div(self@, rhs@),
    {
        let scaled = self.raw.mul(Decimal::scaler());
        let (q, _r) = scaled.div_rem(rhs.raw);
        Decimal { raw: q }
    }

    /// Whether the raw scaled value fits the 128-bit serialized form.
    pub fn fits_u128(&self) -> (r: bool)
        ensures
            r <==> self@ < p128(),
    {
        proof {
            if self.raw.hi != 0 {
                assert(self.raw.hi * p128() >= p128()) by (nonlinear_arith)
                    requires self.raw.hi >= 1;
            }
        }
        self.raw.hi == 0
    }

    /// Strict comparison of the mathematical values.
    pub fn lt(&self, rhs: &Self) -> (r: bool)
        ensures
            r <==> self@ < rhs@,
    {
        self.raw.lt(rhs.raw)
    }

    /// Equality of the mathematical values.
    pub fn eq_val(&self, rhs: &Self) -> (r: bool)
        ensures
            r <==> self@ == rhs@,
    {
        proof {
            if self.raw.lo == rhs.raw.lo && self.raw.hi == rhs.raw.hi {
                assert(self.raw.as_nat() == rhs.raw.as_nat());
            }
            if self.raw.as_nat() == rhs.raw.as_nat() {
                if self.raw.hi != rhs.raw.hi {
                    let a = self.raw;
                    let b = rhs.raw;
                    assert(false) by (nonlinear_arith)
                        requires
                            a.lo + a.hi * p128() == b.lo + b.hi * p128(),
                            a.hi != b.hi,
                            a.lo < p128(),
                            b.lo < p128();
                }
            }
        }
        self.raw.lo == rhs.raw.lo && self.raw.hi == rhs.raw.hi
    }
}

} // verus!
