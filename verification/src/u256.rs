//! 256-bit unsigned integer arithmetic.
//!
//! The decimal type used throughout the lending math is backed by a 256-bit
//! unsigned integer, stored as two 128-bit halves.  Every operation carries a
//! contract relating the machine representation to the mathematical value
//! [`U256::as_nat`]; overflow is ruled out by preconditions rather than
//! silently wrapped.

use vstd::prelude::*;
use vstd::arithmetic::div_mod::{
    lemma_fundamental_div_mod, lemma_fundamental_div_mod_converse, lemma_div_denominator,
    lemma_multiply_divide_lt, lemma_truncate_middle, lemma_mod_breakdown,
    lemma_mul_mod_noop_left, lemma_div_multiples_vanish, lemma_small_mod,
};
use vstd::arithmetic::power2::{
    pow2, lemma_pow2_adds, lemma2_to64, lemma2_to64_rest, lemma_pow2_pos, lemma_pow2_strictly_increases,
};
use vstd::arithmetic::mul::{lemma_mul_upper_bound, lemma_mul_is_associative};

verus! {

/// 2^64 as an executable constant.
pub const B64: u128 = 0x1_0000_0000_0000_0000;

/// 2^127 as an executable constant.
pub const B127: u128 = 0x8000_0000_0000_0000_0000_0000_0000_0000;

/// 2^64 as a mathematical value.
pub open spec fn p64() -> nat {
    0x1_0000_0000_0000_0000
}

/// 2^128 as a mathematical value.
pub open spec fn p128() -> nat {
    0x1_0000_0000_0000_0000_0000_0000_0000_0000nat
}

/// 2^256 as a mathematical value.
pub open spec fn p256() -> nat {
    p128() * p128()
}

/// An unsigned 256-bit integer: `lo + hi * 2^128`.
#[derive(Clone, Copy, PartialEq, Eq, Structural, Debug)]
pub struct U256 {
    /// Low 128 bits.
    pub lo: u128,
    /// High 128 bits.
    pub hi: u128,
}

impl U256 {
    /// The mathematical value of this integer.
    pub open spec fn as_nat(self) -> nat {
        (self.lo + self.hi * p128()) as nat
    }

    pub proof fn lemma_as_nat_bound(self)
        ensures
            self.as_nat() < p256(),
    {
        assert(self.hi * p128() <= (p128() - 1) * p128()) by {
            lemma_mul_upper_bound(self.hi as int, p128() as int - 1, p128() as int, p128() as int);
        }
    }

    /// The zero value.
    pub fn zero() -> (r: Self)
        ensures
            r.as_nat() == 0,
    {
        U256 { lo: 0, hi: 0 }
    }

    /// Embeds a 64-bit value.
    pub fn from_u64(v: u64) -> (r: Self)
        ensures
            r.as_nat() == v,
    {
        U256 { lo: v as u128, hi: 0 }
    }

    /// Embeds a 128-bit value.
    pub fn from_u128(v: u128) -> (r: Self)
        ensures
            r.as_nat() == v,
    {
        U256 { lo: v, hi: 0 }
    }

    /// The low 128 bits, defined when the value fits.
    pub fn as_u128(self) -> (r: u128)
        requires
            self.as_nat() < p128(),
        ensures
            r == self.as_nat(),
    {
        proof {
            if self.hi != 0 {
                assert(self.hi * p128() >= p128()) by (nonlinear_arith)
                    requires self.hi >= 1;
            }
        }
        self.lo
    }

    /// The low 64 bits, defined when the value fits.
    pub fn as_u64(self) -> (r: u64)
        requires
            self.as_nat() < p64(),
        ensures
            r == self.as_nat(),
    {
        proof {
            if self.hi != 0 {
                assert(self.hi * p128() >= p128()) by (nonlinear_arith)
                    requires self.hi >= 1;
            }
        }
        self.lo as u64
    }

    /// True exactly when this value is zero.
    pub fn is_zero(self) -> (r: bool)
        ensures
            r <==> self.as_nat() == 0,
    {
        proof {
            if self.hi != 0 {
                assert(self.hi * p128() >= p128()) by (nonlinear_arith)
                    requires self.hi >= 1;
            }
        }
        self.lo == 0 && self.hi == 0
    }

    /// Strict comparison of the mathematical values.
    pub fn lt(self, rhs: Self) -> (r: bool)
        ensures
            r <==> self.as_nat() < rhs.as_nat(),
    {
        proof {
            if self.hi < rhs.hi {
                assert(self.lo + self.hi * p128() < rhs.hi * p128()) by (nonlinear_arith)
                    requires self.hi < rhs.hi, self.lo < p128();
            }
            if self.hi > rhs.hi {
                assert(rhs.lo + rhs.hi * p128() < self.hi * p128()) by (nonlinear_arith)
                    requires rhs.hi < self.hi, rhs.lo < p128();
            }
        }
        if self.hi == rhs.hi {
            self.lo < rhs.lo
        } else {
            self.hi < rhs.hi
        }
    }

    /// Addition; the sum must fit in 256 bits.
    pub fn add(self, rhs: Self) -> (r: Self)
        requires
            self.as_nat() + rhs.as_nat() < p256(),
        ensures
            r.as_nat() == self.as_nat() + rhs.as_nat(),
    {
        let (lo, carry): (u128, u128) = if self.lo <= u128::MAX - rhs.lo {
            (self.lo + rhs.lo, 0)
        } else {
            ((self.lo - (u128::MAX - rhs.lo)) - 1, 1)
        };
        proof {
            assert(lo + carry * p128() == self.lo + rhs.lo);
            assert((self.hi + rhs.hi + carry) * p128()
                == self.hi * p128() + rhs.hi * p128() + carry * p128()) by (nonlinear_arith);
            if self.hi + rhs.hi + carry >= p128() {
                assert((self.hi + rhs.hi + carry) * p128() >= p128() * p128()) by (nonlinear_arith)
                    requires self.hi + rhs.hi + carry >= p128();
            }
        }
        let hi = self.hi + rhs.hi + carry;
        U256 { lo, hi }
    }

    /// Subtraction; the subtrahend must not exceed the minuend.
    pub fn sub(self, rhs: Self) -> (r: Self)
        requires
            rhs.as_nat() <= self.as_nat(),
        ensures
            r.as_nat() == self.as_nat() - rhs.as_nat(),
    {
        let (lo, borrow): (u128, u128) = if self.lo >= rhs.lo {
            (self.lo - rhs.lo, 0)
        } else {
            ((u128::MAX - rhs.lo) + self.lo + 1, 1)
        };
        proof {
            assert(lo == self.lo + borrow * p128() - rhs.lo);
            if self.hi < rhs.hi + borrow {
                assert(self.hi + 1 <= rhs.hi + borrow);
                assert((rhs.hi + borrow) * p128() >= (self.hi + 1) * p128()) by (nonlinear_arith)
                    requires self.hi + 1 <= rhs.hi + borrow;
                assert((self.hi + 1) * p128() == self.hi * p128() + p128()) by (nonlinear_arith);
            }
            assert((self.hi - rhs.hi - borrow) * p128()
                == self.hi * p128() - rhs.hi * p128() - borrow * p128()) by (nonlinear_arith);
        }
        let hi = self.hi - rhs.hi - borrow;
        U256 { lo, hi }
    }
}

/// Full product of two 128-bit values as a 256-bit integer; never overflows.
pub fn wide_mul_u128(x: u128, y: u128) -> (r: U256)
    ensures
        r.as_nat() == x * y,
{
    let x0 = x % B64;
    let x1 = x / B64;
    let y0 = y % B64;
    let y1 = y / B64;
    proof {
        assert(x1 < p64()) by {
            lemma_multiply_divide_lt(x as int, B64 as int, B64 as int);
        }
        assert(y1 < p64()) by {
            lemma_multiply_divide_lt(y as int, B64 as int, B64 as int);
        }
        assert(x0 * y0 <= (p64() - 1) * (p64() - 1)
            && x0 * y1 <= (p64() - 1) * (p64() - 1)
            && x1 * y0 <= (p64() - 1) * (p64() - 1)
            && x1 * y1 <= (p64() - 1) * (p64() - 1)) by (nonlinear_arith)
            requires
                x0 <= p64() - 1,
                x1 <= p64() - 1,
                y0 <= p64() - 1,
                y1 <= p64() - 1;
    }
    let p00 = x0 * y0;
    let p01 = x0 * y1;
    let p10 = x1 * y0;
    let p11 = x1 * y1;
    let t1 = p00 / B64 + p01 % B64 + p10 % B64;
    let r0 = p00 % B64;
    let r1 = t1 % B64;
    let t2 = t1 / B64 + p01 / B64 + p10 / B64 + p11 % B64;
    let r2 = t2 % B64;
    let t3 = t2 / B64 + p11 / B64;
    proof {
        assert(x * y == p00 + (p01 + p10) * p64() + p11 * (p64() * p64())) by (nonlinear_arith)
            requires
                x == x0 + x1 * p64(),
                y == y0 + y1 * p64(),
                p00 == x0 * y0,
                p01 == x0 * y1,
                p10 == x1 * y0,
                p11 == x1 * y1;
        // carry-chain: the four 64-bit digits r0, r1, r2, t3 represent x * y
        assert(p00 == r0 + (p00 / B64) * p64());
        assert(t1 == r1 + (t1 / B64) * p64());
        assert(t2 == r2 + (t2 / B64) * p64());
        let d = (r0 + r1 * p64() + r2 * (p64() * p64()) + t3 * (p64() * (p64() * p64()))) as int;
        assert(d == p00 + (p01 + p10) * p64() + p11 * (p64() * p64())) by (nonlinear_arith)
            requires
                p00 == r0 + (p00 / B64) * p64(),
                t1 == p00 / B64 + p01 % B64 + p10 % B64,
                t1 == r1 + (t1 / B64) * p64(),
                t2 == t1 / B64 + p01 / B64 + p10 / B64 + p11 % B64,
                t2 == r2 + (t2 / B64) * p64(),
                t3 == t2 / B64 + p11 / B64,
                p01 == p01 % B64 + (p01 / B64) * p64(),
                p10 == p10 % B64 + (p10 / B64) * p64(),
                p11 == p11 % B64 + (p11 / B64) * p64(),
                d == r0 + r1 * p64() + r2 * (p64() * p64()) + t3 * (p64() * (p64() * p64()));
        assert(d == x * y);
        // the top digit fits in 64 bits because x * y < 2^256
        assert(x * y <= (p128() - 1) * (p128() - 1)) by (nonlinear_arith)
            requires
                x <= p128() - 1,
                y <= p128() - 1;
        if t3 >= p64() {
            assert(t3 * (p64() * (p64() * p64())) >= p64() * (p64() * (p64() * p64())))
                by (nonlinear_arith)
                requires t3 >= p64();
            assert(p64() * (p64() * (p64() * p64())) == p256());
        }
        assert(t3 < p64());
        assert(r1 * p64() < p128()) by (nonlinear_arith)
            requires r1 < p64();
        assert(t3 * p64() <= (p64() - 1) * p64()) by (nonlinear_arith)
            requires t3 <= p64() - 1;
        assert((r0 + r1 * p64()) + (r2 + t3 * p64()) * p128()
            == r0 + r1 * p64() + r2 * (p64() * p64()) + t3 * (p64() * (p64() * p64())))
            by (nonlinear_arith)
            requires p128() == p64() * p64();
    }
    let lo = r0 + r1 * B64;
    let hi = r2 + t3 * B64;
    U256 { lo, hi }
}

impl U256 {
    /// Multiplication; the product must fit in 256 bits.
    pub fn mul(self, rhs: Self) -> (r: Self)
        requires
            self.as_nat() * rhs.as_nat() < p256(),
        ensures
            r.as_nat() == self.as_nat() * rhs.as_nat(),
    {
        proof {
            if self.hi != 0 && rhs.hi != 0 {
                assert(self.as_nat() * rhs.as_nat() >= p256()) by (nonlinear_arith)
                    requires
                        self.hi >= 1,
                        rhs.hi >= 1,
                        self.as_nat() >= self.hi * p128(),
                        rhs.as_nat() >= rhs.hi * p128(),
                        p256() == p128() * p128();
            }
        }
        let base = wide_mul_u128(self.lo, rhs.lo);
        let cross = if rhs.hi == 0 {
            wide_mul_u128(self.hi, rhs.lo)
        } else {
            wide_mul_u128(self.lo, rhs.hi)
        };
        proof {
            // cross * 2^128 is a summand of the product, so cross fits in 128 bits
            assert(self.as_nat() * rhs.as_nat()
                == self.lo * rhs.lo + (self.hi * rhs.lo + self.lo * rhs.hi) * p128()
                    + (self.hi * rhs.hi) * (p128() * p128())) by (nonlinear_arith)
                requires
                    self.as_nat() == self.lo + self.hi * p128(),
                    rhs.as_nat() == rhs.lo + rhs.hi * p128();
            assert(self.hi * rhs.hi == 0) by (nonlinear_arith)
                requires self.hi == 0 || rhs.hi == 0;
            assert(cross.as_nat() == self.hi * rhs.lo + self.lo * rhs.hi) by (nonlinear_arith)
                requires
                    self.hi == 0 || rhs.hi == 0,
                    (rhs.hi == 0 ==> cross.as_nat() == self.hi * rhs.lo),
                    (rhs.hi != 0 ==> self.hi == 0 && cross.as_nat() == self.lo * rhs.hi);
            assert(self.as_nat() * rhs.as_nat() == base.as_nat() + cross.as_nat() * p128());
            if cross.hi != 0 {
                assert(cross.as_nat() >= p128()) by (nonlinear_arith)
                    requires cross.hi >= 1;
                assert(cross.as_nat() * p128() >= p128() * p128()) by (nonlinear_arith)
                    requires cross.as_nat() >= p128();
                assert(false);
            }
            assert(cross.as_nat() == cross.lo);
            assert((base.hi + cross.lo) * p128() == base.hi * p128() + cross.lo * p128())
                by (nonlinear_arith);
            if base.hi + cross.lo >= p128() {
                assert((base.hi + cross.lo) * p128() >= p128() * p128()) by (nonlinear_arith)
                    requires base.hi + cross.lo >= p128();
                assert(false);
            }
        }
        let hi = base.hi + cross.lo;
        U256 { lo: base.lo, hi }
    }
}

/// 2^255 as a mathematical value.
pub open spec fn p255() -> nat {
    0x8000_0000_0000_0000_0000_0000_0000_0000_0000_0000_0000_0000_0000_0000_0000_0000nat
}

proof fn lemma_pow2_big()
    ensures
        pow2(64) == p64(),
        pow2(127) == p128() / 2,
        pow2(128) == p128(),
        pow2(255) == p255(),
        pow2(256) == p256(),
        p255() * 2 == p256(),
        p128() / 2 == B127,
{
    lemma2_to64();
    lemma2_to64_rest();
    lemma_pow2_adds(64, 63);
    lemma_pow2_adds(64, 64);
    lemma_pow2_adds(128, 127);
    lemma_pow2_adds(128, 128);
    assert(pow2(127) == pow2(64) * pow2(63));
    assert(pow2(127) == 0x8000_0000_0000_0000_0000_0000_0000_0000nat);
    assert(pow2(128) == pow2(64) * pow2(64));
    assert(pow2(128) == p128());
    assert(pow2(255) == pow2(128) * pow2(127));
    assert(p128() * 0x8000_0000_0000_0000_0000_0000_0000_0000nat == p255()) by (nonlinear_arith);
    assert(pow2(255) == p255());
    assert(pow2(256) == pow2(128) * pow2(128));
    assert(p255() * 2 == p128() * p128()) by (nonlinear_arith);
}

impl U256 {
    /// The top bit of the 256-bit representation.
    fn top_bit(self) -> (r: u128)
        ensures
            r == self.as_nat() / p255(),
            r == 0 || r == 1,
    {
        proof {
            lemma_fundamental_div_mod(self.hi as int, B127 as int);
            assert(self.hi * p128() == (self.hi / B127) * p255() + (self.hi % B127) * p128())
                by (nonlinear_arith)
                requires
                    self.hi == (self.hi / B127) * B127 + self.hi % B127,
                    p255() == B127 * p128();
            assert(self.as_nat()
                == (self.hi / B127) * p255() + (self.lo + (self.hi % B127) * p128()));
            assert(self.lo + (self.hi % B127) * p128() < p255());
            lemma_fundamental_div_mod_converse(
                self.as_nat() as int,
                p255() as int,
                (self.hi / B127) as int,
                self.lo + (self.hi % B127) * p128(),
            );
        }
        self.hi / B127
    }

    /// Doubles the value, truncating to 256 bits.
    fn shl1_trunc(self) -> (r: Self)
        ensures
            r.as_nat() == 2 * (self.as_nat() % p255()),
            self.as_nat() < p255() ==> r.as_nat() == 2 * self.as_nat(),
    {
        let lo = (self.lo % B127) * 2;
        let hi = (self.hi % B127) * 2 + self.lo / B127;
        proof {
            lemma_fundamental_div_mod(self.hi as int, B127 as int);
            lemma_fundamental_div_mod(self.lo as int, B127 as int);
            assert(self.hi * p128() == (self.hi / B127) * p255() + (self.hi % B127) * p128())
                by (nonlinear_arith)
                requires
                    self.hi == (self.hi / B127) * B127 + self.hi % B127,
                    p255() == B127 * p128();
            assert(self.as_nat()
                == (self.hi / B127) * p255() + (self.lo + (self.hi % B127) * p128()));
            assert(self.lo + (self.hi % B127) * p128() < p255());
            lemma_fundamental_div_mod_converse(
                self.as_nat() as int,
                p255() as int,
                (self.hi / B127) as int,
                self.lo + (self.hi % B127) * p128(),
            );
            if self.as_nat() < p255() {
                lemma_small_mod(self.as_nat(), p255());
            }
        }
        U256 { lo, hi }
    }

    /// Euclidean division: returns the quotient and the remainder.
    pub fn div_rem(self, d: Self) -> (qr: (Self, Self))
        requires
            d.as_nat() > 0,
        ensures
            qr.0.as_nat() == self.as_nat() / d.as_nat(),
            qr.1.as_nat() == self.as_nat() % d.as_nat(),
    {
        let ghost nv = self.as_nat();
        let ghost dv = d.as_nat();
        let max = U256 { lo: u128::MAX, hi: u128::MAX };
        proof {
            self.lemma_as_nat_bound();
            d.lemma_as_nat_bound();
            assert(max.as_nat() == p256() - 1);
        }
        // 2^256 - d, used to fold the implicit 257th bit back into range
        let neg_d = max.sub(d).add(U256::from_u64(1));
        let mut sh = self;
        let mut q = U256::zero();
        let mut r = U256::zero();
        let mut i: usize = 0;
        proof {
            lemma_pow2_big();
            lemma2_to64();
            assert(nv * pow2(0) == nv);
            assert((nv * pow2(0)) % p256() == nv) by {
                lemma_small_mod(nv, p256());
            }
            assert(nv / pow2(256) == 0) by {
                lemma_pow2_pos(256);
                lemma_multiply_divide_lt(nv as int, pow2(256) as int, 1);
            }
        }
        while i < 256
            invariant
                i <= 256,
                dv == d.as_nat(),
                0 < dv < p256(),
                nv == self.as_nat() < p256(),
                neg_d.as_nat() == p256() - dv,
                sh.as_nat() == (nv * pow2(i as nat)) % p256(),
                q.as_nat() * dv + r.as_nat() == nv / pow2((256 - i) as nat),
                r.as_nat() < dv,
                q.as_nat() <= nv / pow2((256 - i) as nat),
            decreases 256 - i,
        {
            let ghost j = (255 - i) as nat;
            let ghost shv = sh.as_nat();
            let ghost prefix = nv / pow2((256 - i) as nat);
            let bit = sh.top_bit();
            proof {
                lemma_pow2_big();
                lemma_pow2_pos(j);
                lemma_pow2_pos((i + 1) as nat);
                lemma_pow2_pos(i as nat);
                lemma_pow2_pos((j + 1) as nat);
                // sh holds the low 256 - i bits of nv, shifted up by i
                assert(pow2(i as nat) * pow2((256 - i) as nat) == p256()) by {
                    lemma_pow2_adds(i as nat, (256 - i) as nat);
                }
                lemma_truncate_middle(
                    (nv % pow2((256 - i) as nat)) as int,
                    pow2(i as nat) as int,
                    pow2((256 - i) as nat) as int,
                );
                assert((pow2(i as nat) * nv) % (pow2(i as nat) * pow2((256 - i) as nat))
                    == pow2(i as nat) * (nv % pow2((256 - i) as nat))) by {
                    lemma_truncate_middle(
                        nv as int,
                        pow2(i as nat) as int,
                        pow2((256 - i) as nat) as int,
                    );
                }
                assert(shv == pow2(i as nat) * (nv % pow2((256 - i) as nat))) by {
                    assert(pow2(i as nat) * nv == nv * pow2(i as nat)) by (nonlinear_arith);
                }
                // hence the top bit of sh is bit j of nv
                let w = (nv % pow2((256 - i) as nat)) as int;
                assert(shv / p255() == w / pow2(j) as int) by {
                    assert(pow2(j) * pow2((i + 1) as nat) == p256()) by {
                        lemma_pow2_adds(j, (i + 1) as nat);
                        lemma_pow2_adds(i as nat, 1);
                        lemma2_to64();
                    }
                    assert(shv == pow2(i as nat) * w);
                    assert(p255() == pow2(i as nat) * pow2(j)) by {
                        lemma_pow2_adds(i as nat, j);
                    }
                    lemma_div_denominator(shv as int, pow2(i as nat) as int, pow2(j) as int);
                    assert(shv as int / pow2(i as nat) as int == w) by {
                        lemma_div_multiples_vanish(w, pow2(i as nat) as int);
                    }
                }
                assert(w / pow2(j) as int == (nv as int / pow2(j) as int) % 2) by {
                    assert(pow2(j) * 2 == pow2((256 - i) as nat)) by {
                        lemma_pow2_adds(j, 1);
                        lemma2_to64();
                    }
                    lemma_mod_breakdown(nv as int, pow2(j) as int, 2);
                    assert(nv % pow2((256 - i) as nat)
                        == pow2(j) * ((nv as int / pow2(j) as int) % 2) + nv % pow2(j));
                    lemma_fundamental_div_mod_converse(
                        w,
                        pow2(j) as int,
                        (nv as int / pow2(j) as int) % 2,
                        (nv % pow2(j)) as int,
                    );
                }
                assert(bit == (nv as int / pow2(j) as int) % 2);
                // the next prefix extends the old one by bit j
                assert(nv as int / pow2(j) as int == 2 * prefix + bit) by {
                    assert(pow2(j) * 2 == pow2((256 - i) as nat)) by {
                        lemma_pow2_adds(j, 1);
                        lemma2_to64();
                    }
                    lemma_div_denominator(nv as int, pow2(j) as int, 2);
                    lemma_fundamental_div_mod(nv as int / pow2(j) as int, 2);
                }
            }
            let ghost prefix2 = (2 * prefix + bit) as nat;
            // advance the shift register
            let sh2 = sh.shl1_trunc();
            proof {
                lemma_pow2_big();
                // (nv * 2^i % 2^256) doubled and truncated is nv * 2^(i+1) % 2^256
                assert(sh2.as_nat() == (2 * shv) % p256()) by {
                    lemma_mod_breakdown((2 * shv) as int, 2, p255() as int);
                    assert((2 * shv) % 2 == 0 && (2 * shv) / 2 == shv) by {
                        lemma_div_multiples_vanish(shv as int, 2);
                        assert((shv * 2) % 2 == 0) by (nonlinear_arith);
                    }
                }
                assert((2 * shv) % p256() == (nv * pow2((i + 1) as nat)) % p256()) by {
                    lemma_mul_mod_noop_left((nv * pow2(i as nat)) as int, 2, p256() as int);
                    assert(nv * pow2((i + 1) as nat) == (nv * pow2(i as nat)) * 2) by {
                        lemma_pow2_adds(i as nat, 1);
                        lemma2_to64();
                        lemma_mul_is_associative(nv as int, pow2(i as nat) as int, 2);
                    }
                    assert((2 * shv) == ((nv * pow2(i as nat)) % p256()) * 2);
                }
            }
            sh = sh2;
            let ghost q_old = q.as_nat();
            let ghost r_old = r.as_nat();
            proof {
                // the running quotient stays below 2^255, so doubling it is exact
                assert(q_old < p255()) by {
                    lemma_pow2_pos((256 - i) as nat);
                    assert(pow2((256 - i) as nat) * pow2(i as nat) == p256()) by {
                        lemma_pow2_adds((256 - i) as nat, i as nat);
                    }
                    lemma_multiply_divide_lt(
                        nv as int,
                        pow2((256 - i) as nat) as int,
                        pow2(i as nat) as int,
                    );
                    if i < 255 {
                        lemma_pow2_strictly_increases(i as nat, 255);
                    }
                }
            }
            // fold the bit into the remainder and quotient
            let rtop = r.top_bit();
            if rtop == 1 {
                // 2r + bit carries past 2^256; it still exceeds d, so subtract d
                proof {
                    lemma_fundamental_div_mod(r_old as int, p255() as int);
                }
                let r2 = r.shl1_trunc();
                let r2b = if bit == 1 { r2.add(U256::from_u64(1)) } else { r2 };
                proof {
                    assert(r2b.as_nat() == 2 * r_old + bit - p256());
                }
                r = r2b.add(neg_d);
                let q2 = q.shl1_trunc();
                q = q2.add(U256::from_u64(1));
                proof {
                    assert(r.as_nat() == 2 * r_old + bit - dv);
                    assert(r.as_nat() < dv);
                    assert(q.as_nat() * dv + r.as_nat() == prefix2) by (nonlinear_arith)
                        requires
                            q.as_nat() == 2 * q_old + 1,
                            r.as_nat() == 2 * r_old + bit - dv,
                            q_old * dv + r_old == prefix,
                            prefix2 == 2 * prefix + bit;
                }
            } else {
                proof {
                    lemma_fundamental_div_mod(r_old as int, p255() as int);
                    assert(r_old < p255());
                }
                let r2 = r.shl1_trunc();
                let r2b = if bit == 1 { r2.add(U256::from_u64(1)) } else { r2 };
                proof {
                    assert(r2b.as_nat() == 2 * r_old + bit);
                }
                if !r2b.lt(d) {
                    r = r2b.sub(d);
                    let q2 = q.shl1_trunc();
                    q = q2.add(U256::from_u64(1));
                    proof {
                        assert(r.as_nat() < dv);
                        assert(q.as_nat() * dv + r.as_nat() == prefix2) by (nonlinear_arith)
                            requires
                                q.as_nat() == 2 * q_old + 1,
                                r.as_nat() == 2 * r_old + bit - dv,
                                q_old * dv + r_old == prefix,
                                prefix2 == 2 * prefix + bit;
                    }
                } else {
                    r = r2b;
                    q = q.shl1_trunc();
                    proof {
                        assert(q.as_nat() * dv + r.as_nat() == prefix2) by (nonlinear_arith)
                            requires
                                q.as_nat() == 2 * q_old,
                                r.as_nat() == 2 * r_old + bit,
                                q_old * dv + r_old == prefix,
                                prefix2 == 2 * prefix + bit;
                    }
                }
            }
            proof {
                assert(q.as_nat() <= prefix2) by (nonlinear_arith)
                    requires
                        q.as_nat() * dv + r.as_nat() == prefix2,
                        dv >= 1;
                assert(nv / pow2((256 - (i + 1)) as nat) == prefix2);
            }
            i = i + 1;
        }
        proof {
            assert(pow2(0) == 1) by {
                lemma2_to64();
            }
            assert(nv as int / 1int == nv);
            lemma_fundamental_div_mod_converse(
                nv as int,
                dv as int,
                q.as_nat() as int,
                r.as_nat() as int,
            );
        }
        (q, r)
    }
}

} // verus!
