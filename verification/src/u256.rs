//! A 256-bit unsigned integer, stored as four 64-bit limbs (least
//! significant first). Targets and block digests are values of this type;
//! its view is the mathematical value as a `nat`.

use vstd::prelude::*;
use vstd::arithmetic::div_mod::{
    lemma_div_denominator, lemma_div_is_ordered, lemma_fundamental_div_mod,
    lemma_fundamental_div_mod_converse, lemma_mod_bound, lemma_small_mod,
};
use vstd::arithmetic::mul::lemma_mul_upper_bound;
use vstd::bytes::{
    spec_u64_from_le_bytes, spec_u64_to_le_bytes, u64_from_le_bytes, u64_to_le_bytes,
};
use vstd::slice::slice_subrange;

verus! {

/// 2^64, as a spec-level constant.
pub open spec fn pow64() -> int {
    0x1_0000_0000_0000_0000
}

/// 2^128, as a spec-level constant.
pub open spec fn pow128() -> int {
    0x1_0000_0000_0000_0000_0000_0000_0000_0000int
}

/// 2^192, as a spec-level constant.
pub open spec fn pow192() -> int {
    0x1_0000_0000_0000_0000_0000_0000_0000_0000_0000_0000_0000_0000int
}

/// 2^256, as a spec-level constant.
pub open spec fn pow256() -> int {
    0x1_0000_0000_0000_0000_0000_0000_0000_0000_0000_0000_0000_0000_0000_0000_0000_0000int
}

/// The largest value a `U256` can hold, 2^256 - 1.
pub open spec fn u256_max() -> nat {
    (pow256() - 1) as nat
}

/// A 256-bit unsigned integer: `l0` is the least significant limb.
#[derive(Clone, Copy, Debug, PartialEq, Eq, Structural)]
pub struct U256 {
    pub l0: u64,
    pub l1: u64,
    pub l2: u64,
    pub l3: u64,
}

impl U256 {
    /// The mathematical value of the four limbs.
    pub open spec fn as_nat(self) -> nat {
        (self.l0 + self.l1 * pow64() + self.l2 * pow128() + self.l3 * pow192()) as nat
    }
}

impl View for U256 {
    type V = nat;

    open spec fn view(&self) -> nat {
        self.as_nat()
    }
}

impl U256 {
    /// Builds the value `x`.
    pub fn from_u64(x: u64) -> (r: U256)
        ensures
            r@ == x as nat,
    {
        U256 { l0: x, l1: 0, l2: 0, l3: 0 }
    }

    /// Builds the value `l0 + l1*2^64 + l2*2^128 + l3*2^192`.
    pub fn from_limbs(l0: u64, l1: u64, l2: u64, l3: u64) -> (r: U256)
        ensures
            r@ == l0 + l1 * pow64() + l2 * pow128() + l3 * pow192(),
    {
        U256 { l0, l1, l2, l3 }
    }

    /// The largest representable value, 2^256 - 1.
    pub fn max_value() -> (r: U256)
        ensures
            r@ == u256_max(),
    {
        U256 {
            l0: 0xffff_ffff_ffff_ffff,
            l1: 0xffff_ffff_ffff_ffff,
            l2: 0xffff_ffff_ffff_ffff,
            l3: 0xffff_ffff_ffff_ffff,
        }
    }

    /// Strict numeric comparison.
    pub fn lt(&self, other: &U256) -> (r: bool)
        ensures
            r == (self@ < other@),
    {
        if self.l3 != other.l3 {
            self.l3 < other.l3
        } else if self.l2 != other.l2 {
            self.l2 < other.l2
        } else if self.l1 != other.l1 {
            self.l1 < other.l1
        } else {
            self.l0 < other.l0
        }
    }

    /// Whether the value is zero.
    pub fn is_zero(&self) -> (r: bool)
        ensures
            r == (self@ == 0),
    {
        self.l0 == 0 && self.l1 == 0 && self.l2 == 0 && self.l3 == 0
    }

    /// Computes `self * m / d` with full 320-bit intermediate precision,
    /// rounding down; a quotient beyond 2^256 - 1 saturates to the maximum
    /// (the documented overflow policy for target rescaling).
    pub fn mul_div_u64(&self, m: u64, d: u64) -> (r: U256)
        requires
            1 <= d,
        ensures
            r@ == spec_mul_div(self@, m as nat, d as nat),
    {
        let (lo, c4) = self.mul_u64(m);
        let (q, qtop, rem) = div320_u64(&lo, c4, d);
        proof {
            let qfull = q@ + qtop * pow256();
            lemma_fundamental_div_mod_converse(
                (self@ * m) as int,
                d as int,
                qfull as int,
                rem as int,
            );
            if qtop != 0 {
                assert(qfull >= pow256());
            }
        }
        if qtop != 0 {
            U256::max_value()
        } else {
            q
        }
    }

    /// Multiplies by a 64-bit factor; the pair is the low 256 bits and the
    /// carry limb, together the exact 320-bit product.
    pub fn mul_u64(&self, m: u64) -> (r: (U256, u64))
        ensures
            r.0@ + r.1 * pow256() == self@ * m,
    {
        let (r0, c1) = mul_limb(self.l0, m, 0);
        let (r1, c2) = mul_limb(self.l1, m, c1);
        let (r2, c3) = mul_limb(self.l2, m, c2);
        let (r3, c4) = mul_limb(self.l3, m, c3);
        proof {
            assert((self.l0 + self.l1 * pow64() + self.l2 * pow128() + self.l3 * pow192()) * m
                == self.l0 * m + (self.l1 * m) * pow64() + (self.l2 * m) * pow128() + (self.l3
                * m) * pow192()) by (nonlinear_arith);
        }
        (U256 { l0: r0, l1: r1, l2: r2, l3: r3 }, c4)
    }

    /// The 32-byte little-endian encoding of the value.
    pub fn to_le_bytes(&self) -> (r: Vec<u8>)
        ensures
            r@ == spec_u256_to_le_bytes(self@),
            r@.len() == 32,
    {
        proof {
            lemma_limbs(*self);
            lemma_small_mod(self.l3 as nat, pow64() as nat);
        }
        let mut out = u64_to_le_bytes(self.l0);
        let mut b1 = u64_to_le_bytes(self.l1);
        let mut b2 = u64_to_le_bytes(self.l2);
        let mut b3 = u64_to_le_bytes(self.l3);
        out.append(&mut b1);
        out.append(&mut b2);
        out.append(&mut b3);
        out
    }

    /// The value encoded by 32 little-endian bytes.
    pub fn from_le_bytes(s: &[u8]) -> (r: U256)
        requires
            s@.len() == 32,
        ensures
            r@ == spec_u256_from_le_bytes(s@),
    {
        let l0 = u64_from_le_bytes(slice_subrange(s, 0, 8));
        let l1 = u64_from_le_bytes(slice_subrange(s, 8, 16));
        let l2 = u64_from_le_bytes(slice_subrange(s, 16, 24));
        let l3 = u64_from_le_bytes(slice_subrange(s, 24, 32));
        U256 { l0, l1, l2, l3 }
    }
}

/// `t * m / d`, rounded down, saturated to 2^256 - 1: the value the target
/// rescaling arithmetic is specified to produce.
pub open spec fn spec_mul_div(t: nat, m: nat, d: nat) -> nat
    recommends
        1 <= d,
{
    if t * m / d > u256_max() {
        u256_max()
    } else {
        t * m / d
    }
}

/// The 32-byte little-endian encoding of a 256-bit value.
pub open spec fn spec_u256_to_le_bytes(n: nat) -> Seq<u8> {
    let v = n as int;
    spec_u64_to_le_bytes((v % pow64()) as u64) + spec_u64_to_le_bytes(
        ((v / pow64()) % pow64()) as u64,
    ) + spec_u64_to_le_bytes(((v / pow128()) % pow64()) as u64) + spec_u64_to_le_bytes(
        ((v / pow192()) % pow64()) as u64,
    )
}

/// The value encoded by 32 little-endian bytes.
pub open spec fn spec_u256_from_le_bytes(s: Seq<u8>) -> nat
    recommends
        s.len() == 32,
{
    (spec_u64_from_le_bytes(s.subrange(0, 8)) + spec_u64_from_le_bytes(s.subrange(8, 16))
        * pow64() + spec_u64_from_le_bytes(s.subrange(16, 24)) * pow128()
        + spec_u64_from_le_bytes(s.subrange(24, 32)) * pow192()) as nat
}

/// Each limb is the corresponding base-2^64 digit of the value.
pub proof fn lemma_limbs(x: U256)
    ensures
        x.l0 == (x@ as int) % pow64(),
        x.l1 == ((x@ as int) / pow64()) % pow64(),
        x.l2 == ((x@ as int) / pow128()) % pow64(),
        x.l3 == (x@ as int) / pow192(),
{
    let a1 = x.l1 + x.l2 * pow64() + x.l3 * pow128();
    let a2 = x.l2 + x.l3 * pow64();
    lemma_fundamental_div_mod_converse(x@ as int, pow64(), a1, x.l0 as int);
    lemma_fundamental_div_mod_converse(a1, pow64(), a2, x.l1 as int);
    lemma_fundamental_div_mod_converse(a2, pow64(), x.l3 as int, x.l2 as int);
    lemma_div_denominator(x@ as int, pow64(), pow64());
    lemma_div_denominator(x@ as int, pow128(), pow64());
}

/// One limb of a school-book multiplication: the low limb of
/// `a * b + carry` together with the outgoing carry.
fn mul_limb(a: u64, b: u64, carry: u64) -> (r: (u64, u64))
    ensures
        r.0 + r.1 * pow64() == a * b + carry,
{
    proof {
        lemma_mul_upper_bound(a as int, 0xffff_ffff_ffff_ffffint, b as int,
            0xffff_ffff_ffff_ffffint);
    }
    let p: u128 = (a as u128) * (b as u128) + (carry as u128);
    proof {
        lemma_mod_bound(p as int, pow64());
        lemma_fundamental_div_mod(p as int, pow64());
        lemma_div_is_ordered(p as int, pow128() - pow64(), pow64());
    }
    let lo: u64 = (p % 0x1_0000_0000_0000_0000u128) as u64;
    let hi: u64 = (p / 0x1_0000_0000_0000_0000u128) as u64;
    (lo, hi)
}

/// One limb of a school-book long division: brings down `limb` under the
/// running remainder `rem` and divides by `d`.
fn div_limb(rem: u64, limb: u64, d: u64) -> (r: (u64, u64))
    requires
        1 <= d,
        rem < d,
    ensures
        r.0 * d + r.1 == rem * pow64() + limb,
        r.1 < d,
{
    let cur: u128 = (rem as u128) * 0x1_0000_0000_0000_0000u128 + (limb as u128);
    let q: u128 = cur / (d as u128);
    let rm: u128 = cur % (d as u128);
    proof {
        lemma_fundamental_div_mod(cur as int, d as int);
        lemma_mod_bound(cur as int, d as int);
        assert(cur < d * pow64()) by (nonlinear_arith)
            requires
                rem < d,
                cur == rem * 0x1_0000_0000_0000_0000int + limb,
                limb < 0x1_0000_0000_0000_0000int,
        ;
        assert(q < pow64()) by (nonlinear_arith)
            requires
                q * d + rm == cur,
                0 <= rm,
                cur < d * pow64(),
                1 <= d,
        ;
    }
    ((q as u64), (rm as u64))
}

/// Divides the 320-bit value `x + top * 2^256` by `d`: returns the low 256
/// bits of the quotient, its carry limb, and the remainder.
fn div320_u64(x: &U256, top: u64, d: u64) -> (r: (U256, u64, u64))
    requires
        1 <= d,
    ensures
        (r.0@ + r.1 * pow256()) * d + r.2 == x@ + top * pow256(),
        r.2 < d,
{
    let (q4, rm4) = div_limb(0, top, d);
    let (q3, rm3) = div_limb(rm4, x.l3, d);
    let (q2, rm2) = div_limb(rm3, x.l2, d);
    let (q1, rm1) = div_limb(rm2, x.l1, d);
    let (q0, rm0) = div_limb(rm1, x.l0, d);
    proof {
        assert((q0 + q1 * pow64() + q2 * pow128() + q3 * pow192() + q4 * pow256()) * d == q0 * d
            + (q1 * d) * pow64() + (q2 * d) * pow128() + (q3 * d) * pow192() + (q4 * d)
            * pow256()) by (nonlinear_arith);
    }
    (U256 { l0: q0, l1: q1, l2: q2, l3: q3 }, q4, rm0)
}

} // verus!
