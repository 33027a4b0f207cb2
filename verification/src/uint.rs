//! Wide unsigned integers for ledger amounts.

use vstd::prelude::*;

verus! {

/// Two to the power 64.
pub open spec fn pow2_64() -> nat {
    0x1_0000_0000_0000_0000
}

/// Two to the power 128.
pub open spec fn pow2_128() -> nat {
    u128::MAX as nat + 1
}

/// Two to the power 256.
pub open spec fn pow2_256() -> nat {
    pow2_128() * pow2_128()
}

/// Multiples of `unit` lie at least `unit` apart, and equal factors give
/// equal multiples.
pub proof fn lemma_scaled_order(x: nat, y: nat, unit: nat)
    ensures
        x < y ==> x * unit + unit <= y * unit,
        y < x ==> y * unit + unit <= x * unit,
        x == y ==> x * unit == y * unit,
        0 * unit == 0,
{
    assert(x < y ==> x * unit + unit <= y * unit) by (nonlinear_arith);
    assert(y < x ==> y * unit + unit <= x * unit) by (nonlinear_arith);
    assert(0 * unit == 0) by (nonlinear_arith);
}

/// An unsigned 256-bit integer, held as two 128-bit halves.
#[derive(Clone, Copy, Debug, PartialEq, Eq, Structural)]
pub struct U256 {
    pub hi: u128,
    pub lo: u128,
}

impl View for U256 {
    type V = nat;

    open spec fn view(&self) -> nat {
        self.hi as nat * pow2_128() + self.lo as nat
    }
}

impl U256 {
    /// Whether the number can be narrowed to 64 bits without loss.
    pub open spec fn fits_u64(&self) -> bool {
        self@ < pow2_64()
    }

    /// The number `v`.
    pub fn from_u64(v: u64) -> (r: U256)
        ensures
            r@ == v,
    {
        U256 { hi: 0, lo: v as u128 }
    }

    /// The number `v`.
    pub fn from_u128(v: u128) -> (r: U256)
        ensures
            r@ == v,
    {
        U256 { hi: 0, lo: v }
    }

    /// Whether the number is zero.
    pub fn is_zero(&self) -> (r: bool)
        ensures
            r == (self@ == 0),
    {
        proof {
            lemma_scaled_order(self.hi as nat, 0, pow2_128());
        }
        self.hi == 0 && self.lo == 0
    }

    /// Exact narrowing to 64 bits: the same number, or `None` where it does
    /// not fit. Nothing is ever truncated.
    pub fn to_u64(&self) -> (r: Option<u64>)
        ensures
            r == (if self.fits_u64() {
                Some(self@ as u64)
            } else {
                None
            }),
    {
        proof {
            lemma_scaled_order(self.hi as nat, 0, pow2_128());
        }
        if self.hi == 0 && self.lo <= 0xffff_ffff_ffff_ffff {
            Some(self.lo as u64)
        } else {
            None
        }
    }

    /// Two values denote the same number only if they are the same value.
    pub proof fn lemma_view_injective(a: U256, b: U256)
        ensures
            a@ == b@ <==> a == b,
    {
        lemma_scaled_order(a.hi as nat, b.hi as nat, pow2_128());
    }

    /// Every value lies below two to the power 256.
    pub proof fn lemma_view_bound(a: U256)
        ensures
            a@ < pow2_256(),
    {
        let q = pow2_128() as int;
        let h = a.hi as int;
        let l = a.lo as int;
        assert(h * q + l < q * q) by (nonlinear_arith)
            requires
                0 <= h < q,
                0 <= l < q,
        ;
    }
}

/// An unsigned 512-bit integer, held as two 256-bit halves. The host reports
/// the value attached to a call in this width.
#[derive(Clone, Copy, Debug, PartialEq, Eq, Structural)]
pub struct U512 {
    pub hi: U256,
    pub lo: U256,
}

impl View for U512 {
    type V = nat;

    open spec fn view(&self) -> nat {
        self.hi@ * pow2_256() + self.lo@
    }
}

impl U512 {
    /// The number `v`.
    pub fn from_u64(v: u64) -> (r: U512)
        ensures
            r@ == v,
    {
        assert(0 * pow2_256() == 0) by (nonlinear_arith);
        U512 { hi: U256 { hi: 0, lo: 0 }, lo: U256 { hi: 0, lo: v as u128 } }
    }

    /// Whether the number equals `v`.
    pub fn eq_u64(&self, v: u64) -> (r: bool)
        ensures
            r == (self@ == v),
    {
        proof {
            U256::lemma_view_bound(self.lo);
            lemma_scaled_order(self.hi@, 0, pow2_256());
            lemma_scaled_order(self.hi.hi as nat, 0, pow2_128());
            lemma_scaled_order(self.lo.hi as nat, 0, pow2_128());
        }
        self.hi.hi == 0 && self.hi.lo == 0 && self.lo.hi == 0 && self.lo.lo == v as u128
    }

    /// Two values denote the same number only if they are the same value.
    pub proof fn lemma_view_injective(a: U512, b: U512)
        ensures
            a@ == b@ <==> a == b,
    {
        U256::lemma_view_bound(a.lo);
        U256::lemma_view_bound(b.lo);
        U256::lemma_view_injective(a.hi, b.hi);
        U256::lemma_view_injective(a.lo, b.lo);
        lemma_scaled_order(a.hi@, b.hi@, pow2_256());
    }
}

} // verus!
