//! A 256-bit unsigned integer held as two 128-bit halves, with checked
//! addition and subtraction proved against its mathematical value.

use vstd::prelude::*;

verus! {

/// 2^128, the weight of the high half.
pub open spec fn pow2_128() -> nat {
    0x1_0000_0000_0000_0000_0000_0000_0000_0000nat
}

/// 2^256, one past the largest representable value.
pub open spec fn pow2_256() -> nat {
    0x1_0000_0000_0000_0000_0000_0000_0000_0000nat
        * 0x1_0000_0000_0000_0000_0000_0000_0000_0000nat
}

/// An unsigned 256-bit quantity (a balance, a value, a storage word),
/// stored as a low and a high 128-bit half.
#[derive(Clone, Copy, Debug, PartialEq, Eq, Structural)]
pub struct U256 {
    pub lo: u128,
    pub hi: u128,
}

impl U256 {
    /// The mathematical value: lo + hi * 2^128.
    pub open spec fn as_nat(self) -> nat {
        (self.lo + self.hi * pow2_128()) as nat
    }

    /// The zero value.
    pub fn zero() -> (r: U256)
        ensures
            r.as_nat() == 0,
    {
        U256 { lo: 0, hi: 0 }
    }

    /// Build from a 128-bit value.
    pub fn from_u128(v: u128) -> (r: U256)
        ensures
            r.as_nat() == v,
    {
        U256 { lo: v, hi: 0 }
    }

    /// Build from a 64-bit value.
    pub fn from_u64(v: u64) -> (r: U256)
        ensures
            r.as_nat() == v,
    {
        U256 { lo: v as u128, hi: 0 }
    }

    /// Checked addition: `Some` exactly when the true sum fits in 256 bits,
    /// and then the result is the true sum.
    pub fn checked_add(self, other: U256) -> (r: Option<U256>)
        ensures
            self.as_nat() + other.as_nat() < pow2_256() ==> (r matches Some(v)
                && v.as_nat() == self.as_nat() + other.as_nat()),
            self.as_nat() + other.as_nat() >= pow2_256() ==> r is None,
    {
        let (lo, carry): (u128, u128) = if self.lo <= u128::MAX - other.lo {
            (self.lo + other.lo, 0)
        } else {
            ((self.lo - (u128::MAX - other.lo)) - 1, 1)
        };
        assert(lo + carry * pow2_128() == self.lo + other.lo);
        if self.hi <= u128::MAX - other.hi {
            let hi_sum: u128 = self.hi + other.hi;
            if carry == 1 && hi_sum == u128::MAX {
                assert(self.as_nat() + other.as_nat() >= pow2_256());
                None
            } else {
                let r = U256 { lo, hi: hi_sum + carry };
                assert(r.as_nat() == self.as_nat() + other.as_nat());
                Some(r)
            }
        } else {
            assert(self.as_nat() + other.as_nat() >= pow2_256());
            None
        }
    }

    /// Checked subtraction: `Some` exactly when no underflow occurs,
    /// and then the result is the true difference.
    pub fn checked_sub(self, other: U256) -> (r: Option<U256>)
        ensures
            self.as_nat() >= other.as_nat() ==> (r matches Some(v)
                && v.as_nat() == self.as_nat() - other.as_nat()),
            self.as_nat() < other.as_nat() ==> r is None,
    {
        let (lo, borrow): (u128, u128) = if self.lo >= other.lo {
            (self.lo - other.lo, 0)
        } else {
            ((u128::MAX - (other.lo - self.lo)) + 1, 1)
        };
        if self.hi >= other.hi && self.hi - other.hi >= borrow {
            let r = U256 { lo, hi: (self.hi - other.hi) - borrow };
            assert(r.as_nat() == self.as_nat() - other.as_nat());
            Some(r)
        } else {
            assert(self.as_nat() < other.as_nat());
            None
        }
    }

    /// Whether the value fits in 64 bits.
    pub fn fits_u64(self) -> (r: bool)
        ensures
            r <==> self.as_nat() <= u64::MAX,
    {
        self.hi == 0 && self.lo <= u64::MAX as u128
    }

    /// Truncate to 64 bits; only allowed when the value fits.
    pub fn to_u64(self) -> (r: u64)
        requires
            self.as_nat() <= u64::MAX,
        ensures
            r == self.as_nat(),
    {
        proof {
            assert(self.hi == 0);
        }
        self.lo as u64
    }

    /// Order by value.
    pub fn lt(self, other: U256) -> (r: bool)
        ensures
            r <==> self.as_nat() < other.as_nat(),
    {
        self.hi < other.hi || (self.hi == other.hi && self.lo < other.lo)
    }

    /// Every representable value lies below 2^256.
    pub proof fn lemma_as_nat_bound(self)
        ensures
            self.as_nat() < pow2_256(),
    {
    }

    /// Whether the value is zero.
    pub fn is_zero(self) -> (r: bool)
        ensures
            r <==> self.as_nat() == 0,
    {
        self.lo == 0 && self.hi == 0
    }
}

} // verus!
