//! A 256-bit unsigned integer held as four 64-bit limbs, least significant
//! first. Values and scheduled timestamps are 256-bit quantities; the timing
//! policy compares them against a 64-bit host clock.

use vstd::prelude::*;

verus! {

/// A 256-bit unsigned integer: `l0 + l1 * 2^64 + l2 * 2^128 + l3 * 2^192`.
#[derive(Clone, Copy, Debug, PartialEq, Eq, Structural)]
pub struct Uint256 {
    pub(crate) l0: u64,
    pub(crate) l1: u64,
    pub(crate) l2: u64,
    pub(crate) l3: u64,
}

impl View for Uint256 {
    type V = int;

    closed spec fn view(&self) -> int {
        self.l0 + self.l1 * 0x1_0000_0000_0000_0000 + self.l2
            * 0x1_0000_0000_0000_0000_0000_0000_0000_0000 + self.l3
            * 0x1_0000_0000_0000_0000_0000_0000_0000_0000_0000_0000_0000_0000
    }
}

impl Uint256 {
    /// The value of a 64-bit integer.
    pub fn from_u64(x: u64) -> (r: Uint256)
        ensures
            r@ == x,
    {
        Uint256 { l0: x, l1: 0, l2: 0, l3: 0 }
    }

    /// The value `l0 + l1 * 2^64 + l2 * 2^128 + l3 * 2^192`.
    pub fn from_limbs(l0: u64, l1: u64, l2: u64, l3: u64) -> (r: Uint256)
        ensures
            r@ == l0 + l1 * 0x1_0000_0000_0000_0000 + l2
                * 0x1_0000_0000_0000_0000_0000_0000_0000_0000 + l3
                * 0x1_0000_0000_0000_0000_0000_0000_0000_0000_0000_0000_0000_0000,
    {
        Uint256 { l0, l1, l2, l3 }
    }

    /// The low 128 bits, meaningful when the two high limbs are zero.
    fn low128(&self) -> (r: u128)
        ensures
            r == self.l0 + self.l1 * 0x1_0000_0000_0000_0000,
    {
        (self.l1 as u128) * 0x1_0000_0000_0000_0000u128 + (self.l0 as u128)
    }

    /// Whether the value is below `2^128`.
    fn fits_u128(&self) -> (r: bool)
        ensures
            r == (self@ < 0x1_0000_0000_0000_0000_0000_0000_0000_0000),
    {
        self.l2 == 0 && self.l3 == 0
    }

    /// Whether the value is below the sum of two 64-bit integers.
    pub fn lt_add(&self, a: u64, b: u64) -> (r: bool)
        ensures
            r == (self@ < a + b),
    {
        if !self.fits_u128() {
            false
        } else {
            proof {
                assert(self.l2 == 0 && self.l3 == 0);
            }
            self.low128() < (a as u128) + (b as u128)
        }
    }

    /// Whether the value exceeds the sum of two 64-bit integers.
    pub fn gt_add(&self, a: u64, b: u64) -> (r: bool)
        ensures
            r == (self@ > a + b),
    {
        if !self.fits_u128() {
            true
        } else {
            proof {
                assert(self.l2 == 0 && self.l3 == 0);
            }
            self.low128() > (a as u128) + (b as u128)
        }
    }

    /// Whether the value exceeds a 64-bit integer.
    pub fn gt_u64(&self, x: u64) -> (r: bool)
        ensures
            r == (self@ > x),
    {
        if !self.fits_u128() {
            true
        } else {
            proof {
                assert(self.l2 == 0 && self.l3 == 0);
            }
            self.low128() > (x as u128)
        }
    }

    /// Whether the value, raised by `c`, stays below the 64-bit integer `x`.
    pub fn add_lt_u64(&self, c: u64, x: u64) -> (r: bool)
        ensures
            r == (self@ + c < x),
    {
        if !self.fits_u128() {
            false
        } else {
            proof {
                assert(self.l2 == 0 && self.l3 == 0);
            }
            let low = self.low128();
            if low > u128::MAX - (c as u128) {
                false
            } else {
                low + (c as u128) < (x as u128)
            }
        }
    }

    /// The value raised by `c`, for values that fit in 64 bits.
    pub(crate) fn add_small(&self, c: u64) -> (r: Uint256)
        requires
            self@ < 0x1_0000_0000_0000_0000,
        ensures
            r@ == self@ + c,
    {
        proof {
            assert(self.l1 == 0 && self.l2 == 0 && self.l3 == 0);
        }
        if self.l0 <= u64::MAX - c {
            Uint256 { l0: self.l0 + c, l1: 0, l2: 0, l3: 0 }
        } else {
            Uint256 { l0: self.l0 - (u64::MAX - c) - 1, l1: 1, l2: 0, l3: 0 }
        }
    }
}

} // verus!
