//! Signed reading of words: sign and magnitude.

use crate::primitives::{lemma_word_bound, modulus, sign_bit, signed, unsigned, U256};
use crate::uint_ops::{div_mod, overflowing_add};
use vstd::arithmetic::div_mod::{lemma_div_is_strictly_smaller, lemma_div_nonincreasing};
use vstd::math::abs;
use vstd::prelude::*;

verus! {

/// The sign of a signed word.
#[derive(Clone, Copy, Debug, PartialEq, Eq, Structural)]
pub enum Sign {
    Plus,
    Minus,
    Zero,
}

/// A signed 256-bit number as sign and magnitude.
#[derive(Clone, Copy, Debug, PartialEq, Eq, Structural)]
pub struct I256(pub Sign, pub U256);

/// The quotient of two integers, rounded towards zero; 0 for the divisor 0.
pub open spec fn truncated_div(x: int, y: int) -> int {
    if y == 0 {
        0
    } else if (x < 0) != (y < 0) {
        -(abs(x) / abs(y))
    } else {
        (abs(x) / abs(y)) as int
    }
}

/// The remainder that goes with `truncated_div`: it has the sign of `x`; 0 for the divisor 0.
pub open spec fn truncated_rem(x: int, y: int) -> int {
    if y == 0 {
        0
    } else if x < 0 {
        -(abs(x) % abs(y))
    } else {
        (abs(x) % abs(y)) as int
    }
}

/// The two's-complement negation `2^256 - x` of a word, modulo 2^256.
pub fn negate(x: U256) -> (r: U256)
    ensures
        r@ == (modulus() - x@) % (modulus() as int),
        r@ == unsigned(-(x@ as int)),
{
    proof {
        lemma_word_bound(x);
    }
    let (r, _) = overflowing_add(x.not(), U256::one());
    r
}

impl I256 {
    /// The number that sign and magnitude stand for.
    pub open spec fn value(self) -> int {
        match self.0 {
            Sign::Zero => 0,
            Sign::Plus => self.1@ as int,
            Sign::Minus => -(self.1@ as int),
        }
    }

    /// The sign is `Zero` exactly for the magnitude 0, and the number fits 256 bits in two's
    /// complement.
    pub open spec fn wf(self) -> bool {
        &&& (self.0 == Sign::Zero) == (self.1@ == 0)
        &&& self.1@ <= sign_bit()
        &&& self.0 == Sign::Plus ==> self.1@ < sign_bit()
    }

    /// Zero.
    pub fn zero() -> (r: Self)
        ensures
            r.wf(),
            r.value() == 0,
    {
        I256(Sign::Zero, U256::zero())
    }

    /// The smallest number, -2^255.
    pub fn min_value() -> (r: Self)
        ensures
            r.wf(),
            r.value() == -(sign_bit() as int),
    {
        I256(Sign::Minus, U256 { w0: 0, w1: 0, w2: 0, w3: 0x8000_0000_0000_0000 })
    }

    /// The word read as a two's-complement number.
    pub fn from_u256(val: U256) -> (r: Self)
        ensures
            r.wf(),
            r.value() == signed(val@),
    {
        proof {
            lemma_word_bound(val);
        }
        if val.is_zero() {
            I256::zero()
        } else if !val.is_negative() {
            I256(Sign::Plus, val)
        } else {
            I256(Sign::Minus, negate(val))
        }
    }

    /// The two's-complement word of the number.
    pub fn to_u256(self) -> (r: U256)
        requires
            self.wf(),
        ensures
            r@ == unsigned(self.value()),
            signed(r@) == self.value(),
    {
        proof {
            lemma_word_bound(self.1);
        }
        match self.0 {
            Sign::Zero => U256::zero(),
            Sign::Plus => self.1,
            Sign::Minus => negate(self.1),
        }
    }

    /// Division that rounds towards zero. The divisor 0 gives 0, and the one quotient that
    /// does not fit, of -2^255 by -1, wraps to -2^255.
    pub fn div(self, other: I256) -> (r: I256)
        requires
            self.wf(),
            other.wf(),
        ensures
            r.wf(),
            unsigned(r.value()) == unsigned(truncated_div(self.value(), other.value())),
            !(self.value() == -(sign_bit() as int) && other.value() == -1) ==> r.value()
                == truncated_div(self.value(), other.value()),
    {
        if other.1.is_zero() {
            return I256::zero();
        }
        let (d, _) = div_mod(self.1, other.1);
        proof {
            lemma_word_bound(d);
            lemma_div_nonincreasing(self.1@ as int, other.1@ as int);
            if other.1@ >= 2 && self.1@ > 0 {
                lemma_div_is_strictly_smaller(self.1@ as int, other.1@ as int);
            }
        }
        if d.is_zero() {
            return I256::zero();
        }
        if d.is_negative() {
            proof {
                assert(self.1@ == sign_bit() && other.1@ == 1);
            }
            return I256::min_value();
        }
        let negative = match (self.0, other.0) {
            (Sign::Minus, Sign::Minus) => false,
            (Sign::Minus, _) => true,
            (_, Sign::Minus) => true,
            _ => false,
        };
        if negative {
            I256(Sign::Minus, d)
        } else {
            I256(Sign::Plus, d)
        }
    }

    /// The remainder of the division that rounds towards zero: it has the sign of `self`.
    /// The divisor 0 gives 0.
    pub fn rem(self, other: I256) -> (r: I256)
        requires
            self.wf(),
            other.wf(),
        ensures
            r.wf(),
            r.value() == truncated_rem(self.value(), other.value()),
    {
        if other.1.is_zero() {
            return I256::zero();
        }
        let (_, m) = div_mod(self.1, other.1);
        if m.is_zero() {
            return I256::zero();
        }
        match self.0 {
            Sign::Minus => I256(Sign::Minus, m),
            _ => I256(Sign::Plus, m),
        }
    }

    /// Signed `self < other`.
    pub fn lt(self, other: I256) -> (r: bool)
        requires
            self.wf(),
            other.wf(),
        ensures
            r == (self.value() < other.value()),
    {
        match (self.0, other.0) {
            (Sign::Minus, Sign::Minus) => other.1.lt(&self.1),
            (Sign::Minus, _) => true,
            (_, Sign::Minus) => false,
            _ => self.1.lt(&other.1),
        }
    }
}

} // verus!
