//! The comparison, bitwise and shift instructions, as functions on words.

use crate::primitives::{
    lemma_pow2_in_word, lemma_pow2_values, lemma_word_bound, modulus, signed, unsigned, word_of,
    U256,
};
use crate::uint_ops::{overflowing_add, overflowing_sub, shl as shift_left, shr as shift_right};
use crate::utils::{negate, I256, Sign};
use vstd::arithmetic::div_mod::{
    lemma_fundamental_div_mod, lemma_fundamental_div_mod_converse, lemma_mod_bound,
    lemma_small_mod,
};
use vstd::arithmetic::power2::{lemma_pow2_pos, pow2};
use vstd::prelude::*;

verus! {

/// The word for a truth value: 1 for true, 0 for false.
pub open spec fn bool_word(b: bool) -> U256 {
    if b {
        U256 { w0: 1, w1: 0, w2: 0, w3: 0 }
    } else {
        U256 { w0: 0, w1: 0, w2: 0, w3: 0 }
    }
}

/// `BYTE`: byte `i` of `x`, counted from the most significant one; 0 for `i` of 32 and more.
pub open spec fn byte_spec(i: nat, x: nat) -> nat {
    if i < 32 {
        (x / pow2((8 * (31 - i)) as nat)) % 256
    } else {
        0
    }
}

/// `SHL`: the word shifted left, the bits that leave at the top being lost; 0 for a shift of
/// 256 and more.
pub open spec fn shl_spec(shift: nat, value: nat) -> nat {
    if shift >= 256 {
        0
    } else {
        (value * pow2(shift)) % modulus()
    }
}

/// `SHR`: the word shifted right; 0 for a shift of 256 and more.
pub open spec fn shr_spec(shift: nat, value: nat) -> nat {
    if shift >= 256 {
        0
    } else {
        value / pow2(shift)
    }
}

/// `SAR`: the signed word divided by 2^shift and rounded down; for a shift of 256 and more,
/// all ones for a negative word and 0 for another.
pub open spec fn sar_spec(shift: nat, value: nat) -> nat {
    if shift >= 256 {
        if signed(value) < 0 {
            (modulus() - 1) as nat
        } else {
            0
        }
    } else {
        unsigned(signed(value) / (pow2(shift) as int))
    }
}

/// The word for a truth value.
pub fn from_bool(b: bool) -> (r: U256)
    ensures
        r == bool_word(b),
        r@ == (if b {
            1nat
        } else {
            0nat
        }),
{
    if b {
        U256::one()
    } else {
        U256::zero()
    }
}

/// `LT`: 1 if `op1 < op2` as unsigned numbers, else 0.
pub fn lt(op1: U256, op2: U256) -> (r: U256)
    ensures
        r == bool_word(op1@ < op2@),
{
    from_bool(op1.lt(&op2))
}

/// `GT`: 1 if `op1 > op2` as unsigned numbers, else 0.
pub fn gt(op1: U256, op2: U256) -> (r: U256)
    ensures
        r == bool_word(op1@ > op2@),
{
    from_bool(op1.gt(&op2))
}

/// `SLT`: 1 if `op1 < op2` as signed numbers, else 0.
pub fn slt(op1: U256, op2: U256) -> (r: U256)
    ensures
        r == bool_word(signed(op1@) < signed(op2@)),
{
    let a = I256::from_u256(op1);
    let b = I256::from_u256(op2);
    from_bool(a.lt(b))
}

/// `SGT`: 1 if `op1 > op2` as signed numbers, else 0.
pub fn sgt(op1: U256, op2: U256) -> (r: U256)
    ensures
        r == bool_word(signed(op1@) > signed(op2@)),
{
    let a = I256::from_u256(op1);
    let b = I256::from_u256(op2);
    from_bool(b.lt(a))
}

/// `EQ`: 1 if the words are equal, else 0.
pub fn eq(op1: U256, op2: U256) -> (r: U256)
    ensures
        r == bool_word(op1 == op2),
{
    from_bool(op1 == op2)
}

/// `ISZERO`: 1 if the word is 0, else 0.
pub fn iszero(op1: U256) -> (r: U256)
    ensures
        r == bool_word(op1@ == 0),
{
    from_bool(op1.is_zero())
}

/// `AND`.
pub fn and(op1: U256, op2: U256) -> (r: U256)
    ensures
        r == op1.and_spec(op2),
{
    op1.bitand(op2)
}

/// `OR`.
pub fn or(op1: U256, op2: U256) -> (r: U256)
    ensures
        r == op1.or_spec(op2),
{
    op1.bitor(op2)
}

/// `XOR`.
pub fn xor(op1: U256, op2: U256) -> (r: U256)
    ensures
        r == op1.xor_spec(op2),
{
    op1.bitxor(op2)
}

/// `NOT`.
pub fn not(op1: U256) -> (r: U256)
    ensures
        r == op1.not_spec(),
        r@ == modulus() - 1 - op1@,
{
    op1.not()
}

/// The low byte of a limb is the limb modulo 256.
proof fn lemma_low_byte(w: u64)
    ensures
        w & 0xff == w % 256,
{
    assert(w & 0xff == w % 256) by (bit_vector);
}

/// The word that keeps the lowest byte of `x` only; as a number, `x` modulo 256.
pub proof fn lemma_and_low_byte(x: U256)
    ensures
        x.and_spec(U256 { w0: 0xff, w1: 0, w2: 0, w3: 0 })@ == x@ % 256,
{
    lemma_low_byte(x.w0);
    lemma_low_limb_mod(x);
    assert(x.w1 & 0 == 0) by (bit_vector);
    assert(x.w2 & 0 == 0) by (bit_vector);
    assert(x.w3 & 0 == 0) by (bit_vector);
}

/// A word modulo 256 is its lowest limb modulo 256.
proof fn lemma_low_limb_mod(x: U256)
    ensures
        x@ % 256 == x.w0 % 256,
{
    let k: int = x.w1 as int * 0x100_0000_0000_0000 + x.w2 as int
        * 0x100_0000_0000_0000_0000_0000_0000_0000 + x.w3 as int
        * 0x100_0000_0000_0000_0000_0000_0000_0000_0000_0000_0000_0000;
    assert(x@ == 256 * k + x.w0);
    vstd::arithmetic::div_mod::lemma_mod_multiples_vanish(k, x.w0 as int, 256);
}

/// `BYTE`.
pub fn byte(op1: U256, op2: U256) -> (r: U256)
    ensures
        r@ == byte_spec(op1@, op2@),
        op1@ < 32 ==> r@ == shr_spec((8 * (31 - op1@)) as nat, op2@) % 256,
{
    if op1.lt(&U256::from_u64(32)) {
        let i: usize = op1.low_u64() as usize;
        let shifted = shift_right(op2, 8 * (31 - i));
        proof {
            lemma_low_byte(shifted.w0);
            lemma_low_limb_mod(shifted);
        }
        U256::from_u64(shifted.low_u64() & 0xff)
    } else {
        U256::zero()
    }
}

/// `SHL`.
pub fn shl(shift: U256, value: U256) -> (r: U256)
    ensures
        r@ == shl_spec(shift@, value@),
{
    if shift.lt(&U256::from_u64(256)) {
        shift_left(value, shift.low_u64() as usize)
    } else {
        U256::zero()
    }
}

/// `SHR`.
pub fn shr(shift: U256, value: U256) -> (r: U256)
    ensures
        r@ == shr_spec(shift@, value@),
{
    if shift.lt(&U256::from_u64(256)) {
        shift_right(value, shift.low_u64() as usize)
    } else {
        U256::zero()
    }
}

/// Rounding down the quotient of a negative number: `-m / d == -((m - 1) / d + 1)`.
proof fn lemma_div_negative(m: int, d: int)
    requires
        m >= 1,
        d > 0,
    ensures
        (-m) / d == -((m - 1) / d + 1),
{
    let q = (m - 1) / d;
    let r = (m - 1) % d;
    lemma_fundamental_div_mod(m - 1, d);
    lemma_mod_bound(m - 1, d);
    assert(-m == (-(q + 1)) * d + (d - 1 - r)) by (nonlinear_arith)
        requires
            m - 1 == d * q + r,
    ;
    lemma_fundamental_div_mod_converse(-m, d, -(q + 1), d - 1 - r);
}

/// `SAR`.
pub fn sar(shift: U256, value: U256) -> (r: U256)
    ensures
        r@ == sar_spec(shift@, value@),
{
    let signed_value = I256::from_u256(value);
    proof {
        lemma_word_bound(value);
    }
    if shift.lt(&U256::from_u64(256)) {
        let s: usize = shift.low_u64() as usize;
        proof {
            lemma_pow2_values();
            lemma_pow2_in_word(s as nat);
        }
        match signed_value.0 {
            Sign::Minus => {
                let magnitude = signed_value.1;
                let shifted = overflowing_add(
                    shift_right(overflowing_sub(magnitude, U256::one()).0, s),
                    U256::one(),
                ).0;
                proof {
                    let m = magnitude@ as int;
                    let d = pow2(s as nat) as int;
                    lemma_small_mod((m - 1) as nat, modulus());
                    vstd::arithmetic::div_mod::lemma_div_nonincreasing(m - 1, d);
                    vstd::arithmetic::div_mod::lemma_div_pos_is_pos(m - 1, d);
                    lemma_small_mod(((m - 1) / d + 1) as nat, modulus());
                    lemma_div_negative(m, d);
                    assert(shifted@ == (m - 1) / d + 1);
                    assert(signed(value@) == -m);
                }
                negate(shifted)
            },
            _ => {
                let r = shift_right(value, s);
                proof {
                    let d = pow2(s as nat) as int;
                    vstd::arithmetic::div_mod::lemma_div_nonincreasing(value@ as int, d);
                    vstd::arithmetic::div_mod::lemma_div_pos_is_pos(value@ as int, d);
                    lemma_small_mod(r@, modulus());
                }
                r
            },
        }
    } else {
        match signed_value.0 {
            Sign::Minus => U256::max_value(),
            _ => U256::zero(),
        }
    }
}

/// `BYTE` is a shift and a mask: byte `i` of `v` is `v` shifted right by `8 * (31 - i)` bits,
/// and of that the lowest byte.
pub proof fn lemma_byte_is_shift_and_mask(i: nat, v: U256)
    requires
        i < 32,
    ensures
        byte_spec(i, v@) == shr_spec((8 * (31 - i)) as nat, v@) % 256,
        word_of(byte_spec(i, v@)) == word_of(shr_spec((8 * (31 - i)) as nat, v@)).and_spec(
            U256 { w0: 0xff, w1: 0, w2: 0, w3: 0 },
        ),
{
    let shift = (8 * (31 - i)) as nat;
    let shifted = word_of(shr_spec(shift, v@));
    lemma_word_bound(v);
    lemma_pow2_pos(shift);
    vstd::arithmetic::div_mod::lemma_div_nonincreasing(v@ as int, pow2(shift) as int);
    vstd::arithmetic::div_mod::lemma_div_pos_is_pos(v@ as int, pow2(shift) as int);
    crate::primitives::lemma_word_of_value(shr_spec(shift, v@));
    lemma_and_low_byte(shifted);
    let masked = shifted.and_spec(U256 { w0: 0xff, w1: 0, w2: 0, w3: 0 });
    crate::primitives::lemma_word_of_view(masked);
}

} // verus!
