//! The arithmetic instructions, as functions on words.

use crate::primitives::{
    lemma_pow2_in_word, lemma_pow2_values, lemma_word_bound, modulus, sign_bit, signed, unsigned,
    U256, U512,
};
use crate::uint_ops::{
    div_mod, full_mul, overflowing_add, overflowing_mul, overflowing_sub, shl, shr,
    wide_div_mod, wide_overflowing_add,
};
use crate::utils::{truncated_div, truncated_rem, I256};
use vstd::arithmetic::div_mod::{
    lemma_fundamental_div_mod, lemma_mod_bound, lemma_mul_mod_noop_general, lemma_small_mod,
};
use vstd::arithmetic::mul::lemma_mul_is_associative;
use vstd::arithmetic::power::{lemma_pow0, lemma_pow1, lemma_pow_adds, pow};
use vstd::arithmetic::power2::pow2;
use vstd::prelude::*;

verus! {

/// `ADD`: the sum modulo 2^256.
pub open spec fn add_spec(a: nat, b: nat) -> nat {
    (a + b) % modulus()
}

/// `SUB`: the difference modulo 2^256.
pub open spec fn sub_spec(a: nat, b: nat) -> nat {
    ((a - b) % (modulus() as int)) as nat
}

/// `MUL`: the product modulo 2^256.
pub open spec fn mul_spec(a: nat, b: nat) -> nat {
    (a * b) % modulus()
}

/// `DIV`: the quotient, and 0 for the divisor 0.
pub open spec fn div_spec(a: nat, b: nat) -> nat {
    if b == 0 {
        0
    } else {
        a / b
    }
}

/// `MOD`: the remainder, and 0 for the modulus 0.
pub open spec fn rem_spec(a: nat, b: nat) -> nat {
    if b == 0 {
        0
    } else {
        a % b
    }
}

/// `SDIV`: the signed quotient rounded towards zero, as a word; 0 for the divisor 0.
pub open spec fn sdiv_spec(a: nat, b: nat) -> nat {
    unsigned(truncated_div(signed(a), signed(b)))
}

/// `SMOD`: the signed remainder with the sign of the dividend, as a word; 0 for the modulus
/// 0.
pub open spec fn srem_spec(a: nat, b: nat) -> nat {
    unsigned(truncated_rem(signed(a), signed(b)))
}

/// `ADDMOD`: the sum, taken without wrapping, modulo `m`; 0 for the modulus 0.
pub open spec fn addmod_spec(a: nat, b: nat, m: nat) -> nat {
    if m == 0 {
        0
    } else {
        (a + b) % m
    }
}

/// `MULMOD`: the product, taken without wrapping, modulo `m`; 0 for the modulus 0.
pub open spec fn mulmod_spec(a: nat, b: nat, m: nat) -> nat {
    if m == 0 {
        0
    } else {
        (a * b) % m
    }
}

/// `EXP`: the power modulo 2^256.
pub open spec fn exp_spec(base: nat, exponent: nat) -> nat {
    (pow(base as int, exponent) % (modulus() as int)) as nat
}

/// `SIGNEXTEND`: the bits of `x` from bit `8 * b + 7` upwards are made equal to that bit. For
/// `b` of 32 and more the word stays as it is.
pub open spec fn signextend_spec(b: nat, x: nat) -> nat {
    if b < 32 {
        let t = 8 * b + 7;
        let low = x % pow2(t);
        if (x / pow2(t)) % 2 == 1 {
            (low + modulus() - pow2(t)) as nat
        } else {
            low
        }
    } else {
        x
    }
}

/// `ADD`.
pub fn add(op1: U256, op2: U256) -> (r: U256)
    ensures
        r@ == add_spec(op1@, op2@),
{
    overflowing_add(op1, op2).0
}

/// `SUB`.
pub fn sub(op1: U256, op2: U256) -> (r: U256)
    ensures
        r@ == sub_spec(op1@, op2@),
{
    overflowing_sub(op1, op2).0
}

/// `MUL`.
pub fn mul(op1: U256, op2: U256) -> (r: U256)
    ensures
        r@ == mul_spec(op1@, op2@),
{
    overflowing_mul(op1, op2).0
}

/// `DIV`.
pub fn div(op1: U256, op2: U256) -> (r: U256)
    ensures
        r@ == div_spec(op1@, op2@),
        op2@ == 0 ==> r@ == 0,
{
    if op2.is_zero() {
        U256::zero()
    } else {
        div_mod(op1, op2).0
    }
}

/// `MOD`.
pub fn rem(op1: U256, op2: U256) -> (r: U256)
    ensures
        r@ == rem_spec(op1@, op2@),
        op2@ == 0 ==> r@ == 0,
{
    if op2.is_zero() {
        U256::zero()
    } else {
        div_mod(op1, op2).1
    }
}

/// `SDIV`.
pub fn sdiv(op1: U256, op2: U256) -> (r: U256)
    ensures
        r@ == sdiv_spec(op1@, op2@),
{
    let a = I256::from_u256(op1);
    let b = I256::from_u256(op2);
    a.div(b).to_u256()
}

/// `SMOD`.
pub fn srem(op1: U256, op2: U256) -> (r: U256)
    ensures
        r@ == srem_spec(op1@, op2@),
        op2@ == 0 ==> r@ == 0,
{
    if op2.is_zero() {
        assert(signed(0) == 0);
        assert(truncated_rem(signed(op1@), 0) == 0);
        assert(unsigned(0) == 0);
        U256::zero()
    } else {
        let a = I256::from_u256(op1);
        let b = I256::from_u256(op2);
        let r = a.rem(b).to_u256();
        assert(r@ == unsigned(truncated_rem(signed(op1@), signed(op2@))));
        r
    }
}

/// `ADDMOD`.
pub fn addmod(op1: U256, op2: U256, op3: U256) -> (r: U256)
    ensures
        r@ == addmod_spec(op1@, op2@, op3@),
        op3@ == 0 ==> r@ == 0,
{
    if op3.is_zero() {
        return U256::zero();
    }
    let a = U512::from_u256(op1);
    let b = U512::from_u256(op2);
    let m = U512::from_u256(op3);
    let (sum, _) = wide_overflowing_add(a, b);
    proof {
        lemma_word_bound(op1);
        lemma_word_bound(op2);
        lemma_word_bound(op3);
        assert(a@ + b@ < modulus() * modulus()) by (nonlinear_arith)
            requires
                a@ + b@ < 2 * modulus(),
                modulus() >= 2,
        ;
        lemma_small_mod(a@ + b@, modulus() * modulus());
    }
    let (_, v) = wide_div_mod(sum, m);
    proof {
        lemma_mod_bound(sum@ as int, m@ as int);
    }
    v.low_u256()
}

/// `MULMOD`.
pub fn mulmod(op1: U256, op2: U256, op3: U256) -> (r: U256)
    ensures
        r@ == mulmod_spec(op1@, op2@, op3@),
        op3@ == 0 ==> r@ == 0,
{
    if op3.is_zero() {
        return U256::zero();
    }
    let m = U512::from_u256(op3);
    let product = full_mul(op1, op2);
    let (_, v) = wide_div_mod(product, m);
    proof {
        lemma_word_bound(op3);
        lemma_mod_bound(product@ as int, m@ as int);
    }
    v.low_u256()
}

/// One round of square-and-multiply keeps the product `r * b^e` the same modulo `m`.
proof fn lemma_exp_step(r: int, b: int, e: nat, m: int)
    requires
        m > 0,
        e > 0,
    ensures
        e % 2 == 1 ==> (((r * b) % m) * pow((b * b) % m, e / 2)) % m == (r * pow(b, e)) % m,
        e % 2 == 0 ==> (r * pow((b * b) % m, e / 2)) % m == (r * pow(b, e)) % m,
{
    let h = e / 2;
    let sq = (b * b) % m;
    // pow(sq, h) is congruent to pow(b * b, h) == pow(b, 2 * h)
    vstd::arithmetic::power::lemma_pow_mod_noop(b * b, h, m);
    assert(pow(sq, h) % m == pow(b * b, h) % m);
    vstd::arithmetic::power::lemma_pow_distributes(b, b, h);
    lemma_pow_adds(b, h, h);
    assert(pow(b * b, h) == pow(b, h + h));
    if e % 2 == 1 {
        assert(e == h + h + 1);
        lemma_pow_adds(b, 1, h + h);
        lemma_pow1(b);
        assert(pow(b, e) == b * pow(b, h + h));
        // ((r*b) % m * pow(sq,h)) % m == (r*b * pow(b,2h)) % m
        lemma_mul_mod_noop_general(r * b, pow(sq, h), m);
        lemma_mul_mod_noop_general(r * b, pow(b, h + h), m);
        lemma_mul_is_associative(r, b, pow(b, h + h));
    } else {
        assert(e == h + h);
        lemma_mul_mod_noop_general(r, pow(sq, h), m);
        lemma_mul_mod_noop_general(r, pow(b, h + h), m);
    }
}

/// `EXP`, by square and multiply.
pub fn exp(op1: U256, op2: U256) -> (r: U256)
    ensures
        r@ == exp_spec(op1@, op2@),
        op2@ == 0 ==> r@ == 1,
{
    let mut base = op1;
    let mut exponent = op2;
    let mut r = U256::one();
    proof {
        lemma_pow2_values();
        lemma_word_bound(op1);
        lemma_pow0(op1@ as int);
        assert(1 * pow(op1@ as int, op2@) == pow(op1@ as int, op2@));
    }
    while !exponent.is_zero()
        invariant
            (r@ * pow(base@ as int, exponent@)) % (modulus() as int) == pow(op1@ as int, op2@) % (
            modulus() as int),
            op2@ == 0 ==> exponent@ == 0 && r@ == 1,
        decreases exponent@,
    {
        proof {
            lemma_pow2_values();
            lemma_word_bound(r);
            lemma_word_bound(base);
            lemma_exp_step(r@ as int, base@ as int, exponent@, modulus() as int);
            assert(pow2(1) == 2) by {
                vstd::arithmetic::power2::lemma2_to64();
            }
        }
        let odd = exponent.low_u64() % 2 == 1;
        assert(odd == (exponent@ % 2 == 1));
        if odd {
            r = overflowing_mul(r, base).0;
        }
        exponent = shr(exponent, 1);
        base = overflowing_mul(base, base).0;
    }
    proof {
        lemma_pow0(base@ as int);
        lemma_word_bound(r);
        assert(r@ * 1 == r@);
        lemma_small_mod(r@, modulus());
    }
    r
}

/// `SIGNEXTEND`.
pub fn signextend(op1: U256, op2: U256) -> (r: U256)
    ensures
        r@ == signextend_spec(op1@, op2@),
        op1@ >= 31 ==> r == op2,
{
    if op1.lt(&U256::from_u64(32)) {
        let b: u64 = op1.low_u64();
        let t: usize = (8 * b + 7) as usize;
        proof {
            lemma_pow2_values();
            lemma_pow2_in_word(t as nat);
            lemma_word_bound(op2);
            lemma_small_mod(1 * pow2(t as nat), modulus());
        }
        let top = shr(op2, t);
        let negative = top.low_u64() % 2 == 1;
        assert(negative == ((op2@ / pow2(t as nat)) % 2 == 1));
        let weight = shl(U256::one(), t);
        assert(weight@ == pow2(t as nat));
        let (_, low) = div_mod(op2, weight);
        let r = if negative {
            let high = overflowing_sub(U256::zero(), weight).0;
            assert(high@ == modulus() - pow2(t as nat));
            proof {
                lemma_mod_bound(op2@ as int, weight@ as int);
                lemma_small_mod((low@ + high@) as nat, modulus());
            }
            overflowing_add(low, high).0
        } else {
            low
        };
        proof {
            if op1@ == 31 {
                lemma_fundamental_div_mod(op2@ as int, pow2(255) as int);
                assert(r@ == op2@);
                crate::primitives::lemma_view_injective(r, op2);
            }
        }
        r
    } else {
        op2
    }
}

/// The one signed quotient that does not fit, of -2^255 by -1, is -2^255 again.
pub proof fn lemma_sdiv_min_by_minus_one()
    ensures
        signed(sign_bit()) == -(sign_bit() as int),
        signed((modulus() - 1) as nat) == -1,
        sdiv_spec(sign_bit(), (modulus() - 1) as nat) == sign_bit(),
{
    let q = truncated_div(signed(sign_bit()), signed((modulus() - 1) as nat));
    assert(vstd::math::abs(-(sign_bit() as int)) / vstd::math::abs(-1) == sign_bit());
    assert(q == sign_bit());
    lemma_small_mod(sign_bit(), modulus());
}

/// Division and remainder by zero, and sums and products modulo zero, are zero.
pub proof fn lemma_zero_divisor(x: nat, y: nat)
    ensures
        div_spec(x, 0) == 0,
        rem_spec(x, 0) == 0,
        addmod_spec(x, y, 0) == 0,
        mulmod_spec(x, y, 0) == 0,
{
}

/// Every number to the power 0 is 1, zero too.
pub proof fn lemma_exp_zero(x: nat)
    ensures
        exp_spec(x, 0) == 1,
{
    lemma_pow0(x as int);
    lemma_small_mod(1, modulus());
}

} // verus!
