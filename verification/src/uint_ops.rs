//! Multi-limb arithmetic, done by the `primitive-types` crate.
//!
//! Every function here hands its operands to that crate and takes the answer on trust; the
//! contracts say what the crate computes, as numbers.

use crate::primitives::{modulus, U256, U512};
use vstd::arithmetic::power2::pow2;
use vstd::prelude::*;

verus! {

/// `primitive_types::U256::overflowing_add`: the sum modulo 2^256, and whether it wrapped.
#[verifier::external_body]
pub(crate) fn overflowing_add(a: U256, b: U256) -> (r: (U256, bool))
    ensures
        r.0@ == (a@ + b@) % modulus(),
        r.1 == (a@ + b@ >= modulus()),
{
    let x = primitive_types::U256([a.w0, a.w1, a.w2, a.w3]);
    let y = primitive_types::U256([b.w0, b.w1, b.w2, b.w3]);
    let (z, o) = x.overflowing_add(y);
    (U256 { w0: z.0[0], w1: z.0[1], w2: z.0[2], w3: z.0[3] }, o)
}

/// `primitive_types::U256::overflowing_sub`: the difference modulo 2^256, and whether it
/// wrapped.
#[verifier::external_body]
pub(crate) fn overflowing_sub(a: U256, b: U256) -> (r: (U256, bool))
    ensures
        r.0@ == (a@ - b@) % (modulus() as int),
        r.1 == (a@ < b@),
{
    let x = primitive_types::U256([a.w0, a.w1, a.w2, a.w3]);
    let y = primitive_types::U256([b.w0, b.w1, b.w2, b.w3]);
    let (z, o) = x.overflowing_sub(y);
    (U256 { w0: z.0[0], w1: z.0[1], w2: z.0[2], w3: z.0[3] }, o)
}

/// `primitive_types::U256::overflowing_mul`: the product modulo 2^256, and whether it wrapped.
#[verifier::external_body]
pub(crate) fn overflowing_mul(a: U256, b: U256) -> (r: (U256, bool))
    ensures
        r.0@ == (a@ * b@) % modulus(),
        r.1 == (a@ * b@ >= modulus()),
{
    let x = primitive_types::U256([a.w0, a.w1, a.w2, a.w3]);
    let y = primitive_types::U256([b.w0, b.w1, b.w2, b.w3]);
    let (z, o) = x.overflowing_mul(y);
    (U256 { w0: z.0[0], w1: z.0[1], w2: z.0[2], w3: z.0[3] }, o)
}

/// `primitive_types::U256::div_mod`: quotient and remainder of the division by a word that is
/// not zero.
#[verifier::external_body]
pub(crate) fn div_mod(a: U256, b: U256) -> (r: (U256, U256))
    requires
        b@ != 0,
    ensures
        r.0@ == a@ / b@,
        r.1@ == a@ % b@,
{
    let x = primitive_types::U256([a.w0, a.w1, a.w2, a.w3]);
    let y = primitive_types::U256([b.w0, b.w1, b.w2, b.w3]);
    let (q, m) = x.div_mod(y);
    (
        U256 { w0: q.0[0], w1: q.0[1], w2: q.0[2], w3: q.0[3] },
        U256 { w0: m.0[0], w1: m.0[1], w2: m.0[2], w3: m.0[3] },
    )
}

/// `primitive_types::U256`'s `<<` by fewer than 256 bits: the bits that leave at the top are
/// lost.
#[verifier::external_body]
pub(crate) fn shl(a: U256, shift: usize) -> (r: U256)
    requires
        shift < 256,
    ensures
        r@ == (a@ * pow2(shift as nat)) % modulus(),
{
    let z = primitive_types::U256([a.w0, a.w1, a.w2, a.w3]) << shift;
    U256 { w0: z.0[0], w1: z.0[1], w2: z.0[2], w3: z.0[3] }
}

/// `primitive_types::U256`'s `>>` by fewer than 256 bits.
#[verifier::external_body]
pub(crate) fn shr(a: U256, shift: usize) -> (r: U256)
    requires
        shift < 256,
    ensures
        r@ == a@ / pow2(shift as nat),
{
    let z = primitive_types::U256([a.w0, a.w1, a.w2, a.w3]) >> shift;
    U256 { w0: z.0[0], w1: z.0[1], w2: z.0[2], w3: z.0[3] }
}

/// `primitive_types::U256::full_mul`: the whole product, in 512 bits.
#[verifier::external_body]
pub(crate) fn full_mul(a: U256, b: U256) -> (r: U512)
    ensures
        r@ == a@ * b@,
{
    let x = primitive_types::U256([a.w0, a.w1, a.w2, a.w3]);
    let y = primitive_types::U256([b.w0, b.w1, b.w2, b.w3]);
    U512(x.full_mul(y).0)
}

/// `primitive_types::U512::overflowing_add`: the sum modulo 2^512, and whether it wrapped.
#[verifier::external_body]
pub(crate) fn wide_overflowing_add(a: U512, b: U512) -> (r: (U512, bool))
    ensures
        r.0@ == (a@ + b@) % (modulus() * modulus()),
        r.1 == (a@ + b@ >= modulus() * modulus()),
{
    let (z, o) = primitive_types::U512(a.0).overflowing_add(primitive_types::U512(b.0));
    (U512(z.0), o)
}

/// `primitive_types::U512::div_mod`: quotient and remainder of the division by a number that
/// is not zero.
#[verifier::external_body]
pub(crate) fn wide_div_mod(a: U512, b: U512) -> (r: (U512, U512))
    requires
        b@ != 0,
    ensures
        r.0@ == a@ / b@,
        r.1@ == a@ % b@,
{
    let (q, m) = primitive_types::U512(a.0).div_mod(primitive_types::U512(b.0));
    (U512(q.0), U512(m.0))
}

} // verus!
