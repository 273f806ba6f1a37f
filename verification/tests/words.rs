use evm_core::eval::arithmetic::{
    add, addmod, div, exp, mul, mulmod, rem, sdiv, signextend, srem, sub,
};
use evm_core::eval::bitwise::{
    and, byte, eq, gt, iszero, lt, not, or, sar, sgt, shl, shr, slt, xor,
};
use evm_core::utils::{negate, Sign, I256};
use evm_core::{H160, H256, U256};

fn w(n: u64) -> U256 {
    U256::from_u64(n)
}

fn max() -> U256 {
    U256::max_value()
}

fn min_signed() -> U256 {
    U256 {
        w0: 0,
        w1: 0,
        w2: 0,
        w3: 0x8000_0000_0000_0000,
    }
}

fn neg(n: u64) -> U256 {
    negate(w(n))
}

#[test]
fn add_wraps_modulo_word() {
    assert_eq!(add(w(2), w(3)), w(5));
    assert_eq!(add(max(), w(1)), w(0));
    assert_eq!(add(max(), max()), sub(max(), w(1)));
    let carry = U256 {
        w0: u64::MAX,
        w1: 0,
        w2: 0,
        w3: 0,
    };
    assert_eq!(
        add(carry, w(1)),
        U256 {
            w0: 0,
            w1: 1,
            w2: 0,
            w3: 0
        }
    );
}

#[test]
fn sub_wraps_modulo_word() {
    assert_eq!(sub(w(5), w(3)), w(2));
    assert_eq!(sub(w(0), w(1)), max());
    assert_eq!(sub(w(3), w(5)), neg(2));
}

#[test]
fn mul_wraps_modulo_word() {
    assert_eq!(mul(w(7), w(6)), w(42));
    assert_eq!(mul(min_signed(), w(2)), w(0));
    assert_eq!(mul(max(), max()), w(1));
}

#[test]
fn division_by_zero_is_zero() {
    assert_eq!(div(w(7), w(0)), w(0));
    assert_eq!(rem(w(7), w(0)), w(0));
    assert_eq!(sdiv(w(7), w(0)), w(0));
    assert_eq!(srem(w(7), w(0)), w(0));
    assert_eq!(addmod(w(7), w(8), w(0)), w(0));
    assert_eq!(mulmod(w(7), w(8), w(0)), w(0));
    assert_eq!(div(max(), w(0)), w(0));
}

#[test]
fn unsigned_division() {
    assert_eq!(div(w(7), w(2)), w(3));
    assert_eq!(rem(w(7), w(2)), w(1));
    assert_eq!(div(max(), max()), w(1));
    assert_eq!(div(w(1), max()), w(0));
    assert_eq!(rem(w(1), max()), w(1));
    assert_eq!(
        div(min_signed(), w(2)),
        U256 {
            w0: 0,
            w1: 0,
            w2: 0,
            w3: 0x4000_0000_0000_0000
        }
    );
}

#[test]
fn signed_division() {
    assert_eq!(sdiv(min_signed(), max()), min_signed());
    assert_eq!(sdiv(neg(7), w(2)), neg(3));
    assert_eq!(sdiv(w(7), neg(2)), neg(3));
    assert_eq!(sdiv(neg(7), neg(2)), w(3));
    assert_eq!(sdiv(min_signed(), w(1)), min_signed());
    assert_eq!(srem(neg(7), w(2)), neg(1));
    assert_eq!(srem(w(7), neg(2)), w(1));
    assert_eq!(srem(neg(7), neg(2)), neg(1));
    assert_eq!(srem(min_signed(), max()), w(0));
}

#[test]
fn modular_sum_and_product_do_not_wrap() {
    assert_eq!(addmod(max(), max(), w(7)), w(2));
    assert_eq!(mulmod(max(), max(), w(7)), w(1));
    assert_eq!(mulmod(min_signed(), w(2), max()), w(1));
    assert_eq!(addmod(w(5), w(6), w(4)), w(3));
    assert_eq!(addmod(max(), w(1), max()), w(1));
}

#[test]
fn exponentiation() {
    assert_eq!(exp(w(0), w(0)), w(1));
    assert_eq!(exp(w(12345), w(0)), w(1));
    assert_eq!(exp(max(), w(0)), w(1));
    assert_eq!(exp(w(2), w(10)), w(1024));
    assert_eq!(exp(w(3), w(5)), w(243));
    assert_eq!(exp(w(2), w(255)), min_signed());
    assert_eq!(exp(w(2), w(256)), w(0));
    assert_eq!(exp(w(0), w(5)), w(0));
    assert_eq!(exp(max(), w(2)), w(1));
}

#[test]
fn sign_extension() {
    assert_eq!(signextend(w(0), w(0xff)), max());
    assert_eq!(signextend(w(0), w(0x7f)), w(0x7f));
    assert_eq!(signextend(w(0), w(0x1ff)), max());
    assert_eq!(signextend(w(0), w(0x17f)), w(0x7f));
    assert_eq!(signextend(w(1), w(0x8000)), neg(0x8000));
    assert_eq!(signextend(w(31), min_signed()), min_signed());
    assert_eq!(signextend(w(31), w(0x1234)), w(0x1234));
    assert_eq!(signextend(w(32), w(0xff)), w(0xff));
    assert_eq!(signextend(max(), w(0xff)), w(0xff));
}

#[test]
fn byte_is_shift_and_mask() {
    let v = U256 {
        w0: 0x1122_3344_5566_7788,
        w1: 0x99aa_bbcc_ddee_ff00,
        w2: 0x0102_0304_0506_0708,
        w3: 0x8090_a0b0_c0d0_e0f0,
    };
    let expected: [u64; 32] = [
        0x80, 0x90, 0xa0, 0xb0, 0xc0, 0xd0, 0xe0, 0xf0, 0x01, 0x02, 0x03, 0x04, 0x05, 0x06, 0x07,
        0x08, 0x99, 0xaa, 0xbb, 0xcc, 0xdd, 0xee, 0xff, 0x00, 0x11, 0x22, 0x33, 0x44, 0x55, 0x66,
        0x77, 0x88,
    ];
    for i in 0..32u64 {
        assert_eq!(byte(w(i), v), w(expected[i as usize]));
        assert_eq!(byte(w(i), v), and(shr(w(8 * (31 - i)), v), w(0xff)));
    }
    assert_eq!(byte(w(32), v), w(0));
    assert_eq!(byte(max(), v), w(0));
}

#[test]
fn shifts() {
    assert_eq!(shl(w(1), w(1)), w(2));
    assert_eq!(shl(w(255), w(1)), min_signed());
    assert_eq!(shl(w(256), w(1)), w(0));
    assert_eq!(shl(w(1), max()), sub(max(), w(1)));
    assert_eq!(shl(max(), w(1)), w(0));
    assert_eq!(
        shr(w(1), min_signed()),
        U256 {
            w0: 0,
            w1: 0,
            w2: 0,
            w3: 0x4000_0000_0000_0000
        }
    );
    assert_eq!(shr(w(255), min_signed()), w(1));
    assert_eq!(shr(w(256), max()), w(0));
    assert_eq!(shr(w(64), U256 { w0: 5, w1: 9, w2: 0, w3: 0 }), w(9));
    assert_eq!(sar(w(1), neg(2)), max());
    assert_eq!(sar(w(1), max()), max());
    assert_eq!(sar(w(1), neg(5)), neg(3));
    assert_eq!(sar(w(4), w(0x100)), w(0x10));
    assert_eq!(sar(w(256), neg(5)), max());
    assert_eq!(sar(w(256), w(5)), w(0));
    assert_eq!(sar(max(), min_signed()), max());
    assert_eq!(
        sar(w(1), min_signed()),
        U256 {
            w0: 0,
            w1: 0,
            w2: 0,
            w3: 0xc000_0000_0000_0000
        }
    );
}

#[test]
fn comparisons_push_zero_or_one() {
    assert_eq!(lt(w(1), w(2)), w(1));
    assert_eq!(lt(w(2), w(1)), w(0));
    assert_eq!(lt(w(2), w(2)), w(0));
    assert_eq!(gt(w(2), w(1)), w(1));
    assert_eq!(gt(w(1), w(2)), w(0));
    assert_eq!(lt(w(1), max()), w(1));
    assert_eq!(slt(w(1), max()), w(0));
    assert_eq!(slt(max(), w(1)), w(1));
    assert_eq!(sgt(w(1), max()), w(1));
    assert_eq!(slt(neg(2), neg(1)), w(1));
    assert_eq!(sgt(neg(2), neg(1)), w(0));
    assert_eq!(slt(neg(1), neg(2)), w(0));
    assert_eq!(sgt(neg(1), neg(2)), w(1));
    assert_eq!(slt(min_signed(), w(0)), w(1));
    assert_eq!(eq(w(7), w(7)), w(1));
    assert_eq!(eq(w(7), w(8)), w(0));
    assert_eq!(iszero(w(0)), w(1));
    assert_eq!(iszero(min_signed()), w(0));
}

#[test]
fn bitwise_operations() {
    assert_eq!(and(w(0b1100), w(0b1010)), w(0b1000));
    assert_eq!(or(w(0b1100), w(0b1010)), w(0b1110));
    assert_eq!(xor(w(0b1100), w(0b1010)), w(0b0110));
    assert_eq!(not(w(0)), max());
    assert_eq!(not(max()), w(0));
    assert_eq!(and(max(), min_signed()), min_signed());
}

#[test]
fn unsigned_order_goes_by_the_highest_limb() {
    let high = U256 {
        w0: 0,
        w1: 0,
        w2: 1,
        w3: 0,
    };
    let low = U256 {
        w0: u64::MAX,
        w1: u64::MAX,
        w2: 0,
        w3: 0,
    };
    assert!(low.lt(&high));
    assert!(high.gt(&low));
    assert!(!high.lt(&high));
    assert!(min_signed().is_negative());
    assert!(!w(5).is_negative());
}

#[test]
fn conversions_to_machine_integers() {
    assert_eq!(w(5).to_u64(), Some(5));
    assert_eq!(w(5).to_usize(), Some(5));
    assert_eq!(max().to_u64(), None);
    assert_eq!(max().to_usize(), None);
    assert_eq!(U256 { w0: 0, w1: 1, w2: 0, w3: 0 }.to_usize(), None);
    assert_eq!(U256::from_usize(77), w(77));
    assert_eq!(w(9).low_u64(), 9);
    assert!(U256::zero().is_zero());
    assert!(!U256::one().is_zero());
}

#[test]
fn big_endian_round_trip() {
    let v = U256 {
        w0: 0x1122_3344_5566_7788,
        w1: 0x99aa_bbcc_ddee_ff00,
        w2: 0x0102_0304_0506_0708,
        w3: 0x8090_a0b0_c0d0_e0f0,
    };
    let bytes = v.to_big_endian();
    assert_eq!(bytes[0], 0x80);
    assert_eq!(bytes[7], 0xf0);
    assert_eq!(bytes[8], 0x01);
    assert_eq!(bytes[24], 0x11);
    assert_eq!(bytes[31], 0x88);
    assert_eq!(U256::from_big_endian(&bytes), v);
    assert_eq!(U256::from_big_endian(&[0x12, 0x34]), w(0x1234));
    assert_eq!(U256::from_big_endian(&[]), w(0));
    assert_eq!(H256::from_u256(v).to_u256(), v);
    assert_eq!(H256::zero().to_u256(), w(0));
}

#[test]
fn addresses_sit_in_the_low_twenty_bytes() {
    let mut a = [0u8; 20];
    for i in 0..20 {
        a[i] = (i + 1) as u8;
    }
    let address = H160(a);
    let hash = H256::from_h160(&address);
    assert_eq!(&hash.0[..12], &[0u8; 12]);
    assert_eq!(&hash.0[12..], &a[..]);
    assert_eq!(hash.to_h160(), address);
    assert_eq!(H160::zero(), H160([0u8; 20]));
    let mut full = [0xffu8; 32];
    full[31] = 7;
    assert_eq!(H256(full).to_h160().0[19], 7);
    assert_eq!(H256(full).to_h160().0[0], 0xff);
}

#[test]
fn signed_words() {
    assert_eq!(I256::from_u256(w(0)), I256(Sign::Zero, w(0)));
    assert_eq!(I256::from_u256(w(5)), I256(Sign::Plus, w(5)));
    assert_eq!(I256::from_u256(max()), I256(Sign::Minus, w(1)));
    assert_eq!(I256::from_u256(min_signed()), I256::min_value());
    assert_eq!(I256(Sign::Minus, w(1)).to_u256(), max());
    assert_eq!(I256(Sign::Plus, w(9)).to_u256(), w(9));
    assert_eq!(
        I256::min_value().div(I256(Sign::Minus, w(1))),
        I256::min_value()
    );
    assert_eq!(
        I256(Sign::Minus, w(7)).rem(I256(Sign::Plus, w(4))),
        I256(Sign::Minus, w(3))
    );
    assert!(I256(Sign::Minus, w(2)).lt(I256(Sign::Minus, w(1))));
    assert!(!I256(Sign::Plus, w(2)).lt(I256(Sign::Minus, w(1))));
    assert_eq!(negate(w(0)), w(0));
    assert_eq!(negate(w(1)), max());
}
