//! Fixed-width values: the 256-bit word, the 512-bit intermediate, hashes and addresses.

use vstd::arithmetic::power2::{lemma2_to64, lemma2_to64_rest, lemma_pow2_adds, lemma_pow2_pos, lemma_pow2_strictly_increases, pow2};
use vstd::prelude::*;

verus! {

/// 2^64, the weight of the second limb.
pub open spec fn limb_base() -> nat {
    0x1_0000_0000_0000_0000
}

/// 2^128.
pub open spec fn pow2_128() -> nat {
    0x1_0000_0000_0000_0000_0000_0000_0000_0000nat
}

/// 2^192.
pub open spec fn pow2_192() -> nat {
    0x1_0000_0000_0000_0000_0000_0000_0000_0000_0000_0000_0000_0000nat
}

/// 2^255, the weight of the sign bit.
pub open spec fn sign_bit() -> nat {
    0x8000_0000_0000_0000_0000_0000_0000_0000_0000_0000_0000_0000_0000_0000_0000_0000nat
}

/// 2^256, the modulus of word arithmetic.
pub open spec fn modulus() -> nat {
    0x1_0000_0000_0000_0000_0000_0000_0000_0000_0000_0000_0000_0000_0000_0000_0000_0000nat
}

/// A 256-bit unsigned word in four 64-bit limbs, least significant first.
#[derive(Clone, Copy, Debug, PartialEq, Eq, Structural, Hash)]
pub struct U256 {
    pub w0: u64,
    pub w1: u64,
    pub w2: u64,
    pub w3: u64,
}

impl View for U256 {
    type V = nat;

    /// The number that the word stands for.
    open spec fn view(&self) -> nat {
        self.w0 as nat + self.w1 as nat * limb_base() + self.w2 as nat * pow2_128() + self.w3 as nat
            * pow2_192()
    }
}

/// A 512-bit unsigned integer in eight 64-bit limbs, least significant first.
#[derive(Clone, Copy, Debug, PartialEq, Eq)]
pub struct U512(pub [u64; 8]);

impl View for U512 {
    type V = nat;

    /// The number that the eight limbs stand for.
    open spec fn view(&self) -> nat {
        self.low()@ + self.high()@ * modulus()
    }
}

impl U512 {
    /// The lower four limbs as a word.
    pub open spec fn low(self) -> U256 {
        U256 { w0: self.0@[0], w1: self.0@[1], w2: self.0@[2], w3: self.0@[3] }
    }

    /// The upper four limbs as a word.
    pub open spec fn high(self) -> U256 {
        U256 { w0: self.0@[4], w1: self.0@[5], w2: self.0@[6], w3: self.0@[7] }
    }

    /// The word as a 512-bit number.
    pub fn from_u256(x: U256) -> (r: Self)
        ensures
            r@ == x@,
    {
        U512([x.w0, x.w1, x.w2, x.w3, 0, 0, 0, 0])
    }

    /// The lower four limbs as a word: the number itself, where it is below 2^256.
    pub fn low_u256(&self) -> (r: U256)
        ensures
            r == self.low(),
            self@ < modulus() ==> r@ == self@,
    {
        proof {
            if self@ < modulus() {
                assert(self.high()@ == 0) by (nonlinear_arith)
                    requires
                        self.low()@ + self.high()@ * modulus() < modulus(),
                        modulus() > 0,
                ;
            }
        }
        U256 { w0: self.0[0], w1: self.0[1], w2: self.0[2], w3: self.0[3] }
    }
}

/// Byte `i` of a sequence, zero outside of it.
pub open spec fn byte_at(m: Seq<u8>, i: int) -> u8 {
    if 0 <= i < m.len() {
        m[i]
    } else {
        0
    }
}

/// The `len` bytes of a source from `offset` on, zero where the source has none.
pub open spec fn source_window(src: Seq<u8>, offset: nat, len: nat) -> Seq<u8> {
    Seq::new(len, |i: int| byte_at(src, offset + i))
}

/// At most 32 bytes with zero bytes in front to make 32.
pub open spec fn left_padded(s: Seq<u8>) -> Seq<u8> {
    Seq::new(32, |i: int| byte_at(s, i - (32 - s.len())))
}

/// Byte `j` of a limb, counted from the least significant one.
pub open spec fn limb_byte(w: u64, j: nat) -> u8 {
    ((w >> ((8 * j) as u64)) & 0xff) as u8
}

/// The limb whose big-endian bytes are `s[at..at + 8]`.
pub open spec fn limb_from_be(s: Seq<u8>, at: int) -> u64 {
    (s[at] as u64) << 56 | (s[at + 1] as u64) << 48 | (s[at + 2] as u64) << 40 | (s[at + 3] as u64)
        << 32 | (s[at + 4] as u64) << 24 | (s[at + 5] as u64) << 16 | (s[at + 6] as u64) << 8 | (
    s[at + 7] as u64)
}

/// The word whose big-endian encoding is the 32 bytes `s`.
pub open spec fn word_from_be(s: Seq<u8>) -> U256 {
    U256 {
        w0: limb_from_be(s, 24),
        w1: limb_from_be(s, 16),
        w2: limb_from_be(s, 8),
        w3: limb_from_be(s, 0),
    }
}

/// The 32 bytes of a word, most significant first.
pub open spec fn word_to_be(x: U256) -> Seq<u8> {
    Seq::new(
        32,
        |i: int|
            if i < 8 {
                limb_byte(x.w3, (7 - i) as nat)
            } else if i < 16 {
                limb_byte(x.w2, (15 - i) as nat)
            } else if i < 24 {
                limb_byte(x.w1, (23 - i) as nat)
            } else {
                limb_byte(x.w0, (31 - i) as nat)
            },
    )
}

/// The word read as a two's-complement signed number.
pub open spec fn signed(x: nat) -> int {
    if x < sign_bit() {
        x as int
    } else {
        x - modulus()
    }
}

/// The word that stands for a signed number, modulo 2^256.
pub open spec fn unsigned(i: int) -> nat {
    (i % (modulus() as int)) as nat
}

/// A word is below 2^256.
pub proof fn lemma_word_bound(x: U256)
    ensures
        x@ < modulus(),
{
}

/// The named powers of two are what their names say.
pub proof fn lemma_pow2_values()
    ensures
        pow2(8) == 256,
        pow2(64) == limb_base(),
        pow2(128) == pow2_128(),
        pow2(192) == pow2_192(),
        pow2(255) == sign_bit(),
        pow2(256) == modulus(),
{
    lemma2_to64();
    lemma2_to64_rest();
    lemma_pow2_adds(64, 64);
    lemma_pow2_adds(128, 64);
    lemma_pow2_adds(192, 63);
    lemma_pow2_adds(192, 64);
}

/// A power of two with an exponent below 256 is a positive number below 2^256.
pub proof fn lemma_pow2_in_word(e: nat)
    requires
        e < 256,
    ensures
        0 < pow2(e) < modulus(),
{
    lemma_pow2_values();
    lemma_pow2_pos(e);
    lemma_pow2_strictly_increases(e, 256);
}

/// A number splits in one way only into a digit below the base and the rest.
proof fn lemma_digit_unique(a: int, h: int, c: int, k: int, b: int)
    by (nonlinear_arith)
    requires
        b > 0,
        0 <= a < b,
        0 <= c < b,
        a + b * h == c + b * k,
    ensures
        a == c,
        h == k,
{
}

/// The word with the value `n` modulo 2^256.
pub open spec fn word_of(n: nat) -> U256 {
    U256 {
        w0: (n % limb_base()) as u64,
        w1: ((n / limb_base()) % limb_base()) as u64,
        w2: ((n / pow2_128()) % limb_base()) as u64,
        w3: ((n / pow2_192()) % limb_base()) as u64,
    }
}

/// A number below 2^256 is the value of its word.
pub proof fn lemma_word_of_value(n: nat)
    requires
        n < modulus(),
    ensures
        word_of(n)@ == n,
{
    let b = limb_base() as int;
    let n1 = n as int / b;
    let n2 = n1 / b;
    let n3 = n2 / b;
    vstd::arithmetic::div_mod::lemma_fundamental_div_mod(n as int, b);
    vstd::arithmetic::div_mod::lemma_fundamental_div_mod(n1, b);
    vstd::arithmetic::div_mod::lemma_fundamental_div_mod(n2, b);
    vstd::arithmetic::div_mod::lemma_div_denominator(n as int, b, b);
    vstd::arithmetic::div_mod::lemma_div_denominator(n1, b, b);
    vstd::arithmetic::div_mod::lemma_div_denominator(n as int, b * b, b);
    assert(b * b == pow2_128());
    assert(b * b * b == pow2_192());
    assert(n2 == n as int / (pow2_128() as int));
    assert(n3 == n as int / (pow2_192() as int));
    assert(n3 < b);
    vstd::arithmetic::div_mod::lemma_small_mod(n3 as nat, b as nat);
}

/// Every word is the word of its value.
pub proof fn lemma_word_of_view(x: U256)
    ensures
        word_of(x@) == x,
{
    lemma_word_of_value(x@);
    lemma_view_injective(word_of(x@), x);
}

/// Two words with the same value are the same word.
pub proof fn lemma_view_injective(x: U256, y: U256)
    requires
        x@ == y@,
    ensures
        x == y,
{
    let b: int = 0x1_0000_0000_0000_0000;
    let x2 = x.w2 as int + b * (x.w3 as int);
    let y2 = y.w2 as int + b * (y.w3 as int);
    let x1 = x.w1 as int + b * x2;
    let y1 = y.w1 as int + b * y2;
    assert(x@ == x.w0 as int + b * x1);
    assert(y@ == y.w0 as int + b * y1);
    lemma_digit_unique(x.w0 as int, x1, y.w0 as int, y1, b);
    lemma_digit_unique(x.w1 as int, x2, y.w1 as int, y2, b);
    lemma_digit_unique(x.w2 as int, x.w3 as int, y.w2 as int, y.w3 as int, b);
}

impl U256 {
    /// The word 0.
    #[inline]
    pub fn zero() -> (r: Self)
        ensures
            r@ == 0,
            r == (U256 { w0: 0, w1: 0, w2: 0, w3: 0 }),
    {
        U256 { w0: 0, w1: 0, w2: 0, w3: 0 }
    }

    /// The word 1.
    #[inline]
    pub fn one() -> (r: Self)
        ensures
            r@ == 1,
            r == (U256 { w0: 1, w1: 0, w2: 0, w3: 0 }),
    {
        U256 { w0: 1, w1: 0, w2: 0, w3: 0 }
    }

    /// The largest word, 2^256 - 1.
    #[inline]
    pub fn max_value() -> (r: Self)
        ensures
            r@ == modulus() - 1,
    {
        U256 {
            w0: 0xffff_ffff_ffff_ffff,
            w1: 0xffff_ffff_ffff_ffff,
            w2: 0xffff_ffff_ffff_ffff,
            w3: 0xffff_ffff_ffff_ffff,
        }
    }

    /// The word with the value of `x`.
    #[inline]
    pub fn from_u64(x: u64) -> (r: Self)
        ensures
            r@ == x,
            r == (U256 { w0: x, w1: 0, w2: 0, w3: 0 }),
    {
        U256 { w0: x, w1: 0, w2: 0, w3: 0 }
    }

    /// The word with the value of `x`.
    #[inline]
    pub fn from_usize(x: usize) -> (r: Self)
        ensures
            r@ == x,
            r == (U256 { w0: x as u64, w1: 0, w2: 0, w3: 0 }),
    {
        U256 { w0: x as u64, w1: 0, w2: 0, w3: 0 }
    }

    /// Whether the word is 0.
    #[inline]
    pub fn is_zero(&self) -> (r: bool)
        ensures
            r == (self@ == 0),
            r == (*self == (U256 { w0: 0, w1: 0, w2: 0, w3: 0 })),
    {
        self.w0 == 0 && self.w1 == 0 && self.w2 == 0 && self.w3 == 0
    }

    /// The least significant limb.
    #[inline]
    pub fn low_u64(&self) -> (r: u64)
        ensures
            r == self@ % limb_base(),
            r == self.w0,
    {
        self.w0
    }

    /// The value as a `u64`, where it fits.
    pub fn to_u64(&self) -> (r: Option<u64>)
        ensures
            match r {
                Some(v) => v == self@,
                None => self@ > u64::MAX,
            },
    {
        if self.w1 == 0 && self.w2 == 0 && self.w3 == 0 {
            Some(self.w0)
        } else {
            None
        }
    }

    /// The value as a `usize`, where it fits.
    pub fn to_usize(&self) -> (r: Option<usize>)
        ensures
            match r {
                Some(v) => v == self@,
                None => self@ > usize::MAX,
            },
    {
        if self.w1 == 0 && self.w2 == 0 && self.w3 == 0 && self.w0 <= usize::MAX as u64 {
            Some(self.w0 as usize)
        } else {
            None
        }
    }

    /// Unsigned `self < other`.
    pub fn lt(&self, other: &U256) -> (r: bool)
        ensures
            r == (self@ < other@),
    {
        if self.w3 != other.w3 {
            self.w3 < other.w3
        } else if self.w2 != other.w2 {
            self.w2 < other.w2
        } else if self.w1 != other.w1 {
            self.w1 < other.w1
        } else {
            self.w0 < other.w0
        }
    }

    /// Unsigned `self > other`.
    pub fn gt(&self, other: &U256) -> (r: bool)
        ensures
            r == (self@ > other@),
    {
        other.lt(self)
    }

    /// Whether the sign bit is set: the word is negative when read as signed.
    #[inline]
    pub fn is_negative(&self) -> (r: bool)
        ensures
            r == (self@ >= sign_bit()),
            r == (signed(self@) < 0),
    {
        self.w3 >= 0x8000_0000_0000_0000
    }

    /// Bitwise and, limb by limb.
    pub open spec fn and_spec(self, other: U256) -> U256 {
        U256 {
            w0: self.w0 & other.w0,
            w1: self.w1 & other.w1,
            w2: self.w2 & other.w2,
            w3: self.w3 & other.w3,
        }
    }

    /// Bitwise or, limb by limb.
    pub open spec fn or_spec(self, other: U256) -> U256 {
        U256 {
            w0: self.w0 | other.w0,
            w1: self.w1 | other.w1,
            w2: self.w2 | other.w2,
            w3: self.w3 | other.w3,
        }
    }

    /// Bitwise exclusive or, limb by limb.
    pub open spec fn xor_spec(self, other: U256) -> U256 {
        U256 {
            w0: self.w0 ^ other.w0,
            w1: self.w1 ^ other.w1,
            w2: self.w2 ^ other.w2,
            w3: self.w3 ^ other.w3,
        }
    }

    /// Bitwise complement, limb by limb.
    pub open spec fn not_spec(self) -> U256 {
        U256 { w0: !self.w0, w1: !self.w1, w2: !self.w2, w3: !self.w3 }
    }

    /// Bitwise and.
    #[inline]
    pub fn bitand(self, other: U256) -> (r: U256)
        ensures
            r == self.and_spec(other),
    {
        U256 {
            w0: self.w0 & other.w0,
            w1: self.w1 & other.w1,
            w2: self.w2 & other.w2,
            w3: self.w3 & other.w3,
        }
    }

    /// Bitwise or.
    #[inline]
    pub fn bitor(self, other: U256) -> (r: U256)
        ensures
            r == self.or_spec(other),
    {
        U256 {
            w0: self.w0 | other.w0,
            w1: self.w1 | other.w1,
            w2: self.w2 | other.w2,
            w3: self.w3 | other.w3,
        }
    }

    /// Bitwise exclusive or.
    #[inline]
    pub fn bitxor(self, other: U256) -> (r: U256)
        ensures
            r == self.xor_spec(other),
    {
        U256 {
            w0: self.w0 ^ other.w0,
            w1: self.w1 ^ other.w1,
            w2: self.w2 ^ other.w2,
            w3: self.w3 ^ other.w3,
        }
    }

    /// Bitwise complement; as a number, `2^256 - 1 - self`.
    #[inline]
    pub fn not(self) -> (r: U256)
        ensures
            r == self.not_spec(),
            r@ == modulus() - 1 - self@,
    {
        proof {
            lemma_not_is_complement(self.w0);
            lemma_not_is_complement(self.w1);
            lemma_not_is_complement(self.w2);
            lemma_not_is_complement(self.w3);
        }
        U256 { w0: !self.w0, w1: !self.w1, w2: !self.w2, w3: !self.w3 }
    }

    /// The word with the given big-endian encoding of at most 32 bytes; a shorter one stands
    /// for the word with zero bytes in front.
    pub fn from_big_endian(bytes: &[u8]) -> (r: U256)
        requires
            bytes@.len() <= 32,
        ensures
            r == word_from_be(left_padded(bytes@)),
    {
        let r = load_word(bytes, 0, bytes.len());
        assert(source_window(bytes@, 0, bytes@.len()) =~= bytes@);
        r
    }

    /// The big-endian encoding of the word.
    pub fn to_big_endian(&self) -> (r: [u8; 32])
        ensures
            r@ == word_to_be(*self),
    {
        let r = [
            byte_of(self.w3, 7),
            byte_of(self.w3, 6),
            byte_of(self.w3, 5),
            byte_of(self.w3, 4),
            byte_of(self.w3, 3),
            byte_of(self.w3, 2),
            byte_of(self.w3, 1),
            byte_of(self.w3, 0),
            byte_of(self.w2, 7),
            byte_of(self.w2, 6),
            byte_of(self.w2, 5),
            byte_of(self.w2, 4),
            byte_of(self.w2, 3),
            byte_of(self.w2, 2),
            byte_of(self.w2, 1),
            byte_of(self.w2, 0),
            byte_of(self.w1, 7),
            byte_of(self.w1, 6),
            byte_of(self.w1, 5),
            byte_of(self.w1, 4),
            byte_of(self.w1, 3),
            byte_of(self.w1, 2),
            byte_of(self.w1, 1),
            byte_of(self.w1, 0),
            byte_of(self.w0, 7),
            byte_of(self.w0, 6),
            byte_of(self.w0, 5),
            byte_of(self.w0, 4),
            byte_of(self.w0, 3),
            byte_of(self.w0, 2),
            byte_of(self.w0, 1),
            byte_of(self.w0, 0),
        ];
        assert(r@ =~= word_to_be(*self));
        r
    }
}

/// The complement of a limb is its distance from the largest limb.
pub proof fn lemma_not_is_complement(w: u64)
    ensures
        !w == u64::MAX - w,
{
    assert(!w == 0xffff_ffff_ffff_ffffu64 - w) by (bit_vector);
}

/// Byte `j` of a limb, counted from the least significant one.
pub fn byte_of(w: u64, j: u8) -> (r: u8)
    requires
        j < 8,
    ensures
        r == limb_byte(w, j as nat),
{
    let shift: u64 = 8 * (j as u64);
    let v: u64 = (w >> shift) & 0xff;
    assert(v <= 0xff) by (bit_vector)
        requires
            v == (w >> shift) & 0xff,
    ;
    v as u8
}

/// Byte `i` of the 32 bytes that end with the `width` bytes of `src` from `offset` on.
fn padded_byte(src: &[u8], offset: usize, width: usize, i: usize) -> (r: u8)
    requires
        width <= 32,
        i < 32,
    ensures
        r == left_padded(source_window(src@, offset as nat, width as nat))[i as int],
{
    if i < 32 - width {
        0
    } else {
        let j: usize = i - (32 - width);
        if offset < src.len() && j < src.len() - offset {
            src[offset + j]
        } else {
            0
        }
    }
}

/// The limb whose big-endian bytes are bytes `at..at + 8` of the 32 bytes that end with the
/// `width` bytes of `src` from `offset` on.
fn padded_limb(src: &[u8], offset: usize, width: usize, at: usize) -> (r: u64)
    requires
        width <= 32,
        at + 8 <= 32,
    ensures
        r == limb_from_be(left_padded(source_window(src@, offset as nat, width as nat)), at as int),
{
    (padded_byte(src, offset, width, at) as u64) << 56 | (padded_byte(src, offset, width, at + 1) as u64)
        << 48 | (padded_byte(src, offset, width, at + 2) as u64) << 40 | (padded_byte(
        src,
        offset,
        width,
        at + 3,
    ) as u64) << 32 | (padded_byte(src, offset, width, at + 4) as u64) << 24 | (padded_byte(
        src,
        offset,
        width,
        at + 5,
    ) as u64) << 16 | (padded_byte(src, offset, width, at + 6) as u64) << 8 | (padded_byte(
        src,
        offset,
        width,
        at + 7,
    ) as u64)
}

/// The word whose big-endian encoding ends with the `width` bytes of `src` from `offset` on,
/// with zeros for the bytes that `src` does not have and zeros in front.
pub fn load_word(src: &[u8], offset: usize, width: usize) -> (r: U256)
    requires
        width <= 32,
    ensures
        r == word_from_be(left_padded(source_window(src@, offset as nat, width as nat))),
{
    U256 {
        w0: padded_limb(src, offset, width, 24),
        w1: padded_limb(src, offset, width, 16),
        w2: padded_limb(src, offset, width, 8),
        w3: padded_limb(src, offset, width, 0),
    }
}

/// The eight bytes of a limb put together give the limb back.
pub proof fn lemma_limb_of_bytes(w: u64)
    ensures
        (limb_byte(w, 7) as u64) << 56 | (limb_byte(w, 6) as u64) << 48 | (limb_byte(w, 5) as u64)
            << 40 | (limb_byte(w, 4) as u64) << 32 | (limb_byte(w, 3) as u64) << 24 | (limb_byte(
            w,
            2,
        ) as u64) << 16 | (limb_byte(w, 1) as u64) << 8 | (limb_byte(w, 0) as u64) == w,
{
    assert((((w >> 56u64) & 0xff) as u8 as u64) << 56 | (((w >> 48u64) & 0xff) as u8 as u64) << 48
        | (((w >> 40u64) & 0xff) as u8 as u64) << 40 | (((w >> 32u64) & 0xff) as u8 as u64) << 32
        | (((w >> 24u64) & 0xff) as u8 as u64) << 24 | (((w >> 16u64) & 0xff) as u8 as u64) << 16
        | (((w >> 8u64) & 0xff) as u8 as u64) << 8 | (((w >> 0u64) & 0xff) as u8 as u64) == w)
        by (bit_vector);
}

/// Decoding the big-endian encoding of a word gives the word back.
pub proof fn lemma_word_be_roundtrip(x: U256)
    ensures
        word_to_be(x).len() == 32,
        word_from_be(word_to_be(x)) == x,
{
    lemma_limb_of_bytes(x.w0);
    lemma_limb_of_bytes(x.w1);
    lemma_limb_of_bytes(x.w2);
    lemma_limb_of_bytes(x.w3);
}

/// 32 bytes: a hash, a storage key, or a word in big-endian bytes.
#[derive(Clone, Copy, Debug, PartialEq, Eq, Hash)]
pub struct H256(pub [u8; 32]);

/// 20 bytes: an account address.
#[derive(Clone, Copy, Debug, PartialEq, Eq, Hash)]
pub struct H160(pub [u8; 20]);

impl View for H256 {
    type V = Seq<u8>;

    open spec fn view(&self) -> Seq<u8> {
        self.0@
    }
}

impl View for H160 {
    type V = Seq<u8>;

    open spec fn view(&self) -> Seq<u8> {
        self.0@
    }
}

/// The 32 bytes that hold an address in their last 20 bytes, after 12 zero bytes.
pub open spec fn address_to_hash(a: Seq<u8>) -> Seq<u8> {
    Seq::new(
        32,
        |i: int|
            if i < 12 {
                0u8
            } else {
                a[i - 12]
            },
    )
}

/// The address held in the last 20 of 32 bytes.
pub open spec fn hash_to_address(h: Seq<u8>) -> Seq<u8> {
    h.subrange(12, 32)
}

impl H256 {
    /// 32 zero bytes.
    pub fn zero() -> (r: Self)
        ensures
            r@ == Seq::new(32, |i: int| 0u8),
    {
        let r = H256(
            [
                0,
                0,
                0,
                0,
                0,
                0,
                0,
                0,
                0,
                0,
                0,
                0,
                0,
                0,
                0,
                0,
                0,
                0,
                0,
                0,
                0,
                0,
                0,
                0,
                0,
                0,
                0,
                0,
                0,
                0,
                0,
                0,
            ],
        );
        assert(r@ =~= Seq::new(32, |i: int| 0u8));
        r
    }

    /// The big-endian bytes of a word.
    pub fn from_u256(x: U256) -> (r: Self)
        ensures
            r@ == word_to_be(x),
    {
        H256(x.to_big_endian())
    }

    /// The word whose big-endian bytes these are.
    pub fn to_u256(&self) -> (r: U256)
        ensures
            r == word_from_be(self@),
    {
        let r = U256::from_big_endian(self.0.as_slice());
        assert(left_padded(self@) =~= self@);
        r
    }

    /// The address in the last 20 bytes, after 12 zero bytes.
    pub fn from_h160(a: &H160) -> (r: Self)
        ensures
            r@ == address_to_hash(a@),
    {
        let b = &a.0;
        let r = H256(
            [
                0,
                0,
                0,
                0,
                0,
                0,
                0,
                0,
                0,
                0,
                0,
                0,
                b[0],
                b[1],
                b[2],
                b[3],
                b[4],
                b[5],
                b[6],
                b[7],
                b[8],
                b[9],
                b[10],
                b[11],
                b[12],
                b[13],
                b[14],
                b[15],
                b[16],
                b[17],
                b[18],
                b[19],
            ],
        );
        assert(r@ =~= address_to_hash(a@));
        r
    }

    /// The address held in the last 20 bytes.
    pub fn to_h160(&self) -> (r: H160)
        ensures
            r@ == hash_to_address(self@),
    {
        let b = &self.0;
        let r = H160(
            [
                b[12],
                b[13],
                b[14],
                b[15],
                b[16],
                b[17],
                b[18],
                b[19],
                b[20],
                b[21],
                b[22],
                b[23],
                b[24],
                b[25],
                b[26],
                b[27],
                b[28],
                b[29],
                b[30],
                b[31],
            ],
        );
        assert(r@ =~= hash_to_address(self@));
        r
    }
}

impl H160 {
    /// 20 zero bytes.
    pub fn zero() -> (r: Self)
        ensures
            r@ == Seq::new(20, |i: int| 0u8),
    {
        let r = H160([0, 0, 0, 0, 0, 0, 0, 0, 0, 0, 0, 0, 0, 0, 0, 0, 0, 0, 0, 0]);
        assert(r@ =~= Seq::new(20, |i: int| 0u8));
        r
    }
}

} // verus!
