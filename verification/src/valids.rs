//! The validity map: which code positions a jump may land on.

use crate::opcode::{push_width, JUMPDEST, PUSH1, PUSH32};
use vstd::prelude::*;

verus! {

/// The position of the instruction after the one at `pos`: past the opcode and, for a
/// `PUSHk`, past its `k` immediate bytes.
pub open spec fn next_instruction(code: Seq<u8>, pos: nat) -> nat {
    pos + 1 + push_width(code[pos as int])
}

/// Whether decoding instruction by instruction from `from` arrives at position `i`.
pub open spec fn scan_reaches(code: Seq<u8>, from: nat, i: nat) -> bool
    decreases
            (if from <= i {
                i - from
            } else {
                0
            }),
{
    if from >= i {
        from == i
    } else {
        scan_reaches(code, next_instruction(code, from), i)
    }
}

/// Whether an instruction starts at `i` when the code is decoded from its first byte.
pub open spec fn starts_instruction(code: Seq<u8>, i: nat) -> bool {
    scan_reaches(code, 0, i)
}

/// Whether `i` lies among the immediate bytes of a `PUSHk`.
pub open spec fn in_push_data(code: Seq<u8>, i: nat) -> bool {
    exists|p: nat|
        p < i && #[trigger] starts_instruction(code, p) && i <= p + push_width(code[p as int])
}

/// Whether a jump may land on `i`: a `JUMPDEST` byte at which an instruction starts.
pub open spec fn is_jump_dest(code: Seq<u8>, i: nat) -> bool {
    i < code.len() && code[i as int] == JUMPDEST && starts_instruction(code, i)
}

/// The validity map of a code: one flag for each position.
pub open spec fn valid_map(code: Seq<u8>) -> Seq<bool> {
    Seq::new(code.len(), |i: int| is_jump_dest(code, i as nat))
}

/// From an instruction start on, the scan from the first byte and the scan from the next
/// instruction reach the same later positions.
pub proof fn lemma_scan_split(code: Seq<u8>, from: nat, p: nat, i: nat)
    requires
        scan_reaches(code, from, p),
        p < i,
    ensures
        scan_reaches(code, from, i) == scan_reaches(code, next_instruction(code, p), i),
    decreases
            (if from <= p {
                p - from
            } else {
                0
            }),
{
    if from < p {
        lemma_scan_split(code, next_instruction(code, from), p, i);
    }
}

/// The instruction after an instruction start is an instruction start.
pub proof fn lemma_next_starts(code: Seq<u8>, p: nat)
    requires
        starts_instruction(code, p),
    ensures
        starts_instruction(code, next_instruction(code, p)),
{
    lemma_scan_split(code, 0, p, next_instruction(code, p));
}

/// No instruction starts strictly between an instruction start and the next one.
pub proof fn lemma_no_start_inside(code: Seq<u8>, p: nat, i: nat)
    requires
        starts_instruction(code, p),
        p < i < next_instruction(code, p),
    ensures
        !starts_instruction(code, i),
{
    lemma_scan_split(code, 0, p, i);
}

/// Every position at or after an instruction start lies in some instruction.
proof fn lemma_covered(code: Seq<u8>, from: nat, i: nat) -> (p: nat)
    requires
        starts_instruction(code, from),
        from <= i,
    ensures
        starts_instruction(code, p),
        p <= i < next_instruction(code, p),
    decreases
            (if from <= i {
                i - from
            } else {
                0
            }),
{
    if i < next_instruction(code, from) {
        from
    } else {
        lemma_next_starts(code, from);
        lemma_covered(code, next_instruction(code, from), i)
    }
}

/// A position is a valid jump destination exactly if it holds the `JUMPDEST` byte and does not
/// lie among the immediate bytes of a `PUSHk`.
pub proof fn lemma_jump_dest_outside_push_data(code: Seq<u8>, i: nat)
    requires
        i < code.len(),
    ensures
        valid_map(code)[i as int] == (code[i as int] == JUMPDEST && !in_push_data(code, i)),
{
    if starts_instruction(code, i) {
        if in_push_data(code, i) {
            let p = choose|p: nat|
                p < i && #[trigger] starts_instruction(code, p) && i <= p + push_width(
                    code[p as int],
                );
            lemma_no_start_inside(code, p, i);
        }
    } else {
        let p = lemma_covered(code, 0, i);
        assert(p < i && starts_instruction(code, p) && i <= p + push_width(code[p as int]));
    }
}

/// Bit `i` of a map packed into bytes, eight flags to a byte, lowest bit first.
pub open spec fn packed_bit(bytes: Seq<u8>, i: int) -> bool {
    (bytes[i / 8] >> ((i % 8) as u8)) & 1 == 1
}

/// Setting one bit of a byte sets that bit and leaves the others.
proof fn lemma_set_bit(b: u8, k: u8, j: u8)
    requires
        k < 8,
        j < 8,
    ensures
        ((b | (1u8 << k)) >> j) & 1 == (if j == k {
            1u8
        } else {
            (b >> j) & 1
        }),
{
    assert(((b | (1u8 << k)) >> j) & 1 == (if j == k {
        1u8
    } else {
        (b >> j) & 1
    })) by (bit_vector)
        requires
            k < 8,
            j < 8,
    ;
}

/// No bit of a zero byte is set.
proof fn lemma_zero_bits(j: u8)
    requires
        j < 8,
    ensures
        (0u8 >> j) & 1 == 0,
{
    assert((0u8 >> j) & 1 == 0) by (bit_vector);
}

/// The validity map of a code, packed into one bit for each position.
#[derive(Debug)]
pub struct Valids {
    bits: Vec<u8>,
    len: usize,
}

impl View for Valids {
    type V = Seq<bool>;

    closed spec fn view(&self) -> Seq<bool> {
        Seq::new(self.len as nat, |i: int| packed_bit(self.bits@, i))
    }
}

impl Valids {
    /// The bytes hold a bit for every position.
    #[verifier::type_invariant]
    spec fn holds_every_bit(&self) -> bool {
        self.bits@.len() * 8 >= self.len
    }

    /// Computes the validity map of `code` in one pass from left to right.
    pub fn new(code: &[u8]) -> (r: Self)
        ensures
            r@ == valid_map(code@),
    {
        let len = code.len();
        let bytes: usize = if len % 8 == 0 {
            len / 8
        } else {
            len / 8 + 1
        };
        let mut bits: Vec<u8> = Vec::new();
        while bits.len() < bytes
            invariant
                bits@.len() <= bytes,
                forall|j: int| 0 <= j < bits@.len() ==> bits@[j] == 0,
            decreases bytes - bits.len(),
        {
            bits.push(0);
        }
        proof {
            assert forall|j: int| 0 <= j < len implies !packed_bit(bits@, j) by {
                lemma_zero_bits((j % 8) as u8);
            }
        }
        let mut i: usize = 0;
        while i < len
            invariant
                len == code@.len(),
                bits@.len() == bytes,
                bytes * 8 >= len,
                i <= len,
                i < len ==> starts_instruction(code@, i as nat),
                forall|j: int| 0 <= j < i ==> packed_bit(bits@, j) == is_jump_dest(code@, j as nat),
                forall|j: int| i <= j < len ==> !packed_bit(bits@, j),
            decreases len - i,
        {
            let opcode: u8 = code[i];
            let ghost start = i as nat;
            proof {
                lemma_next_starts(code@, start);
                assert forall|j: nat| start < j < next_instruction(code@, start) implies !#[trigger] is_jump_dest(
                    code@,
                    j,
                ) by {
                    lemma_no_start_inside(code@, start, j);
                }
            }
            if opcode == JUMPDEST {
                let ghost before = bits@;
                let byte: u8 = bits[i / 8];
                let bit: u8 = (i % 8) as u8;
                bits[i / 8] = byte | (1u8 << bit);
                proof {
                    assert forall|j: int| 0 <= j < len implies packed_bit(bits@, j) == (if j == i {
                        true
                    } else {
                        packed_bit(before, j)
                    }) by {
                        if j / 8 == i / 8 {
                            lemma_set_bit(byte, bit, (j % 8) as u8);
                        }
                    }
                }
                i += 1;
            } else if PUSH1 <= opcode && opcode <= PUSH32 {
                let width: usize = (opcode - PUSH1) as usize + 1;
                if width >= len - i {
                    i = len;
                } else {
                    i += width + 1;
                }
            } else {
                i += 1;
            }
        }
        let r = Valids { bits, len };
        assert(r@ =~= valid_map(code@));
        r
    }

    /// The number of positions of the code.
    #[inline]
    pub fn len(&self) -> (r: usize)
        ensures
            r == self@.len(),
    {
        self.len
    }

    /// Whether the code is empty.
    #[inline]
    pub fn is_empty(&self) -> (r: bool)
        ensures
            r == (self@.len() == 0),
    {
        self.len == 0
    }

    /// Whether a jump may land on `position`: it lies in the code and its flag is set.
    pub fn is_valid(&self, position: usize) -> (r: bool)
        ensures
            r == (position < self@.len() && self@[position as int]),
    {
        proof {
            use_type_invariant(self);
        }
        if position >= self.len {
            return false;
        }
        (self.bits[position / 8] >> ((position % 8) as u8)) & 1 == 1
    }
}

} // verus!
