//! The linear memory: bytes that read as zero until written, growing in words of 32 bytes.

use crate::error::{ExitError, ExitFatal, ExitReason};
use crate::primitives::{byte_at, source_window, U256};
use vstd::prelude::*;

verus! {

/// `n` rounded up to a multiple of 32.
pub open spec fn ceil32(n: nat) -> nat {
    ((n + 31) / 32) * 32
}

/// The `len` bytes from `offset` on, zero past the end of the memory.
pub open spec fn read(m: Seq<u8>, offset: nat, len: nat) -> Seq<u8> {
    Seq::new(len, |i: int| byte_at(m, offset + i))
}

/// The memory after it has grown to cover the byte before `end`: whole words of zeros are
/// added, and a memory that is long enough stays as it is.
pub open spec fn grown(m: Seq<u8>, end: nat) -> Seq<u8> {
    if ceil32(end) > m.len() {
        Seq::new(ceil32(end), |i: int| byte_at(m, i))
    } else {
        m
    }
}

/// The memory with `bytes` written from `offset` on.
pub open spec fn written(m: Seq<u8>, offset: nat, bytes: Seq<u8>) -> Seq<u8> {
    Seq::new(
        m.len(),
        |j: int|
            if offset <= j < offset + bytes.len() {
                bytes[j - offset]
            } else {
                m[j]
            },
    )
}

/// The memory after `bytes` are stored at `offset`: it grows to cover them first. Storing no
/// byte changes nothing.
pub open spec fn stored(m: Seq<u8>, offset: nat, bytes: Seq<u8>) -> Seq<u8> {
    if bytes.len() == 0 {
        m
    } else {
        written(grown(m, offset + bytes.len()), offset, bytes)
    }
}

/// The memory after it has been made to cover `offset..offset + len`; a range without bytes
/// changes nothing.
pub open spec fn covered(m: Seq<u8>, offset: nat, len: nat) -> Seq<u8> {
    if len == 0 {
        m
    } else {
        grown(m, offset + len)
    }
}

/// On which ranges a memory with the given limit can be made to cover `offset..offset + len`.
pub open spec fn resize_outcome(limit: nat, offset: nat, len: nat) -> Result<(), ExitReason> {
    if len == 0 {
        Ok(())
    } else if offset > usize::MAX || len > usize::MAX {
        Err(ExitReason::Fatal(ExitFatal::NotSupported))
    } else if offset + len > limit {
        Err(ExitReason::Error(ExitError::InvalidRange))
    } else {
        Ok(())
    }
}

/// The linear memory. Its view is the logical content: as long as the effective length, with
/// zeros where nothing was written.
#[derive(Clone, Debug)]
pub struct Memory {
    data: Vec<u8>,
    words: usize,
    limit: usize,
}

impl View for Memory {
    type V = Seq<u8>;

    closed spec fn view(&self) -> Seq<u8> {
        Seq::new((32 * self.words) as nat, |i: int| byte_at(self.data@, i))
    }
}

impl Memory {
    /// The bound on the ranges that the memory may cover.
    pub closed spec fn spec_limit(&self) -> usize {
        self.limit
    }

    /// The stored bytes lie within the effective length and within the limit.
    pub closed spec fn stored_ok(&self) -> bool {
        &&& self.data@.len() <= 32 * self.words
        &&& self.data@.len() <= self.limit
    }

    /// The effective length is a whole number of words and at most the limit rounded up to
    /// one.
    pub open spec fn wf(&self) -> bool {
        &&& self.stored_ok()
        &&& self@.len() % 32 == 0
        &&& self@.len() <= ceil32(self.limit() as nat)
    }

    /// An empty memory with the given limit.
    pub fn new(limit: usize) -> (r: Self)
        ensures
            r.wf(),
            r@ == Seq::<u8>::empty(),
            r.limit() == limit,
    {
        let r = Memory { data: Vec::new(), words: 0, limit };
        assert(r@ =~= Seq::<u8>::empty());
        r
    }

    /// The bound on the ranges that the memory may cover.
    #[inline]
    #[verifier::when_used_as_spec(spec_limit)]
    pub fn limit(&self) -> (r: usize)
        ensures
            r == self.limit(),
    {
        self.limit
    }

    /// The effective length in bytes, a multiple of 32.
    pub fn effective_len(&self) -> (r: U256)
        ensures
            r@ == self@.len(),
    {
        let n: u128 = (self.words as u128) * 32;
        let lo: u64 = (n % 0x1_0000_0000_0000_0000) as u64;
        let hi: u64 = (n / 0x1_0000_0000_0000_0000) as u64;
        U256 { w0: lo, w1: hi, w2: 0, w3: 0 }
    }

    /// Whether the effective length is zero.
    #[inline]
    pub fn is_empty(&self) -> (r: bool)
        ensures
            r == (self@.len() == 0),
    {
        self.words == 0
    }

    /// Whether the memory can be made to cover `offset..offset + len`, without changing it.
    pub fn resize_check(&self, offset: U256, len: U256) -> (r: Result<(), ExitReason>)
        ensures
            r == resize_outcome(self.limit() as nat, offset@, len@),
    {
        if len.is_zero() {
            return Ok(());
        }
        let (offset, len) = match (offset.to_usize(), len.to_usize()) {
            (Some(offset), Some(len)) => (offset, len),
            _ => {
                return Err(ExitReason::Fatal(ExitFatal::NotSupported));
            },
        };
        if len > self.limit || offset > self.limit - len {
            return Err(ExitReason::Error(ExitError::InvalidRange));
        }
        Ok(())
    }

    /// Makes the effective length cover the byte before `end`.
    fn grow_to(&mut self, end: usize)
        requires
            old(self).wf(),
            end <= old(self).limit(),
        ensures
            final(self).wf(),
            final(self).limit() == old(self).limit(),
            final(self)@ == grown(old(self)@, end as nat),
            final(self).data == old(self).data,
    {
        let needed: usize = if end % 32 == 0 {
            end / 32
        } else {
            end / 32 + 1
        };
        assert(32 * needed == ceil32(end as nat));
        if needed > self.words {
            self.words = needed;
        }
        assert(self@ =~= grown(old(self)@, end as nat));
    }

    /// Grows the memory to cover `offset..offset + len`, in steps of 32 bytes. With `len` zero
    /// nothing happens. A range that does not fit a `usize` is `NotSupported`, one that ends
    /// past the limit is `InvalidRange`; the memory never shrinks.
    pub fn resize_offset(&mut self, offset: U256, len: U256) -> (r: Result<(), ExitReason>)
        requires
            old(self).wf(),
        ensures
            final(self).wf(),
            final(self).limit() == old(self).limit(),
            r == resize_outcome(old(self).limit() as nat, offset@, len@),
            r is Ok && len@ > 0 ==> final(self)@ == grown(old(self)@, offset@ + len@),
            r is Ok && len@ > 0 ==> final(self)@.len() >= ceil32(offset@ + len@),
            r is Err || len@ == 0 ==> final(self)@ == old(self)@,
    {
        if len.is_zero() {
            return Ok(());
        }
        let (offset, len) = match (offset.to_usize(), len.to_usize()) {
            (Some(offset), Some(len)) => (offset, len),
            _ => {
                return Err(ExitReason::Fatal(ExitFatal::NotSupported));
            },
        };
        if len > self.limit || offset > self.limit - len {
            return Err(ExitReason::Error(ExitError::InvalidRange));
        }
        self.grow_to(offset + len);
        Ok(())
    }

    /// The `size` bytes from `offset` on. Bytes past the effective length read as zero.
    pub fn get(&self, offset: usize, size: usize) -> (r: Vec<u8>)
        requires
            self.wf(),
        ensures
            r@ == read(self@, offset as nat, size as nat),
    {
        let mut ret: Vec<u8> = Vec::new();
        let mut i: usize = 0;
        while i < size
            invariant
                self.wf(),
                i <= size,
                ret@ == read(self@, offset as nat, i as nat),
            decreases size - i,
        {
            let byte: u8 = if offset < self.data.len() && i < self.data.len() - offset {
                self.data[offset + i]
            } else {
                0
            };
            ret.push(byte);
            i += 1;
            assert(ret@ =~= read(self@, offset as nat, i as nat));
        }
        ret
    }

    /// Writes `len` bytes at `offset`, taken from `src` at `src_offset` on, with zeros where
    /// the source has no byte. The memory grows to cover the range first. With `len` zero
    /// nothing happens; a range that ends past the limit is `NotSupported`.
    pub fn set(&mut self, offset: usize, src: &[u8], src_offset: usize, len: usize) -> (r: Result<
        (),
        ExitFatal,
    >)
        requires
            old(self).wf(),
        ensures
            final(self).wf(),
            final(self).limit() == old(self).limit(),
            len == 0 ==> r == Ok::<(), ExitFatal>(()) && final(self)@ == old(self)@,
            len > 0 && offset + len > old(self).limit() ==> r == Err::<(), ExitFatal>(
                ExitFatal::NotSupported,
            ) && final(self)@ == old(self)@,
            len > 0 && offset + len <= old(self).limit() ==> r == Ok::<(), ExitFatal>(()) && final(self)@
                == written(
                grown(old(self)@, (offset + len) as nat),
                offset as nat,
                source_window(src@, src_offset as nat, len as nat),
            ),
    {
        if len == 0 {
            return Ok(());
        }
        if len > self.limit || offset > self.limit - len {
            return Err(ExitFatal::NotSupported);
        }
        let end: usize = offset + len;
        self.grow_to(end);
        let ghost base = self@;
        while self.data.len() < end
            invariant
                self.wf(),
                self.limit() == old(self).limit(),
                end <= self.limit(),
                end <= base.len(),
                self@ == base,
            decreases end - self.data.len(),
        {
            self.data.push(0);
            assert(self@ =~= base);
        }
        let ghost window = source_window(src@, src_offset as nat, len as nat);
        let mut i: usize = 0;
        while i < len
            invariant
                self.wf(),
                self.limit() == old(self).limit(),
                end == offset + len,
                end <= self.data@.len(),
                i <= len,
                window == source_window(src@, src_offset as nat, len as nat),
                self@ == written(base, offset as nat, window.subrange(0, i as int)),
            decreases len - i,
        {
            let byte: u8 = if src_offset < src.len() && i < src.len() - src_offset {
                src[src_offset + i]
            } else {
                0
            };
            let ghost before = self@;
            let ghost stored = self.data@;
            assert(byte == window[i as int]);
            self.data[offset + i] = byte;
            i += 1;
            assert forall|j: int| 0 <= j < before.len() implies self@[j] == written(
                base,
                offset as nat,
                window.subrange(0, i as int),
            )[j] by {
                assert(self@[j] == byte_at(self.data@, j));
                assert(before[j] == byte_at(stored, j));
                if j == offset + i - 1 {
                    assert(window.subrange(0, i as int)[j - offset] == window[i - 1]);
                } else if offset <= j < offset + i - 1 {
                    assert(window.subrange(0, i as int)[j - offset] == window.subrange(
                        0,
                        i - 1,
                    )[j - offset]);
                }
            }
            assert(self@ =~= written(base, offset as nat, window.subrange(0, i as int)));
        }
        assert(window.subrange(0, len as int) =~= window);
        Ok(())
    }

    /// Copies `len` bytes of `data`, from `data_offset` on, to `memory_offset`, with zeros
    /// where `data` has no byte. The memory grows to cover the range first. With `len` zero
    /// nothing happens; a range that does not fit a `usize` or ends past the limit is
    /// `NotSupported`.
    pub fn copy_large(
        &mut self,
        memory_offset: U256,
        data_offset: U256,
        len: U256,
        data: &[u8],
    ) -> (r: Result<(), ExitFatal>)
        requires
            old(self).wf(),
        ensures
            final(self).wf(),
            final(self).limit() == old(self).limit(),
            len@ == 0 ==> r == Ok::<(), ExitFatal>(()) && final(self)@ == old(self)@,
            len@ > 0 && memory_offset@ + len@ > old(self).limit() ==> r == Err::<(), ExitFatal>(
                ExitFatal::NotSupported,
            ) && final(self)@ == old(self)@,
            len@ > 0 && memory_offset@ + len@ <= old(self).limit() ==> r == Ok::<(), ExitFatal>(())
                && final(self)@ == written(
                grown(old(self)@, memory_offset@ + len@),
                memory_offset@,
                source_window(data@, data_offset@, len@),
            ),
    {
        if len.is_zero() {
            return Ok(());
        }
        let (memory_offset, ulen) = match (memory_offset.to_usize(), len.to_usize()) {
            (Some(memory_offset), Some(ulen)) => (memory_offset, ulen),
            _ => {
                return Err(ExitFatal::NotSupported);
            },
        };
        let src_offset: usize = match data_offset.to_usize() {
            Some(o) => o,
            None => data.len(),
        };
        assert(source_window(data@, src_offset as nat, ulen as nat) =~= source_window(
            data@,
            data_offset@,
            len@,
        ));
        self.set(memory_offset, data, src_offset, ulen)
    }
}

/// A memory that has grown to cover the byte before `end` is a whole number of words and at
/// least `end` rounded up to a whole word long, and it never gets shorter.
pub proof fn lemma_grown_covers(m: Seq<u8>, end: nat)
    requires
        m.len() % 32 == 0,
    ensures
        grown(m, end).len() % 32 == 0,
        grown(m, end).len() >= ceil32(end),
        grown(m, end).len() >= m.len(),
        ceil32(end) >= end,
{
}

/// What was stored can be read back: the bytes at the offset are those that were written.
pub proof fn lemma_read_stored(m: Seq<u8>, offset: nat, bytes: Seq<u8>)
    requires
        bytes.len() > 0,
    ensures
        read(stored(m, offset, bytes), offset, bytes.len()) == bytes,
        grown(stored(m, offset, bytes), offset + bytes.len()) == stored(m, offset, bytes),
{
    let after = stored(m, offset, bytes);
    assert(read(after, offset, bytes.len()) =~= bytes);
}

} // verus!
