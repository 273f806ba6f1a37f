//! The operand stack: a bounded LIFO of words.

use crate::error::ExitError;
use crate::primitives::{word_to_be, H256, U256};
use vstd::prelude::*;

verus! {

/// The operand stack. Its view lists the words from the bottom to the top.
#[derive(Clone, Debug)]
pub struct Stack {
    data: Vec<U256>,
    limit: usize,
}

impl View for Stack {
    type V = Seq<U256>;

    closed spec fn view(&self) -> Seq<U256> {
        self.data@
    }
}

/// The word `n` places below the top of a stack.
pub open spec fn from_top(s: Seq<U256>, n: int) -> U256 {
    s[s.len() - 1 - n]
}

impl Stack {
    /// The largest depth that the stack may reach.
    pub closed spec fn spec_limit(&self) -> usize {
        self.limit
    }

    /// The stack holds no more words than its limit allows.
    pub open spec fn wf(&self) -> bool {
        self@.len() <= self.limit()
    }

    /// An empty stack with the given limit.
    pub fn new(limit: usize) -> (r: Self)
        ensures
            r.wf(),
            r@ == Seq::<U256>::empty(),
            r.limit() == limit,
    {
        Stack { data: Vec::new(), limit }
    }

    /// The largest depth that the stack may reach.
    #[inline]
    #[verifier::when_used_as_spec(spec_limit)]
    pub fn limit(&self) -> (r: usize)
        ensures
            r == self.limit(),
    {
        self.limit
    }

    /// The number of words on the stack.
    #[inline]
    pub fn len(&self) -> (r: usize)
        ensures
            r == self@.len(),
    {
        self.data.len()
    }

    /// Whether the stack holds no word.
    #[inline]
    pub fn is_empty(&self) -> (r: bool)
        ensures
            r == (self@.len() == 0),
    {
        self.data.len() == 0
    }

    /// The words of the stack, bottom first.
    #[inline]
    pub fn data(&self) -> (r: &Vec<U256>)
        ensures
            r@ == self@,
    {
        &self.data
    }

    /// Takes the top word off. On an empty stack this is `StackUnderflow`.
    pub fn pop(&mut self) -> (r: Result<U256, ExitError>)
        requires
            old(self).wf(),
        ensures
            final(self).wf(),
            final(self).limit() == old(self).limit(),
            old(self)@.len() > 0 ==> r == Ok::<U256, ExitError>(old(self)@.last()) && final(self)@
                == old(self)@.drop_last(),
            old(self)@.len() == 0 ==> r == Err::<U256, ExitError>(ExitError::StackUnderflow)
                && final(self)@ == old(self)@,
    {
        match self.data.pop() {
            Some(v) => Ok(v),
            None => Err(ExitError::StackUnderflow),
        }
    }

    /// Takes the top word off and hands it out as 32 big-endian bytes.
    pub fn pop_h256(&mut self) -> (r: Result<H256, ExitError>)
        requires
            old(self).wf(),
        ensures
            final(self).wf(),
            final(self).limit() == old(self).limit(),
            old(self)@.len() > 0 ==> r is Ok && r->Ok_0@ == word_to_be(old(self)@.last()) && final(self)@ == old(self)@.drop_last(),
            old(self)@.len() == 0 ==> r == Err::<H256, ExitError>(ExitError::StackUnderflow)
                && final(self)@ == old(self)@,
    {
        match self.data.pop() {
            Some(v) => Ok(H256::from_u256(v)),
            None => Err(ExitError::StackUnderflow),
        }
    }

    /// Puts a word on top. On a stack that is at its limit this is `StackOverflow`.
    pub fn push(&mut self, value: U256) -> (r: Result<(), ExitError>)
        requires
            old(self).wf(),
        ensures
            final(self).wf(),
            final(self).limit() == old(self).limit(),
            old(self)@.len() < old(self).limit() ==> r == Ok::<(), ExitError>(()) && final(self)@
                == old(self)@.push(value),
            old(self)@.len() >= old(self).limit() ==> r == Err::<(), ExitError>(
                ExitError::StackOverflow,
            ) && final(self)@ == old(self)@,
    {
        if self.data.len() >= self.limit {
            return Err(ExitError::StackOverflow);
        }
        self.data.push(value);
        Ok(())
    }

    /// Reads the word `no_from_top` places below the top. Deeper than the stack this is
    /// `StackUnderflow`.
    pub fn peek(&self, no_from_top: usize) -> (r: Result<U256, ExitError>)
        ensures
            no_from_top < self@.len() ==> r == Ok::<U256, ExitError>(
                from_top(self@, no_from_top as int),
            ),
            no_from_top >= self@.len() ==> r == Err::<U256, ExitError>(ExitError::StackUnderflow),
    {
        if self.data.len() > no_from_top {
            Ok(self.data[self.data.len() - no_from_top - 1])
        } else {
            Err(ExitError::StackUnderflow)
        }
    }

    /// Overwrites the word `no_from_top` places below the top. Deeper than the stack this is
    /// `StackUnderflow`.
    pub fn set(&mut self, no_from_top: usize, val: U256) -> (r: Result<(), ExitError>)
        requires
            old(self).wf(),
        ensures
            final(self).wf(),
            final(self).limit() == old(self).limit(),
            no_from_top < old(self)@.len() ==> r == Ok::<(), ExitError>(()) && final(self)@ == old(self)@.update(old(self)@.len() - 1 - no_from_top, val),
            no_from_top >= old(self)@.len() ==> r == Err::<(), ExitError>(
                ExitError::StackUnderflow,
            ) && final(self)@ == old(self)@,
    {
        if self.data.len() > no_from_top {
            let len = self.data.len();
            self.data[len - no_from_top - 1] = val;
            Ok(())
        } else {
            Err(ExitError::StackUnderflow)
        }
    }
}

} // verus!
