//! The mathematical model of a machine: what its contracts speak of.

use crate::error::{ExitError, ExitReason};
use crate::memory::ceil32;
use crate::primitives::{byte_at, U256};
use crate::stack::from_top;
use vstd::prelude::*;

verus! {

/// The state of a machine as plain values.
pub struct State {
    /// The code, never changed.
    pub code: Seq<u8>,
    /// The call input, never changed.
    pub data: Seq<u8>,
    /// The program counter, or the reason why the machine has ended.
    pub position: Result<usize, ExitReason>,
    /// Start and end of the memory range that holds the return value.
    pub return_range: (U256, U256),
    /// The memory, as long as its effective length.
    pub memory: Seq<u8>,
    /// The bound on the memory ranges.
    pub memory_limit: usize,
    /// The stack, bottom first.
    pub stack: Seq<U256>,
    /// The bound on the stack depth.
    pub stack_limit: usize,
}

impl State {
    /// What holds of every state that a machine is ever in: the code is no longer than a
    /// `usize` counts, the stack is within its limit, the memory is a whole number of words
    /// within its limit rounded up to one, the program counter is within the code or at its
    /// end, and the return range has a length that fits a `usize`.
    pub open spec fn inv(self) -> bool {
        &&& self.code.len() <= usize::MAX
        &&& self.stack.len() <= self.stack_limit
        &&& self.memory.len() % 32 == 0
        &&& self.memory.len() <= ceil32(self.memory_limit as nat)
        &&& (self.position matches Ok(p) ==> p <= self.code.len())
        &&& self.return_range.0@ <= self.return_range.1@
        &&& self.return_range.1@ - self.return_range.0@ <= usize::MAX
    }

    /// The word `n` places below the top of the stack.
    pub open spec fn top(self, n: int) -> U256 {
        from_top(self.stack, n)
    }

    /// The state after `pops` words are taken off the stack and `out` is put on it.
    pub open spec fn replaced(self, pops: nat, out: Seq<U256>) -> State {
        State { stack: self.stack.subrange(0, self.stack.len() - pops) + out, ..self }
    }

    /// The state with another memory content.
    pub open spec fn with_memory(self, memory: Seq<u8>) -> State {
        State { memory, ..self }
    }

    /// The state with another position.
    pub open spec fn at(self, position: Result<usize, ExitReason>) -> State {
        State { position, ..self }
    }

    /// The bytes that the return range selects from the memory, zero past its end.
    pub open spec fn return_bytes(self) -> Seq<u8> {
        Seq::new(
            (self.return_range.1@ - self.return_range.0@) as nat,
            |i: int| byte_at(self.memory, self.return_range.0@ + i),
        )
    }
}

/// The state of a new machine.
pub open spec fn initial_state(
    code: Seq<u8>,
    data: Seq<u8>,
    stack_limit: usize,
    memory_limit: usize,
) -> State {
    State {
        code,
        data,
        position: Ok(0),
        return_range: (U256 { w0: 0, w1: 0, w2: 0, w3: 0 }, U256 { w0: 0, w1: 0, w2: 0, w3: 0 }),
        memory: Seq::empty(),
        memory_limit,
        stack: Seq::empty(),
        stack_limit,
    }
}

/// The error of an instruction that finds too few words on the stack.
pub open spec fn underflow() -> ExitReason {
    ExitReason::Error(ExitError::StackUnderflow)
}

/// The error of an instruction that finds no room on the stack.
pub open spec fn overflow() -> ExitReason {
    ExitReason::Error(ExitError::StackOverflow)
}

} // verus!
