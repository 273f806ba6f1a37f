//! The instructions that work on the stack, the memory, the code and the program counter.

use crate::error::{ExitError, ExitReason, ExitRevert, ExitSucceed};
use crate::eval::Control;
use crate::memory::{grown, read, resize_outcome, stored};
use crate::primitives::{
    byte_of, left_padded, lemma_word_bound, lemma_word_of_view, limb_byte, load_word, modulus,
    source_window, word_from_be, word_of, word_to_be, U256,
};
use crate::state::{overflow, underflow, State};
use crate::uint_ops::overflowing_add;
use crate::valids::{is_jump_dest, valid_map};
use crate::Machine;
use vstd::prelude::*;

verus! {

/// The outcome of an instruction that takes `pops` words off the stack and puts `out` on it:
/// with too few words on the stack `StackUnderflow`, with no room for the result
/// `StackOverflow`, both with the state unchanged; else the new stack, and the program
/// counter moves by `delta`.
pub open spec fn stack_effect(s: State, pops: nat, out: Seq<U256>, delta: usize) -> (
    State,
    Control,
) {
    if s.stack.len() < pops {
        (s, Control::Exit(underflow()))
    } else if s.stack.len() - pops + out.len() > s.stack_limit {
        (s, Control::Exit(overflow()))
    } else {
        (s.replaced(pops, out), Control::Continue(delta))
    }
}

/// The word that `PUSHn` at `position` pushes: its `n` immediate bytes, with zeros for those
/// that lie past the end of the code.
pub open spec fn push_value(code: Seq<u8>, n: nat, position: nat) -> U256 {
    word_from_be(left_padded(source_window(code, position + 1, n)))
}

/// `MLOAD`: grows the memory to cover the 32 bytes at the index, and replaces the index by
/// the word read there.
pub open spec fn mload_spec(s: State) -> (State, Control) {
    if s.stack.len() < 1 {
        (s, Control::Exit(underflow()))
    } else {
        let index = s.top(0);
        match resize_outcome(s.memory_limit as nat, index@, 32) {
            Err(e) => (s, Control::Exit(e)),
            Ok(_) => {
                let memory = grown(s.memory, index@ + 32);
                (
                    s.with_memory(memory).replaced(1, seq![word_from_be(read(memory, index@, 32))]),
                    Control::Continue(1),
                )
            },
        }
    }
}

/// An instruction that takes an index and further operands, `pops` words together, and
/// stores `bytes` at the index.
pub open spec fn store_effect(s: State, pops: nat, bytes: Seq<u8>) -> (State, Control) {
    if s.stack.len() < pops {
        (s, Control::Exit(underflow()))
    } else {
        let index = s.top(0);
        match resize_outcome(s.memory_limit as nat, index@, bytes.len()) {
            Err(e) => (s, Control::Exit(e)),
            Ok(_) => (
                s.with_memory(stored(s.memory, index@, bytes)).replaced(pops, seq![]),
                Control::Continue(1),
            ),
        }
    }
}

/// `MSTORE`: stores the 32 bytes of the second operand at the index.
pub open spec fn mstore_spec(s: State) -> (State, Control) {
    store_effect(s, 2, word_to_be(s.top(1)))
}

/// `MSTORE8`: stores the lowest byte of the second operand at the index.
pub open spec fn mstore8_spec(s: State) -> (State, Control) {
    store_effect(s, 2, seq![limb_byte(s.top(1).w0, 0)])
}

/// `CODECOPY` and `CALLDATACOPY`: with operands memory offset, source offset and length,
/// stores that many bytes of the source, zero past its end.
pub open spec fn copy_spec(s: State, src: Seq<u8>) -> (State, Control) {
    if s.stack.len() < 3 {
        (s, Control::Exit(underflow()))
    } else {
        store_effect(s, 3, source_window(src, s.top(1)@, s.top(2)@))
    }
}

/// `RETURN` and `REVERT`: with operands start and length, grows the memory to cover the
/// range, records it as the return range and ends the machine for the given reason.
pub open spec fn halt_spec(s: State, reason: ExitReason) -> (State, Control) {
    if s.stack.len() < 2 {
        (s, Control::Exit(underflow()))
    } else {
        let start = s.top(0);
        let len = s.top(1);
        match resize_outcome(s.memory_limit as nat, start@, len@) {
            Err(e) => (s, Control::Exit(e)),
            Ok(_) => (
                State {
                    memory: if len@ == 0 {
                        s.memory
                    } else {
                        grown(s.memory, start@ + len@)
                    },
                    return_range: (start, word_of(start@ + len@)),
                    ..s.replaced(2, seq![])
                },
                Control::Exit(reason),
            ),
        }
    }
}

/// `JUMP`: to the destination on top of the stack, if that is a valid one; else
/// `InvalidJump`, with the state unchanged.
pub open spec fn jump_spec(s: State) -> (State, Control) {
    if s.stack.len() < 1 {
        (s, Control::Exit(underflow()))
    } else if is_jump_dest(s.code, s.top(0)@) {
        (s.replaced(1, seq![]), Control::Jump(s.top(0)@ as usize))
    } else {
        (s, Control::Exit(ExitReason::Error(ExitError::InvalidJump)))
    }
}

/// `JUMPI`: as `JUMP` if the second operand is not 0, else on to the next instruction.
pub open spec fn jumpi_spec(s: State) -> (State, Control) {
    if s.stack.len() < 2 {
        (s, Control::Exit(underflow()))
    } else if s.top(1)@ == 0 {
        (s.replaced(2, seq![]), Control::Continue(1))
    } else if is_jump_dest(s.code, s.top(0)@) {
        (s.replaced(2, seq![]), Control::Jump(s.top(0)@ as usize))
    } else {
        (s, Control::Exit(ExitReason::Error(ExitError::InvalidJump)))
    }
}

/// `DUPn`: puts a copy of the `n`-th word from the top on the stack.
pub open spec fn dup_spec(s: State, n: nat) -> (State, Control) {
    if s.stack.len() < n {
        (s, Control::Exit(underflow()))
    } else {
        stack_effect(s, 0, seq![s.top(n - 1)], 1)
    }
}

/// `SWAPn`: exchanges the top word with the one `n` places below it.
pub open spec fn swap_spec(s: State, n: nat) -> (State, Control) {
    if s.stack.len() < n + 1 {
        (s, Control::Exit(underflow()))
    } else {
        let last = s.stack.len() - 1;
        (
            State { stack: s.stack.update(last, s.top(n as int)).update(last - n, s.top(0)), ..s },
            Control::Continue(1),
        )
    }
}

/// Takes `pops` words off the stack.
pub(crate) fn discard(state: &mut Machine, pops: usize)
    requires
        old(state).wf(),
        pops <= old(state)@.stack.len(),
    ensures
        final(state).wf(),
        final(state)@ == old(state)@.replaced(pops as nat, seq![]),
{
    let mut i: usize = 0;
    assert(state@.stack =~= state@.stack.subrange(0, state@.stack.len() as int));
    while i < pops
        invariant
            state.wf(),
            i <= pops <= old(state)@.stack.len(),
            state@ == (State {
                stack: old(state)@.stack.subrange(0, old(state)@.stack.len() - i),
                ..old(state)@
            }),
        decreases pops - i,
    {
        let _ = state.stack.pop();
        i += 1;
        assert(state@.stack =~= old(state)@.stack.subrange(0, old(state)@.stack.len() - i));
    }
    assert(state@.stack =~= old(state)@.replaced(pops as nat, seq![]).stack);
}

/// Takes `pops` words off the stack, at least one, and puts `out` on it.
pub(crate) fn commit(state: &mut Machine, pops: usize, out: U256)
    requires
        old(state).wf(),
        1 <= pops <= old(state)@.stack.len(),
    ensures
        final(state).wf(),
        final(state)@ == old(state)@.replaced(pops as nat, seq![out]),
{
    discard(state, pops - 1);
    let _ = state.stack.set(0, out);
    assert(state@.stack =~= old(state)@.replaced(pops as nat, seq![out]).stack);
}

/// Puts `out` on the stack, if there is room, and moves on by `delta`.
pub(crate) fn push_word(state: &mut Machine, out: U256, delta: usize) -> (r: Control)
    requires
        old(state).wf(),
    ensures
        final(state).wf(),
        (final(state)@, r) == stack_effect(old(state)@, 0, seq![out], delta),
{
    match state.stack.push(out) {
        Ok(()) => {
            assert(state@.stack =~= old(state)@.replaced(0, seq![out]).stack);
            Control::Continue(delta)
        },
        Err(e) => Control::Exit(ExitReason::Error(e)),
    }
}

/// `POP`.
pub fn pop(state: &mut Machine) -> (r: Control)
    requires
        old(state).wf(),
    ensures
        final(state).wf(),
        (final(state)@, r) == stack_effect(old(state)@, 1, seq![], 1),
{
    if state.stack.len() < 1 {
        return Control::Exit(ExitReason::Error(ExitError::StackUnderflow));
    }
    discard(state, 1);
    Control::Continue(1)
}

/// `PC`: pushes the position of the instruction.
pub fn pc(state: &mut Machine, position: usize) -> (r: Control)
    requires
        old(state).wf(),
    ensures
        final(state).wf(),
        (final(state)@, r) == stack_effect(old(state)@, 0, seq![word_of(position as nat)], 1),
{
    let value = U256::from_usize(position);
    proof {
        lemma_word_of_view(value);
    }
    push_word(state, value, 1)
}

/// `MSIZE`: pushes the effective length of the memory.
pub fn msize(state: &mut Machine) -> (r: Control)
    requires
        old(state).wf(),
    ensures
        final(state).wf(),
        (final(state)@, r) == stack_effect(
            old(state)@,
            0,
            seq![word_of(old(state)@.memory.len())],
            1,
        ),
{
    let value = state.memory.effective_len();
    proof {
        lemma_word_of_view(value);
    }
    push_word(state, value, 1)
}

/// `CODESIZE`: pushes the length of the code.
pub fn codesize(state: &mut Machine) -> (r: Control)
    requires
        old(state).wf(),
    ensures
        final(state).wf(),
        (final(state)@, r) == stack_effect(old(state)@, 0, seq![word_of(old(state)@.code.len())], 1),
{
    let value = U256::from_usize(state.code.len());
    proof {
        lemma_word_of_view(value);
    }
    push_word(state, value, 1)
}

/// `CALLDATASIZE`: pushes the length of the call input.
pub fn calldatasize(state: &mut Machine) -> (r: Control)
    requires
        old(state).wf(),
    ensures
        final(state).wf(),
        (final(state)@, r) == stack_effect(old(state)@, 0, seq![word_of(old(state)@.data.len())], 1),
{
    let value = U256::from_usize(state.data.len());
    proof {
        lemma_word_of_view(value);
    }
    push_word(state, value, 1)
}

/// `PUSHn`: pushes the `n` bytes that follow the opcode, and moves past them. Bytes past the
/// end of the code count as zero.
pub fn push(state: &mut Machine, n: usize, position: usize) -> (r: Control)
    requires
        old(state).wf(),
        n <= 32,
    ensures
        final(state).wf(),
        (final(state)@, r) == stack_effect(
            old(state)@,
            0,
            seq![push_value(old(state)@.code, n as nat, position as nat)],
            (1 + n) as usize,
        ),
{
    let code_len = state.code.len();
    let start: usize = if position < usize::MAX {
        position + 1
    } else {
        position
    };
    let value = load_word(state.code.as_slice(), start, n);
    assert(source_window(state@.code, start as nat, n as nat) =~= source_window(
        state@.code,
        (position + 1) as nat,
        n as nat,
    ));
    push_word(state, value, 1 + n)
}

/// `CALLDATALOAD`: replaces the index on top of the stack by the 32 bytes of the call input
/// from there on, zero past its end.
pub fn calldataload(state: &mut Machine) -> (r: Control)
    requires
        old(state).wf(),
    ensures
        final(state).wf(),
        (final(state)@, r) == stack_effect(
            old(state)@,
            1,
            seq![word_from_be(source_window(old(state)@.data, old(state)@.top(0)@, 32))],
            1,
        ),
{
    let index = match state.stack.peek(0) {
        Ok(index) => index,
        Err(e) => {
            return Control::Exit(ExitReason::Error(e));
        },
    };
    let offset: usize = match index.to_usize() {
        Some(offset) => offset,
        None => state.data.len(),
    };
    let value = load_word(state.data.as_slice(), offset, 32);
    proof {
        let window = source_window(state@.data, index@, 32);
        assert(source_window(state@.data, offset as nat, 32) =~= window);
        assert(left_padded(window) =~= window);
    }
    commit(state, 1, value);
    Control::Continue(1)
}

/// `MLOAD`.
pub fn mload(state: &mut Machine) -> (r: Control)
    requires
        old(state).wf(),
    ensures
        final(state).wf(),
        (final(state)@, r) == mload_spec(old(state)@),
{
    let index = match state.stack.peek(0) {
        Ok(index) => index,
        Err(e) => {
            return Control::Exit(ExitReason::Error(e));
        },
    };
    match state.memory.resize_offset(index, U256::from_u64(32)) {
        Ok(()) => {},
        Err(e) => {
            return Control::Exit(e);
        },
    }
    let offset: usize = match index.to_usize() {
        Some(offset) => offset,
        None => {
            return Control::Exit(ExitReason::Fatal(crate::error::ExitFatal::NotSupported));
        },
    };
    let bytes = state.memory.get(offset, 32);
    let value = U256::from_big_endian(bytes.as_slice());
    assert(left_padded(bytes@) =~= bytes@);
    commit(state, 1, value);
    Control::Continue(1)
}

/// Stores `bytes` at the index on top of the stack and takes `pops` operands off.
fn store(state: &mut Machine, pops: usize, src: &[u8], src_offset: U256, len: U256) -> (r: Control)
    requires
        old(state).wf(),
        1 <= pops <= old(state)@.stack.len(),
    ensures
        final(state).wf(),
        (final(state)@, r) == store_effect(
            old(state)@,
            pops as nat,
            source_window(src@, src_offset@, len@),
        ),
{
    let index = match state.stack.peek(0) {
        Ok(index) => index,
        Err(e) => {
            return Control::Exit(ExitReason::Error(e));
        },
    };
    match state.memory.resize_offset(index, len) {
        Ok(()) => {},
        Err(e) => {
            return Control::Exit(e);
        },
    }
    match state.memory.copy_large(index, src_offset, len, src) {
        Ok(()) => {},
        Err(e) => {
            return Control::Exit(ExitReason::Fatal(e));
        },
    }
    assert(state.memory@ =~= stored(
        old(state)@.memory,
        index@,
        source_window(src@, src_offset@, len@),
    ));
    discard(state, pops);
    Control::Continue(1)
}

/// `MSTORE`.
pub fn mstore(state: &mut Machine) -> (r: Control)
    requires
        old(state).wf(),
    ensures
        final(state).wf(),
        (final(state)@, r) == mstore_spec(old(state)@),
{
    if state.stack.len() < 2 {
        return Control::Exit(ExitReason::Error(ExitError::StackUnderflow));
    }
    let value = match state.stack.peek(1) {
        Ok(value) => value,
        Err(e) => {
            return Control::Exit(ExitReason::Error(e));
        },
    };
    let bytes = value.to_big_endian();
    assert(source_window(bytes@, 0, 32) =~= word_to_be(value));
    store(state, 2, bytes.as_slice(), U256::zero(), U256::from_u64(32))
}

/// `MSTORE8`.
pub fn mstore8(state: &mut Machine) -> (r: Control)
    requires
        old(state).wf(),
    ensures
        final(state).wf(),
        (final(state)@, r) == mstore8_spec(old(state)@),
{
    if state.stack.len() < 2 {
        return Control::Exit(ExitReason::Error(ExitError::StackUnderflow));
    }
    let value = match state.stack.peek(1) {
        Ok(value) => value,
        Err(e) => {
            return Control::Exit(ExitReason::Error(e));
        },
    };
    let bytes = [byte_of(value.low_u64(), 0)];
    assert(source_window(bytes@, 0, 1) =~= seq![limb_byte(value.w0, 0)]);
    store(state, 2, bytes.as_slice(), U256::zero(), U256::one())
}

/// `CODECOPY`.
pub fn codecopy(state: &mut Machine) -> (r: Control)
    requires
        old(state).wf(),
    ensures
        final(state).wf(),
        (final(state)@, r) == copy_spec(old(state)@, old(state)@.code),
{
    if state.stack.len() < 3 {
        return Control::Exit(ExitReason::Error(ExitError::StackUnderflow));
    }
    let (code_offset, len) = match (state.stack.peek(1), state.stack.peek(2)) {
        (Ok(code_offset), Ok(len)) => (code_offset, len),
        _ => {
            return Control::Exit(ExitReason::Error(ExitError::StackUnderflow));
        },
    };
    let code = state.code.clone();
    store(state, 3, code.as_slice(), code_offset, len)
}

/// `CALLDATACOPY`.
pub fn calldatacopy(state: &mut Machine) -> (r: Control)
    requires
        old(state).wf(),
    ensures
        final(state).wf(),
        (final(state)@, r) == copy_spec(old(state)@, old(state)@.data),
{
    if state.stack.len() < 3 {
        return Control::Exit(ExitReason::Error(ExitError::StackUnderflow));
    }
    let (data_offset, len) = match (state.stack.peek(1), state.stack.peek(2)) {
        (Ok(data_offset), Ok(len)) => (data_offset, len),
        _ => {
            return Control::Exit(ExitReason::Error(ExitError::StackUnderflow));
        },
    };
    let data = state.data.clone();
    store(state, 3, data.as_slice(), data_offset, len)
}

/// `DUPn`.
pub fn dup(state: &mut Machine, n: usize) -> (r: Control)
    requires
        old(state).wf(),
        1 <= n,
    ensures
        final(state).wf(),
        (final(state)@, r) == dup_spec(old(state)@, n as nat),
{
    let value = match state.stack.peek(n - 1) {
        Ok(value) => value,
        Err(e) => {
            return Control::Exit(ExitReason::Error(e));
        },
    };
    push_word(state, value, 1)
}

/// `SWAPn`.
pub fn swap(state: &mut Machine, n: usize) -> (r: Control)
    requires
        old(state).wf(),
        n < usize::MAX,
    ensures
        final(state).wf(),
        (final(state)@, r) == swap_spec(old(state)@, n as nat),
{
    let (val1, val2) = match (state.stack.peek(0), state.stack.peek(n)) {
        (Ok(val1), Ok(val2)) => (val1, val2),
        _ => {
            return Control::Exit(ExitReason::Error(ExitError::StackUnderflow));
        },
    };
    let _ = state.stack.set(0, val2);
    let _ = state.stack.set(n, val1);
    Control::Continue(1)
}

/// `RETURN` and `REVERT`, with the reason of the exit.
fn halt(state: &mut Machine, reason: ExitReason) -> (r: Control)
    requires
        old(state).wf(),
    ensures
        final(state).wf(),
        (final(state)@, r) == halt_spec(old(state)@, reason),
{
    let (start, len) = match (state.stack.peek(0), state.stack.peek(1)) {
        (Ok(start), Ok(len)) => (start, len),
        _ => {
            return Control::Exit(ExitReason::Error(ExitError::StackUnderflow));
        },
    };
    match state.memory.resize_offset(start, len) {
        Ok(()) => {},
        Err(e) => {
            return Control::Exit(e);
        },
    }
    let (end, _) = overflowing_add(start, len);
    proof {
        lemma_word_bound(start);
        vstd::arithmetic::div_mod::lemma_small_mod(start@ + len@, modulus());
        lemma_word_of_view(end);
    }
    state.return_range = (start, end);
    discard(state, 2);
    Control::Exit(reason)
}

/// `RETURN`.
pub fn ret(state: &mut Machine) -> (r: Control)
    requires
        old(state).wf(),
    ensures
        final(state).wf(),
        (final(state)@, r) == halt_spec(old(state)@, ExitReason::Succeed(ExitSucceed::Returned)),
{
    halt(state, ExitReason::Succeed(ExitSucceed::Returned))
}

/// `REVERT`.
pub fn revert(state: &mut Machine) -> (r: Control)
    requires
        old(state).wf(),
    ensures
        final(state).wf(),
        (final(state)@, r) == halt_spec(old(state)@, ExitReason::Revert(ExitRevert::Reverted)),
{
    halt(state, ExitReason::Revert(ExitRevert::Reverted))
}

/// Whether a jump may land on `dest`.
fn valid_destination(state: &Machine, dest: U256) -> (r: Option<usize>)
    requires
        state.wf(),
    ensures
        match r {
            Some(d) => d == dest@ && is_jump_dest(state@.code, dest@),
            None => !is_jump_dest(state@.code, dest@),
        },
{
    let code_len = state.code.len();
    proof {
        if dest@ < state@.code.len() {
            assert(valid_map(state@.code)[dest@ as int] == is_jump_dest(state@.code, dest@));
        }
    }
    match dest.to_usize() {
        Some(d) => if state.valids.is_valid(d) {
            Some(d)
        } else {
            None
        },
        None => None,
    }
}

/// `JUMP`.
pub fn jump(state: &mut Machine) -> (r: Control)
    requires
        old(state).wf(),
    ensures
        final(state).wf(),
        (final(state)@, r) == jump_spec(old(state)@),
{
    let dest = match state.stack.peek(0) {
        Ok(dest) => dest,
        Err(e) => {
            return Control::Exit(ExitReason::Error(e));
        },
    };
    match valid_destination(state, dest) {
        Some(d) => {
            discard(state, 1);
            Control::Jump(d)
        },
        None => Control::Exit(ExitReason::Error(ExitError::InvalidJump)),
    }
}

/// `JUMPI`.
pub fn jumpi(state: &mut Machine) -> (r: Control)
    requires
        old(state).wf(),
    ensures
        final(state).wf(),
        (final(state)@, r) == jumpi_spec(old(state)@),
{
    let (dest, value) = match (state.stack.peek(0), state.stack.peek(1)) {
        (Ok(dest), Ok(value)) => (dest, value),
        _ => {
            return Control::Exit(ExitReason::Error(ExitError::StackUnderflow));
        },
    };
    if value.is_zero() {
        discard(state, 2);
        return Control::Continue(1);
    }
    match valid_destination(state, dest) {
        Some(d) => {
            discard(state, 2);
            Control::Jump(d)
        },
        None => Control::Exit(ExitReason::Error(ExitError::InvalidJump)),
    }
}

/// The immediate bytes of a `PUSHn` that lie past the end of the code count as zero.
pub proof fn lemma_push_zero_pads(code: Seq<u8>, n: nat, position: nat, i: int)
    requires
        1 <= n <= 32,
        0 <= i < n,
        position + 1 + i >= code.len(),
    ensures
        source_window(code, position + 1, n)[i] == 0,
        left_padded(source_window(code, position + 1, n))[32 - n + i] == 0,
{
}

/// `JUMP` succeeds exactly if the validity map holds the destination; else it ends the
/// machine with `InvalidJump`.
pub proof fn lemma_jump_iff_valid(s: State)
    requires
        s.stack.len() >= 1,
    ensures
        jump_spec(s).1 is Jump <==> s.top(0)@ < s.code.len() && valid_map(s.code)[s.top(0)@ as int],
        !(jump_spec(s).1 is Jump) ==> jump_spec(s) == (
            s,
            Control::Exit(ExitReason::Error(ExitError::InvalidJump)),
        ),
{
}

/// `MSTORE` and then `MLOAD` at the same index gives the stored word back.
pub proof fn lemma_mstore_mload(s: State)
    requires
        s.inv(),
        s.stack.len() >= 2,
        mstore_spec(s).1 is Continue,
    ensures
        ({
            let index = s.top(0);
            let stored_state = mstore_spec(s).0;
            let loaded = mload_spec(stored_state.replaced(0, seq![index]));
            loaded.1 is Continue && loaded.0.top(0) == s.top(1) && loaded.0.memory
                == stored_state.memory
        }),
{
    let index = s.top(0);
    let value = s.top(1);
    let after = mstore_spec(s).0;
    let again = after.replaced(0, seq![index]);
    crate::memory::lemma_read_stored(s.memory, index@, word_to_be(value));
    crate::primitives::lemma_word_be_roundtrip(value);
    assert(again.top(0) == index);
    let loaded = mload_spec(again);
    assert(loaded.0.top(0) == word_from_be(read(after.memory, index@, 32)));
}

/// After `MSTORE8` the byte of the memory at the index is the lowest byte of the stored
/// word.
pub proof fn lemma_mstore8_byte(s: State)
    requires
        s.stack.len() >= 2,
        mstore8_spec(s).1 is Continue,
    ensures
        mstore8_spec(s).0.memory.len() > s.top(0)@,
        mstore8_spec(s).0.memory[s.top(0)@ as int] == limb_byte(s.top(1).w0, 0),
        limb_byte(s.top(1).w0, 0) == s.top(1)@ % 256,
{
    let x = s.top(1);
    let w = x.w0;
    assert((w >> 0u64) & 0xff == w % 256) by (bit_vector);
    let k: int = x.w1 as int * 0x100_0000_0000_0000 + x.w2 as int
        * 0x100_0000_0000_0000_0000_0000_0000_0000 + x.w3 as int
        * 0x100_0000_0000_0000_0000_0000_0000_0000_0000_0000_0000_0000;
    assert(x@ == 256 * k + x.w0);
    vstd::arithmetic::div_mod::lemma_mod_multiples_vanish(k, x.w0 as int, 256);
}

/// What every instruction keeps: code, call input and limits stay, the memory does not
/// shrink, and the invariant of the state holds.
pub open spec fn kept(s: State, t: State) -> bool {
    &&& t.code == s.code
    &&& t.data == s.data
    &&& t.stack_limit == s.stack_limit
    &&& t.memory_limit == s.memory_limit
    &&& t.memory.len() >= s.memory.len()
    &&& t.inv()
}

/// An instruction that works on the stack alone keeps what every instruction keeps.
pub proof fn lemma_stack_effect_kept(s: State, pops: nat, out: Seq<U256>, delta: usize)
    requires
        s.inv(),
    ensures
        kept(s, stack_effect(s, pops, out, delta).0),
        stack_effect(s, pops, out, delta).0.position == s.position,
        !(stack_effect(s, pops, out, delta).1 is Jump),
{
}

/// A memory that grows within the limit stays within the limit rounded up to a word.
proof fn lemma_ceil32_monotonic(a: nat, b: nat)
    requires
        a <= b,
    ensures
        crate::memory::ceil32(a) <= crate::memory::ceil32(b),
        crate::memory::ceil32(a) % 32 == 0,
{
}

/// An instruction that stores bytes keeps what every instruction keeps.
pub proof fn lemma_store_effect_kept(s: State, pops: nat, bytes: Seq<u8>)
    requires
        s.inv(),
    ensures
        kept(s, store_effect(s, pops, bytes).0),
        store_effect(s, pops, bytes).0.position == s.position,
        !(store_effect(s, pops, bytes).1 is Jump),
{
    if s.stack.len() >= pops && bytes.len() > 0 {
        let index = s.top(0);
        if resize_outcome(s.memory_limit as nat, index@, bytes.len()) is Ok {
            lemma_ceil32_monotonic(index@ + bytes.len(), s.memory_limit as nat);
        }
    }
}

/// `MLOAD` keeps what every instruction keeps.
pub proof fn lemma_mload_kept(s: State)
    requires
        s.inv(),
    ensures
        kept(s, mload_spec(s).0),
        mload_spec(s).0.position == s.position,
        !(mload_spec(s).1 is Jump),
{
    if s.stack.len() >= 1 {
        let index = s.top(0);
        if resize_outcome(s.memory_limit as nat, index@, 32) is Ok {
            lemma_ceil32_monotonic(index@ + 32, s.memory_limit as nat);
        }
    }
}

/// `RETURN` and `REVERT` keep what every instruction keeps.
pub proof fn lemma_halt_kept(s: State, reason: ExitReason)
    requires
        s.inv(),
    ensures
        kept(s, halt_spec(s, reason).0),
        halt_spec(s, reason).0.position == s.position,
        !(halt_spec(s, reason).1 is Jump),
{
    if s.stack.len() >= 2 {
        let start = s.top(0);
        let len = s.top(1);
        if resize_outcome(s.memory_limit as nat, start@, len@) is Ok {
            lemma_word_bound(start);
            crate::primitives::lemma_word_of_value(start@ + len@);
            if len@ > 0 {
                lemma_ceil32_monotonic(start@ + len@, s.memory_limit as nat);
            }
        }
    }
}

/// `JUMP` and `JUMPI` keep what every instruction keeps, and jump into the code only.
pub proof fn lemma_jump_kept(s: State)
    requires
        s.inv(),
    ensures
        kept(s, jump_spec(s).0),
        kept(s, jumpi_spec(s).0),
        jump_spec(s).0.position == s.position,
        jumpi_spec(s).0.position == s.position,
        jump_spec(s).1 matches Control::Jump(t) ==> t < s.code.len(),
        jumpi_spec(s).1 matches Control::Jump(t) ==> t < s.code.len(),
{
}

/// `DUPn` and `SWAPn` keep what every instruction keeps.
pub proof fn lemma_dup_swap_kept(s: State, n: nat)
    requires
        s.inv(),
    ensures
        kept(s, dup_spec(s, n).0),
        kept(s, swap_spec(s, n).0),
        dup_spec(s, n).0.position == s.position,
        swap_spec(s, n).0.position == s.position,
        !(dup_spec(s, n).1 is Jump),
        !(swap_spec(s, n).1 is Jump),
{
}

} // verus!
