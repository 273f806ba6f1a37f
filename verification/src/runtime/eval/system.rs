//! The environmental instructions, one function each.

use crate::error::{ExitError, ExitReason, ExitSucceed};
use crate::eval::misc;
use crate::memory::{covered, read, resize_outcome, stored};
use crate::primitives::{
    address_to_hash, hash_to_address, lemma_word_of_view, source_window, word_from_be, word_of,
    word_to_be, H160, H256, U256,
};
use crate::runtime::eval::{done, effect_done, reply, reply_effect, Control};
use crate::error::Capture;
use crate::runtime::{CallScheme, Context, CreateScheme, Handler, Runtime, RuntimeState, Transfer};
use crate::state::{underflow, State};
use crate::Machine;
use vstd::prelude::*;

verus! {

/// The Keccak-256 hash of a byte sequence, as the `sha3` crate computes it.
pub uninterp spec fn keccak256(data: Seq<u8>) -> Seq<u8>;

/// `sha3::Keccak256::digest`: the 32 bytes of the Keccak-256 hash of `data`.
#[verifier::external_body]
fn keccak(data: &[u8]) -> (r: H256)
    ensures
        r@ == keccak256(data@),
{
    H256(<sha3::Keccak256 as sha3::Digest>::digest(data).into())
}

/// The word that holds an address in its low 20 bytes.
pub open spec fn address_word(a: H160) -> U256 {
    word_from_be(address_to_hash(a@))
}

/// The address in the low 20 bytes of a word.
pub open spec fn word_address(w: U256) -> Seq<u8> {
    hash_to_address(word_to_be(w))
}

/// An address as a word.
fn from_address(a: &H160) -> (r: U256)
    ensures
        r == address_word(*a),
{
    H256::from_h160(a).to_u256()
}

/// The address in the low 20 bytes of a word.
fn to_address(w: U256) -> (r: H160)
    ensures
        r@ == word_address(w),
{
    H256::from_u256(w).to_h160()
}

/// The answer of the host with a hash read as a word.
fn hash_answer(answer: Result<H256, ExitError>) -> (r: Result<U256, ExitError>)
    ensures
        match answer {
            Ok(h) => r == Ok::<U256, ExitError>(word_from_be(h@)),
            Err(e) => r == Err::<U256, ExitError>(e),
        },
{
    match answer {
        Ok(h) => Ok(h.to_u256()),
        Err(e) => Err(e),
    }
}

/// The answer of the host with an address read as a word.
fn address_answer(answer: Result<H160, ExitError>) -> (r: Result<U256, ExitError>)
    ensures
        match answer {
            Ok(a) => r == Ok::<U256, ExitError>(address_word(a)),
            Err(e) => r == Err::<U256, ExitError>(e),
        },
{
    match answer {
        Ok(a) => Ok(from_address(&a)),
        Err(e) => Err(e),
    }
}

/// The word `n` places below the top of the stack, or zero where the stack is too shallow.
fn operand(machine: &Machine, n: usize) -> (r: U256)
    ensures
        n < machine@.stack.len() ==> r == machine@.top(n as int),
{
    match machine.stack.peek(n) {
        Ok(w) => w,
        Err(_) => U256::zero(),
    }
}

/// Makes the memory cover `offset..offset + len` and reads the range. A range that the
/// memory cannot cover is an error that leaves the machine as it was.
pub fn memory_range(machine: &mut Machine, offset: U256, len: U256) -> (r: Result<
    Vec<u8>,
    ExitReason,
>)
    requires
        old(machine).wf(),
    ensures
        final(machine).wf(),
        match resize_outcome(old(machine)@.memory_limit as nat, offset@, len@) {
            Err(e) => r == Err::<Vec<u8>, ExitReason>(e) && final(machine)@ == old(machine)@,
            Ok(_) => r is Ok && r->Ok_0@ == read(old(machine)@.memory, offset@, len@) && final(machine)@ == old(machine)@.with_memory(covered(old(machine)@.memory, offset@, len@)),
        },
{
    match machine.memory.resize_offset(offset, len) {
        Ok(()) => {},
        Err(e) => {
            return Err(e);
        },
    }
    let bytes = match (offset.to_usize(), len.to_usize()) {
        (Some(offset), Some(len)) if len > 0 => machine.memory.get(offset, len),
        _ => Vec::new(),
    };
    assert(bytes@ =~= read(old(machine)@.memory, offset@, len@));
    Ok(bytes)
}

/// `SHA3`: replaces offset and length by the hash of that range of the memory, which grows
/// to cover it.
pub open spec fn sha3_spec<H: Handler>(s: State) -> (State, Control<H>) {
    if s.stack.len() < 2 {
        (s, Control::Exit(underflow()))
    } else {
        match resize_outcome(s.memory_limit as nat, s.top(0)@, s.top(1)@) {
            Err(e) => (s, Control::Exit(e)),
            Ok(_) => (
                s.with_memory(covered(s.memory, s.top(0)@, s.top(1)@)).replaced(
                    2,
                    seq![word_from_be(keccak256(read(s.memory, s.top(0)@, s.top(1)@)))],
                ),
                Control::Continue,
            ),
        }
    }
}

/// `SHA3`.
pub fn sha3<H: Handler>(machine: &mut Machine) -> (r: Control<H>)
    requires
        old(machine).wf(),
    ensures
        final(machine).wf(),
        (final(machine)@, r) == sha3_spec::<H>(old(machine)@),
{
    if machine.stack.len() < 2 {
        return Control::Exit(ExitReason::Error(ExitError::StackUnderflow));
    }
    let from = operand(machine, 0);
    let len = operand(machine, 1);
    let data = match memory_range(machine, from, len) {
        Ok(data) => data,
        Err(e) => {
            return Control::Exit(e);
        },
    };
    let hash = keccak(data.as_slice());
    reply(machine, 2, Ok(hash.to_u256()))
}

/// `CHAINID`: pushes the id of the chain.
pub fn chainid<H: Handler>(machine: &mut Machine, handler: &H) -> (r: Control<H>)
    requires
        old(machine).wf(),
    ensures
        final(machine).wf(),
        exists|answer: Result<U256, ExitError>|
            (final(machine)@, r) == #[trigger] reply_effect::<H>(old(machine)@, 0, answer),
{
    reply(machine, 0, handler.chain_id())
}

/// `ADDRESS`: pushes the address of the running contract.
pub fn address<H: Handler>(machine: &mut Machine, contract: &H160) -> (r: Control<H>)
    requires
        old(machine).wf(),
    ensures
        final(machine).wf(),
        (final(machine)@, r) == reply_effect::<H>(
            old(machine)@,
            0,
            Ok(address_word(*contract)),
        ),
{
    reply(machine, 0, Ok(from_address(contract)))
}

/// `BALANCE`: replaces an address by the balance of that account.
pub fn balance<H: Handler>(machine: &mut Machine, handler: &H) -> (r: Control<H>)
    requires
        old(machine).wf(),
    ensures
        final(machine).wf(),
        exists|answer: Result<U256, ExitError>|
            (final(machine)@, r) == #[trigger] reply_effect::<H>(old(machine)@, 1, answer),
{
    if machine.stack.len() < 1 {
        return reply(machine, 1, Ok(U256::zero()));
    }
    let answer = handler.balance(to_address(operand(machine, 0)));
    reply(machine, 1, answer)
}

/// `SELFBALANCE`: pushes the balance of the running contract.
pub fn selfbalance<H: Handler>(machine: &mut Machine, address: &H160, handler: &H) -> (r: Control<
    H,
>)
    requires
        old(machine).wf(),
    ensures
        final(machine).wf(),
        exists|answer: Result<U256, ExitError>|
            (final(machine)@, r) == #[trigger] reply_effect::<H>(old(machine)@, 0, answer),
{
    reply(machine, 0, handler.balance(*address))
}

/// `ORIGIN`: pushes the sender of the transaction.
pub fn origin<H: Handler>(machine: &mut Machine, handler: &H) -> (r: Control<H>)
    requires
        old(machine).wf(),
    ensures
        final(machine).wf(),
        exists|answer: Result<U256, ExitError>|
            (final(machine)@, r) == #[trigger] reply_effect::<H>(old(machine)@, 0, answer),
{
    reply(machine, 0, address_answer(handler.origin()))
}

/// `CALLER`: pushes the caller of the running contract.
pub fn caller<H: Handler>(runtime: &mut Runtime) -> (r: Control<H>)
    requires
        old(runtime).wf(),
    ensures
        final(runtime).wf(),
        final(runtime)@.return_data == old(runtime)@.return_data,
        final(runtime)@.context == old(runtime)@.context,
        (final(runtime)@.machine, r) == reply_effect::<H>(
            old(runtime)@.machine,
            0,
            Ok(address_word(old(runtime)@.context.caller)),
        ),
{
    let word = from_address(&runtime.context.caller);
    reply(&mut runtime.machine, 0, Ok(word))
}

/// `CALLVALUE`: pushes the value that the call appears to carry.
pub fn callvalue<H: Handler>(runtime: &mut Runtime) -> (r: Control<H>)
    requires
        old(runtime).wf(),
    ensures
        final(runtime).wf(),
        final(runtime)@.return_data == old(runtime)@.return_data,
        final(runtime)@.context == old(runtime)@.context,
        (final(runtime)@.machine, r) == reply_effect::<H>(
            old(runtime)@.machine,
            0,
            Ok(old(runtime)@.context.apparent_value),
        ),
{
    let word = runtime.context.apparent_value;
    reply(&mut runtime.machine, 0, Ok(word))
}

/// `GASPRICE`: pushes the gas price of the transaction.
pub fn gasprice<H: Handler>(machine: &mut Machine, handler: &H) -> (r: Control<H>)
    requires
        old(machine).wf(),
    ensures
        final(machine).wf(),
        exists|answer: Result<U256, ExitError>|
            (final(machine)@, r) == #[trigger] reply_effect::<H>(old(machine)@, 0, answer),
{
    reply(machine, 0, handler.gas_price())
}

/// `BASEFEE`: pushes the base fee of the block.
pub fn base_fee<H: Handler>(machine: &mut Machine, handler: &H) -> (r: Control<H>)
    requires
        old(machine).wf(),
    ensures
        final(machine).wf(),
        exists|answer: Result<U256, ExitError>|
            (final(machine)@, r) == #[trigger] reply_effect::<H>(old(machine)@, 0, answer),
{
    reply(machine, 0, handler.block_base_fee_per_gas())
}

/// `EXTCODESIZE`: replaces an address by the size of the code of that account.
pub fn extcodesize<H: Handler>(machine: &mut Machine, handler: &H) -> (r: Control<H>)
    requires
        old(machine).wf(),
    ensures
        final(machine).wf(),
        exists|answer: Result<U256, ExitError>|
            (final(machine)@, r) == #[trigger] reply_effect::<H>(old(machine)@, 1, answer),
{
    if machine.stack.len() < 1 {
        return reply(machine, 1, Ok(U256::zero()));
    }
    let answer = handler.code_size(to_address(operand(machine, 0)));
    reply(machine, 1, answer)
}

/// `EXTCODEHASH`: replaces an address by the hash of the code of that account.
pub fn extcodehash<H: Handler>(machine: &mut Machine, handler: &H) -> (r: Control<H>)
    requires
        old(machine).wf(),
    ensures
        final(machine).wf(),
        exists|answer: Result<U256, ExitError>|
            (final(machine)@, r) == #[trigger] reply_effect::<H>(old(machine)@, 1, answer),
{
    if machine.stack.len() < 1 {
        return reply(machine, 1, Ok(U256::zero()));
    }
    let answer = handler.code_hash(to_address(operand(machine, 0)));
    reply(machine, 1, hash_answer(answer))
}

/// `EXTCODECOPY`, given the answer of the host: with operands address, memory offset, code
/// offset and length, stores that many bytes of the code of the account, zero past its end.
pub open spec fn extcodecopy_spec<H: Handler>(s: State, answer: Result<Seq<u8>, ExitError>) -> (
    State,
    Control<H>,
) {
    if s.stack.len() < 4 {
        (s, Control::Exit(underflow()))
    } else {
        match resize_outcome(s.memory_limit as nat, s.top(1)@, s.top(3)@) {
            Err(e) => (s, Control::Exit(e)),
            Ok(_) => match answer {
                Err(e) => (s, Control::Exit(ExitReason::Error(e))),
                Ok(code) => (
                    s.with_memory(
                        stored(s.memory, s.top(1)@, source_window(code, s.top(2)@, s.top(3)@)),
                    ).replaced(4, seq![]),
                    Control::Continue,
                ),
            },
        }
    }
}

/// `EXTCODECOPY`, with the answer of the host to the question for the code.
pub fn extcodecopy_with<H: Handler>(machine: &mut Machine, answer: Result<Vec<u8>, ExitError>) -> (r:
    Control<H>)
    requires
        old(machine).wf(),
    ensures
        final(machine).wf(),
        (final(machine)@, r) == extcodecopy_spec::<H>(
            old(machine)@,
            match answer {
                Ok(code) => Ok(code@),
                Err(e) => Err(e),
            },
        ),
{
    if machine.stack.len() < 4 {
        return Control::Exit(ExitReason::Error(ExitError::StackUnderflow));
    }
    let memory_offset = operand(machine, 1);
    let code_offset = operand(machine, 2);
    let len = operand(machine, 3);
    match machine.memory.resize_check(memory_offset, len) {
        Ok(()) => {},
        Err(e) => {
            return Control::Exit(e);
        },
    }
    let code = match answer {
        Ok(code) => code,
        Err(e) => {
            return Control::Exit(ExitReason::Error(e));
        },
    };
    match machine.memory.copy_large(memory_offset, code_offset, len, code.as_slice()) {
        Ok(()) => {},
        Err(e) => {
            return Control::Exit(ExitReason::Fatal(e));
        },
    }
    misc::discard(machine, 4);
    Control::Continue
}

/// `EXTCODECOPY`.
pub fn extcodecopy<H: Handler>(machine: &mut Machine, handler: &H) -> (r: Control<H>)
    requires
        old(machine).wf(),
    ensures
        final(machine).wf(),
        exists|answer: Result<Seq<u8>, ExitError>|
            (final(machine)@, r) == #[trigger] extcodecopy_spec::<H>(old(machine)@, answer),
{
    if machine.stack.len() < 4 {
        return extcodecopy_with(machine, Err(ExitError::StackUnderflow));
    }
    let answer = handler.code(to_address(operand(machine, 0)));
    extcodecopy_with(machine, answer)
}

/// `RETURNDATASIZE`: pushes the length of the return-data buffer.
pub fn returndatasize<H: Handler>(runtime: &mut Runtime) -> (r: Control<H>)
    requires
        old(runtime).wf(),
    ensures
        final(runtime).wf(),
        final(runtime)@.return_data == old(runtime)@.return_data,
        final(runtime)@.context == old(runtime)@.context,
        (final(runtime)@.machine, r) == reply_effect::<H>(
            old(runtime)@.machine,
            0,
            Ok(word_of(old(runtime)@.return_data.len())),
        ),
{
    let size = U256::from_usize(runtime.return_data_buffer.len());
    proof {
        lemma_word_of_view(size);
    }
    reply(&mut runtime.machine, 0, Ok(size))
}

/// `RETURNDATACOPY`: with operands memory offset, data offset and length, stores that range
/// of the return-data buffer. A range that ends past the buffer is `OutOfOffset`.
pub open spec fn returndatacopy_spec<H: Handler>(s: State, buffer: Seq<u8>) -> (State, Control<H>) {
    if s.stack.len() < 3 {
        (s, Control::Exit(underflow()))
    } else {
        match resize_outcome(s.memory_limit as nat, s.top(0)@, s.top(2)@) {
            Err(e) => (s, Control::Exit(e)),
            Ok(_) => if s.top(1)@ + s.top(2)@ > buffer.len() {
                (s, Control::Exit(ExitReason::Error(ExitError::OutOfOffset)))
            } else {
                (
                    s.with_memory(
                        stored(s.memory, s.top(0)@, source_window(buffer, s.top(1)@, s.top(2)@)),
                    ).replaced(3, seq![]),
                    Control::Continue,
                )
            },
        }
    }
}

/// `RETURNDATACOPY`.
pub fn returndatacopy<H: Handler>(runtime: &mut Runtime) -> (r: Control<H>)
    requires
        old(runtime).wf(),
    ensures
        final(runtime).wf(),
        final(runtime)@.return_data == old(runtime)@.return_data,
        final(runtime)@.context == old(runtime)@.context,
        (final(runtime)@.machine, r) == returndatacopy_spec::<H>(
            old(runtime)@.machine,
            old(runtime)@.return_data,
        ),
{
    if runtime.machine.stack.len() < 3 {
        return Control::Exit(ExitReason::Error(ExitError::StackUnderflow));
    }
    let memory_offset = operand(&runtime.machine, 0);
    let data_offset = operand(&runtime.machine, 1);
    let len = operand(&runtime.machine, 2);
    match runtime.machine.memory.resize_check(memory_offset, len) {
        Ok(()) => {},
        Err(e) => {
            return Control::Exit(e);
        },
    }
    let (end, wrapped) = crate::uint_ops::overflowing_add(data_offset, len);
    proof {
        crate::primitives::lemma_word_bound(data_offset);
        crate::primitives::lemma_word_bound(len);
        if !wrapped {
            vstd::arithmetic::div_mod::lemma_small_mod(data_offset@ + len@, crate::primitives::modulus());
        }
    }
    let buffer_len = runtime.return_data_buffer.len();
    if wrapped || end.gt(&U256::from_usize(buffer_len)) {
        return Control::Exit(ExitReason::Error(ExitError::OutOfOffset));
    }
    match runtime.machine.memory.copy_large(
        memory_offset,
        data_offset,
        len,
        runtime.return_data_buffer.as_slice(),
    ) {
        Ok(()) => {},
        Err(e) => {
            return Control::Exit(ExitReason::Fatal(e));
        },
    }
    misc::discard(&mut runtime.machine, 3);
    Control::Continue
}

/// `BLOCKHASH`: replaces a block number by the hash of that block.
pub fn blockhash<H: Handler>(machine: &mut Machine, handler: &H) -> (r: Control<H>)
    requires
        old(machine).wf(),
    ensures
        final(machine).wf(),
        exists|answer: Result<U256, ExitError>|
            (final(machine)@, r) == #[trigger] reply_effect::<H>(old(machine)@, 1, answer),
{
    if machine.stack.len() < 1 {
        return reply(machine, 1, Ok(U256::zero()));
    }
    let answer = handler.block_hash(operand(machine, 0));
    reply(machine, 1, hash_answer(answer))
}

/// `COINBASE`: pushes the beneficiary of the block.
pub fn coinbase<H: Handler>(machine: &mut Machine, handler: &H) -> (r: Control<H>)
    requires
        old(machine).wf(),
    ensures
        final(machine).wf(),
        exists|answer: Result<U256, ExitError>|
            (final(machine)@, r) == #[trigger] reply_effect::<H>(old(machine)@, 0, answer),
{
    reply(machine, 0, address_answer(handler.block_coinbase()))
}

/// `TIMESTAMP`: pushes the timestamp of the block.
pub fn timestamp<H: Handler>(machine: &mut Machine, handler: &H) -> (r: Control<H>)
    requires
        old(machine).wf(),
    ensures
        final(machine).wf(),
        exists|answer: Result<U256, ExitError>|
            (final(machine)@, r) == #[trigger] reply_effect::<H>(old(machine)@, 0, answer),
{
    reply(machine, 0, handler.block_timestamp())
}

/// `NUMBER`: pushes the number of the block.
pub fn number<H: Handler>(machine: &mut Machine, handler: &H) -> (r: Control<H>)
    requires
        old(machine).wf(),
    ensures
        final(machine).wf(),
        exists|answer: Result<U256, ExitError>|
            (final(machine)@, r) == #[trigger] reply_effect::<H>(old(machine)@, 0, answer),
{
    reply(machine, 0, handler.block_number())
}

/// `DIFFICULTY`: pushes the difficulty of the block.
pub fn difficulty<H: Handler>(machine: &mut Machine, handler: &H) -> (r: Control<H>)
    requires
        old(machine).wf(),
    ensures
        final(machine).wf(),
        exists|answer: Result<U256, ExitError>|
            (final(machine)@, r) == #[trigger] reply_effect::<H>(old(machine)@, 0, answer),
{
    reply(machine, 0, handler.block_difficulty())
}

/// `GASLIMIT`: pushes the gas limit of the block.
pub fn gaslimit<H: Handler>(machine: &mut Machine, handler: &H) -> (r: Control<H>)
    requires
        old(machine).wf(),
    ensures
        final(machine).wf(),
        exists|answer: Result<U256, ExitError>|
            (final(machine)@, r) == #[trigger] reply_effect::<H>(old(machine)@, 0, answer),
{
    reply(machine, 0, handler.block_gas_limit())
}

/// `SLOAD`: replaces a key by the word that the running contract stores under it.
pub fn sload<H: Handler>(machine: &mut Machine, address: &H160, handler: &H) -> (r: Control<H>)
    requires
        old(machine).wf(),
    ensures
        final(machine).wf(),
        exists|answer: Result<U256, ExitError>|
            (final(machine)@, r) == #[trigger] reply_effect::<H>(old(machine)@, 1, answer),
{
    if machine.stack.len() < 1 {
        return reply(machine, 1, Ok(U256::zero()));
    }
    let index = H256::from_u256(operand(machine, 0));
    let answer = handler.storage(*address, index);
    reply(machine, 1, hash_answer(answer))
}

/// `SSTORE`: takes a key and a word and has the host store the word under the key.
pub fn sstore<H: Handler>(machine: &mut Machine, address: &H160, handler: &mut H) -> (r: Control<
    H,
>)
    requires
        old(machine).wf(),
    ensures
        final(machine).wf(),
        exists|answer: Result<(), ExitError>|
            (final(machine)@, r) == #[trigger] effect_done::<H>(old(machine)@, 2, answer),
{
    if machine.stack.len() < 2 {
        return done(machine, 2, Ok(()));
    }
    let index = H256::from_u256(operand(machine, 0));
    let value = H256::from_u256(operand(machine, 1));
    let answer = handler.set_storage(*address, index, value);
    done(machine, 2, answer)
}

/// `GAS`: pushes the gas that is left.
pub fn gas<H: Handler>(machine: &mut Machine, handler: &H) -> (r: Control<H>)
    requires
        old(machine).wf(),
    ensures
        final(machine).wf(),
        exists|answer: Result<U256, ExitError>|
            (final(machine)@, r) == #[trigger] reply_effect::<H>(old(machine)@, 0, answer),
{
    reply(machine, 0, handler.gas_left())
}

/// What `LOGn` hands to the host: the `n` topics below offset and length, and the bytes of
/// that range of the memory. With too few words on the stack this is `StackUnderflow`, and
/// with a range that the memory cannot cover the error of that.
pub open spec fn log_ready(s: State, n: nat) -> Result<(), ExitReason> {
    if s.stack.len() < 2 + n {
        Err(underflow())
    } else {
        resize_outcome(s.memory_limit as nat, s.top(0)@, s.top(1)@)
    }
}

/// `LOGn`, given the answer of the host: takes offset, length and `n` topics off the stack,
/// and the memory grows to cover the range.
pub open spec fn log_spec<H: Handler>(s: State, n: nat, answer: Result<(), ExitError>) -> (
    State,
    Control<H>,
) {
    match log_ready(s, n) {
        Err(e) => (s, Control::Exit(e)),
        Ok(_) => match answer {
            Err(e) => (s, Control::Exit(ExitReason::Error(e))),
            Ok(_) => (
                s.with_memory(covered(s.memory, s.top(0)@, s.top(1)@)).replaced(2 + n, seq![]),
                Control::Continue,
            ),
        },
    }
}

/// The topics and the data that `LOGn` hands to the host.
pub fn log_request(machine: &Machine, n: u8) -> (r: Result<(Vec<H256>, Vec<u8>), ExitReason>)
    requires
        machine.wf(),
    ensures
        match log_ready(machine@, n as nat) {
            Err(e) => r == Err::<(Vec<H256>, Vec<u8>), ExitReason>(e),
            Ok(_) => r is Ok && r->Ok_0.1@ == read(
                machine@.memory,
                machine@.top(0)@,
                machine@.top(1)@,
            ) && r->Ok_0.0@.len() == n && forall|i: int|
                0 <= i < n ==> (#[trigger] r->Ok_0.0@[i])@ == word_to_be(machine@.top(2 + i)),
        },
{
    if machine.stack.len() < 2 + n as usize {
        return Err(ExitReason::Error(ExitError::StackUnderflow));
    }
    let offset = operand(machine, 0);
    let len = operand(machine, 1);
    match machine.memory.resize_check(offset, len) {
        Ok(()) => {},
        Err(e) => {
            return Err(e);
        },
    }
    let data = match (offset.to_usize(), len.to_usize()) {
        (Some(offset), Some(len)) if len > 0 => machine.memory.get(offset, len),
        _ => Vec::new(),
    };
    assert(data@ =~= read(machine@.memory, offset@, len@));
    let mut topics: Vec<H256> = Vec::new();
    let mut i: usize = 0;
    while i < n as usize
        invariant
            machine.wf(),
            2 + n <= machine@.stack.len(),
            i <= n,
            topics@.len() == i,
            forall|j: int| 0 <= j < i ==> (#[trigger] topics@[j])@ == word_to_be(machine@.top(2 + j)),
        decreases n - i,
    {
        topics.push(H256::from_u256(operand(machine, 2 + i)));
        i += 1;
    }
    Ok((topics, data))
}

/// `LOGn`, with the answer of the host.
pub fn log_with<H: Handler>(machine: &mut Machine, n: u8, answer: Result<(), ExitError>) -> (r:
    Control<H>)
    requires
        old(machine).wf(),
    ensures
        final(machine).wf(),
        (final(machine)@, r) == log_spec::<H>(old(machine)@, n as nat, answer),
{
    if machine.stack.len() < 2 + n as usize {
        return Control::Exit(ExitReason::Error(ExitError::StackUnderflow));
    }
    let offset = operand(machine, 0);
    let len = operand(machine, 1);
    match machine.memory.resize_check(offset, len) {
        Ok(()) => {},
        Err(e) => {
            return Control::Exit(e);
        },
    }
    match answer {
        Ok(()) => {},
        Err(e) => {
            return Control::Exit(ExitReason::Error(e));
        },
    }
    let _ = machine.memory.resize_offset(offset, len);
    misc::discard(machine, 2 + n as usize);
    Control::Continue
}

/// `LOGn`.
pub fn log<H: Handler>(machine: &mut Machine, contract: &H160, n: u8, handler: &mut H) -> (r:
    Control<H>)
    requires
        old(machine).wf(),
    ensures
        final(machine).wf(),
        exists|answer: Result<(), ExitError>|
            (final(machine)@, r) == #[trigger] log_spec::<H>(old(machine)@, n as nat, answer),
{
    match log_request(machine, n) {
        Ok((topics, data)) => {
            let answer = handler.log(*contract, topics, data);
            log_with(machine, n, answer)
        },
        Err(_) => log_with(machine, n, Ok(())),
    }
}

/// `SELFDESTRUCT`, given the answer of the host: takes the beneficiary off the stack and
/// ends the machine.
pub open spec fn suicide_spec<H: Handler>(s: State, answer: Result<(), ExitError>) -> (
    State,
    Control<H>,
) {
    if s.stack.len() < 1 {
        (s, Control::Exit(underflow()))
    } else {
        match answer {
            Err(e) => (s, Control::Exit(ExitReason::Error(e))),
            Ok(_) => (
                s.replaced(1, seq![]),
                Control::Exit(ExitReason::Succeed(ExitSucceed::Suicided)),
            ),
        }
    }
}

/// `SELFDESTRUCT`, with the answer of the host.
pub fn suicide_with<H: Handler>(machine: &mut Machine, answer: Result<(), ExitError>) -> (r:
    Control<H>)
    requires
        old(machine).wf(),
    ensures
        final(machine).wf(),
        (final(machine)@, r) == suicide_spec::<H>(old(machine)@, answer),
{
    if machine.stack.len() < 1 {
        return Control::Exit(ExitReason::Error(ExitError::StackUnderflow));
    }
    match answer {
        Ok(()) => {
            misc::discard(machine, 1);
            Control::Exit(ExitReason::Succeed(ExitSucceed::Suicided))
        },
        Err(e) => Control::Exit(ExitReason::Error(e)),
    }
}

/// `SELFDESTRUCT`.
pub fn suicide<H: Handler>(machine: &mut Machine, contract: &H160, handler: &mut H) -> (r: Control<
    H,
>)
    requires
        old(machine).wf(),
    ensures
        final(machine).wf(),
        exists|answer: Result<(), ExitError>|
            (final(machine)@, r) == #[trigger] suicide_spec::<H>(old(machine)@, answer),
{
    if machine.stack.len() < 1 {
        return suicide_with(machine, Ok(()));
    }
    let target = to_address(operand(machine, 0));
    let answer = handler.mark_delete(*contract, target);
    suicide_with(machine, answer)
}

/// The number of operands of `CREATE` and `CREATE2`.
pub open spec fn create_operands(is_create2: bool) -> nat {
    if is_create2 {
        4
    } else {
        3
    }
}

/// Whether a create can be handed to the host: the operands are there, and the memory can
/// cover the init code.
pub open spec fn create_ready(s: State, is_create2: bool) -> Result<(), ExitReason> {
    if s.stack.len() < create_operands(is_create2) {
        Err(underflow())
    } else {
        resize_outcome(s.memory_limit as nat, s.top(1)@, s.top(2)@)
    }
}

/// The init code of a create: the range of the memory that offset and length select.
pub open spec fn create_code(s: State) -> Seq<u8> {
    read(s.memory, s.top(1)@, s.top(2)@)
}

/// What a create hands to the host.
pub struct CreateRequest {
    /// The creating contract.
    pub caller: H160,
    /// How the new address is found.
    pub scheme: CreateScheme,
    /// The value given to the new contract.
    pub value: U256,
    /// The init code.
    pub init_code: Vec<u8>,
}

/// Whether `request` is what the create in state `s` hands to the host.
pub open spec fn is_create_request(s: RuntimeState, is_create2: bool, request: CreateRequest) -> bool {
    &&& request.caller == s.context.address
    &&& request.value == s.machine.top(0)
    &&& request.init_code@ == create_code(s.machine)
    &&& match request.scheme {
        CreateScheme::Legacy { caller } => !is_create2 && caller == s.context.address,
        CreateScheme::Create2 { caller, code_hash, salt } => is_create2 && caller
            == s.context.address && code_hash@ == keccak256(create_code(s.machine)) && salt@
            == word_to_be(s.machine.top(3)),
        CreateScheme::Fixed(_) => false,
    }
}

/// The state after the host has run a create to its end with `reason`, the new address and
/// the returned data: the operands are replaced by the new address if the create
/// succeeded and by 0 if not, the memory covers the init code, and the buffer holds the
/// returned data. A fatal reason ends the machine.
pub open spec fn create_exit_spec<H: Handler>(
    s: RuntimeState,
    is_create2: bool,
    reason: ExitReason,
    created: Option<H160>,
    data: Seq<u8>,
) -> (RuntimeState, Control<H>) {
    match create_ready(s.machine, is_create2) {
        Err(e) => (s, Control::Exit(e)),
        Ok(_) => {
            let word = match created {
                Some(a) if reason is Succeed => address_word(a),
                _ => U256 { w0: 0, w1: 0, w2: 0, w3: 0 },
            };
            (
                RuntimeState {
                    machine: s.machine.with_memory(
                        covered(s.machine.memory, s.machine.top(1)@, s.machine.top(2)@),
                    ).replaced(create_operands(is_create2), seq![word]),
                    return_data: data,
                    ..s
                },
                match reason {
                    ExitReason::Fatal(e) => Control::Exit(ExitReason::Fatal(e)),
                    _ => Control::Continue,
                },
            )
        },
    }
}

/// The state after the host has suspended a create: the operands are replaced by 0, the
/// memory covers the init code, and the buffer is empty.
pub open spec fn create_trap_spec<H: Handler>(
    s: RuntimeState,
    is_create2: bool,
    interrupt: H::CreateInterrupt,
) -> (RuntimeState, Control<H>) {
    match create_ready(s.machine, is_create2) {
        Err(e) => (s, Control::Exit(e)),
        Ok(_) => (
            RuntimeState {
                machine: s.machine.with_memory(
                    covered(s.machine.memory, s.machine.top(1)@, s.machine.top(2)@),
                ).replaced(
                    create_operands(is_create2),
                    seq![U256 { w0: 0, w1: 0, w2: 0, w3: 0 }],
                ),
                return_data: Seq::empty(),
                ..s
            },
            Control::CreateInterrupt(interrupt),
        ),
    }
}

/// What `CREATE` or `CREATE2` hands to the host.
pub fn create_request(runtime: &Runtime, is_create2: bool) -> (r: Result<CreateRequest, ExitReason>)
    requires
        runtime.wf(),
    ensures
        match create_ready(runtime@.machine, is_create2) {
            Err(e) => r == Err::<CreateRequest, ExitReason>(e),
            Ok(_) => r is Ok && is_create_request(runtime@, is_create2, r->Ok_0),
        },
{
    let machine = &runtime.machine;
    let pops: usize = if is_create2 {
        4
    } else {
        3
    };
    if machine.stack.len() < pops {
        return Err(ExitReason::Error(ExitError::StackUnderflow));
    }
    let value = operand(machine, 0);
    let code_offset = operand(machine, 1);
    let len = operand(machine, 2);
    match machine.memory.resize_check(code_offset, len) {
        Ok(()) => {},
        Err(e) => {
            return Err(e);
        },
    }
    let init_code = match (code_offset.to_usize(), len.to_usize()) {
        (Some(offset), Some(len)) if len > 0 => machine.memory.get(offset, len),
        _ => Vec::new(),
    };
    assert(init_code@ =~= create_code(machine@));
    let scheme = if is_create2 {
        let salt = H256::from_u256(operand(machine, 3));
        let code_hash = keccak(init_code.as_slice());
        CreateScheme::Create2 { caller: runtime.context.address, code_hash, salt }
    } else {
        CreateScheme::Legacy { caller: runtime.context.address }
    };
    Ok(CreateRequest { caller: runtime.context.address, scheme, value, init_code })
}

/// `CREATE` or `CREATE2`, with the answer of the host.
pub fn create_with<H: Handler>(
    runtime: &mut Runtime,
    is_create2: bool,
    answer: Capture<(ExitReason, Option<H160>, Vec<u8>), H::CreateInterrupt>,
) -> (r: Control<H>)
    requires
        old(runtime).wf(),
    ensures
        final(runtime).wf(),
        match answer {
            Capture::Exit((reason, created, data)) => (final(runtime)@, r) == create_exit_spec::<H>(
                old(runtime)@,
                is_create2,
                reason,
                created,
                data@,
            ),
            Capture::Trap(interrupt) => (final(runtime)@, r) == create_trap_spec::<H>(
                old(runtime)@,
                is_create2,
                interrupt,
            ),
        },
{
    let pops: usize = if is_create2 {
        4
    } else {
        3
    };
    if runtime.machine.stack.len() < pops {
        return Control::Exit(ExitReason::Error(ExitError::StackUnderflow));
    }
    let code_offset = operand(&runtime.machine, 1);
    let len = operand(&runtime.machine, 2);
    match runtime.machine.memory.resize_offset(code_offset, len) {
        Ok(()) => {},
        Err(e) => {
            return Control::Exit(e);
        },
    }
    match answer {
        Capture::Exit((reason, created, data)) => {
            runtime.return_data_buffer = data;
            let word = match (created, reason) {
                (Some(a), ExitReason::Succeed(_)) => from_address(&a),
                _ => U256::zero(),
            };
            misc::commit(&mut runtime.machine, pops, word);
            match reason {
                ExitReason::Fatal(e) => Control::Exit(ExitReason::Fatal(e)),
                _ => Control::Continue,
            }
        },
        Capture::Trap(interrupt) => {
            runtime.return_data_buffer = Vec::new();
            misc::commit(&mut runtime.machine, pops, U256::zero());
            Control::CreateInterrupt(interrupt)
        },
    }
}

/// `CREATE` and `CREATE2`. A create that cannot be handed to the host ends the machine and
/// leaves the runtime as it was; else the host is asked, and whatever it answers, the
/// runtime changes as `create_exit_spec` or `create_trap_spec` says for that answer.
pub fn create<H: Handler>(runtime: &mut Runtime, is_create2: bool, handler: &mut H) -> (r: Control<
    H,
>)
    requires
        old(runtime).wf(),
    ensures
        final(runtime).wf(),
        create_ready(old(runtime)@.machine, is_create2) matches Err(e) ==> final(runtime)@ == old(runtime)@ && r == Control::<H>::Exit(e),
        create_ready(old(runtime)@.machine, is_create2) is Ok ==> {
            ||| exists|reason: ExitReason, created: Option<H160>, data: Seq<u8>|
                (final(runtime)@, r) == #[trigger] create_exit_spec::<H>(
                    old(runtime)@,
                    is_create2,
                    reason,
                    created,
                    data,
                )
            ||| exists|interrupt: H::CreateInterrupt|
                (final(runtime)@, r) == #[trigger] create_trap_spec::<H>(
                    old(runtime)@,
                    is_create2,
                    interrupt,
                )
        },
{
    let request = match create_request(runtime, is_create2) {
        Ok(request) => request,
        Err(e) => {
            return Control::Exit(e);
        },
    };
    let answer = handler.create(
        request.caller,
        request.scheme,
        request.value,
        request.init_code,
        None,
    );
    let ghost given = answer;
    let r = create_with(runtime, is_create2, answer);
    proof {
        match given {
            Capture::Exit((reason, created, data)) => {
                assert((runtime@, r) == create_exit_spec::<H>(
                    old(runtime)@,
                    is_create2,
                    reason,
                    created,
                    data@,
                ));
            },
            Capture::Trap(interrupt) => {
                assert((runtime@, r) == create_trap_spec::<H>(old(runtime)@, is_create2, interrupt));
            },
        }
    }
    r
}

/// Whether the scheme takes a value from the stack.
pub open spec fn has_value(scheme: CallScheme) -> bool {
    scheme == CallScheme::Call || scheme == CallScheme::CallCode
}

/// The number of operands of a call.
pub open spec fn call_operands(scheme: CallScheme) -> nat {
    if has_value(scheme) {
        7
    } else {
        6
    }
}

/// The value of a call: the third operand where the scheme takes one, else 0.
pub open spec fn call_value(s: State, scheme: CallScheme) -> U256 {
    if has_value(scheme) {
        s.top(2)
    } else {
        U256 { w0: 0, w1: 0, w2: 0, w3: 0 }
    }
}

/// Offset and length of the input of a call.
pub open spec fn call_input(s: State, scheme: CallScheme) -> (U256, U256) {
    (s.top(call_operands(scheme) - 4), s.top(call_operands(scheme) - 3))
}

/// Offset and length of the window for the output of a call.
pub open spec fn call_output(s: State, scheme: CallScheme) -> (U256, U256) {
    (s.top(call_operands(scheme) - 2), s.top(call_operands(scheme) - 1))
}

/// Whether a call can be handed to the host: the operands are there, and the memory can
/// cover the input and the output window.
pub open spec fn call_ready(s: State, scheme: CallScheme) -> Result<(), ExitReason> {
    if s.stack.len() < call_operands(scheme) {
        Err(underflow())
    } else {
        match resize_outcome(
            s.memory_limit as nat,
            call_input(s, scheme).0@,
            call_input(s, scheme).1@,
        ) {
            Err(e) => Err(e),
            Ok(_) => resize_outcome(
                s.memory_limit as nat,
                call_output(s, scheme).0@,
                call_output(s, scheme).1@,
            ),
        }
    }
}

/// The memory after it covers the input and the output window of a call.
pub open spec fn call_memory(s: State, scheme: CallScheme) -> Seq<u8> {
    covered(
        covered(s.memory, call_input(s, scheme).0@, call_input(s, scheme).1@),
        call_output(s, scheme).0@,
        call_output(s, scheme).1@,
    )
}

/// What a call hands to the host.
pub struct CallRequest {
    /// The account whose code runs.
    pub code_address: H160,
    /// The transfer that goes with the call, if any.
    pub transfer: Option<Transfer>,
    /// The input.
    pub input: Vec<u8>,
    /// The gas given, or nothing where more than a `u64` holds was asked for.
    pub target_gas: Option<u64>,
    /// Whether the call may change state.
    pub is_static: bool,
    /// The environment of the nested call.
    pub context: Context,
}

/// Whether `request` is what the call in state `s` hands to the host. The environment of
/// the nested call follows the scheme: `CALL` and `STATICCALL` run at the called address
/// for this contract; `CALLCODE` runs at this address for this contract; `DELEGATECALL`
/// runs at this address for the caller of this contract and with its value. Only `CALL` and
/// `CALLCODE` transfer value.
pub open spec fn is_call_request(s: RuntimeState, scheme: CallScheme, request: CallRequest) -> bool {
    let m = s.machine;
    let to = word_address(m.top(1));
    let value = call_value(m, scheme);
    &&& request.code_address@ == to
    &&& request.input@ == read(m.memory, call_input(m, scheme).0@, call_input(m, scheme).1@)
    &&& request.target_gas == (if m.top(0)@ > u64::MAX {
        None
    } else {
        Some(m.top(0)@ as u64)
    })
    &&& request.is_static == (scheme == CallScheme::StaticCall)
    &&& match scheme {
        CallScheme::Call | CallScheme::StaticCall => request.context.address@ == to
            && request.context.caller == s.context.address && request.context.apparent_value
            == value,
        CallScheme::CallCode => request.context.address == s.context.address
            && request.context.caller == s.context.address && request.context.apparent_value
            == value,
        CallScheme::DelegateCall => request.context == s.context,
    }
    &&& match scheme {
        CallScheme::Call => request.transfer matches Some(t) && t.source == s.context.address
            && t.target@ == to && t.value == value,
        CallScheme::CallCode => request.transfer matches Some(t) && t.source == s.context.address
            && t.target == s.context.address && t.value == value,
        _ => request.transfer is None,
    }
}

/// The state after the host has run a call to its end with `reason` and the returned data:
/// the buffer holds the data; after a success or a revert, as much of it as the output
/// window takes is stored there; the operands are replaced by 1 after a success and by 0
/// else. A fatal reason ends the machine.
pub open spec fn call_exit_spec<H: Handler>(
    s: RuntimeState,
    scheme: CallScheme,
    reason: ExitReason,
    data: Seq<u8>,
) -> (RuntimeState, Control<H>) {
    match call_ready(s.machine, scheme) {
        Err(e) => (s, Control::Exit(e)),
        Ok(_) => {
            let m = s.machine;
            let window = call_output(m, scheme);
            let taken = if window.1@ < data.len() {
                window.1@
            } else {
                data.len()
            };
            let memory = if reason is Succeed || reason is Revert {
                stored(call_memory(m, scheme), window.0@, data.subrange(0, taken as int))
            } else {
                call_memory(m, scheme)
            };
            let word = if reason is Succeed {
                U256 { w0: 1, w1: 0, w2: 0, w3: 0 }
            } else {
                U256 { w0: 0, w1: 0, w2: 0, w3: 0 }
            };
            (
                RuntimeState {
                    machine: m.with_memory(memory).replaced(call_operands(scheme), seq![word]),
                    return_data: data,
                    ..s
                },
                match reason {
                    ExitReason::Fatal(e) => Control::Exit(ExitReason::Fatal(e)),
                    _ => Control::Continue,
                },
            )
        },
    }
}

/// The state after the host has suspended a call: the operands are replaced by 0, the
/// memory covers input and output window, and the buffer is empty.
pub open spec fn call_trap_spec<H: Handler>(
    s: RuntimeState,
    scheme: CallScheme,
    interrupt: H::CallInterrupt,
) -> (RuntimeState, Control<H>) {
    match call_ready(s.machine, scheme) {
        Err(e) => (s, Control::Exit(e)),
        Ok(_) => (
            RuntimeState {
                machine: s.machine.with_memory(call_memory(s.machine, scheme)).replaced(
                    call_operands(scheme),
                    seq![U256 { w0: 0, w1: 0, w2: 0, w3: 0 }],
                ),
                return_data: Seq::empty(),
                ..s
            },
            Control::CallInterrupt(interrupt),
        ),
    }
}

/// The number of operands of a call.
fn operand_count(scheme: CallScheme) -> (r: usize)
    ensures
        r == call_operands(scheme),
{
    match scheme {
        CallScheme::Call | CallScheme::CallCode => 7,
        _ => 6,
    }
}

/// What a call hands to the host.
pub fn call_request(runtime: &Runtime, scheme: CallScheme) -> (r: Result<CallRequest, ExitReason>)
    requires
        runtime.wf(),
    ensures
        match call_ready(runtime@.machine, scheme) {
            Err(e) => r == Err::<CallRequest, ExitReason>(e),
            Ok(_) => r is Ok && is_call_request(runtime@, scheme, r->Ok_0),
        },
{
    let machine = &runtime.machine;
    let pops = operand_count(scheme);
    if machine.stack.len() < pops {
        return Err(ExitReason::Error(ExitError::StackUnderflow));
    }
    let gas = operand(machine, 0);
    let to = to_address(operand(machine, 1));
    let value = match scheme {
        CallScheme::Call | CallScheme::CallCode => operand(machine, 2),
        _ => U256::zero(),
    };
    let in_offset = operand(machine, pops - 4);
    let in_len = operand(machine, pops - 3);
    let out_offset = operand(machine, pops - 2);
    let out_len = operand(machine, pops - 1);
    match machine.memory.resize_check(in_offset, in_len) {
        Ok(()) => {},
        Err(e) => {
            return Err(e);
        },
    }
    match machine.memory.resize_check(out_offset, out_len) {
        Ok(()) => {},
        Err(e) => {
            return Err(e);
        },
    }
    let input = match (in_offset.to_usize(), in_len.to_usize()) {
        (Some(offset), Some(len)) if len > 0 => machine.memory.get(offset, len),
        _ => Vec::new(),
    };
    assert(input@ =~= read(machine@.memory, in_offset@, in_len@));
    let own = runtime.context.address;
    let context = match scheme {
        CallScheme::Call | CallScheme::StaticCall => Context {
            address: to,
            caller: own,
            apparent_value: value,
        },
        CallScheme::CallCode => Context { address: own, caller: own, apparent_value: value },
        CallScheme::DelegateCall => runtime.context,
    };
    let transfer = match scheme {
        CallScheme::Call => Some(Transfer { source: own, target: to, value }),
        CallScheme::CallCode => Some(Transfer { source: own, target: own, value }),
        _ => None,
    };
    let is_static = match scheme {
        CallScheme::StaticCall => true,
        _ => false,
    };
    Ok(
        CallRequest {
            code_address: to,
            transfer,
            input,
            target_gas: gas.to_u64(),
            is_static,
            context,
        },
    )
}

/// Makes the memory cover the input and the output window of a call, and gives the window.
fn cover_call(machine: &mut Machine, scheme: CallScheme) -> (r: Result<(U256, U256), ExitReason>)
    requires
        old(machine).wf(),
    ensures
        final(machine).wf(),
        match call_ready(old(machine)@, scheme) {
            Err(e) => r == Err::<(U256, U256), ExitReason>(e) && final(machine)@ == old(machine)@,
            Ok(_) => r == Ok::<(U256, U256), ExitReason>(call_output(old(machine)@, scheme))
                && final(machine)@ == old(machine)@.with_memory(call_memory(old(machine)@, scheme)),
        },
{
    let pops = operand_count(scheme);
    if machine.stack.len() < pops {
        return Err(ExitReason::Error(ExitError::StackUnderflow));
    }
    let in_offset = operand(machine, pops - 4);
    let in_len = operand(machine, pops - 3);
    let out_offset = operand(machine, pops - 2);
    let out_len = operand(machine, pops - 1);
    match machine.memory.resize_check(in_offset, in_len) {
        Ok(()) => {},
        Err(e) => {
            return Err(e);
        },
    }
    match machine.memory.resize_check(out_offset, out_len) {
        Ok(()) => {},
        Err(e) => {
            return Err(e);
        },
    }
    let _ = machine.memory.resize_offset(in_offset, in_len);
    let _ = machine.memory.resize_offset(out_offset, out_len);
    Ok((out_offset, out_len))
}

/// Stores as much of `data` as the window takes at its start.
fn store_output(machine: &mut Machine, window: (U256, U256), data: &[u8])
    requires
        old(machine).wf(),
        resize_outcome(old(machine)@.memory_limit as nat, window.0@, window.1@) is Ok,
    ensures
        final(machine).wf(),
        final(machine)@ == old(machine)@.with_memory(
            stored(
                old(machine)@.memory,
                window.0@,
                data@.subrange(
                    0,
                    if window.1@ < data@.len() {
                        window.1@ as int
                    } else {
                        data@.len() as int
                    },
                ),
            ),
        ),
{
    let data_len = U256::from_usize(data.len());
    let target_len = if window.1.lt(&data_len) {
        window.1
    } else {
        data_len
    };
    let _ = machine.memory.copy_large(window.0, U256::zero(), target_len, data);
    assert(source_window(data@, 0, target_len@) =~= data@.subrange(0, target_len@ as int));
}

/// A call, with the answer of the host.
pub fn call_with<H: Handler>(
    runtime: &mut Runtime,
    scheme: CallScheme,
    answer: Capture<(ExitReason, Vec<u8>), H::CallInterrupt>,
) -> (r: Control<H>)
    requires
        old(runtime).wf(),
    ensures
        final(runtime).wf(),
        match answer {
            Capture::Exit((reason, data)) => (final(runtime)@, r) == call_exit_spec::<H>(
                old(runtime)@,
                scheme,
                reason,
                data@,
            ),
            Capture::Trap(interrupt) => (final(runtime)@, r) == call_trap_spec::<H>(
                old(runtime)@,
                scheme,
                interrupt,
            ),
        },
{
    let pops = operand_count(scheme);
    let window = match cover_call(&mut runtime.machine, scheme) {
        Ok(window) => window,
        Err(e) => {
            return Control::Exit(e);
        },
    };
    match answer {
        Capture::Exit((reason, data)) => {
            match reason {
                ExitReason::Succeed(_) | ExitReason::Revert(_) => {
                    store_output(&mut runtime.machine, window, data.as_slice());
                },
                _ => {},
            }
            runtime.return_data_buffer = data;
            let word = match reason {
                ExitReason::Succeed(_) => U256::one(),
                _ => U256::zero(),
            };
            misc::commit(&mut runtime.machine, pops, word);
            match reason {
                ExitReason::Fatal(e) => Control::Exit(ExitReason::Fatal(e)),
                _ => Control::Continue,
            }
        },
        Capture::Trap(interrupt) => {
            runtime.return_data_buffer = Vec::new();
            misc::commit(&mut runtime.machine, pops, U256::zero());
            Control::CallInterrupt(interrupt)
        },
    }
}

/// `CALL`, `CALLCODE`, `DELEGATECALL` and `STATICCALL`. A call that cannot be handed to the
/// host ends the machine and leaves the runtime as it was; else the host is asked, and
/// whatever it answers, the runtime changes as `call_exit_spec` or `call_trap_spec` says for
/// that answer.
pub fn call<H: Handler>(runtime: &mut Runtime, scheme: CallScheme, handler: &mut H) -> (r: Control<
    H,
>)
    requires
        old(runtime).wf(),
    ensures
        final(runtime).wf(),
        call_ready(old(runtime)@.machine, scheme) matches Err(e) ==> final(runtime)@ == old(runtime)@ && r == Control::<H>::Exit(e),
        call_ready(old(runtime)@.machine, scheme) is Ok ==> {
            ||| exists|reason: ExitReason, data: Seq<u8>|
                (final(runtime)@, r) == #[trigger] call_exit_spec::<H>(
                    old(runtime)@,
                    scheme,
                    reason,
                    data,
                )
            ||| exists|interrupt: H::CallInterrupt|
                (final(runtime)@, r) == #[trigger] call_trap_spec::<H>(
                    old(runtime)@,
                    scheme,
                    interrupt,
                )
        },
{
    let request = match call_request(runtime, scheme) {
        Ok(request) => request,
        Err(e) => {
            return Control::Exit(e);
        },
    };
    let answer = handler.call(
        request.code_address,
        request.transfer,
        request.input,
        request.target_gas,
        request.is_static,
        request.context,
    );
    let ghost given = answer;
    let r = call_with(runtime, scheme, answer);
    proof {
        match given {
            Capture::Exit((reason, data)) => {
                assert((runtime@, r) == call_exit_spec::<H>(old(runtime)@, scheme, reason, data@));
            },
            Capture::Trap(interrupt) => {
                assert((runtime@, r) == call_trap_spec::<H>(old(runtime)@, scheme, interrupt));
            },
        }
    }
    r
}

} // verus!
