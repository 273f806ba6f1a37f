//! The instructions that the host has a part in.

pub mod system;

use crate::error::{ExitError, ExitReason};
use crate::eval::misc;
use crate::primitives::U256;
use crate::opcode::{
    Opcode, ADDRESS, BALANCE, BASEFEE, BLOCKHASH, CALL, CALLCODE, CALLER, CALLVALUE, CHAINID,
    COINBASE, CREATE, CREATE2, DELEGATECALL, DIFFICULTY, EXTCODECOPY, EXTCODEHASH, EXTCODESIZE, GAS,
    GASLIMIT, GASPRICE, LOG0, LOG1, LOG2, LOG3, LOG4, NUMBER, ORIGIN, RETURNDATACOPY,
    RETURNDATASIZE, SELFBALANCE, SHA3, SLOAD, SSTORE, STATICCALL, SUICIDE, TIMESTAMP,
};
use crate::primitives::{word_of, H160};
use crate::runtime::eval::system::{
    address_word, call_exit_spec, call_ready, call_trap_spec, create_exit_spec, create_ready,
    create_trap_spec, extcodecopy_spec, log_spec, returndatacopy_spec, sha3_spec, suicide_spec,
};
use crate::runtime::{CallScheme, Handler, Runtime, RuntimeState};
use crate::state::{overflow, underflow, State};
use crate::Machine;
use vstd::prelude::*;

verus! {

/// How the runtime goes on after an instruction of the host.
pub enum Control<H: Handler> {
    /// Go on with the next instruction.
    Continue,
    /// A nested call is suspended.
    CallInterrupt(H::CallInterrupt),
    /// A nested create is suspended.
    CreateInterrupt(H::CreateInterrupt),
    /// End for the given reason.
    Exit(ExitReason),
}

/// The outcome of an instruction that takes `pops` words off the stack, asks the host, and
/// puts the answer on the stack. With too few words on the stack this is `StackUnderflow`,
/// an error of the host ends the machine with that error, and an answer for which the stack
/// has no room is `StackOverflow`; in these cases the state stays as it was.
pub open spec fn reply_effect<H: Handler>(s: State, pops: nat, answer: Result<U256, ExitError>) -> (
    State,
    Control<H>,
) {
    if s.stack.len() < pops {
        (s, Control::Exit(underflow()))
    } else {
        match answer {
            Err(e) => (s, Control::Exit(ExitReason::Error(e))),
            Ok(word) => if s.stack.len() - pops + 1 > s.stack_limit {
                (s, Control::Exit(overflow()))
            } else {
                (s.replaced(pops, seq![word]), Control::Continue)
            },
        }
    }
}

/// The outcome of an instruction that takes `pops` words off the stack and has the host do
/// something. With too few words on the stack this is `StackUnderflow`, and an error of the
/// host ends the machine with that error; in both cases the state stays as it was.
pub open spec fn effect_done<H: Handler>(s: State, pops: nat, answer: Result<(), ExitError>) -> (
    State,
    Control<H>,
) {
    if s.stack.len() < pops {
        (s, Control::Exit(underflow()))
    } else {
        match answer {
            Err(e) => (s, Control::Exit(ExitReason::Error(e))),
            Ok(_) => (s.replaced(pops, seq![]), Control::Continue),
        }
    }
}

/// Takes `pops` operands off the stack and puts the answer of the host on it.
pub fn reply<H: Handler>(machine: &mut Machine, pops: usize, answer: Result<U256, ExitError>) -> (r:
    Control<H>)
    requires
        old(machine).wf(),
    ensures
        final(machine).wf(),
        (final(machine)@, r) == reply_effect::<H>(old(machine)@, pops as nat, answer),
{
    if machine.stack.len() < pops {
        return Control::Exit(ExitReason::Error(ExitError::StackUnderflow));
    }
    let word = match answer {
        Ok(word) => word,
        Err(e) => {
            return Control::Exit(ExitReason::Error(e));
        },
    };
    if pops == 0 {
        match misc::push_word(machine, word, 1) {
            crate::eval::Control::Continue(_) => Control::Continue,
            _ => Control::Exit(ExitReason::Error(ExitError::StackOverflow)),
        }
    } else {
        misc::commit(machine, pops, word);
        Control::Continue
    }
}

/// Takes `pops` operands off the stack after the host has done its part.
pub fn done<H: Handler>(machine: &mut Machine, pops: usize, answer: Result<(), ExitError>) -> (r:
    Control<H>)
    requires
        old(machine).wf(),
    ensures
        final(machine).wf(),
        (final(machine)@, r) == effect_done::<H>(old(machine)@, pops as nat, answer),
{
    if machine.stack.len() < pops {
        return Control::Exit(ExitReason::Error(ExitError::StackUnderflow));
    }
    match answer {
        Ok(()) => {
            misc::discard(machine, pops);
            Control::Continue
        },
        Err(e) => Control::Exit(ExitReason::Error(e)),
    }
}

/// The call scheme of a call opcode.
pub open spec fn scheme_of(b: u8) -> CallScheme {
    if b == CALL {
        CallScheme::Call
    } else if b == CALLCODE {
        CallScheme::CallCode
    } else if b == DELEGATECALL {
        CallScheme::DelegateCall
    } else {
        CallScheme::StaticCall
    }
}

/// What the runtime may do for the opcode `b` of a trap: for each opcode, the states and
/// results that the instruction can lead to, whatever the host answers. The environment of
/// the call never changes, and the return-data buffer changes with nested calls and creates
/// only. Of an opcode that the runtime does not know, the host alone decides.
pub open spec fn eval_outcome<H: Handler>(
    before: RuntimeState,
    b: u8,
    after: RuntimeState,
    r: Control<H>,
) -> bool {
    let m = before.machine;
    &&& after.context == before.context
    &&& match b {
        CREATE | CREATE2 => {
            let salted = b == CREATE2;
            match create_ready(m, salted) {
                Err(e) => after == before && r == Control::<H>::Exit(e),
                Ok(_) => {
                    ||| exists|reason: ExitReason, created: Option<H160>, data: Seq<u8>|
                        (after, r) == #[trigger] create_exit_spec::<H>(
                            before,
                            salted,
                            reason,
                            created,
                            data,
                        )
                    ||| exists|interrupt: H::CreateInterrupt|
                        (after, r) == #[trigger] create_trap_spec::<H>(before, salted, interrupt)
                },
            }
        },
        CALL | CALLCODE | DELEGATECALL | STATICCALL => match call_ready(m, scheme_of(b)) {
            Err(e) => after == before && r == Control::<H>::Exit(e),
            Ok(_) => {
                ||| exists|reason: ExitReason, data: Seq<u8>|
                    (after, r) == #[trigger] call_exit_spec::<H>(before, scheme_of(b), reason, data)
                ||| exists|interrupt: H::CallInterrupt|
                    (after, r) == #[trigger] call_trap_spec::<H>(before, scheme_of(b), interrupt)
            },
        },
        _ => after.return_data == before.return_data && match b {
            SHA3 => (after.machine, r) == sha3_spec::<H>(m),
            ADDRESS => (after.machine, r) == reply_effect::<H>(
                m,
                0,
                Ok(address_word(before.context.address)),
            ),
            CALLER => (after.machine, r) == reply_effect::<H>(
                m,
                0,
                Ok(address_word(before.context.caller)),
            ),
            CALLVALUE => (after.machine, r) == reply_effect::<H>(
                m,
                0,
                Ok(before.context.apparent_value),
            ),
            RETURNDATASIZE => (after.machine, r) == reply_effect::<H>(
                m,
                0,
                Ok(word_of(before.return_data.len())),
            ),
            RETURNDATACOPY => (after.machine, r) == returndatacopy_spec::<H>(m, before.return_data),
            BALANCE | EXTCODESIZE | EXTCODEHASH | BLOCKHASH | SLOAD => exists|
                answer: Result<U256, ExitError>,
            |
                (after.machine, r) == #[trigger] reply_effect::<H>(m, 1, answer),
            SELFBALANCE | ORIGIN | GASPRICE | COINBASE | TIMESTAMP | NUMBER | DIFFICULTY | GASLIMIT
            | GAS | CHAINID | BASEFEE => exists|answer: Result<U256, ExitError>|
                (after.machine, r) == #[trigger] reply_effect::<H>(m, 0, answer),
            EXTCODECOPY => exists|answer: Result<Seq<u8>, ExitError>|
                (after.machine, r) == #[trigger] extcodecopy_spec::<H>(m, answer),
            SSTORE => exists|answer: Result<(), ExitError>|
                (after.machine, r) == #[trigger] effect_done::<H>(m, 2, answer),
            LOG0 | LOG1 | LOG2 | LOG3 | LOG4 => exists|answer: Result<(), ExitError>|
                (after.machine, r) == #[trigger] log_spec::<H>(m, (b - LOG0) as nat, answer),
            SUICIDE => exists|answer: Result<(), ExitError>|
                (after.machine, r) == #[trigger] suicide_spec::<H>(m, answer),
            _ => r is Continue || r matches Control::Exit(ExitReason::Error(_)),
        },
    }
}

/// How the runtime goes on after the host has run an opcode of its own.
pub fn other_outcome<H: Handler>(answer: Result<(), ExitError>) -> (r: Control<H>)
    ensures
        r == (match answer {
            Ok(_) => Control::<H>::Continue,
            Err(e) => Control::<H>::Exit(ExitReason::Error(e)),
        }),
{
    match answer {
        Ok(()) => Control::Continue,
        Err(e) => Control::Exit(ExitReason::Error(e)),
    }
}

/// Leaves an opcode that the runtime does not know to the host.
pub fn handle_other<H: Handler>(state: &mut Runtime, opcode: Opcode, handler: &mut H) -> (r:
    Control<H>)
    requires
        old(state).wf(),
    ensures
        final(state).wf(),
        final(state)@.context == old(state)@.context,
        final(state)@.return_data == old(state)@.return_data,
        r is Continue || r matches Control::Exit(ExitReason::Error(_)),
{
    let answer = handler.other(opcode, &mut state.machine);
    other_outcome(answer)
}

/// Runs the instruction of a trap with the help of the host.
pub fn eval<H: Handler>(state: &mut Runtime, opcode: Opcode, handler: &mut H) -> (r: Control<H>)
    requires
        old(state).wf(),
    ensures
        final(state).wf(),
        eval_outcome::<H>(old(state)@, opcode.0, final(state)@, r),
{
    let contract = state.context.address;
    match opcode.0 {
        SHA3 => system::sha3(&mut state.machine),
        ADDRESS => system::address(&mut state.machine, &contract),
        BALANCE => system::balance(&mut state.machine, handler),
        SELFBALANCE => system::selfbalance(&mut state.machine, &contract, handler),
        ORIGIN => system::origin(&mut state.machine, handler),
        CALLER => system::caller(state),
        CALLVALUE => system::callvalue(state),
        GASPRICE => system::gasprice(&mut state.machine, handler),
        EXTCODESIZE => system::extcodesize(&mut state.machine, handler),
        EXTCODEHASH => system::extcodehash(&mut state.machine, handler),
        EXTCODECOPY => system::extcodecopy(&mut state.machine, handler),
        RETURNDATASIZE => system::returndatasize(state),
        RETURNDATACOPY => system::returndatacopy(state),
        BLOCKHASH => system::blockhash(&mut state.machine, handler),
        COINBASE => system::coinbase(&mut state.machine, handler),
        TIMESTAMP => system::timestamp(&mut state.machine, handler),
        NUMBER => system::number(&mut state.machine, handler),
        DIFFICULTY => system::difficulty(&mut state.machine, handler),
        GASLIMIT => system::gaslimit(&mut state.machine, handler),
        SLOAD => system::sload(&mut state.machine, &contract, handler),
        SSTORE => system::sstore(&mut state.machine, &contract, handler),
        GAS => system::gas(&mut state.machine, handler),
        LOG0 | LOG1 | LOG2 | LOG3 | LOG4 => {
            let n: u8 = opcode.0 - LOG0;
            let r = system::log(&mut state.machine, &contract, n, handler);
            proof {
                let answer = choose|answer: Result<(), ExitError>|
                    (state@.machine, r) == #[trigger] log_spec::<H>(
                        old(state)@.machine,
                        n as nat,
                        answer,
                    );
                assert((state@.machine, r) == log_spec::<H>(
                    old(state)@.machine,
                    (opcode.0 - LOG0) as nat,
                    answer,
                ));
            }
            r
        },
        SUICIDE => system::suicide(&mut state.machine, &contract, handler),
        CREATE => system::create(state, false, handler),
        CREATE2 => system::create(state, true, handler),
        CALL => system::call(state, CallScheme::Call, handler),
        CALLCODE => system::call(state, CallScheme::CallCode, handler),
        DELEGATECALL => system::call(state, CallScheme::DelegateCall, handler),
        STATICCALL => system::call(state, CallScheme::StaticCall, handler),
        CHAINID => system::chainid(&mut state.machine, handler),
        BASEFEE => system::base_fee(&mut state.machine, handler),
        _ => handle_other(state, opcode, handler),
    }
}

} // verus!
