//! Instruction semantics and dispatch.

pub mod arithmetic;
pub mod bitwise;
pub mod misc;
pub mod table;

use crate::error::{Capture, ExitError, ExitReason, ExitRevert, ExitSucceed, Trap};
use crate::eval::arithmetic::{
    add_spec, addmod_spec, div_spec, exp_spec, mul_spec, mulmod_spec, rem_spec, sdiv_spec,
    signextend_spec, srem_spec, sub_spec,
};
use crate::eval::bitwise::{bool_word, byte_spec, sar_spec, shl_spec, shr_spec};
use crate::eval::misc::{
    copy_spec, dup_spec, halt_spec, jump_spec, jumpi_spec, mload_spec, mstore8_spec, mstore_spec,
    push_value, stack_effect, swap_spec,
};
use crate::opcode::{
    push_width, Opcode, ADD, ADDMOD, AND, BYTE, CALLDATACOPY, CALLDATALOAD, CALLDATASIZE, CODECOPY,
    CODESIZE, DIV, DUP1, DUP16, EQ, EXP, GT, INVALID, ISZERO, JUMP, JUMPDEST, JUMPI, LT, MLOAD, MOD,
    MSIZE, MSTORE, MSTORE8, MUL, MULMOD, NOT, OR, PC, POP, PUSH1, PUSH32, RETURN, REVERT, SAR, SDIV,
    SGT, SHL, SHR, SIGNEXTEND, SLT, SMOD, STOP, SUB, SWAP1, SWAP16, XOR,
};
use crate::primitives::{lemma_word_of_view, signed, word_of, H160, U256};
use crate::state::State;
use crate::{InterpreterHandler, Machine};
use vstd::prelude::*;

verus! {

/// What the machine does after one instruction.
#[derive(Clone, Copy, Debug, PartialEq, Eq)]
pub enum Control {
    /// Go on with the instruction this many bytes further.
    Continue(usize),
    /// End for the given reason.
    Exit(ExitReason),
    /// Go on with the instruction at this position.
    Jump(usize),
    /// Suspend: the opcode is left to the host.
    Trap(Opcode),
}

/// Whether the byte is an instruction that replaces two words by one computed from them.
pub open spec fn is_binary(b: u8) -> bool {
    ||| ADD <= b <= SMOD
    ||| b == EXP
    ||| b == SIGNEXTEND
    ||| LT <= b <= EQ
    ||| AND <= b <= XOR
    ||| BYTE <= b <= SAR
}

/// The result of a binary instruction on the top word `op1` and the word `op2` below it.
pub open spec fn binary_word(b: u8, op1: U256, op2: U256) -> U256 {
    match b {
        ADD => word_of(add_spec(op1@, op2@)),
        MUL => word_of(mul_spec(op1@, op2@)),
        SUB => word_of(sub_spec(op1@, op2@)),
        DIV => word_of(div_spec(op1@, op2@)),
        SDIV => word_of(sdiv_spec(op1@, op2@)),
        MOD => word_of(rem_spec(op1@, op2@)),
        SMOD => word_of(srem_spec(op1@, op2@)),
        EXP => word_of(exp_spec(op1@, op2@)),
        SIGNEXTEND => word_of(signextend_spec(op1@, op2@)),
        LT => bool_word(op1@ < op2@),
        GT => bool_word(op1@ > op2@),
        SLT => bool_word(signed(op1@) < signed(op2@)),
        SGT => bool_word(signed(op1@) > signed(op2@)),
        EQ => bool_word(op1 == op2),
        AND => op1.and_spec(op2),
        OR => op1.or_spec(op2),
        XOR => op1.xor_spec(op2),
        BYTE => word_of(byte_spec(op1@, op2@)),
        SHL => word_of(shl_spec(op1@, op2@)),
        SHR => word_of(shr_spec(op1@, op2@)),
        _ => word_of(sar_spec(op1@, op2@)),
    }
}

/// The result of `ISZERO` and `NOT` on the top word.
pub open spec fn unary_word(b: u8, op1: U256) -> U256 {
    if b == ISZERO {
        bool_word(op1@ == 0)
    } else {
        op1.not_spec()
    }
}

/// The result of `ADDMOD` and `MULMOD` on the three top words.
pub open spec fn ternary_word(b: u8, op1: U256, op2: U256, op3: U256) -> U256 {
    if b == ADDMOD {
        word_of(addmod_spec(op1@, op2@, op3@))
    } else {
        word_of(mulmod_spec(op1@, op2@, op3@))
    }
}

/// What one instruction does: the new state and how the machine goes on. `b` is the opcode
/// byte and `position` is where it stands in the code. An instruction that fails leaves the
/// state as it was. A byte that is no instruction of the interpreter itself is a trap, with
/// the program counter behind the byte.
pub open spec fn instruction_spec(s: State, b: u8, position: usize) -> (State, Control) {
    match b {
        STOP => (s, Control::Exit(ExitReason::Succeed(ExitSucceed::Stopped))),
        ISZERO | NOT => stack_effect(s, 1, seq![unary_word(b, s.top(0))], 1),
        ADDMOD | MULMOD => stack_effect(
            s,
            3,
            seq![ternary_word(b, s.top(0), s.top(1), s.top(2))],
            1,
        ),
        POP => stack_effect(s, 1, seq![], 1),
        MLOAD => mload_spec(s),
        MSTORE => mstore_spec(s),
        MSTORE8 => mstore8_spec(s),
        JUMP => jump_spec(s),
        JUMPI => jumpi_spec(s),
        PC => stack_effect(s, 0, seq![word_of(position as nat)], 1),
        MSIZE => stack_effect(s, 0, seq![word_of(s.memory.len())], 1),
        JUMPDEST => (s, Control::Continue(1)),
        CALLDATALOAD => stack_effect(
            s,
            1,
            seq![crate::primitives::word_from_be(
                crate::primitives::source_window(s.data, s.top(0)@, 32),
            )],
            1,
        ),
        CALLDATASIZE => stack_effect(s, 0, seq![word_of(s.data.len())], 1),
        CALLDATACOPY => copy_spec(s, s.data),
        CODESIZE => stack_effect(s, 0, seq![word_of(s.code.len())], 1),
        CODECOPY => copy_spec(s, s.code),
        RETURN => halt_spec(s, ExitReason::Succeed(ExitSucceed::Returned)),
        REVERT => halt_spec(s, ExitReason::Revert(ExitRevert::Reverted)),
        INVALID => (s, Control::Exit(ExitReason::Error(ExitError::DesignatedInvalid))),
        _ => if is_binary(b) {
            stack_effect(s, 2, seq![binary_word(b, s.top(0), s.top(1))], 1)
        } else if PUSH1 <= b <= PUSH32 {
            stack_effect(
                s,
                0,
                seq![push_value(s.code, push_width(b), position as nat)],
                (1 + push_width(b)) as usize,
            )
        } else if DUP1 <= b <= DUP16 {
            dup_spec(s, (b - DUP1 + 1) as nat)
        } else if SWAP1 <= b <= SWAP16 {
            swap_spec(s, (b - SWAP1 + 1) as nat)
        } else {
            (s.at(Ok((position + 1) as usize)), Control::Trap(Opcode(b)))
        },
    }
}

/// What fetching and running the instruction at `position` does, given what the handler's
/// hook answered. Past the end of the code the machine stops, and the hook is not asked. An
/// error of the hook ends the machine.
pub open spec fn eval_spec(s: State, position: usize, hook: Result<(), ExitError>) -> (
    State,
    Control,
) {
    if position >= s.code.len() {
        let reason = ExitReason::Succeed(ExitSucceed::Stopped);
        (s.at(Err(reason)), Control::Exit(reason))
    } else {
        match hook {
            Err(e) => (s.at(Err(ExitReason::Error(e))), Control::Exit(ExitReason::Error(e))),
            Ok(_) => instruction_spec(s, s.code[position as int], position),
        }
    }
}

/// The result of a binary instruction.
pub fn binary_op(opcode: Opcode, op1: U256, op2: U256) -> (r: U256)
    requires
        is_binary(opcode.0),
    ensures
        r == binary_word(opcode.0, op1, op2),
{
    let r = match opcode.0 {
        ADD => arithmetic::add(op1, op2),
        MUL => arithmetic::mul(op1, op2),
        SUB => arithmetic::sub(op1, op2),
        DIV => arithmetic::div(op1, op2),
        SDIV => arithmetic::sdiv(op1, op2),
        MOD => arithmetic::rem(op1, op2),
        SMOD => arithmetic::srem(op1, op2),
        EXP => arithmetic::exp(op1, op2),
        SIGNEXTEND => arithmetic::signextend(op1, op2),
        LT => bitwise::lt(op1, op2),
        GT => bitwise::gt(op1, op2),
        SLT => bitwise::slt(op1, op2),
        SGT => bitwise::sgt(op1, op2),
        EQ => bitwise::eq(op1, op2),
        AND => bitwise::and(op1, op2),
        OR => bitwise::or(op1, op2),
        XOR => bitwise::xor(op1, op2),
        BYTE => bitwise::byte(op1, op2),
        SHL => bitwise::shl(op1, op2),
        SHR => bitwise::shr(op1, op2),
        _ => bitwise::sar(op1, op2),
    };
    proof {
        lemma_word_of_view(r);
    }
    r
}

/// Runs a binary instruction on the stack of the machine.
pub fn binary(state: &mut Machine, opcode: Opcode) -> (r: Control)
    requires
        old(state).wf(),
        is_binary(opcode.0),
    ensures
        final(state).wf(),
        (final(state)@, r) == stack_effect(
            old(state)@,
            2,
            seq![binary_word(opcode.0, old(state)@.top(0), old(state)@.top(1))],
            1,
        ),
{
    let (op1, op2) = match (state.stack.peek(0), state.stack.peek(1)) {
        (Ok(op1), Ok(op2)) => (op1, op2),
        _ => {
            return Control::Exit(ExitReason::Error(ExitError::StackUnderflow));
        },
    };
    let value = binary_op(opcode, op1, op2);
    misc::commit(state, 2, value);
    Control::Continue(1)
}

/// Runs `ISZERO` or `NOT` on the stack of the machine.
pub fn unary(state: &mut Machine, opcode: Opcode) -> (r: Control)
    requires
        old(state).wf(),
        opcode.0 == ISZERO || opcode.0 == NOT,
    ensures
        final(state).wf(),
        (final(state)@, r) == stack_effect(
            old(state)@,
            1,
            seq![unary_word(opcode.0, old(state)@.top(0))],
            1,
        ),
{
    let op1 = match state.stack.peek(0) {
        Ok(op1) => op1,
        Err(e) => {
            return Control::Exit(ExitReason::Error(e));
        },
    };
    let value = if opcode.0 == ISZERO {
        bitwise::iszero(op1)
    } else {
        bitwise::not(op1)
    };
    misc::commit(state, 1, value);
    Control::Continue(1)
}

/// Runs `ADDMOD` or `MULMOD` on the stack of the machine.
pub fn ternary(state: &mut Machine, opcode: Opcode) -> (r: Control)
    requires
        old(state).wf(),
        opcode.0 == ADDMOD || opcode.0 == MULMOD,
    ensures
        final(state).wf(),
        (final(state)@, r) == stack_effect(
            old(state)@,
            3,
            seq![ternary_word(
                opcode.0,
                old(state)@.top(0),
                old(state)@.top(1),
                old(state)@.top(2),
            )],
            1,
        ),
{
    let (op1, op2, op3) = match (state.stack.peek(0), state.stack.peek(1), state.stack.peek(2)) {
        (Ok(op1), Ok(op2), Ok(op3)) => (op1, op2, op3),
        _ => {
            return Control::Exit(ExitReason::Error(ExitError::StackUnderflow));
        },
    };
    let value = if opcode.0 == ADDMOD {
        arithmetic::addmod(op1, op2, op3)
    } else {
        arithmetic::mulmod(op1, op2, op3)
    };
    proof {
        lemma_word_of_view(value);
    }
    misc::commit(state, 3, value);
    Control::Continue(1)
}

/// Runs one instruction, by a match over the opcode.
pub fn dispatch(state: &mut Machine, opcode: Opcode, position: usize) -> (r: Control)
    requires
        old(state).wf(),
        position < old(state)@.code.len(),
    ensures
        final(state).wf(),
        (final(state)@, r) == instruction_spec(old(state)@, opcode.0, position),
        r matches Control::Jump(t) ==> t < old(state)@.code.len(),
{
    match opcode.0 {
        STOP => Control::Exit(ExitReason::Succeed(ExitSucceed::Stopped)),
        ADD | MUL | SUB | DIV | SDIV | MOD | SMOD | EXP | SIGNEXTEND | LT | GT | SLT | SGT | EQ | AND
        | OR | XOR | BYTE | SHL | SHR | SAR => binary(state, opcode),
        ISZERO | NOT => unary(state, opcode),
        ADDMOD | MULMOD => ternary(state, opcode),
        POP => misc::pop(state),
        MLOAD => misc::mload(state),
        MSTORE => misc::mstore(state),
        MSTORE8 => misc::mstore8(state),
        JUMP => misc::jump(state),
        JUMPI => misc::jumpi(state),
        PC => misc::pc(state, position),
        MSIZE => misc::msize(state),
        JUMPDEST => Control::Continue(1),
        CALLDATALOAD => misc::calldataload(state),
        CALLDATASIZE => misc::calldatasize(state),
        CALLDATACOPY => misc::calldatacopy(state),
        CODESIZE => misc::codesize(state),
        CODECOPY => misc::codecopy(state),
        PUSH1..=PUSH32 => misc::push(state, (opcode.0 - PUSH1) as usize + 1, position),
        DUP1..=DUP16 => misc::dup(state, (opcode.0 - DUP1) as usize + 1),
        SWAP1..=SWAP16 => misc::swap(state, (opcode.0 - SWAP1) as usize + 1),
        RETURN => misc::ret(state),
        REVERT => misc::revert(state),
        INVALID => Control::Exit(ExitReason::Error(ExitError::DesignatedInvalid)),
        _ => {
            let code_len = state.code.len();
            state.position = Ok(position + 1);
            Control::Trap(opcode)
        },
    }
}

/// Fetches and runs the instruction at `position`, given the answer `hook` of the handler's
/// hook for it.
pub fn eval_with(state: &mut Machine, position: usize, hook: Result<(), ExitError>) -> (r: Control)
    requires
        old(state).wf(),
    ensures
        final(state).wf(),
        (final(state)@, r) == eval_spec(old(state)@, position, hook),
        r matches Control::Jump(t) ==> t < old(state)@.code.len(),
        r is Continue || r is Jump || r is Trap ==> position < old(state)@.code.len(),
{
    if position >= state.code.len() {
        let reason = ExitReason::Succeed(ExitSucceed::Stopped);
        state.position = Err(reason);
        return Control::Exit(reason);
    }
    match hook {
        Ok(()) => dispatch(state, Opcode(state.code[position]), position),
        Err(e) => {
            state.position = Err(ExitReason::Error(e));
            Control::Exit(ExitReason::Error(e))
        },
    }
}

/// The outcome of an instruction as the handler's second hook sees it.
pub fn outcome(control: &Control) -> (r: Result<(), Capture<ExitReason, Trap>>)
    ensures
        r == match *control {
            Control::Continue(_) | Control::Jump(_) => Ok::<(), Capture<ExitReason, Trap>>(()),
            Control::Trap(t) => Err(Capture::Trap(t)),
            Control::Exit(e) => Err(Capture::Exit(e)),
        },
{
    match control {
        Control::Continue(_) | Control::Jump(_) => Ok(()),
        Control::Trap(t) => Err(Capture::Trap(*t)),
        Control::Exit(e) => Err(Capture::Exit(*e)),
    }
}

/// Fetches and runs the instruction at `position`. Past the end of the code the machine
/// stops and the handler is not asked. Else the handler's first hook is asked with the opcode
/// at `position`; an error from it ends the machine, and otherwise the instruction runs and
/// the second hook sees its outcome. Whatever the handler does, the machine changes as
/// `eval_spec` says for one of the answers that the first hook can give; with a handler that
/// lets every instruction run, that answer is `Ok`.
pub fn eval<H: InterpreterHandler>(
    state: &mut Machine,
    position: usize,
    handler: &mut H,
    address: &H160,
) -> (r: Control)
    requires
        old(state).wf(),
    ensures
        final(state).wf(),
        exists|hook: Result<(), ExitError>|
            (final(state)@, r) == #[trigger] eval_spec(old(state)@, position, hook),
        position >= old(state)@.code.len() ==> (final(state)@, r) == eval_spec(
            old(state)@,
            position,
            Ok(()),
        ) && *final(handler) == *old(handler),
        old(handler).lets_run() ==> (final(state)@, r) == eval_spec(old(state)@, position, Ok(()))
            && final(handler).lets_run(),
        r matches Control::Jump(t) ==> t < old(state)@.code.len(),
        r is Continue || r is Jump || r is Trap ==> position < old(state)@.code.len(),
{
    let opcode = match state.fetch(position) {
        Some(opcode) => opcode,
        None => {
            return eval_with(state, position, Ok(()));
        },
    };
    match handler.before_bytecode(opcode, position, state, address) {
        Ok(()) => {},
        Err(e) => {
            return eval_with(state, position, Err(e));
        },
    }
    let control = eval_with(state, position, Ok(()));
    let result = outcome(&control);
    handler.after_bytecode(&result, state);
    control
}

/// How the machine goes on after the instruction at `position` gave `control`: it moves on,
/// never past the end of the code, jumps, ends for good, or stays suspended behind a trap.
pub open spec fn resume_spec(s: State, position: usize, control: Control) -> (
    State,
    Result<(), Capture<ExitReason, Trap>>,
) {
    match control {
        Control::Continue(delta) => (
            s.at(
                Ok(
                    if position + delta <= s.code.len() {
                        (position + delta) as usize
                    } else {
                        s.code.len() as usize
                    },
                ),
            ),
            Ok(()),
        ),
        Control::Jump(target) => (s.at(Ok(target)), Ok(())),
        Control::Exit(reason) => (s.at(Err(reason)), Err(Capture::Exit(reason))),
        Control::Trap(opcode) => (s, Err(Capture::Trap(opcode))),
    }
}

/// One step of the machine, given what the handler's hook answered: a machine that has
/// ended refuses with the reason of its end; another one runs the instruction at its program
/// counter and goes on as `resume_spec` says.
pub open spec fn step_spec(s: State, hook: Result<(), ExitError>) -> (
    State,
    Result<(), Capture<ExitReason, Trap>>,
) {
    match s.position {
        Err(reason) => (s, Err(Capture::Exit(reason))),
        Ok(position) => {
            let (after, control) = eval_spec(s, position, hook);
            resume_spec(after, position, control)
        },
    }
}

/// Steps of the machine, one for each answer of the hook in `hooks`, until one of them
/// ends or suspends the machine: the state reached, and the exit or trap if there was one.
pub open spec fn run_spec(s: State, hooks: Seq<Result<(), ExitError>>) -> (
    State,
    Option<Capture<ExitReason, Trap>>,
)
    decreases hooks.len(),
{
    if hooks.len() == 0 {
        (s, None)
    } else {
        let (after, result) = step_spec(s, hooks[0]);
        match result {
            Err(capture) => (after, Some(capture)),
            Ok(_) => run_spec(after, hooks.drop_first()),
        }
    }
}

/// A run of at most `budget` steps with a handler that lets every instruction run: the
/// state reached, and the exit or trap that ended the run, or nothing if the machine is still
/// running after `budget` steps.
pub open spec fn run_unhindered(s: State, budget: nat) -> (
    State,
    Option<Capture<ExitReason, Trap>>,
)
    decreases budget,
{
    if budget == 0 {
        (s, None)
    } else {
        let (after, result) = step_spec(s, Ok(()));
        match result {
            Err(capture) => (after, Some(capture)),
            Ok(_) => run_unhindered(after, (budget - 1) as nat),
        }
    }
}

/// A run that has not ended goes on with one more step.
pub proof fn lemma_run_one_more(s: State, hooks: Seq<Result<(), ExitError>>, hook: Result<(), ExitError>)
    requires
        run_spec(s, hooks).1 is None,
    ensures
        run_spec(s, hooks.push(hook)) == (match step_spec(run_spec(s, hooks).0, hook) {
            (after, Err(capture)) => (after, Some(capture)),
            (after, Ok(_)) => (after, None::<Capture<ExitReason, Trap>>),
        }),
    decreases hooks.len(),
{
    reveal_with_fuel(run_spec, 2);
    if hooks.len() == 0 {
        assert(hooks.push(hook).drop_first() =~= hooks);
        assert(hooks.push(hook)[0] == hook);
    } else {
        let (after, result) = step_spec(s, hooks[0]);
        assert(hooks.push(hook).drop_first() =~= hooks.drop_first().push(hook));
        assert(hooks.push(hook)[0] == hooks[0]);
        lemma_run_one_more(after, hooks.drop_first(), hook);
    }
}

/// A machine that has ended answers every further step with the reason of its end, and does
/// not change.
pub proof fn lemma_step_after_exit(s: State, reason: ExitReason, hook: Result<(), ExitError>)
    requires
        s.position == Err::<usize, ExitReason>(reason),
    ensures
        step_spec(s, hook) == (s, Err::<(), Capture<ExitReason, Trap>>(Capture::Exit(reason))),
{
}

/// Once a step has ended with an exit, every later step gives that same exit.
pub proof fn lemma_exit_is_final(
    s: State,
    first: Result<(), ExitError>,
    later: Result<(), ExitError>,
    reason: ExitReason,
)
    requires
        step_spec(s, first).1 == Err::<(), Capture<ExitReason, Trap>>(Capture::Exit(reason)),
    ensures
        step_spec(step_spec(s, first).0, later) == step_spec(s, first),
{
}

/// Every instruction keeps the invariant of the state; it leaves the program counter alone
/// but for a trap, and jumps into the code only.
pub proof fn lemma_instruction_keeps_invariant(s: State, b: u8, position: usize)
    requires
        s.inv(),
        position < s.code.len(),
    ensures
        misc::kept(s, instruction_spec(s, b, position).0),
        instruction_spec(s, b, position).1 matches Control::Jump(t) ==> t < s.code.len(),
        !(instruction_spec(s, b, position).1 is Trap) ==> instruction_spec(s, b, position).0.position
            == s.position,
{
    misc::lemma_mload_kept(s);
    misc::lemma_jump_kept(s);
    misc::lemma_halt_kept(s, ExitReason::Succeed(ExitSucceed::Returned));
    misc::lemma_halt_kept(s, ExitReason::Revert(ExitRevert::Reverted));
    if b == MSTORE {
        misc::lemma_store_effect_kept(s, 2, crate::primitives::word_to_be(s.top(1)));
    } else if b == MSTORE8 {
        misc::lemma_store_effect_kept(s, 2, seq![crate::primitives::limb_byte(s.top(1).w0, 0)]);
    } else if b == CALLDATACOPY {
        misc::lemma_store_effect_kept(
            s,
            3,
            crate::primitives::source_window(s.data, s.top(1)@, s.top(2)@),
        );
    } else if b == CODECOPY {
        misc::lemma_store_effect_kept(
            s,
            3,
            crate::primitives::source_window(s.code, s.top(1)@, s.top(2)@),
        );
    } else if DUP1 <= b <= DUP16 {
        misc::lemma_dup_swap_kept(s, (b - DUP1 + 1) as nat);
    } else if SWAP1 <= b <= SWAP16 {
        misc::lemma_dup_swap_kept(s, (b - SWAP1 + 1) as nat);
    } else if b == ISZERO || b == NOT {
        misc::lemma_stack_effect_kept(s, 1, seq![unary_word(b, s.top(0))], 1);
    } else if b == ADDMOD || b == MULMOD {
        misc::lemma_stack_effect_kept(
            s,
            3,
            seq![ternary_word(b, s.top(0), s.top(1), s.top(2))],
            1,
        );
    } else if b == POP {
        misc::lemma_stack_effect_kept(s, 1, seq![], 1);
    } else if b == PC {
        misc::lemma_stack_effect_kept(s, 0, seq![word_of(position as nat)], 1);
    } else if b == MSIZE {
        misc::lemma_stack_effect_kept(s, 0, seq![word_of(s.memory.len())], 1);
    } else if b == CALLDATALOAD {
        misc::lemma_stack_effect_kept(
            s,
            1,
            seq![crate::primitives::word_from_be(
                crate::primitives::source_window(s.data, s.top(0)@, 32),
            )],
            1,
        );
    } else if b == CALLDATASIZE {
        misc::lemma_stack_effect_kept(s, 0, seq![word_of(s.data.len())], 1);
    } else if b == CODESIZE {
        misc::lemma_stack_effect_kept(s, 0, seq![word_of(s.code.len())], 1);
    } else if is_binary(b) {
        misc::lemma_stack_effect_kept(s, 2, seq![binary_word(b, s.top(0), s.top(1))], 1);
    } else if PUSH1 <= b <= PUSH32 {
        misc::lemma_stack_effect_kept(
            s,
            0,
            seq![push_value(s.code, push_width(b), position as nat)],
            (1 + push_width(b)) as usize,
        );
    }
}

/// Every step keeps the invariant of the state: the stack within its limit, the memory a
/// whole number of words that does not shrink, the program counter within the code; and it
/// leaves code, call input and limits as they are.
pub proof fn lemma_step_keeps_invariant(s: State, hook: Result<(), ExitError>)
    requires
        s.inv(),
    ensures
        misc::kept(s, step_spec(s, hook).0),
{
    if let Ok(position) = s.position {
        if position < s.code.len() {
            lemma_instruction_keeps_invariant(s, s.code[position as int], position);
        }
    }
}

} // verus!
