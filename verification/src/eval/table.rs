//! Dispatch through a table of 256 slots, one for each opcode byte.

use crate::error::{ExitError, ExitReason, ExitSucceed};
use crate::eval::{
    binary, eval_spec, instruction_spec, is_binary, misc, outcome, ternary, unary, Control,
};
use crate::primitives::H160;
use crate::InterpreterHandler;
use crate::opcode::{
    Opcode, ADDMOD, CALLDATACOPY, CALLDATALOAD, CALLDATASIZE, CODECOPY, CODESIZE, DUP1, DUP16,
    INVALID, ISZERO, JUMP, JUMPDEST, JUMPI, MLOAD, MSIZE, MSTORE, MSTORE8, MULMOD, NOT, PC, POP,
    PUSH1, PUSH32, RETURN, REVERT, STOP, SWAP1, SWAP16,
};
use crate::Machine;
use vstd::prelude::*;

verus! {

/// What a slot of the table says to do.
#[derive(Clone, Copy, Debug, PartialEq, Eq)]
pub enum Slot {
    /// `STOP`
    Stop,
    /// An instruction on two operands.
    Binary,
    /// `ISZERO` or `NOT`.
    Unary,
    /// `ADDMOD` or `MULMOD`.
    Ternary,
    /// `POP`
    Pop,
    /// `MLOAD`
    Mload,
    /// `MSTORE`
    Mstore,
    /// `MSTORE8`
    Mstore8,
    /// `JUMP`
    Jump,
    /// `JUMPI`
    Jumpi,
    /// `PC`
    Pc,
    /// `MSIZE`
    Msize,
    /// `JUMPDEST`
    Jumpdest,
    /// `CALLDATALOAD`
    Calldataload,
    /// `CALLDATASIZE`
    Calldatasize,
    /// `CALLDATACOPY`
    Calldatacopy,
    /// `CODESIZE`
    Codesize,
    /// `CODECOPY`
    Codecopy,
    /// `PUSHn`, with `n`.
    Push(u8),
    /// `DUPn`, with `n`.
    Dup(u8),
    /// `SWAPn`, with `n`.
    Swap(u8),
    /// `RETURN`
    Return,
    /// `REVERT`
    Revert,
    /// `INVALID`
    Invalid,
    /// Every other byte: a trap.
    External,
}

/// The slot of an opcode byte.
pub open spec fn slot_of(b: u8) -> Slot {
    match b {
        STOP => Slot::Stop,
        ISZERO | NOT => Slot::Unary,
        ADDMOD | MULMOD => Slot::Ternary,
        POP => Slot::Pop,
        MLOAD => Slot::Mload,
        MSTORE => Slot::Mstore,
        MSTORE8 => Slot::Mstore8,
        JUMP => Slot::Jump,
        JUMPI => Slot::Jumpi,
        PC => Slot::Pc,
        MSIZE => Slot::Msize,
        JUMPDEST => Slot::Jumpdest,
        CALLDATALOAD => Slot::Calldataload,
        CALLDATASIZE => Slot::Calldatasize,
        CALLDATACOPY => Slot::Calldatacopy,
        CODESIZE => Slot::Codesize,
        CODECOPY => Slot::Codecopy,
        RETURN => Slot::Return,
        REVERT => Slot::Revert,
        INVALID => Slot::Invalid,
        _ => if is_binary(b) {
            Slot::Binary
        } else if PUSH1 <= b <= PUSH32 {
            Slot::Push((b - PUSH1 + 1) as u8)
        } else if DUP1 <= b <= DUP16 {
            Slot::Dup((b - DUP1 + 1) as u8)
        } else if SWAP1 <= b <= SWAP16 {
            Slot::Swap((b - SWAP1 + 1) as u8)
        } else {
            Slot::External
        },
    }
}

/// The slot of an opcode byte.
fn classify(b: u8) -> (r: Slot)
    ensures
        r == slot_of(b),
{
    match b {
        STOP => Slot::Stop,
        ISZERO | NOT => Slot::Unary,
        ADDMOD | MULMOD => Slot::Ternary,
        POP => Slot::Pop,
        MLOAD => Slot::Mload,
        MSTORE => Slot::Mstore,
        MSTORE8 => Slot::Mstore8,
        JUMP => Slot::Jump,
        JUMPI => Slot::Jumpi,
        PC => Slot::Pc,
        MSIZE => Slot::Msize,
        JUMPDEST => Slot::Jumpdest,
        CALLDATALOAD => Slot::Calldataload,
        CALLDATASIZE => Slot::Calldatasize,
        CALLDATACOPY => Slot::Calldatacopy,
        CODESIZE => Slot::Codesize,
        CODECOPY => Slot::Codecopy,
        RETURN => Slot::Return,
        REVERT => Slot::Revert,
        INVALID => Slot::Invalid,
        PUSH1..=PUSH32 => Slot::Push(b - PUSH1 + 1),
        DUP1..=DUP16 => Slot::Dup(b - DUP1 + 1),
        SWAP1..=SWAP16 => Slot::Swap(b - SWAP1 + 1),
        0x01..=0x07 | 0x0a | 0x0b | 0x10..=0x14 | 0x16..=0x18 | 0x1a..=0x1d => Slot::Binary,
        _ => Slot::External,
    }
}

/// The slots of a filled table: at each of the 256 indices the slot of that opcode byte.
pub open spec fn filled_slots() -> Seq<Slot> {
    Seq::new(256, |i: int| slot_of(i as u8))
}

/// The dispatch table: for each of the 256 opcode bytes its slot.
pub struct Table {
    slots: [Slot; 256],
}

impl View for Table {
    type V = Seq<Slot>;

    /// The 256 slots, by opcode byte.
    closed spec fn view(&self) -> Seq<Slot> {
        self.slots@
    }
}

impl Table {
    /// Every slot is that of its byte.
    #[verifier::type_invariant]
    spec fn filled(&self) -> bool {
        forall|i: int| 0 <= i < 256 ==> self.slots@[i] == slot_of(i as u8)
    }

    /// Fills the table: every slot gets what `slot_of` says for its byte.
    pub fn new() -> (r: Self)
        ensures
            r@ == filled_slots(),
    {
        let mut slots: [Slot; 256] = [Slot::External; 256];
        let mut i: usize = 0;
        while i < 256
            invariant
                i <= 256,
                forall|j: int| 0 <= j < i ==> slots@[j] == slot_of(j as u8),
            decreases 256 - i,
        {
            slots[i] = classify(i as u8);
            i += 1;
        }
        let r = Table { slots };
        assert(r@ =~= filled_slots());
        r
    }

    /// The slot of an opcode: the entry of the table at its byte.
    pub fn slot(&self, opcode: Opcode) -> (r: Slot)
        ensures
            r == self@[opcode.0 as int],
            r == slot_of(opcode.0),
    {
        proof {
            use_type_invariant(self);
        }
        self.slots[opcode.as_usize()]
    }
}

/// Runs one instruction, by a look into the table. It does what the dispatch by a match over
/// the opcode does.
pub fn dispatch_table(state: &mut Machine, table: &Table, opcode: Opcode, position: usize) -> (r:
    Control)
    requires
        old(state).wf(),
        position < old(state)@.code.len(),
    ensures
        final(state).wf(),
        (final(state)@, r) == instruction_spec(old(state)@, opcode.0, position),
        r matches Control::Jump(t) ==> t < old(state)@.code.len(),
{
    match table.slot(opcode) {
        Slot::Stop => Control::Exit(ExitReason::Succeed(ExitSucceed::Stopped)),
        Slot::Binary => binary(state, opcode),
        Slot::Unary => unary(state, opcode),
        Slot::Ternary => ternary(state, opcode),
        Slot::Pop => misc::pop(state),
        Slot::Mload => misc::mload(state),
        Slot::Mstore => misc::mstore(state),
        Slot::Mstore8 => misc::mstore8(state),
        Slot::Jump => misc::jump(state),
        Slot::Jumpi => misc::jumpi(state),
        Slot::Pc => misc::pc(state, position),
        Slot::Msize => misc::msize(state),
        Slot::Jumpdest => Control::Continue(1),
        Slot::Calldataload => misc::calldataload(state),
        Slot::Calldatasize => misc::calldatasize(state),
        Slot::Calldatacopy => misc::calldatacopy(state),
        Slot::Codesize => misc::codesize(state),
        Slot::Codecopy => misc::codecopy(state),
        Slot::Push(n) => misc::push(state, n as usize, position),
        Slot::Dup(n) => misc::dup(state, n as usize),
        Slot::Swap(n) => misc::swap(state, n as usize),
        Slot::Return => misc::ret(state),
        Slot::Revert => misc::revert(state),
        Slot::Invalid => Control::Exit(ExitReason::Error(ExitError::DesignatedInvalid)),
        Slot::External => {
            let code_len = state.code.len();
            state.position = Ok(position + 1);
            Control::Trap(opcode)
        },
    }
}

/// Fetches and runs the instruction at `position` through the table, given the answer
/// `hook` of the handler's hook for it.
pub fn eval_table_with(
    state: &mut Machine,
    table: &Table,
    position: usize,
    hook: Result<(), ExitError>,
) -> (r: Control)
    requires
        old(state).wf(),
    ensures
        final(state).wf(),
        (final(state)@, r) == eval_spec(old(state)@, position, hook),
        r matches Control::Jump(t) ==> t < old(state)@.code.len(),
        r is Continue || r is Jump || r is Trap ==> position < old(state)@.code.len(),
{
    if position >= state.code.len() {
        let reason = ExitReason::Succeed(ExitSucceed::Stopped);
        state.position = Err(reason);
        return Control::Exit(reason);
    }
    match hook {
        Ok(()) => dispatch_table(state, table, Opcode(state.code[position]), position),
        Err(e) => {
            state.position = Err(ExitReason::Error(e));
            Control::Exit(ExitReason::Error(e))
        },
    }
}

/// Fetches and runs the instruction at `position` through the table, with the hooks of the
/// handler before and after it: the same as the dispatch by a match, whatever the handler
/// does.
pub fn eval_table<H: InterpreterHandler>(
    state: &mut Machine,
    table: &Table,
    position: usize,
    handler: &mut H,
    address: &H160,
) -> (r: Control)
    requires
        old(state).wf(),
    ensures
        final(state).wf(),
        exists|hook: Result<(), ExitError>|
            (final(state)@, r) == #[trigger] eval_spec(old(state)@, position, hook),
        position >= old(state)@.code.len() ==> (final(state)@, r) == eval_spec(
            old(state)@,
            position,
            Ok(()),
        ) && *final(handler) == *old(handler),
        old(handler).lets_run() ==> (final(state)@, r) == eval_spec(old(state)@, position, Ok(()))
            && final(handler).lets_run(),
        r matches Control::Jump(t) ==> t < old(state)@.code.len(),
        r is Continue || r is Jump || r is Trap ==> position < old(state)@.code.len(),
{
    let opcode = match state.fetch(position) {
        Some(opcode) => opcode,
        None => {
            return eval_table_with(state, table, position, Ok(()));
        },
    };
    match handler.before_bytecode(opcode, position, state, address) {
        Ok(()) => {},
        Err(e) => {
            return eval_table_with(state, table, position, Err(e));
        },
    }
    let control = eval_table_with(state, table, position, Ok(()));
    let result = outcome(&control);
    handler.after_bytecode(&result, state);
    control
}

} // verus!
