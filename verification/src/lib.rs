//! A gas-less EVM bytecode interpreter core with verified machine state.

pub mod error;
pub mod eval;
pub mod memory;
pub mod opcode;
pub mod primitives;
pub mod runtime;
pub mod stack;
pub mod state;
mod uint_ops;
pub mod utils;
pub mod valids;

pub use crate::error::{Capture, ExitError, ExitFatal, ExitReason, ExitRevert, ExitSucceed, Trap};
pub use crate::memory::Memory;
pub use crate::opcode::Opcode;
pub use crate::primitives::{H160, H256, U256};
pub use crate::stack::Stack;
pub use crate::state::State;
pub use crate::valids::Valids;

use crate::eval::{
    eval, eval_spec, eval_with, lemma_run_one_more, resume_spec, run_spec, run_unhindered,
    step_spec, Control,
};
use crate::state::initial_state;
use crate::valids::valid_map;
use std::rc::Rc;
use vstd::prelude::*;

verus! {

/// The execution state of one contract invocation.
pub struct Machine {
    /// Call input.
    data: Rc<Vec<u8>>,
    /// Program code.
    code: Rc<Vec<u8>>,
    /// Program counter, or the reason of the exit.
    position: Result<usize, ExitReason>,
    /// Start and end of the return value in memory.
    return_range: (U256, U256),
    /// Valid jump destinations of the code.
    valids: Valids,
    /// Memory.
    memory: Memory,
    /// Stack.
    stack: Stack,
}

impl View for Machine {
    type V = State;

    closed spec fn view(&self) -> State {
        State {
            code: self.code@,
            data: self.data@,
            position: self.position,
            return_range: self.return_range,
            memory: self.memory@,
            memory_limit: self.memory.limit(),
            stack: self.stack@,
            stack_limit: self.stack.limit(),
        }
    }
}

impl Machine {
    /// The parts of the machine are well formed, and the validity map is that of the code.
    pub closed spec fn parts_wf(&self) -> bool {
        &&& self.stack.wf()
        &&& self.memory.wf()
        &&& self.valids@ == valid_map(self.code@)
    }

    /// The machine is well formed: so are its parts, and its state meets the invariant.
    pub open spec fn wf(&self) -> bool {
        &&& self.parts_wf()
        &&& self@.inv()
    }

    /// The stack of the machine.
    pub closed spec fn spec_stack(&self) -> Stack {
        self.stack
    }

    /// The memory of the machine.
    pub closed spec fn spec_memory(&self) -> Memory {
        self.memory
    }

    /// Reference of machine stack.
    pub fn stack(&self) -> (r: &Stack)
        ensures
            *r == self.spec_stack(),
            r@ == self@.stack,
            r.limit() == self@.stack_limit,
            self.wf() ==> r.wf(),
    {
        &self.stack
    }

    /// Mutable reference of machine stack. What the caller does to the stack is done to the
    /// machine, and nothing else changes.
    pub fn stack_mut(&mut self) -> (r: &mut Stack)
        ensures
            *r == old(self).spec_stack(),
            final(self).spec_stack() == *final(r),
            final(self).spec_memory() == old(self).spec_memory(),
            final(self)@ == (State {
                stack: final(r)@,
                stack_limit: final(r).limit(),
                ..old(self)@
            }),
            old(self).parts_wf() && final(r).wf() ==> final(self).parts_wf(),
    {
        &mut self.stack
    }

    /// Reference of machine memory.
    pub fn memory(&self) -> (r: &Memory)
        ensures
            *r == self.spec_memory(),
            r@ == self@.memory,
            r.limit() == self@.memory_limit,
            self.wf() ==> r.wf(),
    {
        &self.memory
    }

    /// Mutable reference of machine memory. What the caller does to the memory is done to
    /// the machine, and nothing else changes.
    pub fn memory_mut(&mut self) -> (r: &mut Memory)
        ensures
            *r == old(self).spec_memory(),
            final(self).spec_memory() == *final(r),
            final(self).spec_stack() == old(self).spec_stack(),
            final(self)@ == (State {
                memory: final(r)@,
                memory_limit: final(r).limit(),
                ..old(self)@
            }),
            old(self).parts_wf() && final(r).wf() ==> final(self).parts_wf(),
    {
        &mut self.memory
    }

    /// Return a reference of the program counter.
    pub fn position(&self) -> (r: &Result<usize, ExitReason>)
        ensures
            *r == self@.position,
    {
        &self.position
    }

    /// Create a new machine with given code and data.
    pub fn new(code: Rc<Vec<u8>>, data: Rc<Vec<u8>>, stack_limit: usize, memory_limit: usize) -> (r:
        Self)
        ensures
            r.wf(),
            r@ == initial_state(code@, data@, stack_limit, memory_limit),
    {
        let code_len = code.len();
        let valids = Valids::new(code.as_slice());
        Machine {
            data,
            code,
            position: Ok(0),
            return_range: (U256::zero(), U256::zero()),
            valids,
            memory: Memory::new(memory_limit),
            stack: Stack::new(stack_limit),
        }
    }

    /// Explicit exit of the machine. Further step will return error.
    pub fn exit(&mut self, reason: ExitReason)
        ensures
            final(self)@ == old(self)@.at(Err(reason)),
            old(self).wf() ==> final(self).wf(),
    {
        self.position = Err(reason);
    }

    /// The opcode at `position` of the code, if the code reaches that far.
    pub fn fetch(&self, position: usize) -> (r: Option<Opcode>)
        ensures
            r == (if position < self@.code.len() {
                Some(Opcode(self@.code[position as int]))
            } else {
                None
            }),
    {
        if position < self.code.len() {
            Some(Opcode(self.code[position]))
        } else {
            None
        }
    }

    /// Inspect the machine's next opcode and current stack.
    pub fn inspect(&self) -> (r: Option<(Opcode, &Stack)>)
        ensures
            match self@.position {
                Ok(p) if p < self@.code.len() => r == Some((Opcode(self@.code[p as int]), &self.spec_stack())),
                _ => r is None,
            },
    {
        let position = match self.position {
            Ok(position) => position,
            Err(_) => {
                return None;
            },
        };
        if position < self.code.len() {
            Some((Opcode(self.code[position]), &self.stack))
        } else {
            None
        }
    }

    /// Goes on after the instruction at `position` gave `control`.
    fn resume(&mut self, position: usize, control: Control) -> (r: Result<
        (),
        Capture<ExitReason, Trap>,
    >)
        requires
            old(self).wf(),
            control matches Control::Jump(t) ==> t <= old(self)@.code.len(),
            control is Continue ==> position < old(self)@.code.len(),
        ensures
            final(self).wf(),
            (final(self)@, r) == resume_spec(old(self)@, position, control),
    {
        match control {
            Control::Continue(delta) => {
                let len = self.code.len();
                self.position = Ok(
                    if delta > len - position {
                        len
                    } else {
                        position + delta
                    },
                );
                Ok(())
            },
            Control::Jump(target) => {
                self.position = Ok(target);
                Ok(())
            },
            Control::Exit(reason) => {
                self.position = Err(reason);
                Err(Capture::Exit(reason))
            },
            Control::Trap(opcode) => Err(Capture::Trap(opcode)),
        }
    }

    /// One step of the machine, with the answer `hook` of the handler's hook given: exactly
    /// what `step_spec` says.
    pub fn advance(&mut self, hook: Result<(), ExitError>) -> (r: Result<
        (),
        Capture<ExitReason, Trap>,
    >)
        requires
            old(self).wf(),
        ensures
            final(self).wf(),
            (final(self)@, r) == step_spec(old(self)@, hook),
    {
        match self.position {
            Err(reason) => Err(Capture::Exit(reason)),
            Ok(position) => {
                let control = eval_with(self, position, hook);
                self.resume(position, control)
            },
        }
    }

    /// Step the machine by one instruction. A machine that has ended refuses with the reason
    /// of its end, and neither the machine nor the handler changes. Else the handler is asked
    /// before the instruction runs; whatever it does, the machine changes as `step_spec` says
    /// for one of the answers that its hook can give, and with a handler that lets every
    /// instruction run, that answer is `Ok`.
    pub fn step<H: InterpreterHandler>(&mut self, handler: &mut H, address: &H160) -> (r: Result<
        (),
        Capture<ExitReason, Trap>,
    >)
        requires
            old(self).wf(),
        ensures
            final(self).wf(),
            exists|hook: Result<(), ExitError>|
                (final(self)@, r) == #[trigger] step_spec(old(self)@, hook),
            old(self)@.position matches Err(reason) ==> r == Err::<(), Capture<ExitReason, Trap>>(
                Capture::Exit(reason),
            ) && final(self)@ == old(self)@,
            old(self)@.position is Err ==> *final(handler) == *old(handler),
            old(self)@.position matches Ok(p) && p >= old(self)@.code.len() ==> *final(handler)
                == *old(handler),
            old(handler).lets_run() ==> (final(self)@, r) == step_spec(old(self)@, Ok(()))
                && final(handler).lets_run(),
    {
        match self.position {
            Err(reason) => {
                assert((self@, Err::<(), Capture<ExitReason, Trap>>(Capture::Exit(reason)))
                    == step_spec(old(self)@, Ok(())));
                Err(Capture::Exit(reason))
            },
            Ok(position) => {
                let control = eval(self, position, handler, address);
                let ghost after = self@;
                let ghost hook = choose|hook: Result<(), ExitError>|
                    (after, control) == #[trigger] eval_spec(old(self)@, position, hook);
                let r = self.resume(position, control);
                assert((self@, r) == step_spec(old(self)@, hook));
                r
            },
        }
    }

    /// Steps the machine until it ends or traps, at most `max_steps` times. The result is the
    /// exit or the trap, or nothing if the machine is still running after all of `max_steps`
    /// steps. Whatever the handler does, the machine changes as `run_spec` says for some
    /// answers of its hook, one for each step made; with a handler that lets every
    /// instruction run, the run is exactly `run_unhindered`.
    pub fn run<H: InterpreterHandler>(&mut self, handler: &mut H, address: &H160, max_steps: usize) -> (r:
        Option<Capture<ExitReason, Trap>>)
        requires
            old(self).wf(),
        ensures
            final(self).wf(),
            exists|hooks: Seq<Result<(), ExitError>>|
                hooks.len() <= max_steps && (final(self)@, r) == #[trigger] run_spec(
                    old(self)@,
                    hooks,
                ) && (r is None ==> hooks.len() == max_steps),
            old(handler).lets_run() ==> (final(self)@, r) == run_unhindered(
                old(self)@,
                max_steps as nat,
            ) && final(handler).lets_run(),
    {
        let mut steps: usize = 0;
        let ghost mut hooks: Seq<Result<(), ExitError>> = Seq::empty();
        while steps < max_steps
            invariant
                self.wf(),
                steps <= max_steps,
                hooks.len() == steps,
                run_spec(old(self)@, hooks) == (self@, None::<Capture<ExitReason, Trap>>),
                old(handler).lets_run() ==> handler.lets_run() && run_unhindered(
                    old(self)@,
                    max_steps as nat,
                ) == run_unhindered(self@, (max_steps - steps) as nat),
            decreases max_steps - steps,
        {
            let ghost before = self@;
            let result = self.step(handler, address);
            proof {
                let hook = choose|hook: Result<(), ExitError>|
                    (self@, result) == #[trigger] step_spec(before, hook);
                lemma_run_one_more(old(self)@, hooks, hook);
                hooks = hooks.push(hook);
            }
            steps += 1;
            match result {
                Ok(()) => {},
                Err(capture) => {
                    return Some(capture);
                },
            }
        }
        None
    }

    /// Copy and get the return value of the machine, if any: the bytes of the memory that the
    /// return range selects, with zeros past the end of the memory.
    pub fn return_value(&self) -> (r: Vec<u8>)
        requires
            self.wf(),
        ensures
            r@ == self@.return_bytes(),
    {
        let (start, end) = self.return_range;
        let difference = crate::eval::arithmetic::sub(end, start);
        proof {
            crate::primitives::lemma_word_bound(end);
            vstd::arithmetic::div_mod::lemma_small_mod((end@ - start@) as nat, crate::primitives::modulus());
        }
        let len: usize = match difference.to_usize() {
            Some(len) => len,
            None => 0,
        };
        match start.to_usize() {
            Some(offset) => {
                let r = self.memory.get(offset, len);
                assert(r@ =~= self@.return_bytes());
                r
            },
            None => {
                let mut r: Vec<u8> = Vec::new();
                while r.len() < len
                    invariant
                        r@.len() <= len,
                        forall|i: int| 0 <= i < r@.len() ==> r@[i] == 0,
                    decreases len - r.len(),
                {
                    r.push(0);
                }
                assert(r@ =~= self@.return_bytes());
                r
            },
        }
    }
}

/// The observer of an interpreter: it is told of every instruction before and after it runs.
pub trait InterpreterHandler {
    /// Whether the handler lets every instruction run: its first hook never answers with an
    /// error, and neither hook changes that. A handler that does not say so makes no such
    /// promise.
    open spec fn lets_run(&self) -> bool {
        false
    }

    /// Called before the instruction `opcode` at `pc` runs: the opcode is the byte of the code
    /// at `pc`. An error ends the machine.
    fn before_bytecode(
        &mut self,
        opcode: Opcode,
        pc: usize,
        machine: &Machine,
        address: &H160,
    ) -> (r: Result<(), ExitError>)
        requires
            machine.wf(),
            pc < machine@.code.len(),
            opcode == Opcode(machine@.code[pc as int]),
        ensures
            old(self).lets_run() ==> r is Ok && final(self).lets_run(),
    ;

    /// Called after the instruction that the first hook let run, with its outcome.
    fn after_bytecode(&mut self, result: &Result<(), Capture<ExitReason, Trap>>, machine: &Machine)
        requires
            machine.wf(),
        ensures
            old(self).lets_run() ==> final(self).lets_run(),
    ;
}

/// A handler that counts the instructions it is told of, all of them and by opcode.
pub struct SimpleInterpreterHandler {
    /// The number of instructions seen.
    pub executed: u64,
    /// The number of instructions seen of each opcode.
    pub profile: [u64; 256],
    /// The address of the running contract.
    pub address: H160,
}

impl SimpleInterpreterHandler {
    /// A handler with all counts at zero, for the contract at `address`.
    pub fn new(address: H160) -> (r: Self)
        ensures
            r.executed == 0,
            r.address == address,
            forall|i: int| 0 <= i < 256 ==> r.profile@[i] == 0,
    {
        SimpleInterpreterHandler { executed: 0, profile: [0; 256], address }
    }

    /// A handler with all counts at zero, for the zero address.
    pub fn default() -> (r: Self)
        ensures
            r.executed == 0,
            r.address@ == Seq::new(20, |i: int| 0u8),
            forall|i: int| 0 <= i < 256 ==> r.profile@[i] == 0,
    {
        SimpleInterpreterHandler { executed: 0, profile: [0; 256], address: H160::zero() }
    }
}

impl InterpreterHandler for SimpleInterpreterHandler {
    /// This handler lets every instruction run.
    open spec fn lets_run(&self) -> bool {
        true
    }

    /// Counts the instruction and lets it run.
    fn before_bytecode(
        &mut self,
        opcode: Opcode,
        _pc: usize,
        _machine: &Machine,
        _address: &H160,
    ) -> (r: Result<(), ExitError>)
        ensures
            r is Ok,
            final(self).executed == old(self).executed.wrapping_add(1),
            final(self).profile@ == old(self).profile@.update(
                opcode.0 as int,
                old(self).profile@[opcode.0 as int].wrapping_add(1),
            ),
            final(self).address == old(self).address,
    {
        self.executed = self.executed.wrapping_add(1);
        let i = opcode.as_usize();
        self.profile[i] = self.profile[i].wrapping_add(1);
        Ok(())
    }

    /// Does nothing.
    fn after_bytecode(&mut self, _result: &Result<(), Capture<ExitReason, Trap>>, _machine: &Machine)
        ensures
            *final(self) == *old(self),
    {
    }
}

} // verus!
