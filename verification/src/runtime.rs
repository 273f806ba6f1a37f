//! The runtime layer: a machine with the context of its call, and the host that it asks.

pub mod eval;

use crate::error::{Capture, ExitError, ExitReason};
use crate::eval::step_spec;
use crate::opcode::Opcode;
use crate::primitives::{H160, H256, U256};
use crate::state::{initial_state, State};
use crate::{InterpreterHandler, Machine};
use std::rc::Rc;
use vstd::prelude::*;

verus! {

/// How a nested call treats address, caller and value.
#[derive(Clone, Copy, Debug, PartialEq, Eq, Structural)]
pub enum CallScheme {
    /// `CALL`
    Call,
    /// `CALLCODE`
    CallCode,
    /// `DELEGATECALL`
    DelegateCall,
    /// `STATICCALL`
    StaticCall,
}

/// How the address of a created contract is found.
#[derive(Clone, Copy, Debug, PartialEq, Eq)]
pub enum CreateScheme {
    /// `CREATE`: from the caller and its nonce.
    Legacy {
        /// The creating contract.
        caller: H160,
    },
    /// `CREATE2`: from the caller, the hash of the code and a salt.
    Create2 {
        /// The creating contract.
        caller: H160,
        /// The hash of the init code.
        code_hash: H256,
        /// The salt.
        salt: H256,
    },
    /// At a fixed address.
    Fixed(H160),
}

/// The environment of one call.
#[derive(Clone, Copy, Debug, PartialEq, Eq)]
pub struct Context {
    /// The address of the running contract.
    pub address: H160,
    /// The caller.
    pub caller: H160,
    /// The value that the call appears to carry.
    pub apparent_value: U256,
}

/// A transfer of value that goes with a call.
#[derive(Clone, Copy, Debug, PartialEq, Eq)]
pub struct Transfer {
    /// From whom.
    pub source: H160,
    /// To whom.
    pub target: H160,
    /// How much.
    pub value: U256,
}

/// What the interpreter asks of its host. Every query and every effect may fail; a failure
/// ends the machine that asked.
pub trait Handler {
    /// What a suspended create hands to the driver.
    type CreateInterrupt;

    /// What a suspended call hands to the driver.
    type CallInterrupt;

    /// The balance of an account.
    fn balance(&self, address: H160) -> Result<U256, ExitError>;

    /// The size of the code of an account.
    fn code_size(&self, address: H160) -> Result<U256, ExitError>;

    /// The hash of the code of an account.
    fn code_hash(&self, address: H160) -> Result<H256, ExitError>;

    /// The code of an account.
    fn code(&self, address: H160) -> Result<Vec<u8>, ExitError>;

    /// The word stored by an account under a key.
    fn storage(&self, address: H160, index: H256) -> Result<H256, ExitError>;

    /// The gas that is left.
    fn gas_left(&self) -> Result<U256, ExitError>;

    /// The gas price of the transaction.
    fn gas_price(&self) -> Result<U256, ExitError>;

    /// The sender of the transaction.
    fn origin(&self) -> Result<H160, ExitError>;

    /// The hash of a block.
    fn block_hash(&self, number: U256) -> Result<H256, ExitError>;

    /// The number of the block.
    fn block_number(&self) -> Result<U256, ExitError>;

    /// The beneficiary of the block.
    fn block_coinbase(&self) -> Result<H160, ExitError>;

    /// The timestamp of the block.
    fn block_timestamp(&self) -> Result<U256, ExitError>;

    /// The difficulty of the block.
    fn block_difficulty(&self) -> Result<U256, ExitError>;

    /// The gas limit of the block.
    fn block_gas_limit(&self) -> Result<U256, ExitError>;

    /// The base fee of the block.
    fn block_base_fee_per_gas(&self) -> Result<U256, ExitError>;

    /// The id of the chain.
    fn chain_id(&self) -> Result<U256, ExitError>;

    /// Stores a word for an account under a key.
    fn set_storage(&mut self, address: H160, index: H256, value: H256) -> Result<(), ExitError>;

    /// Records a log entry.
    fn log(&mut self, address: H160, topics: Vec<H256>, data: Vec<u8>) -> Result<(), ExitError>;

    /// Marks an account for deletion, its balance going to `target`.
    fn mark_delete(&mut self, address: H160, target: H160) -> Result<(), ExitError>;

    /// Creates a contract. The host either runs the creation to its end, or suspends it.
    fn create(
        &mut self,
        caller: H160,
        scheme: CreateScheme,
        value: U256,
        init_code: Vec<u8>,
        target_gas: Option<u64>,
    ) -> Capture<(ExitReason, Option<H160>, Vec<u8>), Self::CreateInterrupt>;

    /// Calls a contract. The host either runs the call to its end, or suspends it.
    fn call(
        &mut self,
        code_address: H160,
        transfer: Option<Transfer>,
        input: Vec<u8>,
        target_gas: Option<u64>,
        is_static: bool,
        context: Context,
    ) -> Capture<(ExitReason, Vec<u8>), Self::CallInterrupt>;

    /// Runs an opcode that the interpreter does not know. The machine is one that this
    /// library made, and stays one.
    fn other(&mut self, opcode: Opcode, machine: &mut Machine) -> (r: Result<(), ExitError>)
        requires
            old(machine).wf(),
        ensures
            final(machine).wf(),
    ;
}

/// The state of a runtime as plain values.
pub struct RuntimeState {
    /// The state of the machine.
    pub machine: State,
    /// What the last nested call or create returned.
    pub return_data: Seq<u8>,
    /// The environment of the call.
    pub context: Context,
}

impl RuntimeState {
    /// The state with another machine state.
    pub open spec fn with_machine(self, machine: State) -> RuntimeState {
        RuntimeState { machine, ..self }
    }
}

/// A machine with the environment of its call.
pub struct Runtime {
    machine: Machine,
    return_data_buffer: Vec<u8>,
    context: Context,
}

impl View for Runtime {
    type V = RuntimeState;

    closed spec fn view(&self) -> RuntimeState {
        RuntimeState {
            machine: self.machine@,
            return_data: self.return_data_buffer@,
            context: self.context,
        }
    }
}

impl Runtime {
    /// The machine of the runtime.
    pub closed spec fn spec_machine(&self) -> Machine {
        self.machine
    }

    /// The runtime is well formed: its machine is.
    pub open spec fn wf(&self) -> bool {
        self.spec_machine().wf() && self.spec_machine()@ == self@.machine
    }

    /// A runtime at the start of the given code, with an empty return-data buffer.
    pub fn new(
        code: Rc<Vec<u8>>,
        data: Rc<Vec<u8>>,
        context: Context,
        stack_limit: usize,
        memory_limit: usize,
    ) -> (r: Self)
        ensures
            r.wf(),
            r@ == (RuntimeState {
                machine: initial_state(code@, data@, stack_limit, memory_limit),
                return_data: Seq::empty(),
                context,
            }),
    {
        Runtime {
            machine: Machine::new(code, data, stack_limit, memory_limit),
            return_data_buffer: Vec::new(),
            context,
        }
    }

    /// The machine of the runtime.
    pub fn machine(&self) -> (r: &Machine)
        ensures
            *r == self.spec_machine(),
    {
        &self.machine
    }

    /// Mutable reference of the machine, for the driver that resumes a suspended call or
    /// create: what it does to the machine is done to the runtime, and nothing else changes.
    pub fn machine_mut(&mut self) -> (r: &mut Machine)
        ensures
            *r == old(self).spec_machine(),
            final(self).spec_machine() == *final(r),
            final(self)@ == old(self)@.with_machine(final(r)@),
            final(r).wf() ==> final(self).wf(),
    {
        &mut self.machine
    }

    /// Replaces the return-data buffer, for the driver that resumes a suspended call or
    /// create.
    pub fn set_return_data(&mut self, data: Vec<u8>)
        ensures
            final(self)@ == (RuntimeState { return_data: data@, ..old(self)@ }),
            old(self).wf() ==> final(self).wf(),
    {
        self.return_data_buffer = data;
    }

    /// The environment of the call.
    pub fn context(&self) -> (r: &Context)
        ensures
            *r == self@.context,
    {
        &self.context
    }

    /// What the last nested call or create returned.
    pub fn return_data_buffer(&self) -> (r: &Vec<u8>)
        ensures
            r@ == self@.return_data,
    {
        &self.return_data_buffer
    }
}

/// A nested call or create that the host has suspended.
pub enum Resolve<H: Handler> {
    /// A suspended create.
    Create(H::CreateInterrupt),
    /// A suspended call.
    Call(H::CallInterrupt),
}

/// How the runtime goes on after the instruction of a trap: it goes on, ends for good, or
/// hands a suspended call or create to its driver.
pub open spec fn settle_spec<H: Handler>(s: RuntimeState, control: eval::Control<H>) -> (
    RuntimeState,
    Result<(), Capture<ExitReason, Resolve<H>>>,
) {
    match control {
        eval::Control::Continue => (s, Ok(())),
        eval::Control::CallInterrupt(interrupt) => (s, Err(Capture::Trap(Resolve::Call(interrupt)))),
        eval::Control::CreateInterrupt(interrupt) => (
            s,
            Err(Capture::Trap(Resolve::Create(interrupt))),
        ),
        eval::Control::Exit(reason) => (
            s.with_machine(s.machine.at(Err(reason))),
            Err(Capture::Exit(reason)),
        ),
    }
}

/// What one step of the runtime may lead to, whatever the handler answers: the machine
/// makes its step; where that is a trap, the runtime runs the instruction of the trap as
/// `eval_outcome` allows and goes on as `settle_spec` says.
pub open spec fn step_outcome<H: Handler>(
    before: RuntimeState,
    after: RuntimeState,
    r: Result<(), Capture<ExitReason, Resolve<H>>>,
) -> bool {
    exists|hook: Result<(), ExitError>|
        {
            let stepped = #[trigger] step_spec(before.machine, hook);
            match stepped.1 {
                Ok(_) => after == before.with_machine(stepped.0) && r is Ok,
                Err(Capture::Exit(reason)) => after == before.with_machine(stepped.0) && r == Err::<
                    (),
                    Capture<ExitReason, Resolve<H>>,
                >(Capture::Exit(reason)),
                Err(Capture::Trap(opcode)) => exists|mid: RuntimeState, control: eval::Control<H>|
                    #[trigger] eval::eval_outcome::<H>(
                        before.with_machine(stepped.0),
                        opcode.0,
                        mid,
                        control,
                    ) && (after, r) == settle_spec::<H>(mid, control),
            }
        }
}

/// What a run of at most `steps` steps may lead to: the steps go on as long as they succeed,
/// and the first exit or suspension ends the run.
pub open spec fn run_outcome<H: Handler>(
    before: RuntimeState,
    steps: nat,
    after: RuntimeState,
    r: Option<Capture<ExitReason, Resolve<H>>>,
) -> bool
    decreases steps,
{
    if steps == 0 {
        after == before && r is None
    } else {
        exists|mid: RuntimeState, result: Result<(), Capture<ExitReason, Resolve<H>>>|
            #[trigger] step_outcome::<H>(before, mid, result) && match result {
                Err(capture) => after == mid && r == Some(capture),
                Ok(_) => run_outcome::<H>(mid, (steps - 1) as nat, after, r),
            }
    }
}

impl Runtime {
    /// Steps the runtime by one instruction: the machine runs it, and where the machine
    /// traps, the runtime runs it with the help of the host. An exit ends the machine for
    /// good, and a runtime whose machine has ended refuses with the reason of its end and
    /// does not change.
    pub fn step<H: Handler + InterpreterHandler>(&mut self, handler: &mut H) -> (r: Result<
        (),
        Capture<ExitReason, Resolve<H>>,
    >)
        requires
            old(self).wf(),
        ensures
            final(self).wf(),
            step_outcome::<H>(old(self)@, final(self)@, r),
            final(self)@.context == old(self)@.context,
            r matches Err(Capture::Exit(reason)) ==> final(self)@.machine.position == Err::<
                usize,
                ExitReason,
            >(reason),
            old(self)@.machine.position matches Err(reason) ==> r matches Err(Capture::Exit(e))
                && e == reason && final(self)@ == old(self)@,
            old(self)@.machine.position is Err ==> *final(handler) == *old(handler),
    {
        let contract = self.context.address;
        let ghost before = self@;
        let result = self.machine.step(handler, &contract);
        let ghost hook = choose|hook: Result<(), ExitError>|
            (self.machine@, result) == #[trigger] step_spec(before.machine, hook);
        let ghost stepped = self@;
        match result {
            Ok(()) => Ok(()),
            Err(Capture::Exit(reason)) => Err(Capture::Exit(reason)),
            Err(Capture::Trap(opcode)) => {
                let control = eval::eval(self, opcode, handler);
                let ghost mid = self@;
                let ghost given = control;
                let r = match control {
                    eval::Control::Continue => Ok(()),
                    eval::Control::CallInterrupt(interrupt) => Err(
                        Capture::Trap(Resolve::Call(interrupt)),
                    ),
                    eval::Control::CreateInterrupt(interrupt) => Err(
                        Capture::Trap(Resolve::Create(interrupt)),
                    ),
                    eval::Control::Exit(reason) => {
                        self.machine.exit(reason);
                        Err(Capture::Exit(reason))
                    },
                };
                proof {
                    assert(stepped == before.with_machine(step_spec(before.machine, hook).0));
                    assert(eval::eval_outcome::<H>(stepped, opcode.0, mid, given));
                    assert((self@, r) == settle_spec::<H>(mid, given));
                }
                r
            },
        }
    }

    /// Steps the runtime until it ends or a nested call or create is suspended, at most
    /// `max_steps` times. The result is the exit or the suspension, or nothing if the
    /// runtime is still running after all of `max_steps` steps.
    pub fn run<H: Handler + InterpreterHandler>(&mut self, handler: &mut H, max_steps: usize) -> (r:
        Option<Capture<ExitReason, Resolve<H>>>)
        requires
            old(self).wf(),
        ensures
            final(self).wf(),
            exists|steps: nat|
                steps <= max_steps && #[trigger] run_outcome::<H>(
                    old(self)@,
                    steps,
                    final(self)@,
                    r,
                ) && (r is None ==> steps == max_steps),
            final(self)@.context == old(self)@.context,
            r matches Some(Capture::Exit(reason)) ==> final(self)@.machine.position == Err::<
                usize,
                ExitReason,
            >(reason),
    {
        let mut steps: usize = 0;
        while steps < max_steps
            invariant
                self.wf(),
                self@.context == old(self)@.context,
                steps <= max_steps,
                forall|after: RuntimeState, r: Option<Capture<ExitReason, Resolve<H>>>, more: nat|
                    #[trigger] run_outcome::<H>(self@, more, after, r) ==> run_outcome::<H>(
                        old(self)@,
                        (more + steps) as nat,
                        after,
                        r,
                    ),
            decreases max_steps - steps,
        {
            let ghost before = self@;
            let result = self.step(handler);
            let ghost given = result;
            match result {
                Ok(()) => {
                    proof {
                        assert forall|
                            after: RuntimeState,
                            r: Option<Capture<ExitReason, Resolve<H>>>,
                            more: nat,
                        | #[trigger] run_outcome::<H>(self@, more, after, r) implies run_outcome::<
                            H,
                        >(old(self)@, (more + steps + 1) as nat, after, r) by {
                            assert(step_outcome::<H>(before, self@, given));
                            assert(run_outcome::<H>(before, (more + 1) as nat, after, r));
                        }
                    }
                },
                Err(capture) => {
                    proof {
                        assert(step_outcome::<H>(before, self@, given));
                        assert(run_outcome::<H>(self@, 0, self@, None));
                        assert(run_outcome::<H>(before, 1, self@, Some(capture)));
                        assert(run_outcome::<H>(old(self)@, (1 + steps) as nat, self@, Some(capture)));
                    }
                    return Some(capture);
                },
            }
            steps += 1;
        }
        proof {
            assert(run_outcome::<H>(self@, 0, self@, None));
            assert(run_outcome::<H>(old(self)@, steps as nat, self@, None));
        }
        None
    }
}

} // verus!
