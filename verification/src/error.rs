//! Exit reasons of the machine and the exit-or-trap sum type.

use crate::opcode::Opcode;
use vstd::prelude::*;
use vstd::std_specs::convert::FromSpecImpl;

verus! {

/// The tag carried by a trap: the opcode the interpreter could not run itself.
pub type Trap = Opcode;

/// Either a final exit or a suspension that the driver has to service.
#[derive(Clone, Copy, Debug, PartialEq, Eq)]
pub enum Capture<E, T> {
    /// The computation ended for good.
    Exit(E),
    /// The computation is suspended and can be resumed.
    Trap(T),
}

/// Successful ends of an execution.
#[derive(Clone, Copy, Debug, PartialEq, Eq)]
pub enum ExitSucceed {
    /// `STOP`, or running off the end of the code.
    Stopped,
    /// `RETURN`.
    Returned,
    /// `SELFDESTRUCT`.
    Suicided,
}

/// The execution reverted; the return range holds the revert data.
#[derive(Clone, Copy, Debug, PartialEq, Eq)]
pub enum ExitRevert {
    /// `REVERT`.
    Reverted,
}

/// Errors that end the current machine.
#[derive(Clone, Copy, Debug, PartialEq, Eq)]
pub enum ExitError {
    /// An operand was read from a stack that is too shallow.
    StackUnderflow,
    /// A push would exceed the stack limit.
    StackOverflow,
    /// A jump to a position that is no valid destination.
    InvalidJump,
    /// A memory range that does not fit the memory limit.
    InvalidRange,
    /// The `INVALID` opcode was executed.
    DesignatedInvalid,
    /// The call stack is too deep.
    CallTooDeep,
    /// A contract already lives at the address of a create.
    CreateCollision,
    /// The created code exceeds the size limit.
    CreateContractLimit,
    /// The created code is not acceptable.
    InvalidCode,
    /// A copy reads past the end of the return-data buffer.
    OutOfOffset,
    /// The host ran out of gas.
    OutOfGas,
    /// A transfer exceeds the balance.
    OutOfFund,
    /// The program counter underflowed.
    PCUnderflow,
    /// Any other error, with a message.
    Other(&'static str),
}

/// Errors after which the whole nested execution cannot go on.
#[derive(Clone, Copy, Debug, PartialEq, Eq)]
pub enum ExitFatal {
    /// The operation is not supported on this machine.
    NotSupported,
    /// A trap that the driver did not handle.
    UnhandledInterrupt,
    /// An error of a nested call that the host treats as fatal.
    CallErrorAsFatal(ExitError),
    /// Any other fatal error, with a message.
    Other(&'static str),
}

/// Why a machine stopped.
#[derive(Clone, Copy, Debug, PartialEq, Eq)]
pub enum ExitReason {
    /// The machine finished successfully.
    Succeed(ExitSucceed),
    /// The machine ended with an error.
    Error(ExitError),
    /// The machine reverted.
    Revert(ExitRevert),
    /// The machine hit a fatal error.
    Fatal(ExitFatal),
}

impl ExitReason {
    /// Whether the exit is a success.
    pub fn is_succeed(&self) -> (r: bool)
        ensures
            r == (*self is Succeed),
    {
        match self {
            ExitReason::Succeed(_) => true,
            _ => false,
        }
    }

    /// Whether the exit is an error.
    pub fn is_error(&self) -> (r: bool)
        ensures
            r == (*self is Error),
    {
        match self {
            ExitReason::Error(_) => true,
            _ => false,
        }
    }

    /// Whether the exit is a revert.
    pub fn is_revert(&self) -> (r: bool)
        ensures
            r == (*self is Revert),
    {
        match self {
            ExitReason::Revert(_) => true,
            _ => false,
        }
    }

    /// Whether the exit is fatal.
    pub fn is_fatal(&self) -> (r: bool)
        ensures
            r == (*self is Fatal),
    {
        match self {
            ExitReason::Fatal(_) => true,
            _ => false,
        }
    }
}

impl From<ExitSucceed> for ExitReason {
    fn from(s: ExitSucceed) -> (r: Self) {
        ExitReason::Succeed(s)
    }
}

impl FromSpecImpl<ExitSucceed> for ExitReason {
    open spec fn obeys_from_spec() -> bool {
        true
    }

    open spec fn from_spec(s: ExitSucceed) -> Self {
        ExitReason::Succeed(s)
    }
}

impl From<ExitError> for ExitReason {
    fn from(e: ExitError) -> (r: Self) {
        ExitReason::Error(e)
    }
}

impl FromSpecImpl<ExitError> for ExitReason {
    open spec fn obeys_from_spec() -> bool {
        true
    }

    open spec fn from_spec(e: ExitError) -> Self {
        ExitReason::Error(e)
    }
}

impl From<ExitRevert> for ExitReason {
    fn from(e: ExitRevert) -> (r: Self) {
        ExitReason::Revert(e)
    }
}

impl FromSpecImpl<ExitRevert> for ExitReason {
    open spec fn obeys_from_spec() -> bool {
        true
    }

    open spec fn from_spec(e: ExitRevert) -> Self {
        ExitReason::Revert(e)
    }
}

impl From<ExitFatal> for ExitReason {
    fn from(e: ExitFatal) -> (r: Self) {
        ExitReason::Fatal(e)
    }
}

impl FromSpecImpl<ExitFatal> for ExitReason {
    open spec fn obeys_from_spec() -> bool {
        true
    }

    open spec fn from_spec(e: ExitFatal) -> Self {
        ExitReason::Fatal(e)
    }
}

} // verus!
