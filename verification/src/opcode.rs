//! The opcode byte and its catalog of names, arities and categories.

use vstd::prelude::*;

verus! {

/// One byte of code, read as an instruction.
#[derive(Clone, Copy, Debug, PartialEq, Eq, Structural, Hash)]
pub struct Opcode(pub u8);

pub const STOP: u8 = 0x00;
pub const ADD: u8 = 0x01;
pub const MUL: u8 = 0x02;
pub const SUB: u8 = 0x03;
pub const DIV: u8 = 0x04;
pub const SDIV: u8 = 0x05;
pub const MOD: u8 = 0x06;
pub const SMOD: u8 = 0x07;
pub const ADDMOD: u8 = 0x08;
pub const MULMOD: u8 = 0x09;
pub const EXP: u8 = 0x0a;
pub const SIGNEXTEND: u8 = 0x0b;
pub const LT: u8 = 0x10;
pub const GT: u8 = 0x11;
pub const SLT: u8 = 0x12;
pub const SGT: u8 = 0x13;
pub const EQ: u8 = 0x14;
pub const ISZERO: u8 = 0x15;
pub const AND: u8 = 0x16;
pub const OR: u8 = 0x17;
pub const XOR: u8 = 0x18;
pub const NOT: u8 = 0x19;
pub const BYTE: u8 = 0x1a;
pub const SHL: u8 = 0x1b;
pub const SHR: u8 = 0x1c;
pub const SAR: u8 = 0x1d;
pub const SHA3: u8 = 0x20;
pub const ADDRESS: u8 = 0x30;
pub const BALANCE: u8 = 0x31;
pub const ORIGIN: u8 = 0x32;
pub const CALLER: u8 = 0x33;
pub const CALLVALUE: u8 = 0x34;
pub const CALLDATALOAD: u8 = 0x35;
pub const CALLDATASIZE: u8 = 0x36;
pub const CALLDATACOPY: u8 = 0x37;
pub const CODESIZE: u8 = 0x38;
pub const CODECOPY: u8 = 0x39;
pub const GASPRICE: u8 = 0x3a;
pub const EXTCODESIZE: u8 = 0x3b;
pub const EXTCODECOPY: u8 = 0x3c;
pub const RETURNDATASIZE: u8 = 0x3d;
pub const RETURNDATACOPY: u8 = 0x3e;
pub const EXTCODEHASH: u8 = 0x3f;
pub const BLOCKHASH: u8 = 0x40;
pub const COINBASE: u8 = 0x41;
pub const TIMESTAMP: u8 = 0x42;
pub const NUMBER: u8 = 0x43;
pub const DIFFICULTY: u8 = 0x44;
pub const GASLIMIT: u8 = 0x45;
pub const CHAINID: u8 = 0x46;
pub const SELFBALANCE: u8 = 0x47;
pub const BASEFEE: u8 = 0x48;
pub const POP: u8 = 0x50;
pub const MLOAD: u8 = 0x51;
pub const MSTORE: u8 = 0x52;
pub const MSTORE8: u8 = 0x53;
pub const SLOAD: u8 = 0x54;
pub const SSTORE: u8 = 0x55;
pub const JUMP: u8 = 0x56;
pub const JUMPI: u8 = 0x57;
pub const PC: u8 = 0x58;
pub const MSIZE: u8 = 0x59;
pub const GAS: u8 = 0x5a;
pub const JUMPDEST: u8 = 0x5b;
pub const PUSH1: u8 = 0x60;
pub const PUSH32: u8 = 0x7f;
pub const DUP1: u8 = 0x80;
pub const DUP16: u8 = 0x8f;
pub const SWAP1: u8 = 0x90;
pub const SWAP16: u8 = 0x9f;
pub const LOG0: u8 = 0xa0;
pub const LOG1: u8 = 0xa1;
pub const LOG2: u8 = 0xa2;
pub const LOG3: u8 = 0xa3;
pub const LOG4: u8 = 0xa4;
pub const CREATE: u8 = 0xf0;
pub const CALL: u8 = 0xf1;
pub const CALLCODE: u8 = 0xf2;
pub const RETURN: u8 = 0xf3;
pub const DELEGATECALL: u8 = 0xf4;
pub const CREATE2: u8 = 0xf5;
pub const STATICCALL: u8 = 0xfa;
pub const REVERT: u8 = 0xfd;
pub const INVALID: u8 = 0xfe;
pub const SUICIDE: u8 = 0xff;

/// How an instruction is carried out.
#[derive(Clone, Copy, Debug, PartialEq, Eq, Structural)]
pub enum Category {
    /// Ends the machine.
    Halt,
    /// Computes on stack operands only.
    Arithmetic,
    /// Moves values on the stack, or pushes a constant of the machine.
    Stack,
    /// Reads or writes linear memory.
    Memory,
    /// Changes or marks the program counter.
    Flow,
    /// Is left to the host: the interpreter traps.
    External,
}

/// The name of a byte as an instruction, and `UNKNOWN` for a byte that is none.
pub open spec fn name_of(byte: u8) -> &'static str {
    match byte {
        0x00 => "STOP",
        0x01 => "ADD",
        0x02 => "MUL",
        0x03 => "SUB",
        0x04 => "DIV",
        0x05 => "SDIV",
        0x06 => "MOD",
        0x07 => "SMOD",
        0x08 => "ADDMOD",
        0x09 => "MULMOD",
        0x0a => "EXP",
        0x0b => "SIGNEXTEND",
        0x10 => "LT",
        0x11 => "GT",
        0x12 => "SLT",
        0x13 => "SGT",
        0x14 => "EQ",
        0x15 => "ISZERO",
        0x16 => "AND",
        0x17 => "OR",
        0x18 => "XOR",
        0x19 => "NOT",
        0x1a => "BYTE",
        0x1b => "SHL",
        0x1c => "SHR",
        0x1d => "SAR",
        0x20 => "SHA3",
        0x30 => "ADDRESS",
        0x31 => "BALANCE",
        0x32 => "ORIGIN",
        0x33 => "CALLER",
        0x34 => "CALLVALUE",
        0x35 => "CALLDATALOAD",
        0x36 => "CALLDATASIZE",
        0x37 => "CALLDATACOPY",
        0x38 => "CODESIZE",
        0x39 => "CODECOPY",
        0x3a => "GASPRICE",
        0x3b => "EXTCODESIZE",
        0x3c => "EXTCODECOPY",
        0x3d => "RETURNDATASIZE",
        0x3e => "RETURNDATACOPY",
        0x3f => "EXTCODEHASH",
        0x40 => "BLOCKHASH",
        0x41 => "COINBASE",
        0x42 => "TIMESTAMP",
        0x43 => "NUMBER",
        0x44 => "DIFFICULTY",
        0x45 => "GASLIMIT",
        0x46 => "CHAINID",
        0x47 => "SELFBALANCE",
        0x48 => "BASEFEE",
        0x50 => "POP",
        0x51 => "MLOAD",
        0x52 => "MSTORE",
        0x53 => "MSTORE8",
        0x54 => "SLOAD",
        0x55 => "SSTORE",
        0x56 => "JUMP",
        0x57 => "JUMPI",
        0x58 => "PC",
        0x59 => "MSIZE",
        0x5a => "GAS",
        0x5b => "JUMPDEST",
        0x60 => "PUSH1",
        0x61 => "PUSH2",
        0x62 => "PUSH3",
        0x63 => "PUSH4",
        0x64 => "PUSH5",
        0x65 => "PUSH6",
        0x66 => "PUSH7",
        0x67 => "PUSH8",
        0x68 => "PUSH9",
        0x69 => "PUSH10",
        0x6a => "PUSH11",
        0x6b => "PUSH12",
        0x6c => "PUSH13",
        0x6d => "PUSH14",
        0x6e => "PUSH15",
        0x6f => "PUSH16",
        0x70 => "PUSH17",
        0x71 => "PUSH18",
        0x72 => "PUSH19",
        0x73 => "PUSH20",
        0x74 => "PUSH21",
        0x75 => "PUSH22",
        0x76 => "PUSH23",
        0x77 => "PUSH24",
        0x78 => "PUSH25",
        0x79 => "PUSH26",
        0x7a => "PUSH27",
        0x7b => "PUSH28",
        0x7c => "PUSH29",
        0x7d => "PUSH30",
        0x7e => "PUSH31",
        0x7f => "PUSH32",
        0x80 => "DUP1",
        0x81 => "DUP2",
        0x82 => "DUP3",
        0x83 => "DUP4",
        0x84 => "DUP5",
        0x85 => "DUP6",
        0x86 => "DUP7",
        0x87 => "DUP8",
        0x88 => "DUP9",
        0x89 => "DUP10",
        0x8a => "DUP11",
        0x8b => "DUP12",
        0x8c => "DUP13",
        0x8d => "DUP14",
        0x8e => "DUP15",
        0x8f => "DUP16",
        0x90 => "SWAP1",
        0x91 => "SWAP2",
        0x92 => "SWAP3",
        0x93 => "SWAP4",
        0x94 => "SWAP5",
        0x95 => "SWAP6",
        0x96 => "SWAP7",
        0x97 => "SWAP8",
        0x98 => "SWAP9",
        0x99 => "SWAP10",
        0x9a => "SWAP11",
        0x9b => "SWAP12",
        0x9c => "SWAP13",
        0x9d => "SWAP14",
        0x9e => "SWAP15",
        0x9f => "SWAP16",
        0xa0 => "LOG0",
        0xa1 => "LOG1",
        0xa2 => "LOG2",
        0xa3 => "LOG3",
        0xa4 => "LOG4",
        0xf0 => "CREATE",
        0xf1 => "CALL",
        0xf2 => "CALLCODE",
        0xf3 => "RETURN",
        0xf4 => "DELEGATECALL",
        0xf5 => "CREATE2",
        0xfa => "STATICCALL",
        0xfd => "REVERT",
        0xfe => "INVALID",
        0xff => "SELFDESTRUCT",
        _ => "UNKNOWN",
    }
}

/// Number of immediate bytes of `PUSHk`, and 0 for every other byte.
pub open spec fn push_width(byte: u8) -> nat {
    if PUSH1 <= byte <= PUSH32 {
        (byte - PUSH1 + 1) as nat
    } else {
        0
    }
}

/// Whether the interpreter runs the byte itself, without a trap.
pub open spec fn is_internal(byte: u8) -> bool {
    ||| byte <= SIGNEXTEND
    ||| LT <= byte <= SAR
    ||| CALLDATALOAD <= byte <= CODECOPY
    ||| POP <= byte <= MSTORE8
    ||| JUMP <= byte <= MSIZE
    ||| byte == JUMPDEST
    ||| PUSH1 <= byte <= SWAP16
    ||| byte == RETURN
    ||| byte == REVERT
    ||| byte == INVALID
}

/// Operands that the byte takes from the stack.
pub open spec fn stack_inputs(byte: u8) -> nat {
    if byte == ADDMOD || byte == MULMOD || byte == CALLDATACOPY || byte == CODECOPY
        || byte == RETURNDATACOPY || byte == CREATE {
        3
    } else if byte == ISZERO || byte == NOT || byte == CALLDATALOAD || byte == POP || byte == MLOAD
        || byte == JUMP || byte == BALANCE || byte == EXTCODESIZE || byte == EXTCODEHASH || byte
        == BLOCKHASH || byte == SLOAD || byte == SUICIDE {
        1
    } else if (ADD <= byte <= SIGNEXTEND) || (LT <= byte <= SAR) || byte == SHA3 || byte == MSTORE
        || byte == MSTORE8 || byte == JUMPI || byte == SSTORE || byte == RETURN || byte == REVERT {
        2
    } else if DUP1 <= byte <= DUP16 {
        (byte - DUP1 + 1) as nat
    } else if SWAP1 <= byte <= SWAP16 {
        (byte - SWAP1 + 2) as nat
    } else if LOG0 <= byte <= LOG4 {
        (byte - LOG0 + 2) as nat
    } else if byte == EXTCODECOPY || byte == CREATE2 {
        4
    } else if byte == DELEGATECALL || byte == STATICCALL {
        6
    } else if byte == CALL || byte == CALLCODE {
        7
    } else {
        0
    }
}

/// Words that the byte leaves on the stack in place of its operands.
pub open spec fn stack_outputs(byte: u8) -> nat {
    if (ADD <= byte <= SIGNEXTEND) || (LT <= byte <= SAR) || byte == SHA3 || (ADDRESS <= byte
        <= CALLDATASIZE) || byte == CODESIZE || byte == GASPRICE || byte == EXTCODESIZE || byte
        == RETURNDATASIZE || (EXTCODEHASH <= byte <= BASEFEE) || byte == MLOAD || byte == SLOAD
        || (PC <= byte <= GAS) || (PUSH1 <= byte <= PUSH32) || byte == CREATE || byte == CALL
        || byte == CALLCODE || byte == DELEGATECALL || byte == CREATE2 || byte == STATICCALL {
        1
    } else if DUP1 <= byte <= DUP16 {
        (byte - DUP1 + 2) as nat
    } else if SWAP1 <= byte <= SWAP16 {
        (byte - SWAP1 + 2) as nat
    } else {
        0
    }
}

/// The category of a byte.
pub open spec fn category_of(byte: u8) -> Category {
    if !is_internal(byte) {
        Category::External
    } else if byte == STOP || byte == RETURN || byte == REVERT || byte == INVALID {
        Category::Halt
    } else if byte <= SAR {
        Category::Arithmetic
    } else if byte == MLOAD || byte == MSTORE || byte == MSTORE8 || byte == CALLDATACOPY || byte
        == CODECOPY {
        Category::Memory
    } else if byte == JUMP || byte == JUMPI || byte == JUMPDEST {
        Category::Flow
    } else {
        Category::Stack
    }
}

impl Opcode {
    /// The byte itself.
    pub open spec fn byte(self) -> u8 {
        self.0
    }

    /// The opcode as a byte.
    #[inline]
    pub fn as_u8(&self) -> (r: u8)
        ensures
            r == self.0,
    {
        self.0
    }

    /// The opcode as an index into a table of 256 entries.
    #[inline]
    pub fn as_usize(&self) -> (r: usize)
        ensures
            r == self.0,
            r < 256,
    {
        self.0 as usize
    }

    /// The name of the opcode.
    pub fn name(&self) -> (r: &'static str)
        ensures
            r == name_of(self.0),
    {
        match self.0 {
            0x00 => "STOP",
            0x01 => "ADD",
            0x02 => "MUL",
            0x03 => "SUB",
            0x04 => "DIV",
            0x05 => "SDIV",
            0x06 => "MOD",
            0x07 => "SMOD",
            0x08 => "ADDMOD",
            0x09 => "MULMOD",
            0x0a => "EXP",
            0x0b => "SIGNEXTEND",
            0x10 => "LT",
            0x11 => "GT",
            0x12 => "SLT",
            0x13 => "SGT",
            0x14 => "EQ",
            0x15 => "ISZERO",
            0x16 => "AND",
            0x17 => "OR",
            0x18 => "XOR",
            0x19 => "NOT",
            0x1a => "BYTE",
            0x1b => "SHL",
            0x1c => "SHR",
            0x1d => "SAR",
            0x20 => "SHA3",
            0x30 => "ADDRESS",
            0x31 => "BALANCE",
            0x32 => "ORIGIN",
            0x33 => "CALLER",
            0x34 => "CALLVALUE",
            0x35 => "CALLDATALOAD",
            0x36 => "CALLDATASIZE",
            0x37 => "CALLDATACOPY",
            0x38 => "CODESIZE",
            0x39 => "CODECOPY",
            0x3a => "GASPRICE",
            0x3b => "EXTCODESIZE",
            0x3c => "EXTCODECOPY",
            0x3d => "RETURNDATASIZE",
            0x3e => "RETURNDATACOPY",
            0x3f => "EXTCODEHASH",
            0x40 => "BLOCKHASH",
            0x41 => "COINBASE",
            0x42 => "TIMESTAMP",
            0x43 => "NUMBER",
            0x44 => "DIFFICULTY",
            0x45 => "GASLIMIT",
            0x46 => "CHAINID",
            0x47 => "SELFBALANCE",
            0x48 => "BASEFEE",
            0x50 => "POP",
            0x51 => "MLOAD",
            0x52 => "MSTORE",
            0x53 => "MSTORE8",
            0x54 => "SLOAD",
            0x55 => "SSTORE",
            0x56 => "JUMP",
            0x57 => "JUMPI",
            0x58 => "PC",
            0x59 => "MSIZE",
            0x5a => "GAS",
            0x5b => "JUMPDEST",
            0x60 => "PUSH1",
            0x61 => "PUSH2",
            0x62 => "PUSH3",
            0x63 => "PUSH4",
            0x64 => "PUSH5",
            0x65 => "PUSH6",
            0x66 => "PUSH7",
            0x67 => "PUSH8",
            0x68 => "PUSH9",
            0x69 => "PUSH10",
            0x6a => "PUSH11",
            0x6b => "PUSH12",
            0x6c => "PUSH13",
            0x6d => "PUSH14",
            0x6e => "PUSH15",
            0x6f => "PUSH16",
            0x70 => "PUSH17",
            0x71 => "PUSH18",
            0x72 => "PUSH19",
            0x73 => "PUSH20",
            0x74 => "PUSH21",
            0x75 => "PUSH22",
            0x76 => "PUSH23",
            0x77 => "PUSH24",
            0x78 => "PUSH25",
            0x79 => "PUSH26",
            0x7a => "PUSH27",
            0x7b => "PUSH28",
            0x7c => "PUSH29",
            0x7d => "PUSH30",
            0x7e => "PUSH31",
            0x7f => "PUSH32",
            0x80 => "DUP1",
            0x81 => "DUP2",
            0x82 => "DUP3",
            0x83 => "DUP4",
            0x84 => "DUP5",
            0x85 => "DUP6",
            0x86 => "DUP7",
            0x87 => "DUP8",
            0x88 => "DUP9",
            0x89 => "DUP10",
            0x8a => "DUP11",
            0x8b => "DUP12",
            0x8c => "DUP13",
            0x8d => "DUP14",
            0x8e => "DUP15",
            0x8f => "DUP16",
            0x90 => "SWAP1",
            0x91 => "SWAP2",
            0x92 => "SWAP3",
            0x93 => "SWAP4",
            0x94 => "SWAP5",
            0x95 => "SWAP6",
            0x96 => "SWAP7",
            0x97 => "SWAP8",
            0x98 => "SWAP9",
            0x99 => "SWAP10",
            0x9a => "SWAP11",
            0x9b => "SWAP12",
            0x9c => "SWAP13",
            0x9d => "SWAP14",
            0x9e => "SWAP15",
            0x9f => "SWAP16",
            0xa0 => "LOG0",
            0xa1 => "LOG1",
            0xa2 => "LOG2",
            0xa3 => "LOG3",
            0xa4 => "LOG4",
            0xf0 => "CREATE",
            0xf1 => "CALL",
            0xf2 => "CALLCODE",
            0xf3 => "RETURN",
            0xf4 => "DELEGATECALL",
            0xf5 => "CREATE2",
            0xfa => "STATICCALL",
            0xfd => "REVERT",
            0xfe => "INVALID",
            0xff => "SELFDESTRUCT",
            _ => "UNKNOWN",
        }
    }

    /// For `PUSHk` the number `k` of immediate bytes, for every other opcode nothing.
    pub fn is_push(&self) -> (r: Option<u8>)
        ensures
            match r {
                Some(k) => k == push_width(self.0) && 1 <= k <= 32,
                None => push_width(self.0) == 0,
            },
    {
        if PUSH1 <= self.0 && self.0 <= PUSH32 {
            Some(self.0 - PUSH1 + 1)
        } else {
            None
        }
    }

    /// Whether the interpreter traps on this opcode and leaves it to the host.
    pub fn is_external(&self) -> (r: bool)
        ensures
            r == !is_internal(self.0),
    {
        let b = self.0;
        !(b <= SIGNEXTEND || (LT <= b && b <= SAR) || (CALLDATALOAD <= b && b <= CODECOPY) || (POP
            <= b && b <= MSTORE8) || (JUMP <= b && b <= MSIZE) || b == JUMPDEST || (PUSH1 <= b && b
            <= SWAP16) || b == RETURN || b == REVERT || b == INVALID)
    }

    /// Operands taken from the stack and words left on it.
    pub fn stack_arity(&self) -> (r: (u8, u8))
        ensures
            r.0 == stack_inputs(self.0),
            r.1 == stack_outputs(self.0),
    {
        let b = self.0;
        let inputs: u8 = if b == ADDMOD || b == MULMOD || b == CALLDATACOPY || b == CODECOPY || b
            == RETURNDATACOPY || b == CREATE {
            3
        } else if b == ISZERO || b == NOT || b == CALLDATALOAD || b == POP || b == MLOAD || b
            == JUMP || b == BALANCE || b == EXTCODESIZE || b == EXTCODEHASH || b == BLOCKHASH || b
            == SLOAD || b == SUICIDE {
            1
        } else if (ADD <= b && b <= SIGNEXTEND) || (LT <= b && b <= SAR) || b == SHA3 || b
            == MSTORE || b == MSTORE8 || b == JUMPI || b == SSTORE || b == RETURN || b == REVERT {
            2
        } else if DUP1 <= b && b <= DUP16 {
            b - DUP1 + 1
        } else if SWAP1 <= b && b <= SWAP16 {
            b - SWAP1 + 2
        } else if LOG0 <= b && b <= LOG4 {
            b - LOG0 + 2
        } else if b == EXTCODECOPY || b == CREATE2 {
            4
        } else if b == DELEGATECALL || b == STATICCALL {
            6
        } else if b == CALL || b == CALLCODE {
            7
        } else {
            0
        };
        let outputs: u8 = if (ADD <= b && b <= SIGNEXTEND) || (LT <= b && b <= SAR) || b == SHA3
            || (ADDRESS <= b && b <= CALLDATASIZE) || b == CODESIZE || b == GASPRICE || b
            == EXTCODESIZE || b == RETURNDATASIZE || (EXTCODEHASH <= b && b <= BASEFEE) || b
            == MLOAD || b == SLOAD || (PC <= b && b <= GAS) || (PUSH1 <= b && b <= PUSH32) || b
            == CREATE || b == CALL || b == CALLCODE || b == DELEGATECALL || b == CREATE2 || b
            == STATICCALL {
            1
        } else if DUP1 <= b && b <= DUP16 {
            b - DUP1 + 2
        } else if SWAP1 <= b && b <= SWAP16 {
            b - SWAP1 + 2
        } else {
            0
        };
        (inputs, outputs)
    }

    /// The category of the opcode.
    pub fn category(&self) -> (r: Category)
        ensures
            r == category_of(self.0),
    {
        let b = self.0;
        if self.is_external() {
            Category::External
        } else if b == STOP || b == RETURN || b == REVERT || b == INVALID {
            Category::Halt
        } else if b <= SAR {
            Category::Arithmetic
        } else if b == MLOAD || b == MSTORE || b == MSTORE8 || b == CALLDATACOPY || b == CODECOPY {
            Category::Memory
        } else if b == JUMP || b == JUMPI || b == JUMPDEST {
            Category::Flow
        } else {
            Category::Stack
        }
    }
}

} // verus!
