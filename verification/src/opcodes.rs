//! The sixteen opcodes, selected by the top 4 bits of an instruction.

use vstd::prelude::*;

verus! {

#[allow(non_camel_case_types)]
#[derive(Clone, Copy, Debug, PartialEq, Eq)]
pub enum OpCodes {
    OP_BR,
    OP_ADD,
    OP_LD,
    OP_ST,
    OP_JSR,
    OP_AND,
    OP_LDR,
    OP_STR,
    OP_RTI,
    OP_NOT,
    OP_LDI,
    OP_STI,
    OP_JMP,
    OP_RES,
    OP_LEA,
    OP_TRAP,
}

impl OpCodes {
    /// The 4-bit encoding of this opcode.
    pub open spec fn code(self) -> u16 {
        match self {
            OpCodes::OP_BR => 0,
            OpCodes::OP_ADD => 1,
            OpCodes::OP_LD => 2,
            OpCodes::OP_ST => 3,
            OpCodes::OP_JSR => 4,
            OpCodes::OP_AND => 5,
            OpCodes::OP_LDR => 6,
            OpCodes::OP_STR => 7,
            OpCodes::OP_RTI => 8,
            OpCodes::OP_NOT => 9,
            OpCodes::OP_LDI => 10,
            OpCodes::OP_STI => 11,
            OpCodes::OP_JMP => 12,
            OpCodes::OP_RES => 13,
            OpCodes::OP_LEA => 14,
            OpCodes::OP_TRAP => 15,
        }
    }

    pub fn as_u16(self) -> (r: u16)
        ensures
            r == self.code(),
    {
        match self {
            OpCodes::OP_BR => 0,
            OpCodes::OP_ADD => 1,
            OpCodes::OP_LD => 2,
            OpCodes::OP_ST => 3,
            OpCodes::OP_JSR => 4,
            OpCodes::OP_AND => 5,
            OpCodes::OP_LDR => 6,
            OpCodes::OP_STR => 7,
            OpCodes::OP_RTI => 8,
            OpCodes::OP_NOT => 9,
            OpCodes::OP_LDI => 10,
            OpCodes::OP_STI => 11,
            OpCodes::OP_JMP => 12,
            OpCodes::OP_RES => 13,
            OpCodes::OP_LEA => 14,
            OpCodes::OP_TRAP => 15,
        }
    }

    /// Decode the top 4 bits of an instruction. Every 4-bit value names an
    /// opcode; `None` can only come from a code outside that range.
    pub fn from_u16(c: u16) -> (r: Option<OpCodes>)
        ensures
            c <= 15 ==> (r matches Some(op) && op.code() == c),
            c > 15 ==> r is None,
    {
        match c {
            0 => Some(OpCodes::OP_BR),
            1 => Some(OpCodes::OP_ADD),
            2 => Some(OpCodes::OP_LD),
            3 => Some(OpCodes::OP_ST),
            4 => Some(OpCodes::OP_JSR),
            5 => Some(OpCodes::OP_AND),
            6 => Some(OpCodes::OP_LDR),
            7 => Some(OpCodes::OP_STR),
            8 => Some(OpCodes::OP_RTI),
            9 => Some(OpCodes::OP_NOT),
            10 => Some(OpCodes::OP_LDI),
            11 => Some(OpCodes::OP_STI),
            12 => Some(OpCodes::OP_JMP),
            13 => Some(OpCodes::OP_RES),
            14 => Some(OpCodes::OP_LEA),
            15 => Some(OpCodes::OP_TRAP),
            _ => None,
        }
    }
}

} // verus!
