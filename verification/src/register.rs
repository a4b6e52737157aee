//! The register file: 8 general-purpose slots, the program counter, and the
//! condition-code slot, stored as a `Vec<u16>` of length `Reg::COUNT` and
//! addressed through the named slots below.

use vstd::prelude::*;

verus! {

/// Names for the slots of the register file. `R0`..`R7` are the
/// general-purpose registers, `PC` the program counter, `COND` the
/// condition-code register; `COUNT` is the number of slots.
#[derive(Clone, Copy, Debug, PartialEq, Eq)]
pub enum Reg {
    R0,
    R1,
    R2,
    R3,
    R4,
    R5,
    R6,
    R7,
    PC,
    COND,
    COUNT,
}

impl Reg {
    /// The position of this slot within the register file.
    pub open spec fn position(self) -> int {
        match self {
            Reg::R0 => 0,
            Reg::R1 => 1,
            Reg::R2 => 2,
            Reg::R3 => 3,
            Reg::R4 => 4,
            Reg::R5 => 5,
            Reg::R6 => 6,
            Reg::R7 => 7,
            Reg::PC => 8,
            Reg::COND => 9,
            Reg::COUNT => 10,
        }
    }

    pub fn idx(self) -> (r: usize)
        ensures
            r == self.position(),
    {
        match self {
            Reg::R0 => 0,
            Reg::R1 => 1,
            Reg::R2 => 2,
            Reg::R3 => 3,
            Reg::R4 => 4,
            Reg::R5 => 5,
            Reg::R6 => 6,
            Reg::R7 => 7,
            Reg::PC => 8,
            Reg::COND => 9,
            Reg::COUNT => 10,
        }
    }
}

/// Number of slots in the register file.
pub const NUM_REGS: usize = 10;

/// Index of the program counter within the register file.
pub const PC_IDX: usize = 8;

/// Index of the condition-code register within the register file.
pub const COND_IDX: usize = 9;

} // verus!
