//! The audio interface.

use vstd::prelude::*;

verus! {

/// Number of memory-mapped audio interface registers.
pub const NUM_AI_REGISTERS: usize = 6;

/// The audio interface registers.
#[derive(Clone, Copy, Debug, PartialEq, Eq, Structural)]
pub enum ai_register {
    AI_DRAM_ADDR_REG,
    AI_LEN_REG,
    AI_CONTROL_REG,
    AI_STATUS_REG,
    AI_DACRATE_REG,
    AI_BITRATE_REG,
    NUM_AI_REGISTERS,
}

/// The slot of each register in the register file; the last name stands for
/// the number of registers.
pub open spec fn ai_register_index(r: ai_register) -> int {
    match r {
        ai_register::AI_DRAM_ADDR_REG => 0,
        ai_register::AI_LEN_REG => 1,
        ai_register::AI_CONTROL_REG => 2,
        ai_register::AI_STATUS_REG => 3,
        ai_register::AI_DACRATE_REG => 4,
        ai_register::AI_BITRATE_REG => 5,
        ai_register::NUM_AI_REGISTERS => 6,
    }
}

impl ai_register {
    /// The register's slot in the register file.
    pub fn index(self) -> (r: usize)
        ensures
            r == ai_register_index(self),
            self != ai_register::NUM_AI_REGISTERS ==> r < NUM_AI_REGISTERS,
            self == ai_register::NUM_AI_REGISTERS ==> r == NUM_AI_REGISTERS,
    {
        match self {
            ai_register::AI_DRAM_ADDR_REG => 0,
            ai_register::AI_LEN_REG => 1,
            ai_register::AI_CONTROL_REG => 2,
            ai_register::AI_STATUS_REG => 3,
            ai_register::AI_DACRATE_REG => 4,
            ai_register::AI_BITRATE_REG => 5,
            ai_register::NUM_AI_REGISTERS => 6,
        }
    }
}

/// Distinct registers have distinct slots.
pub proof fn lemma_ai_register_slots_distinct(a: ai_register, b: ai_register)
    requires
        ai_register_index(a) == ai_register_index(b),
    ensures
        a == b,
{
}

/// A buffer queued in the audio interface's two-slot FIFO: where it starts in
/// RDRAM and how many bytes it holds.
#[derive(Clone, Copy, Debug, PartialEq, Eq, Structural)]
pub struct ai_fifo_entry {
    pub address: u32,
    pub length: u32,
}

/// The audio interface registers in the order the hardware numbers them.
pub open spec fn ai_register_order() -> Seq<ai_register> {
    seq![
        ai_register::AI_DRAM_ADDR_REG,
        ai_register::AI_LEN_REG,
        ai_register::AI_CONTROL_REG,
        ai_register::AI_STATUS_REG,
        ai_register::AI_DACRATE_REG,
        ai_register::AI_BITRATE_REG,
        ai_register::NUM_AI_REGISTERS,
    ]
}

/// Each audio interface register is numbered by its position in the hardware's order, and
/// that order holds each of them.
pub proof fn lemma_ai_register_numbered_in_order(r: ai_register)
    ensures
        ai_register_order().len() == 7,
        forall|i: int| 0 <= i < 7 ==> #[trigger] ai_register_index(ai_register_order()[i]) == i,
        ai_register_order()[ai_register_index(r)] == r,
{
}

} // verus!
