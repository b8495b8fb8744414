//! The serial interface.

use vstd::prelude::*;

verus! {

/// Number of memory-mapped serial interface registers.
pub const NUM_SI_REGISTERS: usize = 7;

/// The serial interface registers.
#[derive(Clone, Copy, Debug, PartialEq, Eq, Structural)]
pub enum si_register {
    SI_DRAM_ADDR_REG,
    SI_PIF_ADDR_RD64B_REG,
    SI_RESERVED_1_REG,
    SI_RESERVED_2_REG,
    SI_PIF_ADDR_WR64B_REG,
    SI_RESERVED_3_REG,
    SI_STATUS_REG,
    NUM_SI_REGISTERS,
}

/// The slot of each register in the register file; the last name stands for
/// the number of registers.
pub open spec fn si_register_index(r: si_register) -> int {
    match r {
        si_register::SI_DRAM_ADDR_REG => 0,
        si_register::SI_PIF_ADDR_RD64B_REG => 1,
        si_register::SI_RESERVED_1_REG => 2,
        si_register::SI_RESERVED_2_REG => 3,
        si_register::SI_PIF_ADDR_WR64B_REG => 4,
        si_register::SI_RESERVED_3_REG => 5,
        si_register::SI_STATUS_REG => 6,
        si_register::NUM_SI_REGISTERS => 7,
    }
}

impl si_register {
    /// The register's slot in the register file.
    pub fn index(self) -> (r: usize)
        ensures
            r == si_register_index(self),
            self != si_register::NUM_SI_REGISTERS ==> r < NUM_SI_REGISTERS,
            self == si_register::NUM_SI_REGISTERS ==> r == NUM_SI_REGISTERS,
    {
        match self {
            si_register::SI_DRAM_ADDR_REG => 0,
            si_register::SI_PIF_ADDR_RD64B_REG => 1,
            si_register::SI_RESERVED_1_REG => 2,
            si_register::SI_RESERVED_2_REG => 3,
            si_register::SI_PIF_ADDR_WR64B_REG => 4,
            si_register::SI_RESERVED_3_REG => 5,
            si_register::SI_STATUS_REG => 6,
            si_register::NUM_SI_REGISTERS => 7,
        }
    }
}

/// Distinct registers have distinct slots.
pub proof fn lemma_si_register_slots_distinct(a: si_register, b: si_register)
    requires
        si_register_index(a) == si_register_index(b),
    ensures
        a == b,
{
}
/// The serial interface registers in the order the hardware numbers them.
pub open spec fn si_register_order() -> Seq<si_register> {
    seq![
        si_register::SI_DRAM_ADDR_REG,
        si_register::SI_PIF_ADDR_RD64B_REG,
        si_register::SI_RESERVED_1_REG,
        si_register::SI_RESERVED_2_REG,
        si_register::SI_PIF_ADDR_WR64B_REG,
        si_register::SI_RESERVED_3_REG,
        si_register::SI_STATUS_REG,
        si_register::NUM_SI_REGISTERS,
    ]
}

/// Each serial interface register is numbered by its position in the hardware's order, and
/// that order holds each of them.
pub proof fn lemma_si_register_numbered_in_order(r: si_register)
    ensures
        si_register_order().len() == 8,
        forall|i: int| 0 <= i < 8 ==> #[trigger] si_register_index(si_register_order()[i]) == i,
        si_register_order()[si_register_index(r)] == r,
{
}

} // verus!
