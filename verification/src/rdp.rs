//! The display processor.

use vstd::prelude::*;

verus! {

/// Number of memory-mapped display processor registers.
pub const NUM_DP_REGISTERS: usize = 8;

/// The display processor command registers.
#[derive(Clone, Copy, Debug, PartialEq, Eq, Structural)]
pub enum dp_register {
    DPC_START_REG,
    DPC_END_REG,
    DPC_CURRENT_REG,
    DPC_STATUS_REG,
    DPC_CLOCK_REG,
    DPC_BUFBUSY_REG,
    DPC_PIPEBUSY_REG,
    DPC_TMEM_REG,
    NUM_DP_REGISTERS,
}

/// The slot of each register in the register file; the last name stands for
/// the number of registers.
pub open spec fn dp_register_index(r: dp_register) -> int {
    match r {
        dp_register::DPC_START_REG => 0,
        dp_register::DPC_END_REG => 1,
        dp_register::DPC_CURRENT_REG => 2,
        dp_register::DPC_STATUS_REG => 3,
        dp_register::DPC_CLOCK_REG => 4,
        dp_register::DPC_BUFBUSY_REG => 5,
        dp_register::DPC_PIPEBUSY_REG => 6,
        dp_register::DPC_TMEM_REG => 7,
        dp_register::NUM_DP_REGISTERS => 8,
    }
}

impl dp_register {
    /// The register's slot in the register file.
    pub fn index(self) -> (r: usize)
        ensures
            r == dp_register_index(self),
            self != dp_register::NUM_DP_REGISTERS ==> r < NUM_DP_REGISTERS,
            self == dp_register::NUM_DP_REGISTERS ==> r == NUM_DP_REGISTERS,
    {
        match self {
            dp_register::DPC_START_REG => 0,
            dp_register::DPC_END_REG => 1,
            dp_register::DPC_CURRENT_REG => 2,
            dp_register::DPC_STATUS_REG => 3,
            dp_register::DPC_CLOCK_REG => 4,
            dp_register::DPC_BUFBUSY_REG => 5,
            dp_register::DPC_PIPEBUSY_REG => 6,
            dp_register::DPC_TMEM_REG => 7,
            dp_register::NUM_DP_REGISTERS => 8,
        }
    }
}

/// Distinct registers have distinct slots.
pub proof fn lemma_dp_register_slots_distinct(a: dp_register, b: dp_register)
    requires
        dp_register_index(a) == dp_register_index(b),
    ensures
        a == b,
{
}
/// Bits of the display processor's status register.
pub const DP_STATUS_XBUS_DMA: u32 = 0x001;
pub const DP_STATUS_FREEZE: u32 = 0x002;
pub const DP_STATUS_FLUSH: u32 = 0x004;
pub const DP_STATUS_START_GCLK: u32 = 0x008;
pub const DP_STATUS_TMEM_BUSY: u32 = 0x010;
pub const DP_STATUS_PIPE_BUSY: u32 = 0x020;
pub const DP_STATUS_CMD_BUSY: u32 = 0x040;
pub const DP_STATUS_CBUF_READY: u32 = 0x080;
pub const DP_STATUS_DMA_BUSY: u32 = 0x100;
pub const DP_STATUS_END_VALID: u32 = 0x200;
pub const DP_STATUS_START_VALID: u32 = 0x400;

/// The display processor registers in the order the hardware numbers them.
pub open spec fn dp_register_order() -> Seq<dp_register> {
    seq![
        dp_register::DPC_START_REG,
        dp_register::DPC_END_REG,
        dp_register::DPC_CURRENT_REG,
        dp_register::DPC_STATUS_REG,
        dp_register::DPC_CLOCK_REG,
        dp_register::DPC_BUFBUSY_REG,
        dp_register::DPC_PIPEBUSY_REG,
        dp_register::DPC_TMEM_REG,
        dp_register::NUM_DP_REGISTERS,
    ]
}

/// Each display processor register is numbered by its position in the hardware's order, and
/// that order holds each of them.
pub proof fn lemma_dp_register_numbered_in_order(r: dp_register)
    ensures
        dp_register_order().len() == 9,
        forall|i: int| 0 <= i < 9 ==> #[trigger] dp_register_index(dp_register_order()[i]) == i,
        dp_register_order()[dp_register_index(r)] == r,
{
}

} // verus!
