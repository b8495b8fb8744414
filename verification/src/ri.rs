//! The RDRAM interface.

use vstd::prelude::*;

verus! {

/// Size of RDRAM: 8 MiB.
pub const MAX_RDRAM_SIZE: usize = 0x800000;

/// The mask that keeps an address within RDRAM.
pub const MAX_RDRAM_SIZE_MASK: usize = MAX_RDRAM_SIZE - 1;

/// Number of RDRAM configuration registers.
pub const NUM_RDRAM_REGISTERS: usize = 9;

/// Number of RDRAM interface registers.
pub const NUM_RI_REGISTERS: usize = 8;

/// The RDRAM configuration registers.
#[derive(Clone, Copy, Debug, PartialEq, Eq, Structural)]
pub enum rdram_register {
    RDRAM_CONFIG_REG,
    RDRAM_DEVICE_ID_REG,
    RDRAM_DELAY_REG,
    RDRAM_MODE_REG,
    RDRAM_REF_INTERVAL_REG,
    RDRAM_REF_ROW_REG,
    RDRAM_RAS_INTERVAL_REG,
    RDRAM_MIN_INTERVAL_REG,
    RDRAM_ADDR_SELECT_REG,
    NUM_RDRAM_REGISTERS,
}

/// The slot of each register in the register file; the last name stands for
/// the number of registers.
pub open spec fn rdram_register_index(r: rdram_register) -> int {
    match r {
        rdram_register::RDRAM_CONFIG_REG => 0,
        rdram_register::RDRAM_DEVICE_ID_REG => 1,
        rdram_register::RDRAM_DELAY_REG => 2,
        rdram_register::RDRAM_MODE_REG => 3,
        rdram_register::RDRAM_REF_INTERVAL_REG => 4,
        rdram_register::RDRAM_REF_ROW_REG => 5,
        rdram_register::RDRAM_RAS_INTERVAL_REG => 6,
        rdram_register::RDRAM_MIN_INTERVAL_REG => 7,
        rdram_register::RDRAM_ADDR_SELECT_REG => 8,
        rdram_register::NUM_RDRAM_REGISTERS => 9,
    }
}

impl rdram_register {
    /// The register's slot in the register file.
    pub fn index(self) -> (r: usize)
        ensures
            r == rdram_register_index(self),
            self != rdram_register::NUM_RDRAM_REGISTERS ==> r < NUM_RDRAM_REGISTERS,
            self == rdram_register::NUM_RDRAM_REGISTERS ==> r == NUM_RDRAM_REGISTERS,
    {
        match self {
            rdram_register::RDRAM_CONFIG_REG => 0,
            rdram_register::RDRAM_DEVICE_ID_REG => 1,
            rdram_register::RDRAM_DELAY_REG => 2,
            rdram_register::RDRAM_MODE_REG => 3,
            rdram_register::RDRAM_REF_INTERVAL_REG => 4,
            rdram_register::RDRAM_REF_ROW_REG => 5,
            rdram_register::RDRAM_RAS_INTERVAL_REG => 6,
            rdram_register::RDRAM_MIN_INTERVAL_REG => 7,
            rdram_register::RDRAM_ADDR_SELECT_REG => 8,
            rdram_register::NUM_RDRAM_REGISTERS => 9,
        }
    }
}

/// Distinct registers have distinct slots.
pub proof fn lemma_rdram_register_slots_distinct(a: rdram_register, b: rdram_register)
    requires
        rdram_register_index(a) == rdram_register_index(b),
    ensures
        a == b,
{
}
/// The RDRAM interface registers.
#[derive(Clone, Copy, Debug, PartialEq, Eq, Structural)]
pub enum ri_register {
    RI_MODE_REG,
    RI_CONFIG_REG,
    RI_CURRENT_LOAD_REG,
    RI_SELECT_REG,
    RI_REFRESH_REG,
    RI_LATENCY_REG,
    RI_RERROR_REG,
    RI_WERROR_REG,
    NUM_RI_REGISTERS,
}

/// The slot of each register in the register file; the last name stands for
/// the number of registers.
pub open spec fn ri_register_index(r: ri_register) -> int {
    match r {
        ri_register::RI_MODE_REG => 0,
        ri_register::RI_CONFIG_REG => 1,
        ri_register::RI_CURRENT_LOAD_REG => 2,
        ri_register::RI_SELECT_REG => 3,
        ri_register::RI_REFRESH_REG => 4,
        ri_register::RI_LATENCY_REG => 5,
        ri_register::RI_RERROR_REG => 6,
        ri_register::RI_WERROR_REG => 7,
        ri_register::NUM_RI_REGISTERS => 8,
    }
}

impl ri_register {
    /// The register's slot in the register file.
    pub fn index(self) -> (r: usize)
        ensures
            r == ri_register_index(self),
            self != ri_register::NUM_RI_REGISTERS ==> r < NUM_RI_REGISTERS,
            self == ri_register::NUM_RI_REGISTERS ==> r == NUM_RI_REGISTERS,
    {
        match self {
            ri_register::RI_MODE_REG => 0,
            ri_register::RI_CONFIG_REG => 1,
            ri_register::RI_CURRENT_LOAD_REG => 2,
            ri_register::RI_SELECT_REG => 3,
            ri_register::RI_REFRESH_REG => 4,
            ri_register::RI_LATENCY_REG => 5,
            ri_register::RI_RERROR_REG => 6,
            ri_register::RI_WERROR_REG => 7,
            ri_register::NUM_RI_REGISTERS => 8,
        }
    }
}

/// Distinct registers have distinct slots.
pub proof fn lemma_ri_register_slots_distinct(a: ri_register, b: ri_register)
    requires
        ri_register_index(a) == ri_register_index(b),
    ensures
        a == b,
{
}
/// The RDRAM mask is one less than the RDRAM size, a power of two: masking an
/// address with it gives the address's offset within RDRAM.
pub proof fn lemma_rdram_mask_wraps(addr: usize)
    ensures
        MAX_RDRAM_SIZE_MASK == MAX_RDRAM_SIZE - 1,
        addr & MAX_RDRAM_SIZE_MASK == addr % MAX_RDRAM_SIZE,
        addr & MAX_RDRAM_SIZE_MASK < MAX_RDRAM_SIZE,
{
    assert(addr & 0x7FFFFFusize == addr % 0x800000usize) by (bit_vector);
}

/// The RDRAM configuration registers in the order the hardware numbers them.
pub open spec fn rdram_register_order() -> Seq<rdram_register> {
    seq![
        rdram_register::RDRAM_CONFIG_REG,
        rdram_register::RDRAM_DEVICE_ID_REG,
        rdram_register::RDRAM_DELAY_REG,
        rdram_register::RDRAM_MODE_REG,
        rdram_register::RDRAM_REF_INTERVAL_REG,
        rdram_register::RDRAM_REF_ROW_REG,
        rdram_register::RDRAM_RAS_INTERVAL_REG,
        rdram_register::RDRAM_MIN_INTERVAL_REG,
        rdram_register::RDRAM_ADDR_SELECT_REG,
        rdram_register::NUM_RDRAM_REGISTERS,
    ]
}

/// Each RDRAM configuration register is numbered by its position in the hardware's order, and
/// that order holds each of them.
pub proof fn lemma_rdram_register_numbered_in_order(r: rdram_register)
    ensures
        rdram_register_order().len() == 10,
        forall|i: int| 0 <= i < 10 ==> #[trigger] rdram_register_index(rdram_register_order()[i]) == i,
        rdram_register_order()[rdram_register_index(r)] == r,
{
}

/// The RDRAM interface registers in the order the hardware numbers them.
pub open spec fn ri_register_order() -> Seq<ri_register> {
    seq![
        ri_register::RI_MODE_REG,
        ri_register::RI_CONFIG_REG,
        ri_register::RI_CURRENT_LOAD_REG,
        ri_register::RI_SELECT_REG,
        ri_register::RI_REFRESH_REG,
        ri_register::RI_LATENCY_REG,
        ri_register::RI_RERROR_REG,
        ri_register::RI_WERROR_REG,
        ri_register::NUM_RI_REGISTERS,
    ]
}

/// Each RDRAM interface register is numbered by its position in the hardware's order, and
/// that order holds each of them.
pub proof fn lemma_ri_register_numbered_in_order(r: ri_register)
    ensures
        ri_register_order().len() == 9,
        forall|i: int| 0 <= i < 9 ==> #[trigger] ri_register_index(ri_register_order()[i]) == i,
        ri_register_order()[ri_register_index(r)] == r,
{
}

} // verus!
