//! The parallel interface: cartridge bus registers, status bits and FlashRAM.

use vstd::prelude::*;

verus! {

/// Where the IS-Viewer 64 debugging device sits in the physical address map.
pub const IS_VIEWER_BASE_ADDRESS: u32 = 0x13FF_0000;

/// Size of the IS-Viewer 64's address window.
pub const IS_VIEWER_ADDRESS_LEN: u32 = 0x0000_1000;

/// Size of a FlashRAM save: 1 mbit.
pub const FLASHRAM_SIZE: u32 = 0x20000;

/// Number of memory-mapped parallel interface registers.
pub const NUM_PI_REGISTERS: usize = 13;

/// The parallel interface registers.
#[derive(Clone, Copy, Debug, PartialEq, Eq, Structural)]
pub enum pi_register {
    PI_DRAM_ADDR_REG,
    PI_CART_ADDR_REG,
    PI_RD_LEN_REG,
    PI_WR_LEN_REG,
    PI_STATUS_REG,
    PI_BSD_DOM1_LAT_REG,
    PI_BSD_DOM1_PWD_REG,
    PI_BSD_DOM1_PGS_REG,
    PI_BSD_DOM1_RLS_REG,
    PI_BSD_DOM2_LAT_REG,
    PI_BSD_DOM2_PWD_REG,
    PI_BSD_DOM2_PGS_REG,
    PI_BSD_DOM2_RLS_REG,
    NUM_PI_REGISTERS,
}

/// The slot of each register in the register file; the last name stands for
/// the number of registers.
pub open spec fn pi_register_index(r: pi_register) -> int {
    match r {
        pi_register::PI_DRAM_ADDR_REG => 0,
        pi_register::PI_CART_ADDR_REG => 1,
        pi_register::PI_RD_LEN_REG => 2,
        pi_register::PI_WR_LEN_REG => 3,
        pi_register::PI_STATUS_REG => 4,
        pi_register::PI_BSD_DOM1_LAT_REG => 5,
        pi_register::PI_BSD_DOM1_PWD_REG => 6,
        pi_register::PI_BSD_DOM1_PGS_REG => 7,
        pi_register::PI_BSD_DOM1_RLS_REG => 8,
        pi_register::PI_BSD_DOM2_LAT_REG => 9,
        pi_register::PI_BSD_DOM2_PWD_REG => 10,
        pi_register::PI_BSD_DOM2_PGS_REG => 11,
        pi_register::PI_BSD_DOM2_RLS_REG => 12,
        pi_register::NUM_PI_REGISTERS => 13,
    }
}

impl pi_register {
    /// The register's slot in the register file.
    pub fn index(self) -> (r: usize)
        ensures
            r == pi_register_index(self),
            self != pi_register::NUM_PI_REGISTERS ==> r < NUM_PI_REGISTERS,
            self == pi_register::NUM_PI_REGISTERS ==> r == NUM_PI_REGISTERS,
    {
        match self {
            pi_register::PI_DRAM_ADDR_REG => 0,
            pi_register::PI_CART_ADDR_REG => 1,
            pi_register::PI_RD_LEN_REG => 2,
            pi_register::PI_WR_LEN_REG => 3,
            pi_register::PI_STATUS_REG => 4,
            pi_register::PI_BSD_DOM1_LAT_REG => 5,
            pi_register::PI_BSD_DOM1_PWD_REG => 6,
            pi_register::PI_BSD_DOM1_PGS_REG => 7,
            pi_register::PI_BSD_DOM1_RLS_REG => 8,
            pi_register::PI_BSD_DOM2_LAT_REG => 9,
            pi_register::PI_BSD_DOM2_PWD_REG => 10,
            pi_register::PI_BSD_DOM2_PGS_REG => 11,
            pi_register::PI_BSD_DOM2_RLS_REG => 12,
            pi_register::NUM_PI_REGISTERS => 13,
        }
    }
}

/// Distinct registers have distinct slots.
pub proof fn lemma_pi_register_slots_distinct(a: pi_register, b: pi_register)
    requires
        pi_register_index(a) == pi_register_index(b),
    ensures
        a == b,
{
}
/// Bits of the parallel interface status register.
#[derive(Clone, Copy, Debug, PartialEq, Eq, Structural)]
pub enum pi_status {
    PI_STATUS_DMA_BUSY,
    PI_STATUS_IO_BUSY,
    PI_STATUS_ERROR,
    PI_STATUS_INTERRUPT,
}

/// The bit of the status register that each status occupies: bits 0 to 3.
pub open spec fn pi_status_mask(v: pi_status) -> u32 {
    match v {
        pi_status::PI_STATUS_DMA_BUSY => 0x1u32,
        pi_status::PI_STATUS_IO_BUSY => 0x2u32,
        pi_status::PI_STATUS_ERROR => 0x4u32,
        pi_status::PI_STATUS_INTERRUPT => 0x8u32,
    }
}

impl pi_status {
    /// The bit of the status register that each status occupies: bits 0 to 3.
    pub fn mask(self) -> (r: u32)
        ensures
            r == pi_status_mask(self),
    {
        match self {
            pi_status::PI_STATUS_DMA_BUSY => 0x1u32,
            pi_status::PI_STATUS_IO_BUSY => 0x2u32,
            pi_status::PI_STATUS_ERROR => 0x4u32,
            pi_status::PI_STATUS_INTERRUPT => 0x8u32,
        }
    }
}
/// Each status occupies a bit of its own.
pub proof fn lemma_pi_status_bits_disjoint(a: pi_status, b: pi_status)
    requires
        a != b,
    ensures
        pi_status_mask(a) & pi_status_mask(b) == 0,
{
    assert(0x1u32 & 0x2u32 == 0) by (bit_vector);
    assert(0x1u32 & 0x4u32 == 0) by (bit_vector);
    assert(0x1u32 & 0x8u32 == 0) by (bit_vector);
    assert(0x2u32 & 0x1u32 == 0) by (bit_vector);
    assert(0x2u32 & 0x4u32 == 0) by (bit_vector);
    assert(0x2u32 & 0x8u32 == 0) by (bit_vector);
    assert(0x4u32 & 0x1u32 == 0) by (bit_vector);
    assert(0x4u32 & 0x2u32 == 0) by (bit_vector);
    assert(0x4u32 & 0x8u32 == 0) by (bit_vector);
    assert(0x8u32 & 0x1u32 == 0) by (bit_vector);
    assert(0x8u32 & 0x2u32 == 0) by (bit_vector);
    assert(0x8u32 & 0x4u32 == 0) by (bit_vector);
}

/// What a FlashRAM is doing.
#[derive(Clone, Copy, Debug, PartialEq, Eq, Structural)]
pub enum flashram_mode {
    FLASHRAM_IDLE,
    FLASHRAM_ERASE,
    FLASHRAM_WRITE,
    FLASHRAM_READ,
    FLASHRAM_STATUS,
}

/// The number the C core gives each mode.
pub open spec fn flashram_mode_code(v: flashram_mode) -> i32 {
    match v {
        flashram_mode::FLASHRAM_IDLE => 0i32,
        flashram_mode::FLASHRAM_ERASE => 1i32,
        flashram_mode::FLASHRAM_WRITE => 2i32,
        flashram_mode::FLASHRAM_READ => 3i32,
        flashram_mode::FLASHRAM_STATUS => 4i32,
    }
}

impl flashram_mode {
    /// The number the C core gives each mode.
    pub fn code(self) -> (r: i32)
        ensures
            r == flashram_mode_code(self),
    {
        match self {
            flashram_mode::FLASHRAM_IDLE => 0i32,
            flashram_mode::FLASHRAM_ERASE => 1i32,
            flashram_mode::FLASHRAM_WRITE => 2i32,
            flashram_mode::FLASHRAM_READ => 3i32,
            flashram_mode::FLASHRAM_STATUS => 4i32,
        }
    }
}
/// The parallel interface registers in the order the hardware numbers them.
pub open spec fn pi_register_order() -> Seq<pi_register> {
    seq![
        pi_register::PI_DRAM_ADDR_REG,
        pi_register::PI_CART_ADDR_REG,
        pi_register::PI_RD_LEN_REG,
        pi_register::PI_WR_LEN_REG,
        pi_register::PI_STATUS_REG,
        pi_register::PI_BSD_DOM1_LAT_REG,
        pi_register::PI_BSD_DOM1_PWD_REG,
        pi_register::PI_BSD_DOM1_PGS_REG,
        pi_register::PI_BSD_DOM1_RLS_REG,
        pi_register::PI_BSD_DOM2_LAT_REG,
        pi_register::PI_BSD_DOM2_PWD_REG,
        pi_register::PI_BSD_DOM2_PGS_REG,
        pi_register::PI_BSD_DOM2_RLS_REG,
        pi_register::NUM_PI_REGISTERS,
    ]
}

/// Each parallel interface register is numbered by its position in the hardware's order, and
/// that order holds each of them.
pub proof fn lemma_pi_register_numbered_in_order(r: pi_register)
    ensures
        pi_register_order().len() == 14,
        forall|i: int| 0 <= i < 14 ==> #[trigger] pi_register_index(pi_register_order()[i]) == i,
        pi_register_order()[pi_register_index(r)] == r,
{
}

/// The FlashRAM modes in the order the hardware numbers them.
pub open spec fn flashram_mode_order() -> Seq<flashram_mode> {
    seq![
        flashram_mode::FLASHRAM_IDLE,
        flashram_mode::FLASHRAM_ERASE,
        flashram_mode::FLASHRAM_WRITE,
        flashram_mode::FLASHRAM_READ,
        flashram_mode::FLASHRAM_STATUS,
    ]
}

/// Each FlashRAM mode is numbered by its position in the hardware's order, and
/// that order holds each of them.
pub proof fn lemma_flashram_mode_numbered_in_order(r: flashram_mode)
    ensures
        flashram_mode_order().len() == 5,
        forall|i: int| 0 <= i < 5 ==> #[trigger] flashram_mode_code(flashram_mode_order()[i]) as int == i,
        flashram_mode_order()[flashram_mode_code(r) as int] == r,
{
}

/// The status bits in the order the hardware lists them.
pub open spec fn pi_status_order() -> Seq<pi_status> {
    seq![
        pi_status::PI_STATUS_DMA_BUSY,
        pi_status::PI_STATUS_IO_BUSY,
        pi_status::PI_STATUS_ERROR,
        pi_status::PI_STATUS_INTERRUPT,
    ]
}

/// The status at position `i` of the hardware's list occupies bit `i` of the
/// status register, and the list holds every status.
pub proof fn lemma_pi_status_bit_positions(s: pi_status)
    ensures
        pi_status_order().len() == 4,
        forall|i: int| 0 <= i < 4 ==> #[trigger] pi_status_mask(pi_status_order()[i]) == (1u32 << (i as u32)),
        exists|i: int| 0 <= i < 4 && pi_status_order()[i] == s,
{
    assert(1u32 << 0u32 == 1u32) by (bit_vector);
    assert(1u32 << 1u32 == 2u32) by (bit_vector);
    assert(1u32 << 2u32 == 4u32) by (bit_vector);
    assert(1u32 << 3u32 == 8u32) by (bit_vector);
    assert(pi_status_order()[0] == pi_status::PI_STATUS_DMA_BUSY);
    assert(pi_status_order()[1] == pi_status::PI_STATUS_IO_BUSY);
    assert(pi_status_order()[2] == pi_status::PI_STATUS_ERROR);
    assert(pi_status_order()[3] == pi_status::PI_STATUS_INTERRUPT);
}

} // verus!
