//! The signal processor: register files, vector opcodes and the fields of an
//! instruction word.

use vstd::prelude::*;

verus! {

/// Size of the signal processor's memory: 4 KiB IMEM followed by 4 KiB DMEM.
pub const SP_MEM_SIZE: usize = 0x2000;

/// Number of entries of the software instruction cache, one per IMEM word.
pub const RSP_CACHE_SIZE: usize = 0x1000 / 4;

/// Where the signal processor's registers sit in the CPU's physical address map.
pub const SP_REGISTER_OFFSET: usize = 0x0404_0000;

/// Number of signal processor registers: 32 scalar registers and 8 CP0 registers.
pub const NUM_RSP_REGISTERS: usize = 40;

/// Number of memory-mapped SP interface registers.
pub const NUM_SP_REGISTERS: usize = 8;

/// Instruction metadata flags of a decoded opcode.
pub const INFO_NONE: u32 = 0;
pub const INFO_VECTOR: u32 = 1 << 1;
pub const INFO_BRANCH: u32 = 1 << 31;
pub const INFO_LOAD: u32 = 1 << 5;
pub const INFO_STORE: u32 = 1 << 6;

/// The vector instructions of the signal processor.
#[derive(Clone, Copy, Debug, PartialEq, Eq, Structural)]
pub enum rsp_vector_opcode {
    VINVALID,
    VABS,
    VADD,
    VADDC,
    VAND,
    VCH,
    VCL,
    VCR,
    VEQ,
    VGE,
    VLT,
    VMACF,
    VMACQ,
    VMACU,
    VMADH,
    VMADL,
    VMADM,
    VMADN,
    VMOV,
    VMRG,
    VMUDH,
    VMUDL,
    VMUDM,
    VMUDN,
    VMULF,
    VMULQ,
    VMULU,
    VNAND,
    VNE,
    VNOP,
    VNOR,
    VNULL,
    VNXOR,
    VOR,
    VRCP,
    VRCPH,
    VRCPL,
    VRNDN,
    VRNDP,
    VRSQ,
    VRSQH,
    VRSQL,
    VSAR,
    VSUB,
    VSUBC,
    VXOR,
}

/// The instruction identifier that decoded opcodes carry.
pub open spec fn rsp_vector_opcode_id(v: rsp_vector_opcode) -> u32 {
    match v {
        rsp_vector_opcode::VINVALID => 0u32,
        rsp_vector_opcode::VABS => 1u32,
        rsp_vector_opcode::VADD => 2u32,
        rsp_vector_opcode::VADDC => 3u32,
        rsp_vector_opcode::VAND => 4u32,
        rsp_vector_opcode::VCH => 5u32,
        rsp_vector_opcode::VCL => 6u32,
        rsp_vector_opcode::VCR => 7u32,
        rsp_vector_opcode::VEQ => 8u32,
        rsp_vector_opcode::VGE => 9u32,
        rsp_vector_opcode::VLT => 10u32,
        rsp_vector_opcode::VMACF => 11u32,
        rsp_vector_opcode::VMACQ => 12u32,
        rsp_vector_opcode::VMACU => 13u32,
        rsp_vector_opcode::VMADH => 14u32,
        rsp_vector_opcode::VMADL => 15u32,
        rsp_vector_opcode::VMADM => 16u32,
        rsp_vector_opcode::VMADN => 17u32,
        rsp_vector_opcode::VMOV => 18u32,
        rsp_vector_opcode::VMRG => 19u32,
        rsp_vector_opcode::VMUDH => 20u32,
        rsp_vector_opcode::VMUDL => 21u32,
        rsp_vector_opcode::VMUDM => 22u32,
        rsp_vector_opcode::VMUDN => 23u32,
        rsp_vector_opcode::VMULF => 24u32,
        rsp_vector_opcode::VMULQ => 25u32,
        rsp_vector_opcode::VMULU => 26u32,
        rsp_vector_opcode::VNAND => 27u32,
        rsp_vector_opcode::VNE => 28u32,
        rsp_vector_opcode::VNOP => 29u32,
        rsp_vector_opcode::VNOR => 30u32,
        rsp_vector_opcode::VNULL => 31u32,
        rsp_vector_opcode::VNXOR => 32u32,
        rsp_vector_opcode::VOR => 33u32,
        rsp_vector_opcode::VRCP => 34u32,
        rsp_vector_opcode::VRCPH => 35u32,
        rsp_vector_opcode::VRCPL => 36u32,
        rsp_vector_opcode::VRNDN => 37u32,
        rsp_vector_opcode::VRNDP => 38u32,
        rsp_vector_opcode::VRSQ => 39u32,
        rsp_vector_opcode::VRSQH => 40u32,
        rsp_vector_opcode::VRSQL => 41u32,
        rsp_vector_opcode::VSAR => 42u32,
        rsp_vector_opcode::VSUB => 43u32,
        rsp_vector_opcode::VSUBC => 44u32,
        rsp_vector_opcode::VXOR => 45u32,
    }
}

impl rsp_vector_opcode {
    /// The instruction identifier that decoded opcodes carry.
    pub fn id(self) -> (r: u32)
        ensures
            r == rsp_vector_opcode_id(self),
    {
        match self {
            rsp_vector_opcode::VINVALID => 0u32,
            rsp_vector_opcode::VABS => 1u32,
            rsp_vector_opcode::VADD => 2u32,
            rsp_vector_opcode::VADDC => 3u32,
            rsp_vector_opcode::VAND => 4u32,
            rsp_vector_opcode::VCH => 5u32,
            rsp_vector_opcode::VCL => 6u32,
            rsp_vector_opcode::VCR => 7u32,
            rsp_vector_opcode::VEQ => 8u32,
            rsp_vector_opcode::VGE => 9u32,
            rsp_vector_opcode::VLT => 10u32,
            rsp_vector_opcode::VMACF => 11u32,
            rsp_vector_opcode::VMACQ => 12u32,
            rsp_vector_opcode::VMACU => 13u32,
            rsp_vector_opcode::VMADH => 14u32,
            rsp_vector_opcode::VMADL => 15u32,
            rsp_vector_opcode::VMADM => 16u32,
            rsp_vector_opcode::VMADN => 17u32,
            rsp_vector_opcode::VMOV => 18u32,
            rsp_vector_opcode::VMRG => 19u32,
            rsp_vector_opcode::VMUDH => 20u32,
            rsp_vector_opcode::VMUDL => 21u32,
            rsp_vector_opcode::VMUDM => 22u32,
            rsp_vector_opcode::VMUDN => 23u32,
            rsp_vector_opcode::VMULF => 24u32,
            rsp_vector_opcode::VMULQ => 25u32,
            rsp_vector_opcode::VMULU => 26u32,
            rsp_vector_opcode::VNAND => 27u32,
            rsp_vector_opcode::VNE => 28u32,
            rsp_vector_opcode::VNOP => 29u32,
            rsp_vector_opcode::VNOR => 30u32,
            rsp_vector_opcode::VNULL => 31u32,
            rsp_vector_opcode::VNXOR => 32u32,
            rsp_vector_opcode::VOR => 33u32,
            rsp_vector_opcode::VRCP => 34u32,
            rsp_vector_opcode::VRCPH => 35u32,
            rsp_vector_opcode::VRCPL => 36u32,
            rsp_vector_opcode::VRNDN => 37u32,
            rsp_vector_opcode::VRNDP => 38u32,
            rsp_vector_opcode::VRSQ => 39u32,
            rsp_vector_opcode::VRSQH => 40u32,
            rsp_vector_opcode::VRSQL => 41u32,
            rsp_vector_opcode::VSAR => 42u32,
            rsp_vector_opcode::VSUB => 43u32,
            rsp_vector_opcode::VSUBC => 44u32,
            rsp_vector_opcode::VXOR => 45u32,
        }
    }
}
/// The memory-mapped SP interface registers.
#[derive(Clone, Copy, Debug, PartialEq, Eq, Structural)]
pub enum sp_register {
    SP_MEM_ADDR_REG,
    SP_DRAM_ADDR_REG,
    SP_RD_LEN_REG,
    SP_WR_LEN_REG,
    SP_STATUS_REG,
    SP_DMA_FULL_REG,
    SP_DMA_BUSY_REG,
    SP_SEMAPHORE_REG,
    NUM_SP_REGISTERS,
}

/// The slot of each register in the register file; the last name stands for
/// the number of registers.
pub open spec fn sp_register_index(r: sp_register) -> int {
    match r {
        sp_register::SP_MEM_ADDR_REG => 0,
        sp_register::SP_DRAM_ADDR_REG => 1,
        sp_register::SP_RD_LEN_REG => 2,
        sp_register::SP_WR_LEN_REG => 3,
        sp_register::SP_STATUS_REG => 4,
        sp_register::SP_DMA_FULL_REG => 5,
        sp_register::SP_DMA_BUSY_REG => 6,
        sp_register::SP_SEMAPHORE_REG => 7,
        sp_register::NUM_SP_REGISTERS => 8,
    }
}

impl sp_register {
    /// The register's slot in the register file.
    pub fn index(self) -> (r: usize)
        ensures
            r == sp_register_index(self),
            self != sp_register::NUM_SP_REGISTERS ==> r < NUM_SP_REGISTERS,
            self == sp_register::NUM_SP_REGISTERS ==> r == NUM_SP_REGISTERS,
    {
        match self {
            sp_register::SP_MEM_ADDR_REG => 0,
            sp_register::SP_DRAM_ADDR_REG => 1,
            sp_register::SP_RD_LEN_REG => 2,
            sp_register::SP_WR_LEN_REG => 3,
            sp_register::SP_STATUS_REG => 4,
            sp_register::SP_DMA_FULL_REG => 5,
            sp_register::SP_DMA_BUSY_REG => 6,
            sp_register::SP_SEMAPHORE_REG => 7,
            sp_register::NUM_SP_REGISTERS => 8,
        }
    }
}

/// Distinct registers have distinct slots.
pub proof fn lemma_sp_register_slots_distinct(a: sp_register, b: sp_register)
    requires
        sp_register_index(a) == sp_register_index(b),
    ensures
        a == b,
{
}
/// The signal processor registers: 32 scalar registers, then the CP0 registers.
#[derive(Clone, Copy, Debug, PartialEq, Eq, Structural)]
pub enum rsp_register {
    RSP_REGISTER_R0,
    RSP_REGISTER_AT,
    RSP_REGISTER_V0,
    RSP_REGISTER_V1,
    RSP_REGISTER_A0,
    RSP_REGISTER_A1,
    RSP_REGISTER_A2,
    RSP_REGISTER_A3,
    RSP_REGISTER_T0,
    RSP_REGISTER_T1,
    RSP_REGISTER_T2,
    RSP_REGISTER_T3,
    RSP_REGISTER_T4,
    RSP_REGISTER_R5,
    RSP_REGISTER_T6,
    RSP_REGISTER_T7,
    RSP_REGISTER_S0,
    RSP_REGISTER_S1,
    RSP_REGISTER_S2,
    RSP_REGISTER_S3,
    RSP_REGISTER_S4,
    RSP_REGISTER_S5,
    RSP_REGISTER_S6,
    RSP_REGISTER_S7,
    RSP_REGISTER_T8,
    RSP_REGISTER_T9,
    RSP_REGISTER_K0,
    RSP_REGISTER_K1,
    RSP_REGISTER_GP,
    RSP_REGISTER_SP,
    RSP_REGISTER_FP,
    RSP_REGISTER_RA,
    RSP_REGISTER_CP0_0,
    RSP_REGISTER_CP0_1,
    RSP_REGISTER_CP0_2,
    RSP_REGISTER_CP0_3,
    RSP_REGISTER_CP0_4,
    RSP_REGISTER_CP0_5,
    RSP_REGISTER_CP0_6,
    RSP_REGISTER_CP0_7,
    NUM_RSP_REGISTERS,
}

/// The slot of each register in the register file; the last name stands for
/// the number of registers.
pub open spec fn rsp_register_index(r: rsp_register) -> int {
    match r {
        rsp_register::RSP_REGISTER_R0 => 0,
        rsp_register::RSP_REGISTER_AT => 1,
        rsp_register::RSP_REGISTER_V0 => 2,
        rsp_register::RSP_REGISTER_V1 => 3,
        rsp_register::RSP_REGISTER_A0 => 4,
        rsp_register::RSP_REGISTER_A1 => 5,
        rsp_register::RSP_REGISTER_A2 => 6,
        rsp_register::RSP_REGISTER_A3 => 7,
        rsp_register::RSP_REGISTER_T0 => 8,
        rsp_register::RSP_REGISTER_T1 => 9,
        rsp_register::RSP_REGISTER_T2 => 10,
        rsp_register::RSP_REGISTER_T3 => 11,
        rsp_register::RSP_REGISTER_T4 => 12,
        rsp_register::RSP_REGISTER_R5 => 13,
        rsp_register::RSP_REGISTER_T6 => 14,
        rsp_register::RSP_REGISTER_T7 => 15,
        rsp_register::RSP_REGISTER_S0 => 16,
        rsp_register::RSP_REGISTER_S1 => 17,
        rsp_register::RSP_REGISTER_S2 => 18,
        rsp_register::RSP_REGISTER_S3 => 19,
        rsp_register::RSP_REGISTER_S4 => 20,
        rsp_register::RSP_REGISTER_S5 => 21,
        rsp_register::RSP_REGISTER_S6 => 22,
        rsp_register::RSP_REGISTER_S7 => 23,
        rsp_register::RSP_REGISTER_T8 => 24,
        rsp_register::RSP_REGISTER_T9 => 25,
        rsp_register::RSP_REGISTER_K0 => 26,
        rsp_register::RSP_REGISTER_K1 => 27,
        rsp_register::RSP_REGISTER_GP => 28,
        rsp_register::RSP_REGISTER_SP => 29,
        rsp_register::RSP_REGISTER_FP => 30,
        rsp_register::RSP_REGISTER_RA => 31,
        rsp_register::RSP_REGISTER_CP0_0 => 32,
        rsp_register::RSP_REGISTER_CP0_1 => 33,
        rsp_register::RSP_REGISTER_CP0_2 => 34,
        rsp_register::RSP_REGISTER_CP0_3 => 35,
        rsp_register::RSP_REGISTER_CP0_4 => 36,
        rsp_register::RSP_REGISTER_CP0_5 => 37,
        rsp_register::RSP_REGISTER_CP0_6 => 38,
        rsp_register::RSP_REGISTER_CP0_7 => 39,
        rsp_register::NUM_RSP_REGISTERS => 40,
    }
}

impl rsp_register {
    /// The register's slot in the register file.
    pub fn index(self) -> (r: usize)
        ensures
            r == rsp_register_index(self),
            self != rsp_register::NUM_RSP_REGISTERS ==> r < NUM_RSP_REGISTERS,
            self == rsp_register::NUM_RSP_REGISTERS ==> r == NUM_RSP_REGISTERS,
    {
        match self {
            rsp_register::RSP_REGISTER_R0 => 0,
            rsp_register::RSP_REGISTER_AT => 1,
            rsp_register::RSP_REGISTER_V0 => 2,
            rsp_register::RSP_REGISTER_V1 => 3,
            rsp_register::RSP_REGISTER_A0 => 4,
            rsp_register::RSP_REGISTER_A1 => 5,
            rsp_register::RSP_REGISTER_A2 => 6,
            rsp_register::RSP_REGISTER_A3 => 7,
            rsp_register::RSP_REGISTER_T0 => 8,
            rsp_register::RSP_REGISTER_T1 => 9,
            rsp_register::RSP_REGISTER_T2 => 10,
            rsp_register::RSP_REGISTER_T3 => 11,
            rsp_register::RSP_REGISTER_T4 => 12,
            rsp_register::RSP_REGISTER_R5 => 13,
            rsp_register::RSP_REGISTER_T6 => 14,
            rsp_register::RSP_REGISTER_T7 => 15,
            rsp_register::RSP_REGISTER_S0 => 16,
            rsp_register::RSP_REGISTER_S1 => 17,
            rsp_register::RSP_REGISTER_S2 => 18,
            rsp_register::RSP_REGISTER_S3 => 19,
            rsp_register::RSP_REGISTER_S4 => 20,
            rsp_register::RSP_REGISTER_S5 => 21,
            rsp_register::RSP_REGISTER_S6 => 22,
            rsp_register::RSP_REGISTER_S7 => 23,
            rsp_register::RSP_REGISTER_T8 => 24,
            rsp_register::RSP_REGISTER_T9 => 25,
            rsp_register::RSP_REGISTER_K0 => 26,
            rsp_register::RSP_REGISTER_K1 => 27,
            rsp_register::RSP_REGISTER_GP => 28,
            rsp_register::RSP_REGISTER_SP => 29,
            rsp_register::RSP_REGISTER_FP => 30,
            rsp_register::RSP_REGISTER_RA => 31,
            rsp_register::RSP_REGISTER_CP0_0 => 32,
            rsp_register::RSP_REGISTER_CP0_1 => 33,
            rsp_register::RSP_REGISTER_CP0_2 => 34,
            rsp_register::RSP_REGISTER_CP0_3 => 35,
            rsp_register::RSP_REGISTER_CP0_4 => 36,
            rsp_register::RSP_REGISTER_CP0_5 => 37,
            rsp_register::RSP_REGISTER_CP0_6 => 38,
            rsp_register::RSP_REGISTER_CP0_7 => 39,
            rsp_register::NUM_RSP_REGISTERS => 40,
        }
    }
}

/// Distinct registers have distinct slots.
pub proof fn lemma_rsp_register_slots_distinct(a: rsp_register, b: rsp_register)
    requires
        rsp_register_index(a) == rsp_register_index(b),
    ensures
        a == b,
{
}
/// A decoded instruction in the instruction cache: which instruction it is
/// (an identifier such as [`rsp_vector_opcode::id`] gives) and its flags
/// (`INFO_*`).
#[derive(Clone, Copy, Debug, PartialEq, Eq, Structural)]
pub struct rsp_opcode {
    pub id: u32,
    pub flags: u32,
}

/// The scalar source register `rs`: bits 21..25 of an instruction word.
pub open spec fn field_rs(iw: u32) -> int {
    (iw as int / 0x20_0000) % 32
}

/// The scalar target register `rt`: bits 16..20.
pub open spec fn field_rt(iw: u32) -> int {
    (iw as int / 0x1_0000) % 32
}

/// The scalar destination register `rd`: bits 11..15.
pub open spec fn field_rd(iw: u32) -> int {
    (iw as int / 0x800) % 32
}

/// The vector source register `vs`: bits 11..15.
pub open spec fn field_vs(iw: u32) -> int {
    (iw as int / 0x800) % 32
}

/// The vector target register `vt`: bits 16..20.
pub open spec fn field_vt(iw: u32) -> int {
    (iw as int / 0x1_0000) % 32
}

/// The vector destination register `vd`: bits 6..10.
pub open spec fn field_vd(iw: u32) -> int {
    (iw as int / 0x40) % 32
}

/// The element selector `e` of a vector load or store: bits 7..10.
pub open spec fn field_el(iw: u32) -> int {
    (iw as int / 0x80) % 16
}

/// Extracts the scalar source register number (bits 21..25).
pub fn get_rs(iw: u32) -> (r: usize)
    ensures
        r == field_rs(iw),
        r < 32,
{
    assert(((iw >> 21u32) & 0x1Fu32) == (iw / 0x20_0000u32) % 32u32) by (bit_vector);
    ((iw >> 21u32) & 0x1Fu32) as usize
}

/// Extracts the scalar target register number (bits 16..20).
pub fn get_rt(iw: u32) -> (r: usize)
    ensures
        r == field_rt(iw),
        r < 32,
{
    assert(((iw >> 16u32) & 0x1Fu32) == (iw / 0x1_0000u32) % 32u32) by (bit_vector);
    ((iw >> 16u32) & 0x1Fu32) as usize
}

/// Extracts the scalar destination register number (bits 11..15).
pub fn get_rd(iw: u32) -> (r: usize)
    ensures
        r == field_rd(iw),
        r < 32,
{
    assert(((iw >> 11u32) & 0x1Fu32) == (iw / 0x800u32) % 32u32) by (bit_vector);
    ((iw >> 11u32) & 0x1Fu32) as usize
}

/// Extracts the vector source register number `vs`, which shares bits 11..15
/// with the scalar `rd` field.
pub fn get_vs(iw: u32) -> (r: usize)
    ensures
        r == field_vs(iw),
        r < 32,
{
    assert(((iw >> 11u32) & 0x1Fu32) == (iw / 0x800u32) % 32u32) by (bit_vector);
    ((iw >> 11u32) & 0x1Fu32) as usize
}

/// Extracts the vector target register number `vt`, which shares bits 16..20
/// with the scalar `rt` field.
pub fn get_vt(iw: u32) -> (r: usize)
    ensures
        r == field_vt(iw),
        r < 32,
{
    assert(((iw >> 16u32) & 0x1Fu32) == (iw / 0x1_0000u32) % 32u32) by (bit_vector);
    ((iw >> 16u32) & 0x1Fu32) as usize
}

/// Extracts the vector destination register number (bits 6..10).
pub fn get_vd(iw: u32) -> (r: usize)
    ensures
        r == field_vd(iw),
        r < 32,
{
    assert(((iw >> 6u32) & 0x1Fu32) == (iw / 0x40u32) % 32u32) by (bit_vector);
    ((iw >> 6u32) & 0x1Fu32) as usize
}

/// Extracts the element selector of a vector load or store (bits 7..10).
pub fn get_el(iw: u32) -> (r: usize)
    ensures
        r == field_el(iw),
        r < 16,
{
    assert(((iw >> 7u32) & 0xFu32) == (iw / 0x80u32) % 16u32) by (bit_vector);
    ((iw >> 7u32) & 0xFu32) as usize
}

/// The vector register fields alias the scalar ones: `vs` is read from the same
/// bits as `rd` and `vt` from the same bits as `rt`; and the element selector is
/// the upper four bits of the `vd` field, for every instruction word.
pub proof fn lemma_instruction_fields_overlap(iw: u32)
    ensures
        field_vs(iw) == field_rd(iw),
        field_vt(iw) == field_rt(iw),
        field_el(iw) == field_vd(iw) / 2,
{
    assert((iw >> 7u32) & 0xFu32 == ((iw >> 6u32) & 0x1Fu32) / 2u32) by (bit_vector);
    assert(((iw >> 7u32) & 0xFu32) == (iw / 0x80u32) % 16u32) by (bit_vector);
    assert(((iw >> 6u32) & 0x1Fu32) == (iw / 0x40u32) % 32u32) by (bit_vector);
}

/// The SP interface registers in the order the hardware numbers them.
pub open spec fn sp_register_order() -> Seq<sp_register> {
    seq![
        sp_register::SP_MEM_ADDR_REG,
        sp_register::SP_DRAM_ADDR_REG,
        sp_register::SP_RD_LEN_REG,
        sp_register::SP_WR_LEN_REG,
        sp_register::SP_STATUS_REG,
        sp_register::SP_DMA_FULL_REG,
        sp_register::SP_DMA_BUSY_REG,
        sp_register::SP_SEMAPHORE_REG,
        sp_register::NUM_SP_REGISTERS,
    ]
}

/// Each SP interface register is numbered by its position in the hardware's order, and
/// that order holds each of them.
pub proof fn lemma_sp_register_numbered_in_order(r: sp_register)
    ensures
        sp_register_order().len() == 9,
        forall|i: int| 0 <= i < 9 ==> #[trigger] sp_register_index(sp_register_order()[i]) == i,
        sp_register_order()[sp_register_index(r)] == r,
{
}

/// The signal processor registers in the order the hardware numbers them.
pub open spec fn rsp_register_order() -> Seq<rsp_register> {
    seq![
        rsp_register::RSP_REGISTER_R0,
        rsp_register::RSP_REGISTER_AT,
        rsp_register::RSP_REGISTER_V0,
        rsp_register::RSP_REGISTER_V1,
        rsp_register::RSP_REGISTER_A0,
        rsp_register::RSP_REGISTER_A1,
        rsp_register::RSP_REGISTER_A2,
        rsp_register::RSP_REGISTER_A3,
        rsp_register::RSP_REGISTER_T0,
        rsp_register::RSP_REGISTER_T1,
        rsp_register::RSP_REGISTER_T2,
        rsp_register::RSP_REGISTER_T3,
        rsp_register::RSP_REGISTER_T4,
        rsp_register::RSP_REGISTER_R5,
        rsp_register::RSP_REGISTER_T6,
        rsp_register::RSP_REGISTER_T7,
        rsp_register::RSP_REGISTER_S0,
        rsp_register::RSP_REGISTER_S1,
        rsp_register::RSP_REGISTER_S2,
        rsp_register::RSP_REGISTER_S3,
        rsp_register::RSP_REGISTER_S4,
        rsp_register::RSP_REGISTER_S5,
        rsp_register::RSP_REGISTER_S6,
        rsp_register::RSP_REGISTER_S7,
        rsp_register::RSP_REGISTER_T8,
        rsp_register::RSP_REGISTER_T9,
        rsp_register::RSP_REGISTER_K0,
        rsp_register::RSP_REGISTER_K1,
        rsp_register::RSP_REGISTER_GP,
        rsp_register::RSP_REGISTER_SP,
        rsp_register::RSP_REGISTER_FP,
        rsp_register::RSP_REGISTER_RA,
        rsp_register::RSP_REGISTER_CP0_0,
        rsp_register::RSP_REGISTER_CP0_1,
        rsp_register::RSP_REGISTER_CP0_2,
        rsp_register::RSP_REGISTER_CP0_3,
        rsp_register::RSP_REGISTER_CP0_4,
        rsp_register::RSP_REGISTER_CP0_5,
        rsp_register::RSP_REGISTER_CP0_6,
        rsp_register::RSP_REGISTER_CP0_7,
        rsp_register::NUM_RSP_REGISTERS,
    ]
}

/// Each signal processor register is numbered by its position in the hardware's order, and
/// that order holds each of them.
pub proof fn lemma_rsp_register_numbered_in_order(r: rsp_register)
    ensures
        rsp_register_order().len() == 41,
        forall|i: int| 0 <= i < 41 ==> #[trigger] rsp_register_index(rsp_register_order()[i]) == i,
        rsp_register_order()[rsp_register_index(r)] == r,
{
}

/// The vector opcodes in the order the hardware numbers them.
pub open spec fn rsp_vector_opcode_order() -> Seq<rsp_vector_opcode> {
    seq![
        rsp_vector_opcode::VINVALID,
        rsp_vector_opcode::VABS,
        rsp_vector_opcode::VADD,
        rsp_vector_opcode::VADDC,
        rsp_vector_opcode::VAND,
        rsp_vector_opcode::VCH,
        rsp_vector_opcode::VCL,
        rsp_vector_opcode::VCR,
        rsp_vector_opcode::VEQ,
        rsp_vector_opcode::VGE,
        rsp_vector_opcode::VLT,
        rsp_vector_opcode::VMACF,
        rsp_vector_opcode::VMACQ,
        rsp_vector_opcode::VMACU,
        rsp_vector_opcode::VMADH,
        rsp_vector_opcode::VMADL,
        rsp_vector_opcode::VMADM,
        rsp_vector_opcode::VMADN,
        rsp_vector_opcode::VMOV,
        rsp_vector_opcode::VMRG,
        rsp_vector_opcode::VMUDH,
        rsp_vector_opcode::VMUDL,
        rsp_vector_opcode::VMUDM,
        rsp_vector_opcode::VMUDN,
        rsp_vector_opcode::VMULF,
        rsp_vector_opcode::VMULQ,
        rsp_vector_opcode::VMULU,
        rsp_vector_opcode::VNAND,
        rsp_vector_opcode::VNE,
        rsp_vector_opcode::VNOP,
        rsp_vector_opcode::VNOR,
        rsp_vector_opcode::VNULL,
        rsp_vector_opcode::VNXOR,
        rsp_vector_opcode::VOR,
        rsp_vector_opcode::VRCP,
        rsp_vector_opcode::VRCPH,
        rsp_vector_opcode::VRCPL,
        rsp_vector_opcode::VRNDN,
        rsp_vector_opcode::VRNDP,
        rsp_vector_opcode::VRSQ,
        rsp_vector_opcode::VRSQH,
        rsp_vector_opcode::VRSQL,
        rsp_vector_opcode::VSAR,
        rsp_vector_opcode::VSUB,
        rsp_vector_opcode::VSUBC,
        rsp_vector_opcode::VXOR,
    ]
}

/// Each vector opcode is numbered by its position in the hardware's order, and
/// that order holds each of them.
pub proof fn lemma_rsp_vector_opcode_numbered_in_order(r: rsp_vector_opcode)
    ensures
        rsp_vector_opcode_order().len() == 46,
        forall|i: int| 0 <= i < 46 ==> #[trigger] rsp_vector_opcode_id(rsp_vector_opcode_order()[i]) as int == i,
        rsp_vector_opcode_order()[rsp_vector_opcode_id(r) as int] == r,
{
}

/// The register fields `rs`, `rt` and `rd` take bits 21..25, 16..20 and
/// 11..15 of an instruction word, and `vd` takes bits 6..10: together with the
/// opcode above them and the bits below, they make up the word again.
pub proof fn lemma_fields_rebuild_the_word(iw: u32)
    ensures
        iw as int == (iw as int / 0x400_0000) * 0x400_0000 + field_rs(iw) * 0x20_0000 + field_rt(iw) * 0x1_0000
            + field_rd(iw) * 0x800 + iw as int % 0x800,
        iw as int % 0x800 == field_vd(iw) * 0x40 + iw as int % 0x40,
        0 <= field_rs(iw) < 32,
        0 <= field_rt(iw) < 32,
        0 <= field_rd(iw) < 32,
        0 <= field_vd(iw) < 32,
{
    assert(iw == (iw / 0x400_0000u32) * 0x400_0000u32 + ((iw / 0x20_0000u32) % 32u32) * 0x20_0000u32
        + ((iw / 0x1_0000u32) % 32u32) * 0x1_0000u32 + ((iw / 0x800u32) % 32u32) * 0x800u32 + iw % 0x800u32)
        by (bit_vector);
    assert(iw % 0x800u32 == ((iw / 0x40u32) % 32u32) * 0x40u32 + iw % 0x40u32) by (bit_vector);
}

} // verus!
