//! The VR4300 CPU: its registers and the state of its pipeline.

use vstd::prelude::*;

verus! {

/// Number of CPU registers: general purpose, CP0, CP1, HI/LO, the FPU control
/// registers and the pipeline's cycle type.
pub const NUM_VR4300_REGISTERS: usize = 101;

/// Number of MIPS interface registers.
pub const NUM_MI_REGISTERS: usize = 4;

/// The CPU registers: R0-RA in slots 0-31, CP0 in 32-63, CP1 in 64-95, then HI, LO, the FPU control registers and the pipeline cycle type.
#[derive(Clone, Copy, Debug, PartialEq, Eq, Structural)]
pub enum vr4300_register {
    VR4300_REGISTER_R0,
    VR4300_REGISTER_AT,
    VR4300_REGISTER_V0,
    VR4300_REGISTER_V1,
    VR4300_REGISTER_A0,
    VR4300_REGISTER_A1,
    VR4300_REGISTER_A2,
    VR4300_REGISTER_A3,
    VR4300_REGISTER_T0,
    VR4300_REGISTER_T1,
    VR4300_REGISTER_T2,
    VR4300_REGISTER_T3,
    VR4300_REGISTER_T4,
    VR4300_REGISTER_T5,
    VR4300_REGISTER_T6,
    VR4300_REGISTER_T7,
    VR4300_REGISTER_S0,
    VR4300_REGISTER_S1,
    VR4300_REGISTER_S2,
    VR4300_REGISTER_S3,
    VR4300_REGISTER_S4,
    VR4300_REGISTER_S5,
    VR4300_REGISTER_S6,
    VR4300_REGISTER_S7,
    VR4300_REGISTER_T8,
    VR4300_REGISTER_T9,
    VR4300_REGISTER_K0,
    VR4300_REGISTER_K1,
    VR4300_REGISTER_GP,
    VR4300_REGISTER_SP,
    VR4300_REGISTER_FP,
    VR4300_REGISTER_RA,
    VR4300_REGISTER_CP0_0,
    VR4300_REGISTER_CP0_31,
    VR4300_REGISTER_CP1_0,
    VR4300_REGISTER_CP1_31,
    VR4300_REGISTER_HI,
    VR4300_REGISTER_LO,
    VR4300_CP1_FCR0,
    VR4300_CP1_FCR31,
    PIPELINE_CYCLE_TYPE,
    NUM_VR4300_REGISTERS,
}

/// The slot of each register in the register file; the last name stands for
/// the number of registers.
pub open spec fn vr4300_register_index(r: vr4300_register) -> int {
    match r {
        vr4300_register::VR4300_REGISTER_R0 => 0,
        vr4300_register::VR4300_REGISTER_AT => 1,
        vr4300_register::VR4300_REGISTER_V0 => 2,
        vr4300_register::VR4300_REGISTER_V1 => 3,
        vr4300_register::VR4300_REGISTER_A0 => 4,
        vr4300_register::VR4300_REGISTER_A1 => 5,
        vr4300_register::VR4300_REGISTER_A2 => 6,
        vr4300_register::VR4300_REGISTER_A3 => 7,
        vr4300_register::VR4300_REGISTER_T0 => 8,
        vr4300_register::VR4300_REGISTER_T1 => 9,
        vr4300_register::VR4300_REGISTER_T2 => 10,
        vr4300_register::VR4300_REGISTER_T3 => 11,
        vr4300_register::VR4300_REGISTER_T4 => 12,
        vr4300_register::VR4300_REGISTER_T5 => 13,
        vr4300_register::VR4300_REGISTER_T6 => 14,
        vr4300_register::VR4300_REGISTER_T7 => 15,
        vr4300_register::VR4300_REGISTER_S0 => 16,
        vr4300_register::VR4300_REGISTER_S1 => 17,
        vr4300_register::VR4300_REGISTER_S2 => 18,
        vr4300_register::VR4300_REGISTER_S3 => 19,
        vr4300_register::VR4300_REGISTER_S4 => 20,
        vr4300_register::VR4300_REGISTER_S5 => 21,
        vr4300_register::VR4300_REGISTER_S6 => 22,
        vr4300_register::VR4300_REGISTER_S7 => 23,
        vr4300_register::VR4300_REGISTER_T8 => 24,
        vr4300_register::VR4300_REGISTER_T9 => 25,
        vr4300_register::VR4300_REGISTER_K0 => 26,
        vr4300_register::VR4300_REGISTER_K1 => 27,
        vr4300_register::VR4300_REGISTER_GP => 28,
        vr4300_register::VR4300_REGISTER_SP => 29,
        vr4300_register::VR4300_REGISTER_FP => 30,
        vr4300_register::VR4300_REGISTER_RA => 31,
        vr4300_register::VR4300_REGISTER_CP0_0 => 32,
        vr4300_register::VR4300_REGISTER_CP0_31 => 63,
        vr4300_register::VR4300_REGISTER_CP1_0 => 64,
        vr4300_register::VR4300_REGISTER_CP1_31 => 95,
        vr4300_register::VR4300_REGISTER_HI => 96,
        vr4300_register::VR4300_REGISTER_LO => 97,
        vr4300_register::VR4300_CP1_FCR0 => 98,
        vr4300_register::VR4300_CP1_FCR31 => 99,
        vr4300_register::PIPELINE_CYCLE_TYPE => 100,
        vr4300_register::NUM_VR4300_REGISTERS => 101,
    }
}

impl vr4300_register {
    /// The register's slot in the register file.
    pub fn index(self) -> (r: usize)
        ensures
            r == vr4300_register_index(self),
            self != vr4300_register::NUM_VR4300_REGISTERS ==> r < NUM_VR4300_REGISTERS,
            self == vr4300_register::NUM_VR4300_REGISTERS ==> r == NUM_VR4300_REGISTERS,
    {
        match self {
            vr4300_register::VR4300_REGISTER_R0 => 0,
            vr4300_register::VR4300_REGISTER_AT => 1,
            vr4300_register::VR4300_REGISTER_V0 => 2,
            vr4300_register::VR4300_REGISTER_V1 => 3,
            vr4300_register::VR4300_REGISTER_A0 => 4,
            vr4300_register::VR4300_REGISTER_A1 => 5,
            vr4300_register::VR4300_REGISTER_A2 => 6,
            vr4300_register::VR4300_REGISTER_A3 => 7,
            vr4300_register::VR4300_REGISTER_T0 => 8,
            vr4300_register::VR4300_REGISTER_T1 => 9,
            vr4300_register::VR4300_REGISTER_T2 => 10,
            vr4300_register::VR4300_REGISTER_T3 => 11,
            vr4300_register::VR4300_REGISTER_T4 => 12,
            vr4300_register::VR4300_REGISTER_T5 => 13,
            vr4300_register::VR4300_REGISTER_T6 => 14,
            vr4300_register::VR4300_REGISTER_T7 => 15,
            vr4300_register::VR4300_REGISTER_S0 => 16,
            vr4300_register::VR4300_REGISTER_S1 => 17,
            vr4300_register::VR4300_REGISTER_S2 => 18,
            vr4300_register::VR4300_REGISTER_S3 => 19,
            vr4300_register::VR4300_REGISTER_S4 => 20,
            vr4300_register::VR4300_REGISTER_S5 => 21,
            vr4300_register::VR4300_REGISTER_S6 => 22,
            vr4300_register::VR4300_REGISTER_S7 => 23,
            vr4300_register::VR4300_REGISTER_T8 => 24,
            vr4300_register::VR4300_REGISTER_T9 => 25,
            vr4300_register::VR4300_REGISTER_K0 => 26,
            vr4300_register::VR4300_REGISTER_K1 => 27,
            vr4300_register::VR4300_REGISTER_GP => 28,
            vr4300_register::VR4300_REGISTER_SP => 29,
            vr4300_register::VR4300_REGISTER_FP => 30,
            vr4300_register::VR4300_REGISTER_RA => 31,
            vr4300_register::VR4300_REGISTER_CP0_0 => 32,
            vr4300_register::VR4300_REGISTER_CP0_31 => 63,
            vr4300_register::VR4300_REGISTER_CP1_0 => 64,
            vr4300_register::VR4300_REGISTER_CP1_31 => 95,
            vr4300_register::VR4300_REGISTER_HI => 96,
            vr4300_register::VR4300_REGISTER_LO => 97,
            vr4300_register::VR4300_CP1_FCR0 => 98,
            vr4300_register::VR4300_CP1_FCR31 => 99,
            vr4300_register::PIPELINE_CYCLE_TYPE => 100,
            vr4300_register::NUM_VR4300_REGISTERS => 101,
        }
    }
}

/// Distinct registers have distinct slots.
pub proof fn lemma_vr4300_register_slots_distinct(a: vr4300_register, b: vr4300_register)
    requires
        vr4300_register_index(a) == vr4300_register_index(b),
    ensures
        a == b,
{
}
/// The fault a pipeline latch carries.
#[derive(Clone, Copy, Debug, PartialEq, Eq, Structural)]
pub enum vr4300_fault_id {
    NoFault,
    Interrupt,
}

/// The number the C core gives each fault.
pub open spec fn vr4300_fault_id_code(v: vr4300_fault_id) -> u32 {
    match v {
        vr4300_fault_id::NoFault => 0u32,
        vr4300_fault_id::Interrupt => 1u32,
    }
}

impl vr4300_fault_id {
    /// The number the C core gives each fault.
    pub fn code(self) -> (r: u32)
        ensures
            r == vr4300_fault_id_code(self),
    {
        match self {
            vr4300_fault_id::NoFault => 0u32,
            vr4300_fault_id::Interrupt => 1u32,
        }
    }
}
/// What a bus request asks for.
#[derive(Clone, Copy, Debug, PartialEq, Eq, Structural)]
pub enum vr4300_bus_request_type {
    NoRequest,
    Read,
    Write,
    Cache,
    CacheWrite,
}

/// The number the C core gives each kind of request.
pub open spec fn vr4300_bus_request_type_code(v: vr4300_bus_request_type) -> u32 {
    match v {
        vr4300_bus_request_type::NoRequest => 0u32,
        vr4300_bus_request_type::Read => 1u32,
        vr4300_bus_request_type::Write => 2u32,
        vr4300_bus_request_type::Cache => 4u32,
        vr4300_bus_request_type::CacheWrite => 5u32,
    }
}

impl vr4300_bus_request_type {
    /// The number the C core gives each kind of request.
    pub fn code(self) -> (r: u32)
        ensures
            r == vr4300_bus_request_type_code(self),
    {
        match self {
            vr4300_bus_request_type::NoRequest => 0u32,
            vr4300_bus_request_type::Read => 1u32,
            vr4300_bus_request_type::Write => 2u32,
            vr4300_bus_request_type::Cache => 4u32,
            vr4300_bus_request_type::CacheWrite => 5u32,
        }
    }
}
/// The width of a bus access.
#[derive(Clone, Copy, Debug, PartialEq, Eq, Structural)]
pub enum vr4300_access_type {
    Word,
    DWord,
}

/// The number the C core gives each width.
pub open spec fn vr4300_access_type_code(v: vr4300_access_type) -> u32 {
    match v {
        vr4300_access_type::Word => 32u32,
        vr4300_access_type::DWord => 0u32,
    }
}

impl vr4300_access_type {
    /// The number the C core gives each width.
    pub fn code(self) -> (r: u32)
        ensures
            r == vr4300_access_type_code(self),
    {
        match self {
            vr4300_access_type::Word => 32u32,
            vr4300_access_type::DWord => 0u32,
        }
    }
}
/// The format field of a floating-point instruction.
#[derive(Clone, Copy, Debug, PartialEq, Eq, Structural)]
pub enum vr4300_fmt {
    /// Single precision float
    S,
    /// Double precision float
    D,
    /// 32-bit fixed point word
    W,
    /// 64-bit fixed point long
    L,
}

/// The value of the format field: single 16, double 17, word 20, long 21.
pub open spec fn vr4300_fmt_code(v: vr4300_fmt) -> u32 {
    match v {
        vr4300_fmt::S => 16u32,
        vr4300_fmt::D => 17u32,
        vr4300_fmt::W => 20u32,
        vr4300_fmt::L => 21u32,
    }
}

impl vr4300_fmt {
    /// The value of the format field: single 16, double 17, word 20, long 21.
    pub fn code(self) -> (r: u32)
        ensures
            r == vr4300_fmt_code(self),
    {
        match self {
            vr4300_fmt::S => 16u32,
            vr4300_fmt::D => 17u32,
            vr4300_fmt::W => 20u32,
            vr4300_fmt::L => 21u32,
        }
    }
}
/// A decoded CPU instruction: its identifier and flags.
#[derive(Clone, Copy, Debug, PartialEq, Eq, Structural)]
pub struct vr4300_opcode {
    pub id: u32,
    pub flags: u32,
}

/// What every pipeline latch carries: the program counter, a fault and its
/// cause data.
#[derive(Clone, Copy, Debug, PartialEq, Eq, Structural)]
pub struct vr4300_latch {
    pub pc: u64,
    pub fault: vr4300_fault_id,
    pub cause_data: u32,
}

/// The latch between register fetch and execute.
#[derive(Clone, Copy, Debug, PartialEq, Eq, Structural)]
pub struct vr4300_rfex_latch {
    pub common: vr4300_latch,
    pub opcode: vr4300_opcode,
    pub iw: u32,
    pub iw_mask: u32,
    pub paddr: u32,
    pub cached: bool,
}

/// The latch between data cache and write back.
#[derive(Clone, Copy, Debug, PartialEq, Eq, Structural)]
pub struct vr4300_dcwb_latch {
    pub common: vr4300_latch,
    pub result: i64,
    pub dest: u32,
    pub last_op_was_cache_store: bool,
}

/// A segment of the CPU's virtual address space.
#[derive(Clone, Copy, Debug, PartialEq, Eq, Structural)]
pub struct segment {
    pub start: u64,
    pub length: u64,
    pub offset: u64,
    pub xmode_mask: u8,
    pub mapped: bool,
    pub cached: bool,
}

/// The CPU registers in the order the hardware lists them.
pub open spec fn vr4300_register_order() -> Seq<vr4300_register> {
    seq![
        vr4300_register::VR4300_REGISTER_R0,
        vr4300_register::VR4300_REGISTER_AT,
        vr4300_register::VR4300_REGISTER_V0,
        vr4300_register::VR4300_REGISTER_V1,
        vr4300_register::VR4300_REGISTER_A0,
        vr4300_register::VR4300_REGISTER_A1,
        vr4300_register::VR4300_REGISTER_A2,
        vr4300_register::VR4300_REGISTER_A3,
        vr4300_register::VR4300_REGISTER_T0,
        vr4300_register::VR4300_REGISTER_T1,
        vr4300_register::VR4300_REGISTER_T2,
        vr4300_register::VR4300_REGISTER_T3,
        vr4300_register::VR4300_REGISTER_T4,
        vr4300_register::VR4300_REGISTER_T5,
        vr4300_register::VR4300_REGISTER_T6,
        vr4300_register::VR4300_REGISTER_T7,
        vr4300_register::VR4300_REGISTER_S0,
        vr4300_register::VR4300_REGISTER_S1,
        vr4300_register::VR4300_REGISTER_S2,
        vr4300_register::VR4300_REGISTER_S3,
        vr4300_register::VR4300_REGISTER_S4,
        vr4300_register::VR4300_REGISTER_S5,
        vr4300_register::VR4300_REGISTER_S6,
        vr4300_register::VR4300_REGISTER_S7,
        vr4300_register::VR4300_REGISTER_T8,
        vr4300_register::VR4300_REGISTER_T9,
        vr4300_register::VR4300_REGISTER_K0,
        vr4300_register::VR4300_REGISTER_K1,
        vr4300_register::VR4300_REGISTER_GP,
        vr4300_register::VR4300_REGISTER_SP,
        vr4300_register::VR4300_REGISTER_FP,
        vr4300_register::VR4300_REGISTER_RA,
        vr4300_register::VR4300_REGISTER_CP0_0,
        vr4300_register::VR4300_REGISTER_CP0_31,
        vr4300_register::VR4300_REGISTER_CP1_0,
        vr4300_register::VR4300_REGISTER_CP1_31,
        vr4300_register::VR4300_REGISTER_HI,
        vr4300_register::VR4300_REGISTER_LO,
        vr4300_register::VR4300_CP1_FCR0,
        vr4300_register::VR4300_CP1_FCR31,
        vr4300_register::PIPELINE_CYCLE_TYPE,
        vr4300_register::NUM_VR4300_REGISTERS,
    ]
}

/// The general purpose registers take slots 0 to 31 in their order; the CP0
/// registers take slots 32 to 63 and the CP1 registers 64 to 95; HI, LO, the
/// two FPU control registers and the pipeline cycle type follow from 96 on in
/// their order, and the count of registers comes last, at 101. The order holds
/// every register.
pub proof fn lemma_vr4300_register_slots(r: vr4300_register)
    ensures
        vr4300_register_order().len() == 42,
        forall|i: int| 0 <= i < 32 ==> #[trigger] vr4300_register_index(vr4300_register_order()[i]) == i,
        forall|i: int| 36 <= i < 42 ==> #[trigger] vr4300_register_index(vr4300_register_order()[i]) == i + 60,
        vr4300_register_index(vr4300_register::VR4300_REGISTER_CP0_0) == 32,
        vr4300_register_index(vr4300_register::VR4300_REGISTER_CP0_31) == 32 + 31,
        vr4300_register_index(vr4300_register::VR4300_REGISTER_CP1_0) == 64,
        vr4300_register_index(vr4300_register::VR4300_REGISTER_CP1_31) == 64 + 31,
        exists|i: int| 0 <= i < 42 && vr4300_register_order()[i] == r,
{
    assert(vr4300_register_order()[vr4300_register_order_position(r)] == r);
}

/// Where a register stands in the order.
pub open spec fn vr4300_register_order_position(r: vr4300_register) -> int {
    let i = vr4300_register_index(r);
    if i < 33 { i } else if i == 63 { 33 } else if i == 64 { 34 } else if i == 95 { 35 } else { i - 60 }
}

/// The faults in the order the hardware lists them.
pub open spec fn vr4300_fault_id_order() -> Seq<vr4300_fault_id> {
    seq![
        vr4300_fault_id::NoFault,
        vr4300_fault_id::Interrupt,
    ]
}

/// The faults are numbered by their position in the C core's list.
pub proof fn lemma_vr4300_fault_id_numbered_in_order(f: vr4300_fault_id)
    ensures
        vr4300_fault_id_order().len() == 2,
        forall|i: int| 0 <= i < 2 ==> #[trigger] vr4300_fault_id_code(vr4300_fault_id_order()[i]) as int == i,
        vr4300_fault_id_order()[vr4300_fault_id_code(f) as int] == f,
{
}

/// The kinds of bus request are numbered 0, 1 and 2 for none, read and write,
/// and 4 and 5 for the cache operations, without a duplicate.
pub proof fn lemma_vr4300_bus_request_type_codes(a: vr4300_bus_request_type, b: vr4300_bus_request_type)
    ensures
        vr4300_bus_request_type_code(vr4300_bus_request_type::NoRequest) == 0,
        vr4300_bus_request_type_code(vr4300_bus_request_type::Read) == 1,
        vr4300_bus_request_type_code(vr4300_bus_request_type::Write) == 2,
        vr4300_bus_request_type_code(vr4300_bus_request_type::Cache) == 4,
        vr4300_bus_request_type_code(vr4300_bus_request_type::CacheWrite) == 5,
        vr4300_bus_request_type_code(a) == vr4300_bus_request_type_code(b) ==> a == b,
{
}

/// A word access is numbered 32 (bit 5 set) and a double-word access 0.
pub proof fn lemma_vr4300_access_type_codes(a: vr4300_access_type)
    ensures
        vr4300_access_type_code(vr4300_access_type::Word) == 1u32 << 5u32,
        vr4300_access_type_code(vr4300_access_type::DWord) == 0,
        vr4300_access_type_code(a) == 0 <==> a == vr4300_access_type::DWord,
{
    assert(1u32 << 5u32 == 32u32) by (bit_vector);
}

/// The format field of a floating-point instruction: 16 for single and 17 for
/// double precision, 20 for a 32-bit and 21 for a 64-bit fixed-point value;
/// distinct formats have distinct codes.
pub proof fn lemma_vr4300_fmt_codes(a: vr4300_fmt, b: vr4300_fmt)
    ensures
        vr4300_fmt_code(vr4300_fmt::S) == 16,
        vr4300_fmt_code(vr4300_fmt::D) == 17,
        vr4300_fmt_code(vr4300_fmt::W) == 20,
        vr4300_fmt_code(vr4300_fmt::L) == 21,
        vr4300_fmt_code(a) == vr4300_fmt_code(b) ==> a == b,
{
}

} // verus!
