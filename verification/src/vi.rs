//! The video interface.

use vstd::prelude::*;

verus! {

/// Number of memory-mapped video interface registers.
pub const NUM_VI_REGISTERS: usize = 14;

/// The video interface registers.
#[derive(Clone, Copy, Debug, PartialEq, Eq, Structural)]
pub enum vi_register {
    VI_STATUS_REG,
    VI_ORIGIN_REG,
    VI_WIDTH_REG,
    VI_INTR_REG,
    VI_CURRENT_REG,
    VI_BURST_REG,
    VI_V_SYNC_REG,
    VI_H_SYNC_REG,
    VI_LEAP_REG,
    VI_H_START_REG,
    VI_V_START_REG,
    VI_V_BURST_REG,
    VI_X_SCALE_REG,
    VI_Y_SCALE_REG,
    NUM_VI_REGISTERS,
}

/// The slot of each register in the register file; the last name stands for
/// the number of registers.
pub open spec fn vi_register_index(r: vi_register) -> int {
    match r {
        vi_register::VI_STATUS_REG => 0,
        vi_register::VI_ORIGIN_REG => 1,
        vi_register::VI_WIDTH_REG => 2,
        vi_register::VI_INTR_REG => 3,
        vi_register::VI_CURRENT_REG => 4,
        vi_register::VI_BURST_REG => 5,
        vi_register::VI_V_SYNC_REG => 6,
        vi_register::VI_H_SYNC_REG => 7,
        vi_register::VI_LEAP_REG => 8,
        vi_register::VI_H_START_REG => 9,
        vi_register::VI_V_START_REG => 10,
        vi_register::VI_V_BURST_REG => 11,
        vi_register::VI_X_SCALE_REG => 12,
        vi_register::VI_Y_SCALE_REG => 13,
        vi_register::NUM_VI_REGISTERS => 14,
    }
}

impl vi_register {
    /// The register's slot in the register file.
    pub fn index(self) -> (r: usize)
        ensures
            r == vi_register_index(self),
            self != vi_register::NUM_VI_REGISTERS ==> r < NUM_VI_REGISTERS,
            self == vi_register::NUM_VI_REGISTERS ==> r == NUM_VI_REGISTERS,
    {
        match self {
            vi_register::VI_STATUS_REG => 0,
            vi_register::VI_ORIGIN_REG => 1,
            vi_register::VI_WIDTH_REG => 2,
            vi_register::VI_INTR_REG => 3,
            vi_register::VI_CURRENT_REG => 4,
            vi_register::VI_BURST_REG => 5,
            vi_register::VI_V_SYNC_REG => 6,
            vi_register::VI_H_SYNC_REG => 7,
            vi_register::VI_LEAP_REG => 8,
            vi_register::VI_H_START_REG => 9,
            vi_register::VI_V_START_REG => 10,
            vi_register::VI_V_BURST_REG => 11,
            vi_register::VI_X_SCALE_REG => 12,
            vi_register::VI_Y_SCALE_REG => 13,
            vi_register::NUM_VI_REGISTERS => 14,
        }
    }
}

/// Distinct registers have distinct slots.
pub proof fn lemma_vi_register_slots_distinct(a: vi_register, b: vi_register)
    requires
        vi_register_index(a) == vi_register_index(b),
    ensures
        a == b,
{
}
/// A span of the screen, from its first to its last line or column.
#[derive(Clone, Copy, Debug, PartialEq, Eq, Structural)]
pub struct render_area_bounds {
    pub start: u32,
    pub end: u32,
}

/// The part of the screen the video interface draws.
#[derive(Clone, Copy, Debug, PartialEq, Eq, Structural)]
pub struct render_area {
    pub x: render_area_bounds,
    pub y: render_area_bounds,
    pub height: u32,
    pub width: u32,
    pub hskip: i32,
}

/// The video interface registers in the order the hardware numbers them.
pub open spec fn vi_register_order() -> Seq<vi_register> {
    seq![
        vi_register::VI_STATUS_REG,
        vi_register::VI_ORIGIN_REG,
        vi_register::VI_WIDTH_REG,
        vi_register::VI_INTR_REG,
        vi_register::VI_CURRENT_REG,
        vi_register::VI_BURST_REG,
        vi_register::VI_V_SYNC_REG,
        vi_register::VI_H_SYNC_REG,
        vi_register::VI_LEAP_REG,
        vi_register::VI_H_START_REG,
        vi_register::VI_V_START_REG,
        vi_register::VI_V_BURST_REG,
        vi_register::VI_X_SCALE_REG,
        vi_register::VI_Y_SCALE_REG,
        vi_register::NUM_VI_REGISTERS,
    ]
}

/// Each video interface register is numbered by its position in the hardware's order, and
/// that order holds each of them.
pub proof fn lemma_vi_register_numbered_in_order(r: vi_register)
    ensures
        vi_register_order().len() == 15,
        forall|i: int| 0 <= i < 15 ==> #[trigger] vi_register_index(vi_register_order()[i]) == i,
        vi_register_order()[vi_register_index(r)] == r,
{
}

} // verus!
