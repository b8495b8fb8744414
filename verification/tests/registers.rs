use cen64_rs::ai::{ai_register, NUM_AI_REGISTERS};
use cen64_rs::allocator::{memory_access, MemoryAccess};
use cen64_rs::pi::{flashram_mode, pi_register, pi_status, NUM_PI_REGISTERS};
use cen64_rs::rdp::{dp_register, NUM_DP_REGISTERS};
use cen64_rs::ri::{rdram_register, ri_register, MAX_RDRAM_SIZE, MAX_RDRAM_SIZE_MASK, NUM_RDRAM_REGISTERS, NUM_RI_REGISTERS};
use cen64_rs::rsp::{rsp_register, rsp_vector_opcode, sp_register, NUM_RSP_REGISTERS, NUM_SP_REGISTERS};
use cen64_rs::si::{si_register, NUM_SI_REGISTERS};
use cen64_rs::vi::{vi_register, NUM_VI_REGISTERS};
use cen64_rs::vr4300::{
    vr4300_access_type, vr4300_bus_request_type, vr4300_fault_id, vr4300_fmt, vr4300_register,
    NUM_VR4300_REGISTERS,
};

#[test]
fn audio_registers_have_their_slots() {
    assert_eq!(ai_register::AI_DRAM_ADDR_REG.index(), 0);
    assert_eq!(ai_register::AI_STATUS_REG.index(), 3);
    assert_eq!(ai_register::AI_BITRATE_REG.index(), 5);
    assert_eq!(ai_register::NUM_AI_REGISTERS.index(), NUM_AI_REGISTERS);
}

#[test]
fn interface_registers_have_their_slots() {
    assert_eq!(pi_register::PI_STATUS_REG.index(), 4);
    assert_eq!(pi_register::PI_BSD_DOM2_RLS_REG.index(), 12);
    assert_eq!(pi_register::NUM_PI_REGISTERS.index(), NUM_PI_REGISTERS);
    assert_eq!(dp_register::DPC_TMEM_REG.index(), 7);
    assert_eq!(dp_register::NUM_DP_REGISTERS.index(), NUM_DP_REGISTERS);
    assert_eq!(rdram_register::RDRAM_ADDR_SELECT_REG.index(), 8);
    assert_eq!(rdram_register::NUM_RDRAM_REGISTERS.index(), NUM_RDRAM_REGISTERS);
    assert_eq!(ri_register::RI_WERROR_REG.index(), 7);
    assert_eq!(ri_register::NUM_RI_REGISTERS.index(), NUM_RI_REGISTERS);
    assert_eq!(si_register::SI_STATUS_REG.index(), 6);
    assert_eq!(si_register::NUM_SI_REGISTERS.index(), NUM_SI_REGISTERS);
    assert_eq!(vi_register::VI_ORIGIN_REG.index(), 1);
    assert_eq!(vi_register::VI_Y_SCALE_REG.index(), 13);
    assert_eq!(vi_register::NUM_VI_REGISTERS.index(), NUM_VI_REGISTERS);
}

#[test]
fn signal_processor_registers_have_their_slots() {
    assert_eq!(sp_register::SP_SEMAPHORE_REG.index(), 7);
    assert_eq!(sp_register::NUM_SP_REGISTERS.index(), NUM_SP_REGISTERS);
    assert_eq!(rsp_register::RSP_REGISTER_RA.index(), 31);
    assert_eq!(rsp_register::RSP_REGISTER_CP0_0.index(), 32);
    assert_eq!(rsp_register::RSP_REGISTER_CP0_7.index(), 39);
    assert_eq!(rsp_register::NUM_RSP_REGISTERS.index(), NUM_RSP_REGISTERS);
}

#[test]
fn cpu_registers_have_their_slots() {
    assert_eq!(vr4300_register::VR4300_REGISTER_R0.index(), 0);
    assert_eq!(vr4300_register::VR4300_REGISTER_RA.index(), 31);
    assert_eq!(vr4300_register::VR4300_REGISTER_CP0_0.index(), 32);
    assert_eq!(vr4300_register::VR4300_REGISTER_CP0_31.index(), 63);
    assert_eq!(vr4300_register::VR4300_REGISTER_CP1_0.index(), 64);
    assert_eq!(vr4300_register::VR4300_REGISTER_CP1_31.index(), 95);
    assert_eq!(vr4300_register::VR4300_REGISTER_HI.index(), 96);
    assert_eq!(vr4300_register::VR4300_REGISTER_LO.index(), 97);
    assert_eq!(vr4300_register::VR4300_CP1_FCR0.index(), 98);
    assert_eq!(vr4300_register::VR4300_CP1_FCR31.index(), 99);
    assert_eq!(vr4300_register::PIPELINE_CYCLE_TYPE.index(), 100);
    assert_eq!(vr4300_register::NUM_VR4300_REGISTERS.index(), NUM_VR4300_REGISTERS);
}

#[test]
fn distinct_registers_have_distinct_slots() {
    let all = [
        ai_register::AI_DRAM_ADDR_REG,
        ai_register::AI_LEN_REG,
        ai_register::AI_CONTROL_REG,
        ai_register::AI_STATUS_REG,
        ai_register::AI_DACRATE_REG,
        ai_register::AI_BITRATE_REG,
    ];
    for (i, a) in all.iter().enumerate() {
        for (j, b) in all.iter().enumerate() {
            assert_eq!(i == j, a.index() == b.index());
        }
        assert!(a.index() < NUM_AI_REGISTERS);
    }
}

#[test]
fn vector_opcodes_have_their_identifiers() {
    assert_eq!(rsp_vector_opcode::VINVALID.id(), 0);
    assert_eq!(rsp_vector_opcode::VABS.id(), 1);
    assert_eq!(rsp_vector_opcode::VMOV.id(), 18);
    assert_eq!(rsp_vector_opcode::VXOR.id(), 45);
}

#[test]
fn status_and_mode_numbers() {
    assert_eq!(pi_status::PI_STATUS_DMA_BUSY.mask(), 1);
    assert_eq!(pi_status::PI_STATUS_IO_BUSY.mask(), 2);
    assert_eq!(pi_status::PI_STATUS_ERROR.mask(), 4);
    assert_eq!(pi_status::PI_STATUS_INTERRUPT.mask(), 8);
    assert_eq!(pi_status::PI_STATUS_DMA_BUSY.mask() & pi_status::PI_STATUS_ERROR.mask(), 0);
    assert_eq!(flashram_mode::FLASHRAM_IDLE.code(), 0);
    assert_eq!(flashram_mode::FLASHRAM_STATUS.code(), 4);
    assert_eq!(vr4300_fault_id::NoFault.code(), 0);
    assert_eq!(vr4300_fault_id::Interrupt.code(), 1);
    assert_eq!(vr4300_bus_request_type::Cache.code(), 4);
    assert_eq!(vr4300_bus_request_type::CacheWrite.code(), 5);
    assert_eq!(vr4300_access_type::Word.code(), 32);
    assert_eq!(vr4300_access_type::DWord.code(), 0);
    assert_eq!(vr4300_fmt::S.code(), 16);
    assert_eq!(vr4300_fmt::D.code(), 17);
    assert_eq!(vr4300_fmt::W.code(), 20);
    assert_eq!(vr4300_fmt::L.code(), 21);
}

#[test]
fn rdram_mask_wraps_addresses() {
    assert_eq!(MAX_RDRAM_SIZE_MASK, MAX_RDRAM_SIZE - 1);
    assert_eq!(0x0123_4567usize & MAX_RDRAM_SIZE_MASK, 0x0023_4567);
    assert_eq!(0x0123_4567usize & MAX_RDRAM_SIZE_MASK, 0x0123_4567usize % MAX_RDRAM_SIZE);
    assert_eq!(0x007F_FFFFusize & MAX_RDRAM_SIZE_MASK, 0x007F_FFFF);
    assert_eq!(0x0080_0000usize & MAX_RDRAM_SIZE_MASK, 0);
}

#[test]
fn device_memory_access_rights() {
    assert_eq!(memory_access(false), MemoryAccess::ReadWrite);
    assert_eq!(memory_access(true), MemoryAccess::ReadWriteExecute);
}
