use cen64_rs::rsp::{get_el, get_rd, get_rs, get_rt, get_vd, get_vs, get_vt};

#[test]
fn scalar_fields_of_an_instruction_word() {
    let iw: u32 = 0x4AAA_F8C0;
    assert_eq!(get_rs(iw), 21);
    assert_eq!(get_rt(iw), 10);
    assert_eq!(get_rd(iw), 31);
}

#[test]
fn vector_fields_of_an_instruction_word() {
    let iw: u32 = 0x4AAA_F8C0;
    assert_eq!(get_vs(iw), 31);
    assert_eq!(get_vt(iw), 10);
    assert_eq!(get_vd(iw), 3);
    assert_eq!(get_el(iw), 1);
}

#[test]
fn fields_of_another_word() {
    let iw: u32 = 0x4A0F_3E1D;
    assert_eq!(get_rs(iw), 16);
    assert_eq!(get_rt(iw), 15);
    assert_eq!(get_rd(iw), 7);
    assert_eq!(get_vd(iw), 24);
    assert_eq!(get_el(iw), 12);
}

#[test]
fn fields_of_all_ones_are_at_their_maximum() {
    let iw: u32 = 0xFFFF_FFFF;
    assert_eq!(get_rs(iw), 31);
    assert_eq!(get_rt(iw), 31);
    assert_eq!(get_rd(iw), 31);
    assert_eq!(get_vd(iw), 31);
    assert_eq!(get_el(iw), 15);
}

#[test]
fn fields_of_zero_are_zero() {
    assert_eq!(get_rs(0), 0);
    assert_eq!(get_rt(0), 0);
    assert_eq!(get_rd(0), 0);
    assert_eq!(get_vs(0), 0);
    assert_eq!(get_vt(0), 0);
    assert_eq!(get_vd(0), 0);
    assert_eq!(get_el(0), 0);
}

#[test]
fn vector_fields_overlap_scalar_fields() {
    for iw in [0u32, 1, 0x4AAA_F8C0, 0x4A0F_3E1D, 0xDEAD_BEEF, 0x1234_5678, 0xFFFF_FFFF] {
        assert_eq!(get_vs(iw), get_rd(iw));
        assert_eq!(get_vt(iw), get_rt(iw));
        assert_eq!(get_el(iw), get_vd(iw) / 2);
    }
}

#[test]
fn a_single_field_is_isolated() {
    // only bits 21..25 set
    assert_eq!(get_rs(0x03E0_0000), 31);
    assert_eq!(get_rt(0x03E0_0000), 0);
    assert_eq!(get_rd(0x03E0_0000), 0);
    // only bits 6..10 set
    assert_eq!(get_vd(0x0000_07C0), 31);
    assert_eq!(get_el(0x0000_07C0), 15);
    assert_eq!(get_rd(0x0000_07C0), 0);
}
