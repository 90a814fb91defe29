//! The laws of `bitfield`, and of the register cells, on concrete values.
use lib::bitfield::{
    read_bit_u16, read_bit_u32, read_field_u16, read_field_u32, write_bit_u16, write_bit_u32,
    write_field_u16, write_field_u32,
};
use lib::cm32m4xxr_pac::generic as cm32_generic;
use lib::cm32m4xxr_pac::wwdg;
use lib::gd32vf103_pac::can0;
use lib::gd32vf103_pac::ctimer;

#[test]
fn read_after_write_gives_value() {
    let x: u32 = write_field_u32(0xffff_ffff, 4, 3, 5);
    assert_eq!(x, 0xffff_ffdf);
    assert_eq!(read_field_u32(x, 4, 3), 5);
}

#[test]
fn read_after_write_keeps_low_bits_of_wide_value() {
    let x: u32 = write_field_u32(0, 4, 3, 0xff);
    assert_eq!(x, 0x70);
    assert_eq!(read_field_u32(x, 4, 3), 7);
}

#[test]
fn write_keeps_other_fields() {
    let x: u32 = write_field_u32(0x1234_5678, 8, 4, 0xa);
    assert_eq!(x, 0x1234_5a78);
    assert_eq!(read_field_u32(x, 0, 8), 0x78);
    assert_eq!(read_field_u32(x, 12, 8), 0x45);
    assert_eq!(read_field_u32(x, 12, 20), 0x12345);
}

#[test]
fn write_keeps_other_bits() {
    let x: u32 = write_field_u32(0x8000_0001, 1, 30, 0);
    assert_eq!(x, 0x8000_0001);
    assert!(read_bit_u32(x, 0));
    assert!(read_bit_u32(x, 31));
}

#[test]
fn write_back_leaves_register_unchanged() {
    let x: u32 = 0xdead_beef;
    let v: u32 = read_field_u32(x, 13, 11);
    assert_eq!(write_field_u32(x, 13, 11, v), x);
}

#[test]
fn last_write_wins() {
    let once: u32 = write_field_u32(0x0f0f_0f0f, 16, 8, 0x44);
    let twice: u32 = write_field_u32(write_field_u32(0x0f0f_0f0f, 16, 8, 0x99), 16, 8, 0x44);
    assert_eq!(once, twice);
    assert_eq!(once, 0x0f44_0f0f);
}

#[test]
fn disjoint_writes_commute() {
    let a: u32 = write_field_u32(write_field_u32(0x5555_5555, 0, 4, 0xf), 28, 4, 0x0);
    let b: u32 = write_field_u32(write_field_u32(0x5555_5555, 28, 4, 0x0), 0, 4, 0xf);
    assert_eq!(a, b);
    assert_eq!(a, 0x0555_555f);
}

#[test]
fn bit_is_one_bit_field() {
    assert_eq!(write_bit_u32(0x10, 3, true), write_field_u32(0x10, 3, 1, 1));
    assert_eq!(write_bit_u32(0x18, 3, false), write_field_u32(0x18, 3, 1, 0));
    assert!(read_bit_u32(write_bit_u32(0, 31, true), 31));
    assert!(!read_bit_u32(write_bit_u32(0xffff_ffff, 0, false), 0));
    assert_eq!(read_bit_u32(0x20, 5), read_field_u32(0x20, 5, 1) == 1);
}

#[test]
fn bit_write_keeps_other_bits() {
    let x: u32 = write_bit_u32(0xa5a5_a5a5, 1, true);
    assert_eq!(x, 0xa5a5_a5a7);
    let y: u32 = write_bit_u32(0xa5a5_a5a5, 0, false);
    assert_eq!(y, 0xa5a5_a5a4);
}

#[test]
fn field_is_div_mod() {
    let x: u32 = 0x89ab_cdef;
    let mut offset: u32 = 0;
    while offset < 28 {
        let width: u32 = 4;
        assert_eq!(read_field_u32(x, offset, width), (x / 2u32.pow(offset)) % 2u32.pow(width));
        offset += 3;
    }
}

#[test]
fn sixteen_bit_fields() {
    let x: u16 = write_field_u16(0xffff, 8, 6, 0x12);
    assert_eq!(x, 0xd2ff);
    assert_eq!(read_field_u16(x, 8, 6), 0x12);
    assert_eq!(read_field_u16(x, 0, 8), 0xff);
    let y: u16 = write_bit_u16(0x0000, 15, true);
    assert_eq!(y, 0x8000);
    assert!(read_bit_u16(y, 15));
    assert!(!read_bit_u16(y, 14));
}

#[test]
fn register_cell_write_then_read() {
    let mut reg = can0::BT::new(0);
    let mut w = can0::BT::reset_writer();
    w.bits(0x1234_5678);
    reg.write(&w);
    assert_eq!(reg.read().bits(), 0x1234_5678);
}

#[test]
fn register_cell_modify_starts_from_contents() {
    let mut reg = can0::BT::new(0x0300_0000);
    let mut w = reg.modify_writer();
    w.baudpsc().bits(9);
    reg.write(&w);
    let r = reg.read();
    assert_eq!(r.sjw().bits(), 3);
    assert_eq!(r.baudpsc().bits(), 9);
    assert_eq!(r.bits(), 0x0300_0009);
}

#[test]
fn register_cell_write_starts_from_reset() {
    let mut reg = can0::BT::new(0xffff_ffff);
    let mut w = can0::BT::reset_writer();
    w.lcmod().set_bit().scmod().set_bit();
    reg.write(&w);
    assert_eq!(reg.read().bits(), 0xc123_0000);
    assert!(reg.read().lcmod().bit_is_set());
    assert!(reg.read().scmod().bit());
}

#[test]
fn register_cell_reset() {
    let mut reg = wwdg::WWDG_CFG::new(0x3ff);
    reg.reset();
    let r: wwdg::wwdg_cfg::R = reg.read();
    assert_eq!(r.bits(), 0x7f);
    assert_eq!(r.w().bits(), 0x7f);
    assert_eq!(r.timerb().bits(), 0);
    assert!(r.ewint().bit_is_clear());
}

#[test]
fn reader_and_writer_conversions() {
    let r: wwdg::wwdg_sts::R = cm32_generic::R::new(1).into();
    assert!(r.ewintf().bit());
    let mut w: wwdg::wwdg_ctrl::W = cm32_generic::W::new(0).into();
    w.t().bits(0x40).actb().set_bit();
    let mut reg = wwdg::WWDG_CTRL::new(0);
    reg.write(&w);
    assert_eq!(reg.read().bits(), 0xc0);
}

#[test]
fn register_block_cells() {
    let mut block = ctimer::RegisterBlock {
        mtime_lo: ctimer::MTIME_LO::new(0),
        mtime_hi: ctimer::MTIME_HI::new(0),
        mtimecmp_lo: ctimer::MTIMECMP_LO::new(0),
        mtimecmp_hi: ctimer::MTIMECMP_HI::new(0),
        mstop: ctimer::MSTOP::new(0),
        msip: ctimer::MSIP::new(0),
    };
    let mut w = block.mtimecmp_lo.modify_writer();
    w.bits(0x0001_86a0);
    block.mtimecmp_lo.write(&w);
    assert_eq!(block.mtimecmp_lo.read().bits(), 0x0001_86a0);
    assert_eq!(block.mtime_lo.read().bits(), 0);
}
