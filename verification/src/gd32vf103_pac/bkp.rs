use vstd::prelude::*;

/// RTC signal output control register
pub mod octl;
/// Tamper control and status register
pub mod tpcs;
/// Tamper pin control register
pub mod tpctl;

verus! {

/// Register block
pub struct RegisterBlock {
    /// 0x04 - Backup data register 0
    pub data0: DATA0,

    /// 0x08 - Backup data register 1
    pub data1: DATA1,

    /// 0x0c - Backup data register 2
    pub data2: DATA2,

    /// 0x10 - Backup data register 3
    pub data3: DATA3,

    /// 0x14 - Backup data register 4
    pub data4: DATA4,

    /// 0x18 - Backup data register 5
    pub data5: DATA5,

    /// 0x1c - Backup data register 6
    pub data6: DATA6,

    /// 0x20 - Backup data register 7
    pub data7: DATA7,

    /// 0x24 - Backup data register 8
    pub data8: DATA8,

    /// 0x28 - Backup data register 9
    pub data9: DATA9,

    /// 0x2c - RTC signal output control register
    pub octl: OCTL,

    /// 0x30 - Tamper pin control register
    pub tpctl: TPCTL,

    /// 0x34 - Tamper control and status register
    pub tpcs: TPCS,

    /// 0x40 - Backup data register 10
    pub data10: DATA10,

    /// 0x44 - Backup data register 11
    pub data11: DATA11,

    /// 0x48 - Backup data register 12
    pub data12: DATA12,

    /// 0x4c - Backup data register 13
    pub data13: DATA13,

    /// 0x50 - Backup data register 14
    pub data14: DATA14,

    /// 0x54 - Backup data register 15
    pub data15: DATA15,

    /// 0x58 - Backup data register 16
    pub data16: DATA16,

    /// 0x5c - Backup data register 17
    pub data17: DATA17,

    /// 0x60 - Backup data register 18
    pub data18: DATA18,

    /// 0x64 - Backup data register 19
    pub data19: DATA19,

    /// 0x68 - Backup data register 20
    pub data20: DATA20,

    /// 0x6c - Backup data register 21
    pub data21: DATA21,

    /// 0x70 - Backup data register 22
    pub data22: DATA22,

    /// 0x74 - Backup data register 23
    pub data23: DATA23,

    /// 0x78 - Backup data register 24
    pub data24: DATA24,

    /// 0x7c - Backup data register 25
    pub data25: DATA25,

    /// 0x80 - Backup data register 26
    pub data26: DATA26,

    /// 0x84 - Backup data register 27
    pub data27: DATA27,

    /// 0x88 - Backup data register 28
    pub data28: DATA28,

    /// 0x8c - Backup data register 29
    pub data29: DATA29,

    /// 0x90 - Backup data register 30
    pub data30: DATA30,

    /// 0x94 - Backup data register 31
    pub data31: DATA31,

    /// 0x98 - Backup data register 32
    pub data32: DATA32,

    /// 0x9c - Backup data register 33
    pub data33: DATA33,

    /// 0xa0 - Backup data register 34
    pub data34: DATA34,

    /// 0xa4 - Backup data register 35
    pub data35: DATA35,

    /// 0xa8 - Backup data register 36
    pub data36: DATA36,

    /// 0xac - Backup data register 37
    pub data37: DATA37,

    /// 0xb0 - Backup data register 38
    pub data38: DATA38,

    /// 0xb4 - Backup data register 39
    pub data39: DATA39,

    /// 0xb8 - Backup data register 40
    pub data40: DATA40,

    /// 0xbc - Backup data register 41
    pub data41: DATA41,
}

/// Backup data register 0
pub type DATA0 = crate::gd32vf103_pac::generic::Reg<u16, _DATA0>;

/// Names register DATA0.
pub struct _DATA0;

/// Register DATA0 can be read.
impl crate::gd32vf103_pac::generic::Readable for DATA0 {

}

/// Register DATA0 can be written.
impl crate::gd32vf103_pac::generic::Writable for DATA0 {

}

/// Backup data register 1
pub type DATA1 = crate::gd32vf103_pac::generic::Reg<u16, _DATA1>;

/// Names register DATA1.
pub struct _DATA1;

/// Register DATA1 can be read.
impl crate::gd32vf103_pac::generic::Readable for DATA1 {

}

/// Register DATA1 can be written.
impl crate::gd32vf103_pac::generic::Writable for DATA1 {

}

/// Backup data register 2
pub type DATA2 = crate::gd32vf103_pac::generic::Reg<u16, _DATA2>;

/// Names register DATA2.
pub struct _DATA2;

/// Register DATA2 can be read.
impl crate::gd32vf103_pac::generic::Readable for DATA2 {

}

/// Register DATA2 can be written.
impl crate::gd32vf103_pac::generic::Writable for DATA2 {

}

/// Backup data register 3
pub type DATA3 = crate::gd32vf103_pac::generic::Reg<u16, _DATA3>;

/// Names register DATA3.
pub struct _DATA3;

/// Register DATA3 can be read.
impl crate::gd32vf103_pac::generic::Readable for DATA3 {

}

/// Register DATA3 can be written.
impl crate::gd32vf103_pac::generic::Writable for DATA3 {

}

/// Backup data register 4
pub type DATA4 = crate::gd32vf103_pac::generic::Reg<u16, _DATA4>;

/// Names register DATA4.
pub struct _DATA4;

/// Register DATA4 can be read.
impl crate::gd32vf103_pac::generic::Readable for DATA4 {

}

/// Register DATA4 can be written.
impl crate::gd32vf103_pac::generic::Writable for DATA4 {

}

/// Backup data register 5
pub type DATA5 = crate::gd32vf103_pac::generic::Reg<u16, _DATA5>;

/// Names register DATA5.
pub struct _DATA5;

/// Register DATA5 can be read.
impl crate::gd32vf103_pac::generic::Readable for DATA5 {

}

/// Register DATA5 can be written.
impl crate::gd32vf103_pac::generic::Writable for DATA5 {

}

/// Backup data register 6
pub type DATA6 = crate::gd32vf103_pac::generic::Reg<u16, _DATA6>;

/// Names register DATA6.
pub struct _DATA6;

/// Register DATA6 can be read.
impl crate::gd32vf103_pac::generic::Readable for DATA6 {

}

/// Register DATA6 can be written.
impl crate::gd32vf103_pac::generic::Writable for DATA6 {

}

/// Backup data register 7
pub type DATA7 = crate::gd32vf103_pac::generic::Reg<u16, _DATA7>;

/// Names register DATA7.
pub struct _DATA7;

/// Register DATA7 can be read.
impl crate::gd32vf103_pac::generic::Readable for DATA7 {

}

/// Register DATA7 can be written.
impl crate::gd32vf103_pac::generic::Writable for DATA7 {

}

/// Backup data register 8
pub type DATA8 = crate::gd32vf103_pac::generic::Reg<u16, _DATA8>;

/// Names register DATA8.
pub struct _DATA8;

/// Register DATA8 can be read.
impl crate::gd32vf103_pac::generic::Readable for DATA8 {

}

/// Register DATA8 can be written.
impl crate::gd32vf103_pac::generic::Writable for DATA8 {

}

/// Backup data register 9
pub type DATA9 = crate::gd32vf103_pac::generic::Reg<u16, _DATA9>;

/// Names register DATA9.
pub struct _DATA9;

/// Register DATA9 can be read.
impl crate::gd32vf103_pac::generic::Readable for DATA9 {

}

/// Register DATA9 can be written.
impl crate::gd32vf103_pac::generic::Writable for DATA9 {

}

/// Backup data register 10
pub type DATA10 = crate::gd32vf103_pac::generic::Reg<u16, _DATA10>;

/// Names register DATA10.
pub struct _DATA10;

/// Register DATA10 can be read.
impl crate::gd32vf103_pac::generic::Readable for DATA10 {

}

/// Register DATA10 can be written.
impl crate::gd32vf103_pac::generic::Writable for DATA10 {

}

/// Backup data register 11
pub type DATA11 = crate::gd32vf103_pac::generic::Reg<u16, _DATA11>;

/// Names register DATA11.
pub struct _DATA11;

/// Register DATA11 can be read.
impl crate::gd32vf103_pac::generic::Readable for DATA11 {

}

/// Register DATA11 can be written.
impl crate::gd32vf103_pac::generic::Writable for DATA11 {

}

/// Backup data register 12
pub type DATA12 = crate::gd32vf103_pac::generic::Reg<u16, _DATA12>;

/// Names register DATA12.
pub struct _DATA12;

/// Register DATA12 can be read.
impl crate::gd32vf103_pac::generic::Readable for DATA12 {

}

/// Register DATA12 can be written.
impl crate::gd32vf103_pac::generic::Writable for DATA12 {

}

/// Backup data register 13
pub type DATA13 = crate::gd32vf103_pac::generic::Reg<u16, _DATA13>;

/// Names register DATA13.
pub struct _DATA13;

/// Register DATA13 can be read.
impl crate::gd32vf103_pac::generic::Readable for DATA13 {

}

/// Register DATA13 can be written.
impl crate::gd32vf103_pac::generic::Writable for DATA13 {

}

/// Backup data register 14
pub type DATA14 = crate::gd32vf103_pac::generic::Reg<u16, _DATA14>;

/// Names register DATA14.
pub struct _DATA14;

/// Register DATA14 can be read.
impl crate::gd32vf103_pac::generic::Readable for DATA14 {

}

/// Register DATA14 can be written.
impl crate::gd32vf103_pac::generic::Writable for DATA14 {

}

/// Backup data register 15
pub type DATA15 = crate::gd32vf103_pac::generic::Reg<u16, _DATA15>;

/// Names register DATA15.
pub struct _DATA15;

/// Register DATA15 can be read.
impl crate::gd32vf103_pac::generic::Readable for DATA15 {

}

/// Register DATA15 can be written.
impl crate::gd32vf103_pac::generic::Writable for DATA15 {

}

/// Backup data register 16
pub type DATA16 = crate::gd32vf103_pac::generic::Reg<u16, _DATA16>;

/// Names register DATA16.
pub struct _DATA16;

/// Register DATA16 can be read.
impl crate::gd32vf103_pac::generic::Readable for DATA16 {

}

/// Register DATA16 can be written.
impl crate::gd32vf103_pac::generic::Writable for DATA16 {

}

/// Backup data register 17
pub type DATA17 = crate::gd32vf103_pac::generic::Reg<u16, _DATA17>;

/// Names register DATA17.
pub struct _DATA17;

/// Register DATA17 can be read.
impl crate::gd32vf103_pac::generic::Readable for DATA17 {

}

/// Register DATA17 can be written.
impl crate::gd32vf103_pac::generic::Writable for DATA17 {

}

/// Backup data register 18
pub type DATA18 = crate::gd32vf103_pac::generic::Reg<u16, _DATA18>;

/// Names register DATA18.
pub struct _DATA18;

/// Register DATA18 can be read.
impl crate::gd32vf103_pac::generic::Readable for DATA18 {

}

/// Register DATA18 can be written.
impl crate::gd32vf103_pac::generic::Writable for DATA18 {

}

/// Backup data register 19
pub type DATA19 = crate::gd32vf103_pac::generic::Reg<u16, _DATA19>;

/// Names register DATA19.
pub struct _DATA19;

/// Register DATA19 can be read.
impl crate::gd32vf103_pac::generic::Readable for DATA19 {

}

/// Register DATA19 can be written.
impl crate::gd32vf103_pac::generic::Writable for DATA19 {

}

/// Backup data register 20
pub type DATA20 = crate::gd32vf103_pac::generic::Reg<u16, _DATA20>;

/// Names register DATA20.
pub struct _DATA20;

/// Register DATA20 can be read.
impl crate::gd32vf103_pac::generic::Readable for DATA20 {

}

/// Register DATA20 can be written.
impl crate::gd32vf103_pac::generic::Writable for DATA20 {

}

/// Backup data register 21
pub type DATA21 = crate::gd32vf103_pac::generic::Reg<u16, _DATA21>;

/// Names register DATA21.
pub struct _DATA21;

/// Register DATA21 can be read.
impl crate::gd32vf103_pac::generic::Readable for DATA21 {

}

/// Register DATA21 can be written.
impl crate::gd32vf103_pac::generic::Writable for DATA21 {

}

/// Backup data register 22
pub type DATA22 = crate::gd32vf103_pac::generic::Reg<u16, _DATA22>;

/// Names register DATA22.
pub struct _DATA22;

/// Register DATA22 can be read.
impl crate::gd32vf103_pac::generic::Readable for DATA22 {

}

/// Register DATA22 can be written.
impl crate::gd32vf103_pac::generic::Writable for DATA22 {

}

/// Backup data register 23
pub type DATA23 = crate::gd32vf103_pac::generic::Reg<u16, _DATA23>;

/// Names register DATA23.
pub struct _DATA23;

/// Register DATA23 can be read.
impl crate::gd32vf103_pac::generic::Readable for DATA23 {

}

/// Register DATA23 can be written.
impl crate::gd32vf103_pac::generic::Writable for DATA23 {

}

/// Backup data register 24
pub type DATA24 = crate::gd32vf103_pac::generic::Reg<u16, _DATA24>;

/// Names register DATA24.
pub struct _DATA24;

/// Register DATA24 can be read.
impl crate::gd32vf103_pac::generic::Readable for DATA24 {

}

/// Register DATA24 can be written.
impl crate::gd32vf103_pac::generic::Writable for DATA24 {

}

/// Backup data register 25
pub type DATA25 = crate::gd32vf103_pac::generic::Reg<u16, _DATA25>;

/// Names register DATA25.
pub struct _DATA25;

/// Register DATA25 can be read.
impl crate::gd32vf103_pac::generic::Readable for DATA25 {

}

/// Register DATA25 can be written.
impl crate::gd32vf103_pac::generic::Writable for DATA25 {

}

/// Backup data register 26
pub type DATA26 = crate::gd32vf103_pac::generic::Reg<u16, _DATA26>;

/// Names register DATA26.
pub struct _DATA26;

/// Register DATA26 can be read.
impl crate::gd32vf103_pac::generic::Readable for DATA26 {

}

/// Register DATA26 can be written.
impl crate::gd32vf103_pac::generic::Writable for DATA26 {

}

/// Backup data register 27
pub type DATA27 = crate::gd32vf103_pac::generic::Reg<u16, _DATA27>;

/// Names register DATA27.
pub struct _DATA27;

/// Register DATA27 can be read.
impl crate::gd32vf103_pac::generic::Readable for DATA27 {

}

/// Register DATA27 can be written.
impl crate::gd32vf103_pac::generic::Writable for DATA27 {

}

/// Backup data register 28
pub type DATA28 = crate::gd32vf103_pac::generic::Reg<u16, _DATA28>;

/// Names register DATA28.
pub struct _DATA28;

/// Register DATA28 can be read.
impl crate::gd32vf103_pac::generic::Readable for DATA28 {

}

/// Register DATA28 can be written.
impl crate::gd32vf103_pac::generic::Writable for DATA28 {

}

/// Backup data register 29
pub type DATA29 = crate::gd32vf103_pac::generic::Reg<u16, _DATA29>;

/// Names register DATA29.
pub struct _DATA29;

/// Register DATA29 can be read.
impl crate::gd32vf103_pac::generic::Readable for DATA29 {

}

/// Register DATA29 can be written.
impl crate::gd32vf103_pac::generic::Writable for DATA29 {

}

/// Backup data register 30
pub type DATA30 = crate::gd32vf103_pac::generic::Reg<u16, _DATA30>;

/// Names register DATA30.
pub struct _DATA30;

/// Register DATA30 can be read.
impl crate::gd32vf103_pac::generic::Readable for DATA30 {

}

/// Register DATA30 can be written.
impl crate::gd32vf103_pac::generic::Writable for DATA30 {

}

/// Backup data register 31
pub type DATA31 = crate::gd32vf103_pac::generic::Reg<u16, _DATA31>;

/// Names register DATA31.
pub struct _DATA31;

/// Register DATA31 can be read.
impl crate::gd32vf103_pac::generic::Readable for DATA31 {

}

/// Register DATA31 can be written.
impl crate::gd32vf103_pac::generic::Writable for DATA31 {

}

/// Backup data register 32
pub type DATA32 = crate::gd32vf103_pac::generic::Reg<u16, _DATA32>;

/// Names register DATA32.
pub struct _DATA32;

/// Register DATA32 can be read.
impl crate::gd32vf103_pac::generic::Readable for DATA32 {

}

/// Register DATA32 can be written.
impl crate::gd32vf103_pac::generic::Writable for DATA32 {

}

/// Backup data register 33
pub type DATA33 = crate::gd32vf103_pac::generic::Reg<u16, _DATA33>;

/// Names register DATA33.
pub struct _DATA33;

/// Register DATA33 can be read.
impl crate::gd32vf103_pac::generic::Readable for DATA33 {

}

/// Register DATA33 can be written.
impl crate::gd32vf103_pac::generic::Writable for DATA33 {

}

/// Backup data register 34
pub type DATA34 = crate::gd32vf103_pac::generic::Reg<u16, _DATA34>;

/// Names register DATA34.
pub struct _DATA34;

/// Register DATA34 can be read.
impl crate::gd32vf103_pac::generic::Readable for DATA34 {

}

/// Register DATA34 can be written.
impl crate::gd32vf103_pac::generic::Writable for DATA34 {

}

/// Backup data register 35
pub type DATA35 = crate::gd32vf103_pac::generic::Reg<u16, _DATA35>;

/// Names register DATA35.
pub struct _DATA35;

/// Register DATA35 can be read.
impl crate::gd32vf103_pac::generic::Readable for DATA35 {

}

/// Register DATA35 can be written.
impl crate::gd32vf103_pac::generic::Writable for DATA35 {

}

/// Backup data register 36
pub type DATA36 = crate::gd32vf103_pac::generic::Reg<u16, _DATA36>;

/// Names register DATA36.
pub struct _DATA36;

/// Register DATA36 can be read.
impl crate::gd32vf103_pac::generic::Readable for DATA36 {

}

/// Register DATA36 can be written.
impl crate::gd32vf103_pac::generic::Writable for DATA36 {

}

/// Backup data register 37
pub type DATA37 = crate::gd32vf103_pac::generic::Reg<u16, _DATA37>;

/// Names register DATA37.
pub struct _DATA37;

/// Register DATA37 can be read.
impl crate::gd32vf103_pac::generic::Readable for DATA37 {

}

/// Register DATA37 can be written.
impl crate::gd32vf103_pac::generic::Writable for DATA37 {

}

/// Backup data register 38
pub type DATA38 = crate::gd32vf103_pac::generic::Reg<u16, _DATA38>;

/// Names register DATA38.
pub struct _DATA38;

/// Register DATA38 can be read.
impl crate::gd32vf103_pac::generic::Readable for DATA38 {

}

/// Register DATA38 can be written.
impl crate::gd32vf103_pac::generic::Writable for DATA38 {

}

/// Backup data register 39
pub type DATA39 = crate::gd32vf103_pac::generic::Reg<u16, _DATA39>;

/// Names register DATA39.
pub struct _DATA39;

/// Register DATA39 can be read.
impl crate::gd32vf103_pac::generic::Readable for DATA39 {

}

/// Register DATA39 can be written.
impl crate::gd32vf103_pac::generic::Writable for DATA39 {

}

/// Backup data register 40
pub type DATA40 = crate::gd32vf103_pac::generic::Reg<u16, _DATA40>;

/// Names register DATA40.
pub struct _DATA40;

/// Register DATA40 can be read.
impl crate::gd32vf103_pac::generic::Readable for DATA40 {

}

/// Register DATA40 can be written.
impl crate::gd32vf103_pac::generic::Writable for DATA40 {

}

/// Backup data register 41
pub type DATA41 = crate::gd32vf103_pac::generic::Reg<u16, _DATA41>;

/// Names register DATA41.
pub struct _DATA41;

/// Register DATA41 can be read.
impl crate::gd32vf103_pac::generic::Readable for DATA41 {

}

/// Register DATA41 can be written.
impl crate::gd32vf103_pac::generic::Writable for DATA41 {

}

/// RTC signal output control register
pub type OCTL = crate::gd32vf103_pac::generic::Reg<u16, _OCTL>;

/// Names register OCTL.
pub struct _OCTL;

/// Register OCTL can be read.
impl crate::gd32vf103_pac::generic::Readable for OCTL {

}

/// Register OCTL can be written.
impl crate::gd32vf103_pac::generic::Writable for OCTL {

}

/// Tamper pin control register
pub type TPCTL = crate::gd32vf103_pac::generic::Reg<u16, _TPCTL>;

/// Names register TPCTL.
pub struct _TPCTL;

/// Register TPCTL can be read.
impl crate::gd32vf103_pac::generic::Readable for TPCTL {

}

/// Register TPCTL can be written.
impl crate::gd32vf103_pac::generic::Writable for TPCTL {

}

/// Tamper control and status register
pub type TPCS = crate::gd32vf103_pac::generic::Reg<u16, _TPCS>;

/// Names register TPCS.
pub struct _TPCS;

/// Register TPCS can be read.
impl crate::gd32vf103_pac::generic::Readable for TPCS {

}

/// Register TPCS can be written.
impl crate::gd32vf103_pac::generic::Writable for TPCS {

}

} // verus!
