use vstd::prelude::*;

/// Bit timing register
pub mod bt;
/// Control register
pub mod ctl;
/// Error register
pub mod err;
/// Filter 0 data 0 register
pub mod f0data0;
/// Filter associated FIFO register
pub mod fafifo;
/// Filter control register
pub mod fctl;
/// Filter mode configuration register
pub mod fmcfg;
/// Filter scale configuration register
pub mod fscfg;
/// Filter working register
pub mod fw;
/// Receive message FIFO0 register
pub mod rfifo0;
/// Receive message FIFO1 register
pub mod rfifo1;
/// Receive FIFO1 mailbox data0 register
pub mod rfifomdata01;
/// Receive FIFO1 mailbox data1 register
pub mod rfifomdata11;
/// Receive FIFO1 mailbox identifier register
pub mod rfifomi1;
/// Receive FIFO1 mailbox property register
pub mod rfifomp1;
/// Status register
pub mod stat;
/// Transmit mailbox data0 register
pub mod tmdata02;
/// Transmit mailbox data1 register
pub mod tmdata12;
/// Transmit mailbox identifier register 1
pub mod tmi1;
/// Transmit mailbox property register 1
pub mod tmp1;
/// Transmit status register
pub mod tstat;

verus! {

/// Register block
pub struct RegisterBlock {
    /// 0x00 - Control register
    pub ctl: CTL,

    /// 0x04 - Status register
    pub stat: STAT,

    /// 0x08 - Transmit status register
    pub tstat: TSTAT,

    /// 0x0c - Receive message FIFO0 register
    pub rfifo0: RFIFO0,

    /// 0x10 - Receive message FIFO1 register
    pub rfifo1: RFIFO1,

    /// 0x14 - Interrupt enable register
    pub inten: INTEN,

    /// 0x18 - Error register
    pub err: ERR,

    /// 0x1c - Bit timing register
    pub bt: BT,

    /// 0x180 - Transmit mailbox identifier register 0
    pub tmi0: TMI0,

    /// 0x184 - Transmit mailbox property register 0
    pub tmp0: TMP0,

    /// 0x188 - Transmit mailbox data0 register
    pub tmdata00: TMDATA00,

    /// 0x18c - Transmit mailbox data1 register
    pub tmdata10: TMDATA10,

    /// 0x190 - Transmit mailbox identifier register 1
    pub tmi1: TMI1,

    /// 0x194 - Transmit mailbox property register 1
    pub tmp1: TMP1,

    /// 0x198 - Transmit mailbox data0 register
    pub tmdata01: TMDATA01,

    /// 0x19c - Transmit mailbox data1 register
    pub tmdata11: TMDATA11,

    /// 0x1a0 - Transmit mailbox identifier register 2
    pub tmi2: TMI2,

    /// 0x1a4 - Transmit mailbox property register 2
    pub tmp2: TMP2,

    /// 0x1a8 - Transmit mailbox data0 register
    pub tmdata02: TMDATA02,

    /// 0x1ac - Transmit mailbox data1 register
    pub tmdata12: TMDATA12,

    /// 0x1b0 - Receive FIFO mailbox identifier register
    pub rfifomi0: RFIFOMI0,

    /// 0x1b4 - Receive FIFO0 mailbox property register
    pub rfifomp0: RFIFOMP0,

    /// 0x1b8 - Receive FIFO0 mailbox data0 register
    pub rfifomdata00: RFIFOMDATA00,

    /// 0x1bc - Receive FIFO0 mailbox data1 register
    pub rfifomdata10: RFIFOMDATA10,

    /// 0x1c0 - Receive FIFO1 mailbox identifier register
    pub rfifomi1: RFIFOMI1,

    /// 0x1c4 - Receive FIFO1 mailbox property register
    pub rfifomp1: RFIFOMP1,

    /// 0x1c8 - Receive FIFO1 mailbox data0 register
    pub rfifomdata01: RFIFOMDATA01,

    /// 0x1cc - Receive FIFO1 mailbox data1 register
    pub rfifomdata11: RFIFOMDATA11,

    /// 0x200 - Filter control register
    pub fctl: FCTL,

    /// 0x204 - Filter mode configuration register
    pub fmcfg: FMCFG,

    /// 0x20c - Filter scale configuration register
    pub fscfg: FSCFG,

    /// 0x214 - Filter associated FIFO register
    pub fafifo: FAFIFO,

    /// 0x21c - Filter working register
    pub fw: FW,

    /// 0x240 - Filter 0 data 0 register
    pub f0data0: F0DATA0,

    /// 0x244 - Filter 0 data 1 register
    pub f0data1: F0DATA1,

    /// 0x248 - Filter 1 data 0 register
    pub f1data0: F1DATA0,

    /// 0x24c - Filter 1 data 1 register
    pub f1data1: F1DATA1,

    /// 0x250 - Filter 2 data 0 register
    pub f2data0: F2DATA0,

    /// 0x254 - Filter 2 data 1 register
    pub f2data1: F2DATA1,

    /// 0x258 - Filter 3 data 0 register
    pub f3data0: F3DATA0,

    /// 0x25c - Filter 3 data 1 register
    pub f3data1: F3DATA1,

    /// 0x260 - Filter 4 data 0 register
    pub f4data0: F4DATA0,

    /// 0x264 - Filter 4 data 1 register
    pub f4data1: F4DATA1,

    /// 0x268 - Filter 5 data 0 register
    pub f5data0: F5DATA0,

    /// 0x26c - Filter 5 data 1 register
    pub f5data1: F5DATA1,

    /// 0x270 - Filter 6 data 0 register
    pub f6data0: F6DATA0,

    /// 0x274 - Filter 6 data 1 register
    pub f6data1: F6DATA1,

    /// 0x278 - Filter 7 data 0 register
    pub f7data0: F7DATA0,

    /// 0x27c - Filter 7 data 1 register
    pub f7data1: F7DATA1,

    /// 0x280 - Filter 8 data 0 register
    pub f8data0: F8DATA0,

    /// 0x284 - Filter 8 data 1 register
    pub f8data1: F8DATA1,

    /// 0x288 - Filter 9 data 0 register
    pub f9data0: F9DATA0,

    /// 0x28c - Filter 9 data 1 register
    pub f9data1: F9DATA1,

    /// 0x290 - Filter 10 data 0 register
    pub f10data0: F10DATA0,

    /// 0x294 - Filter 10 data 1 register
    pub f10data1: F10DATA1,

    /// 0x298 - Filter 11 data 0 register
    pub f11data0: F11DATA0,

    /// 0x29c - Filter 11 data 1 register
    pub f11data1: F11DATA1,

    /// 0x2a0 - Filter 12 data 0 register
    pub f12data0: F12DATA0,

    /// 0x2a4 - Filter 12 data 1 register
    pub f12data1: F12DATA1,

    /// 0x2a8 - Filter 13 data 0 register
    pub f13data0: F13DATA0,

    /// 0x2ac - Filter 13 data 1 register
    pub f13data1: F13DATA1,

    /// 0x2b0 - Filter 14 data 0 register
    pub f14data0: F14DATA0,

    /// 0x2b4 - Filter 14 data 1 register
    pub f14data1: F14DATA1,

    /// 0x2b8 - Filter 15 data 0 register
    pub f15data0: F15DATA0,

    /// 0x2bc - Filter 15 data 1 register
    pub f15data1: F15DATA1,

    /// 0x2c0 - Filter 16 data 0 register
    pub f16data0: F16DATA0,

    /// 0x2c4 - Filter 16 data 1 register
    pub f16data1: F16DATA1,

    /// 0x2c8 - Filter 17 data 0 register
    pub f17data0: F17DATA0,

    /// 0x2cc - Filter 17 data 1 register
    pub f17data1: F17DATA1,

    /// 0x2d0 - Filter 18 data 0 register
    pub f18data0: F18DATA0,

    /// 0x2d4 - Filter 18 data 1 register
    pub f18data1: F18DATA1,

    /// 0x2d8 - Filter 19 data 0 register
    pub f19data0: F19DATA0,

    /// 0x2dc - Filter 19 data 1 register
    pub f19data1: F19DATA1,

    /// 0x2e0 - Filter 20 data 0 register
    pub f20data0: F20DATA0,

    /// 0x2e4 - Filter 20 data 1 register
    pub f20data1: F20DATA1,

    /// 0x2e8 - Filter 21 data 0 register
    pub f21data0: F21DATA0,

    /// 0x2ec - Filter 21 data 1 register
    pub f21data1: F21DATA1,

    /// 0x2f0 - Filter 22 data 0 register
    pub f22data0: F22DATA0,

    /// 0x2f4 - Filter 22 data 1 register
    pub f22data1: F22DATA1,

    /// 0x2f8 - Filter 23 data 0 register
    pub f23data0: F23DATA0,

    /// 0x2fc - Filter 23 data 1 register
    pub f23data1: F23DATA1,

    /// 0x300 - Filter 24 data 0 register
    pub f24data0: F24DATA0,

    /// 0x304 - Filter 24 data 1 register
    pub f24data1: F24DATA1,

    /// 0x308 - Filter 25 data 0 register
    pub f25data0: F25DATA0,

    /// 0x30c - Filter 25 data 1 register
    pub f25data1: F25DATA1,

    /// 0x310 - Filter 26 data 0 register
    pub f26data0: F26DATA0,

    /// 0x314 - Filter 26 data 1 register
    pub f26data1: F26DATA1,

    /// 0x318 - Filter 27 data 0 register
    pub f27data0: F27DATA0,

    /// 0x31c - Filter 27 data 1 register
    pub f27data1: F27DATA1,
}

/// Control register
pub type CTL = crate::gd32vf103_pac::generic::Reg<u32, _CTL>;

/// Names register CTL.
pub struct _CTL;

/// Register CTL can be read.
impl crate::gd32vf103_pac::generic::Readable for CTL {

}

/// Register CTL can be written.
impl crate::gd32vf103_pac::generic::Writable for CTL {

}

/// Status register
pub type STAT = crate::gd32vf103_pac::generic::Reg<u32, _STAT>;

/// Names register STAT.
pub struct _STAT;

/// Register STAT can be read.
impl crate::gd32vf103_pac::generic::Readable for STAT {

}

/// Register STAT can be written.
impl crate::gd32vf103_pac::generic::Writable for STAT {

}

/// Transmit status register
pub type TSTAT = crate::gd32vf103_pac::generic::Reg<u32, _TSTAT>;

/// Names register TSTAT.
pub struct _TSTAT;

/// Register TSTAT can be read.
impl crate::gd32vf103_pac::generic::Readable for TSTAT {

}

/// Register TSTAT can be written.
impl crate::gd32vf103_pac::generic::Writable for TSTAT {

}

/// Receive message FIFO0 register
pub type RFIFO0 = crate::gd32vf103_pac::generic::Reg<u32, _RFIFO0>;

/// Names register RFIFO0.
pub struct _RFIFO0;

/// Register RFIFO0 can be read.
impl crate::gd32vf103_pac::generic::Readable for RFIFO0 {

}

/// Register RFIFO0 can be written.
impl crate::gd32vf103_pac::generic::Writable for RFIFO0 {

}

/// Receive message FIFO1 register
pub type RFIFO1 = crate::gd32vf103_pac::generic::Reg<u32, _RFIFO1>;

/// Names register RFIFO1.
pub struct _RFIFO1;

/// Register RFIFO1 can be read.
impl crate::gd32vf103_pac::generic::Readable for RFIFO1 {

}

/// Register RFIFO1 can be written.
impl crate::gd32vf103_pac::generic::Writable for RFIFO1 {

}

/// Interrupt enable register
pub type INTEN = crate::gd32vf103_pac::generic::Reg<u32, _INTEN>;

/// Names register INTEN.
pub struct _INTEN;

/// Register INTEN can be read.
impl crate::gd32vf103_pac::generic::Readable for INTEN {

}

/// Register INTEN can be written.
impl crate::gd32vf103_pac::generic::Writable for INTEN {

}

/// Error register
pub type ERR = crate::gd32vf103_pac::generic::Reg<u32, _ERR>;

/// Names register ERR.
pub struct _ERR;

/// Register ERR can be read.
impl crate::gd32vf103_pac::generic::Readable for ERR {

}

/// Register ERR can be written.
impl crate::gd32vf103_pac::generic::Writable for ERR {

}

/// Bit timing register
pub type BT = crate::gd32vf103_pac::generic::Reg<u32, _BT>;

/// Names register BT.
pub struct _BT;

/// Register BT can be read.
impl crate::gd32vf103_pac::generic::Readable for BT {

}

/// Register BT can be written.
impl crate::gd32vf103_pac::generic::Writable for BT {

}

/// Transmit mailbox identifier register 0
pub type TMI0 = crate::gd32vf103_pac::generic::Reg<u32, _TMI0>;

/// Names register TMI0.
pub struct _TMI0;

/// Register TMI0 can be read.
impl crate::gd32vf103_pac::generic::Readable for TMI0 {

}

/// Register TMI0 can be written.
impl crate::gd32vf103_pac::generic::Writable for TMI0 {

}

/// Transmit mailbox property register 0
pub type TMP0 = crate::gd32vf103_pac::generic::Reg<u32, _TMP0>;

/// Names register TMP0.
pub struct _TMP0;

/// Register TMP0 can be read.
impl crate::gd32vf103_pac::generic::Readable for TMP0 {

}

/// Register TMP0 can be written.
impl crate::gd32vf103_pac::generic::Writable for TMP0 {

}

/// Transmit mailbox data0 register
pub type TMDATA00 = crate::gd32vf103_pac::generic::Reg<u32, _TMDATA00>;

/// Names register TMDATA00.
pub struct _TMDATA00;

/// Register TMDATA00 can be read.
impl crate::gd32vf103_pac::generic::Readable for TMDATA00 {

}

/// Register TMDATA00 can be written.
impl crate::gd32vf103_pac::generic::Writable for TMDATA00 {

}

/// Transmit mailbox data1 register
pub type TMDATA10 = crate::gd32vf103_pac::generic::Reg<u32, _TMDATA10>;

/// Names register TMDATA10.
pub struct _TMDATA10;

/// Register TMDATA10 can be read.
impl crate::gd32vf103_pac::generic::Readable for TMDATA10 {

}

/// Register TMDATA10 can be written.
impl crate::gd32vf103_pac::generic::Writable for TMDATA10 {

}

/// Transmit mailbox identifier register 1
pub type TMI1 = crate::gd32vf103_pac::generic::Reg<u32, _TMI1>;

/// Names register TMI1.
pub struct _TMI1;

/// Register TMI1 can be read.
impl crate::gd32vf103_pac::generic::Readable for TMI1 {

}

/// Register TMI1 can be written.
impl crate::gd32vf103_pac::generic::Writable for TMI1 {

}

/// Transmit mailbox property register 1
pub type TMP1 = crate::gd32vf103_pac::generic::Reg<u32, _TMP1>;

/// Names register TMP1.
pub struct _TMP1;

/// Register TMP1 can be read.
impl crate::gd32vf103_pac::generic::Readable for TMP1 {

}

/// Register TMP1 can be written.
impl crate::gd32vf103_pac::generic::Writable for TMP1 {

}

/// Transmit mailbox data0 register
pub type TMDATA01 = crate::gd32vf103_pac::generic::Reg<u32, _TMDATA01>;

/// Names register TMDATA01.
pub struct _TMDATA01;

/// Register TMDATA01 can be read.
impl crate::gd32vf103_pac::generic::Readable for TMDATA01 {

}

/// Register TMDATA01 can be written.
impl crate::gd32vf103_pac::generic::Writable for TMDATA01 {

}

/// Transmit mailbox data1 register
pub type TMDATA11 = crate::gd32vf103_pac::generic::Reg<u32, _TMDATA11>;

/// Names register TMDATA11.
pub struct _TMDATA11;

/// Register TMDATA11 can be read.
impl crate::gd32vf103_pac::generic::Readable for TMDATA11 {

}

/// Register TMDATA11 can be written.
impl crate::gd32vf103_pac::generic::Writable for TMDATA11 {

}

/// Transmit mailbox identifier register 2
pub type TMI2 = crate::gd32vf103_pac::generic::Reg<u32, _TMI2>;

/// Names register TMI2.
pub struct _TMI2;

/// Register TMI2 can be read.
impl crate::gd32vf103_pac::generic::Readable for TMI2 {

}

/// Register TMI2 can be written.
impl crate::gd32vf103_pac::generic::Writable for TMI2 {

}

/// Transmit mailbox property register 2
pub type TMP2 = crate::gd32vf103_pac::generic::Reg<u32, _TMP2>;

/// Names register TMP2.
pub struct _TMP2;

/// Register TMP2 can be read.
impl crate::gd32vf103_pac::generic::Readable for TMP2 {

}

/// Register TMP2 can be written.
impl crate::gd32vf103_pac::generic::Writable for TMP2 {

}

/// Transmit mailbox data0 register
pub type TMDATA02 = crate::gd32vf103_pac::generic::Reg<u32, _TMDATA02>;

/// Names register TMDATA02.
pub struct _TMDATA02;

/// Register TMDATA02 can be read.
impl crate::gd32vf103_pac::generic::Readable for TMDATA02 {

}

/// Register TMDATA02 can be written.
impl crate::gd32vf103_pac::generic::Writable for TMDATA02 {

}

/// Transmit mailbox data1 register
pub type TMDATA12 = crate::gd32vf103_pac::generic::Reg<u32, _TMDATA12>;

/// Names register TMDATA12.
pub struct _TMDATA12;

/// Register TMDATA12 can be read.
impl crate::gd32vf103_pac::generic::Readable for TMDATA12 {

}

/// Register TMDATA12 can be written.
impl crate::gd32vf103_pac::generic::Writable for TMDATA12 {

}

/// Receive FIFO mailbox identifier register
pub type RFIFOMI0 = crate::gd32vf103_pac::generic::Reg<u32, _RFIFOMI0>;

/// Names register RFIFOMI0.
pub struct _RFIFOMI0;

/// Register RFIFOMI0 can be read.
impl crate::gd32vf103_pac::generic::Readable for RFIFOMI0 {

}

/// Receive FIFO0 mailbox property register
pub type RFIFOMP0 = crate::gd32vf103_pac::generic::Reg<u32, _RFIFOMP0>;

/// Names register RFIFOMP0.
pub struct _RFIFOMP0;

/// Register RFIFOMP0 can be read.
impl crate::gd32vf103_pac::generic::Readable for RFIFOMP0 {

}

/// Receive FIFO0 mailbox data0 register
pub type RFIFOMDATA00 = crate::gd32vf103_pac::generic::Reg<u32, _RFIFOMDATA00>;

/// Names register RFIFOMDATA00.
pub struct _RFIFOMDATA00;

/// Register RFIFOMDATA00 can be read.
impl crate::gd32vf103_pac::generic::Readable for RFIFOMDATA00 {

}

/// Receive FIFO0 mailbox data1 register
pub type RFIFOMDATA10 = crate::gd32vf103_pac::generic::Reg<u32, _RFIFOMDATA10>;

/// Names register RFIFOMDATA10.
pub struct _RFIFOMDATA10;

/// Register RFIFOMDATA10 can be read.
impl crate::gd32vf103_pac::generic::Readable for RFIFOMDATA10 {

}

/// Receive FIFO1 mailbox identifier register
pub type RFIFOMI1 = crate::gd32vf103_pac::generic::Reg<u32, _RFIFOMI1>;

/// Names register RFIFOMI1.
pub struct _RFIFOMI1;

/// Register RFIFOMI1 can be read.
impl crate::gd32vf103_pac::generic::Readable for RFIFOMI1 {

}

/// Receive FIFO1 mailbox property register
pub type RFIFOMP1 = crate::gd32vf103_pac::generic::Reg<u32, _RFIFOMP1>;

/// Names register RFIFOMP1.
pub struct _RFIFOMP1;

/// Register RFIFOMP1 can be read.
impl crate::gd32vf103_pac::generic::Readable for RFIFOMP1 {

}

/// Receive FIFO1 mailbox data0 register
pub type RFIFOMDATA01 = crate::gd32vf103_pac::generic::Reg<u32, _RFIFOMDATA01>;

/// Names register RFIFOMDATA01.
pub struct _RFIFOMDATA01;

/// Register RFIFOMDATA01 can be read.
impl crate::gd32vf103_pac::generic::Readable for RFIFOMDATA01 {

}

/// Receive FIFO1 mailbox data1 register
pub type RFIFOMDATA11 = crate::gd32vf103_pac::generic::Reg<u32, _RFIFOMDATA11>;

/// Names register RFIFOMDATA11.
pub struct _RFIFOMDATA11;

/// Register RFIFOMDATA11 can be read.
impl crate::gd32vf103_pac::generic::Readable for RFIFOMDATA11 {

}

/// Filter control register
pub type FCTL = crate::gd32vf103_pac::generic::Reg<u32, _FCTL>;

/// Names register FCTL.
pub struct _FCTL;

/// Register FCTL can be read.
impl crate::gd32vf103_pac::generic::Readable for FCTL {

}

/// Register FCTL can be written.
impl crate::gd32vf103_pac::generic::Writable for FCTL {

}

/// Filter mode configuration register
pub type FMCFG = crate::gd32vf103_pac::generic::Reg<u32, _FMCFG>;

/// Names register FMCFG.
pub struct _FMCFG;

/// Register FMCFG can be read.
impl crate::gd32vf103_pac::generic::Readable for FMCFG {

}

/// Register FMCFG can be written.
impl crate::gd32vf103_pac::generic::Writable for FMCFG {

}

/// Filter scale configuration register
pub type FSCFG = crate::gd32vf103_pac::generic::Reg<u32, _FSCFG>;

/// Names register FSCFG.
pub struct _FSCFG;

/// Register FSCFG can be read.
impl crate::gd32vf103_pac::generic::Readable for FSCFG {

}

/// Register FSCFG can be written.
impl crate::gd32vf103_pac::generic::Writable for FSCFG {

}

/// Filter associated FIFO register
pub type FAFIFO = crate::gd32vf103_pac::generic::Reg<u32, _FAFIFO>;

/// Names register FAFIFO.
pub struct _FAFIFO;

/// Register FAFIFO can be read.
impl crate::gd32vf103_pac::generic::Readable for FAFIFO {

}

/// Register FAFIFO can be written.
impl crate::gd32vf103_pac::generic::Writable for FAFIFO {

}

/// Filter working register
pub type FW = crate::gd32vf103_pac::generic::Reg<u32, _FW>;

/// Names register FW.
pub struct _FW;

/// Register FW can be read.
impl crate::gd32vf103_pac::generic::Readable for FW {

}

/// Register FW can be written.
impl crate::gd32vf103_pac::generic::Writable for FW {

}

/// Filter 0 data 0 register
pub type F0DATA0 = crate::gd32vf103_pac::generic::Reg<u32, _F0DATA0>;

/// Names register F0DATA0.
pub struct _F0DATA0;

/// Register F0DATA0 can be read.
impl crate::gd32vf103_pac::generic::Readable for F0DATA0 {

}

/// Register F0DATA0 can be written.
impl crate::gd32vf103_pac::generic::Writable for F0DATA0 {

}

/// Filter 0 data 1 register
pub type F0DATA1 = crate::gd32vf103_pac::generic::Reg<u32, _F0DATA1>;

/// Names register F0DATA1.
pub struct _F0DATA1;

/// Register F0DATA1 can be read.
impl crate::gd32vf103_pac::generic::Readable for F0DATA1 {

}

/// Register F0DATA1 can be written.
impl crate::gd32vf103_pac::generic::Writable for F0DATA1 {

}

/// Filter 1 data 0 register
pub type F1DATA0 = crate::gd32vf103_pac::generic::Reg<u32, _F1DATA0>;

/// Names register F1DATA0.
pub struct _F1DATA0;

/// Register F1DATA0 can be read.
impl crate::gd32vf103_pac::generic::Readable for F1DATA0 {

}

/// Register F1DATA0 can be written.
impl crate::gd32vf103_pac::generic::Writable for F1DATA0 {

}

/// Filter 1 data 1 register
pub type F1DATA1 = crate::gd32vf103_pac::generic::Reg<u32, _F1DATA1>;

/// Names register F1DATA1.
pub struct _F1DATA1;

/// Register F1DATA1 can be read.
impl crate::gd32vf103_pac::generic::Readable for F1DATA1 {

}

/// Register F1DATA1 can be written.
impl crate::gd32vf103_pac::generic::Writable for F1DATA1 {

}

/// Filter 2 data 0 register
pub type F2DATA0 = crate::gd32vf103_pac::generic::Reg<u32, _F2DATA0>;

/// Names register F2DATA0.
pub struct _F2DATA0;

/// Register F2DATA0 can be read.
impl crate::gd32vf103_pac::generic::Readable for F2DATA0 {

}

/// Register F2DATA0 can be written.
impl crate::gd32vf103_pac::generic::Writable for F2DATA0 {

}

/// Filter 2 data 1 register
pub type F2DATA1 = crate::gd32vf103_pac::generic::Reg<u32, _F2DATA1>;

/// Names register F2DATA1.
pub struct _F2DATA1;

/// Register F2DATA1 can be read.
impl crate::gd32vf103_pac::generic::Readable for F2DATA1 {

}

/// Register F2DATA1 can be written.
impl crate::gd32vf103_pac::generic::Writable for F2DATA1 {

}

/// Filter 3 data 0 register
pub type F3DATA0 = crate::gd32vf103_pac::generic::Reg<u32, _F3DATA0>;

/// Names register F3DATA0.
pub struct _F3DATA0;

/// Register F3DATA0 can be read.
impl crate::gd32vf103_pac::generic::Readable for F3DATA0 {

}

/// Register F3DATA0 can be written.
impl crate::gd32vf103_pac::generic::Writable for F3DATA0 {

}

/// Filter 3 data 1 register
pub type F3DATA1 = crate::gd32vf103_pac::generic::Reg<u32, _F3DATA1>;

/// Names register F3DATA1.
pub struct _F3DATA1;

/// Register F3DATA1 can be read.
impl crate::gd32vf103_pac::generic::Readable for F3DATA1 {

}

/// Register F3DATA1 can be written.
impl crate::gd32vf103_pac::generic::Writable for F3DATA1 {

}

/// Filter 4 data 0 register
pub type F4DATA0 = crate::gd32vf103_pac::generic::Reg<u32, _F4DATA0>;

/// Names register F4DATA0.
pub struct _F4DATA0;

/// Register F4DATA0 can be read.
impl crate::gd32vf103_pac::generic::Readable for F4DATA0 {

}

/// Register F4DATA0 can be written.
impl crate::gd32vf103_pac::generic::Writable for F4DATA0 {

}

/// Filter 4 data 1 register
pub type F4DATA1 = crate::gd32vf103_pac::generic::Reg<u32, _F4DATA1>;

/// Names register F4DATA1.
pub struct _F4DATA1;

/// Register F4DATA1 can be read.
impl crate::gd32vf103_pac::generic::Readable for F4DATA1 {

}

/// Register F4DATA1 can be written.
impl crate::gd32vf103_pac::generic::Writable for F4DATA1 {

}

/// Filter 5 data 0 register
pub type F5DATA0 = crate::gd32vf103_pac::generic::Reg<u32, _F5DATA0>;

/// Names register F5DATA0.
pub struct _F5DATA0;

/// Register F5DATA0 can be read.
impl crate::gd32vf103_pac::generic::Readable for F5DATA0 {

}

/// Register F5DATA0 can be written.
impl crate::gd32vf103_pac::generic::Writable for F5DATA0 {

}

/// Filter 5 data 1 register
pub type F5DATA1 = crate::gd32vf103_pac::generic::Reg<u32, _F5DATA1>;

/// Names register F5DATA1.
pub struct _F5DATA1;

/// Register F5DATA1 can be read.
impl crate::gd32vf103_pac::generic::Readable for F5DATA1 {

}

/// Register F5DATA1 can be written.
impl crate::gd32vf103_pac::generic::Writable for F5DATA1 {

}

/// Filter 6 data 0 register
pub type F6DATA0 = crate::gd32vf103_pac::generic::Reg<u32, _F6DATA0>;

/// Names register F6DATA0.
pub struct _F6DATA0;

/// Register F6DATA0 can be read.
impl crate::gd32vf103_pac::generic::Readable for F6DATA0 {

}

/// Register F6DATA0 can be written.
impl crate::gd32vf103_pac::generic::Writable for F6DATA0 {

}

/// Filter 6 data 1 register
pub type F6DATA1 = crate::gd32vf103_pac::generic::Reg<u32, _F6DATA1>;

/// Names register F6DATA1.
pub struct _F6DATA1;

/// Register F6DATA1 can be read.
impl crate::gd32vf103_pac::generic::Readable for F6DATA1 {

}

/// Register F6DATA1 can be written.
impl crate::gd32vf103_pac::generic::Writable for F6DATA1 {

}

/// Filter 7 data 0 register
pub type F7DATA0 = crate::gd32vf103_pac::generic::Reg<u32, _F7DATA0>;

/// Names register F7DATA0.
pub struct _F7DATA0;

/// Register F7DATA0 can be read.
impl crate::gd32vf103_pac::generic::Readable for F7DATA0 {

}

/// Register F7DATA0 can be written.
impl crate::gd32vf103_pac::generic::Writable for F7DATA0 {

}

/// Filter 7 data 1 register
pub type F7DATA1 = crate::gd32vf103_pac::generic::Reg<u32, _F7DATA1>;

/// Names register F7DATA1.
pub struct _F7DATA1;

/// Register F7DATA1 can be read.
impl crate::gd32vf103_pac::generic::Readable for F7DATA1 {

}

/// Register F7DATA1 can be written.
impl crate::gd32vf103_pac::generic::Writable for F7DATA1 {

}

/// Filter 8 data 0 register
pub type F8DATA0 = crate::gd32vf103_pac::generic::Reg<u32, _F8DATA0>;

/// Names register F8DATA0.
pub struct _F8DATA0;

/// Register F8DATA0 can be read.
impl crate::gd32vf103_pac::generic::Readable for F8DATA0 {

}

/// Register F8DATA0 can be written.
impl crate::gd32vf103_pac::generic::Writable for F8DATA0 {

}

/// Filter 8 data 1 register
pub type F8DATA1 = crate::gd32vf103_pac::generic::Reg<u32, _F8DATA1>;

/// Names register F8DATA1.
pub struct _F8DATA1;

/// Register F8DATA1 can be read.
impl crate::gd32vf103_pac::generic::Readable for F8DATA1 {

}

/// Register F8DATA1 can be written.
impl crate::gd32vf103_pac::generic::Writable for F8DATA1 {

}

/// Filter 9 data 0 register
pub type F9DATA0 = crate::gd32vf103_pac::generic::Reg<u32, _F9DATA0>;

/// Names register F9DATA0.
pub struct _F9DATA0;

/// Register F9DATA0 can be read.
impl crate::gd32vf103_pac::generic::Readable for F9DATA0 {

}

/// Register F9DATA0 can be written.
impl crate::gd32vf103_pac::generic::Writable for F9DATA0 {

}

/// Filter 9 data 1 register
pub type F9DATA1 = crate::gd32vf103_pac::generic::Reg<u32, _F9DATA1>;

/// Names register F9DATA1.
pub struct _F9DATA1;

/// Register F9DATA1 can be read.
impl crate::gd32vf103_pac::generic::Readable for F9DATA1 {

}

/// Register F9DATA1 can be written.
impl crate::gd32vf103_pac::generic::Writable for F9DATA1 {

}

/// Filter 10 data 0 register
pub type F10DATA0 = crate::gd32vf103_pac::generic::Reg<u32, _F10DATA0>;

/// Names register F10DATA0.
pub struct _F10DATA0;

/// Register F10DATA0 can be read.
impl crate::gd32vf103_pac::generic::Readable for F10DATA0 {

}

/// Register F10DATA0 can be written.
impl crate::gd32vf103_pac::generic::Writable for F10DATA0 {

}

/// Filter 10 data 1 register
pub type F10DATA1 = crate::gd32vf103_pac::generic::Reg<u32, _F10DATA1>;

/// Names register F10DATA1.
pub struct _F10DATA1;

/// Register F10DATA1 can be read.
impl crate::gd32vf103_pac::generic::Readable for F10DATA1 {

}

/// Register F10DATA1 can be written.
impl crate::gd32vf103_pac::generic::Writable for F10DATA1 {

}

/// Filter 11 data 0 register
pub type F11DATA0 = crate::gd32vf103_pac::generic::Reg<u32, _F11DATA0>;

/// Names register F11DATA0.
pub struct _F11DATA0;

/// Register F11DATA0 can be read.
impl crate::gd32vf103_pac::generic::Readable for F11DATA0 {

}

/// Register F11DATA0 can be written.
impl crate::gd32vf103_pac::generic::Writable for F11DATA0 {

}

/// Filter 11 data 1 register
pub type F11DATA1 = crate::gd32vf103_pac::generic::Reg<u32, _F11DATA1>;

/// Names register F11DATA1.
pub struct _F11DATA1;

/// Register F11DATA1 can be read.
impl crate::gd32vf103_pac::generic::Readable for F11DATA1 {

}

/// Register F11DATA1 can be written.
impl crate::gd32vf103_pac::generic::Writable for F11DATA1 {

}

/// Filter 12 data 0 register
pub type F12DATA0 = crate::gd32vf103_pac::generic::Reg<u32, _F12DATA0>;

/// Names register F12DATA0.
pub struct _F12DATA0;

/// Register F12DATA0 can be read.
impl crate::gd32vf103_pac::generic::Readable for F12DATA0 {

}

/// Register F12DATA0 can be written.
impl crate::gd32vf103_pac::generic::Writable for F12DATA0 {

}

/// Filter 12 data 1 register
pub type F12DATA1 = crate::gd32vf103_pac::generic::Reg<u32, _F12DATA1>;

/// Names register F12DATA1.
pub struct _F12DATA1;

/// Register F12DATA1 can be read.
impl crate::gd32vf103_pac::generic::Readable for F12DATA1 {

}

/// Register F12DATA1 can be written.
impl crate::gd32vf103_pac::generic::Writable for F12DATA1 {

}

/// Filter 13 data 0 register
pub type F13DATA0 = crate::gd32vf103_pac::generic::Reg<u32, _F13DATA0>;

/// Names register F13DATA0.
pub struct _F13DATA0;

/// Register F13DATA0 can be read.
impl crate::gd32vf103_pac::generic::Readable for F13DATA0 {

}

/// Register F13DATA0 can be written.
impl crate::gd32vf103_pac::generic::Writable for F13DATA0 {

}

/// Filter 13 data 1 register
pub type F13DATA1 = crate::gd32vf103_pac::generic::Reg<u32, _F13DATA1>;

/// Names register F13DATA1.
pub struct _F13DATA1;

/// Register F13DATA1 can be read.
impl crate::gd32vf103_pac::generic::Readable for F13DATA1 {

}

/// Register F13DATA1 can be written.
impl crate::gd32vf103_pac::generic::Writable for F13DATA1 {

}

/// Filter 14 data 0 register
pub type F14DATA0 = crate::gd32vf103_pac::generic::Reg<u32, _F14DATA0>;

/// Names register F14DATA0.
pub struct _F14DATA0;

/// Register F14DATA0 can be read.
impl crate::gd32vf103_pac::generic::Readable for F14DATA0 {

}

/// Register F14DATA0 can be written.
impl crate::gd32vf103_pac::generic::Writable for F14DATA0 {

}

/// Filter 14 data 1 register
pub type F14DATA1 = crate::gd32vf103_pac::generic::Reg<u32, _F14DATA1>;

/// Names register F14DATA1.
pub struct _F14DATA1;

/// Register F14DATA1 can be read.
impl crate::gd32vf103_pac::generic::Readable for F14DATA1 {

}

/// Register F14DATA1 can be written.
impl crate::gd32vf103_pac::generic::Writable for F14DATA1 {

}

/// Filter 15 data 0 register
pub type F15DATA0 = crate::gd32vf103_pac::generic::Reg<u32, _F15DATA0>;

/// Names register F15DATA0.
pub struct _F15DATA0;

/// Register F15DATA0 can be read.
impl crate::gd32vf103_pac::generic::Readable for F15DATA0 {

}

/// Register F15DATA0 can be written.
impl crate::gd32vf103_pac::generic::Writable for F15DATA0 {

}

/// Filter 15 data 1 register
pub type F15DATA1 = crate::gd32vf103_pac::generic::Reg<u32, _F15DATA1>;

/// Names register F15DATA1.
pub struct _F15DATA1;

/// Register F15DATA1 can be read.
impl crate::gd32vf103_pac::generic::Readable for F15DATA1 {

}

/// Register F15DATA1 can be written.
impl crate::gd32vf103_pac::generic::Writable for F15DATA1 {

}

/// Filter 16 data 0 register
pub type F16DATA0 = crate::gd32vf103_pac::generic::Reg<u32, _F16DATA0>;

/// Names register F16DATA0.
pub struct _F16DATA0;

/// Register F16DATA0 can be read.
impl crate::gd32vf103_pac::generic::Readable for F16DATA0 {

}

/// Register F16DATA0 can be written.
impl crate::gd32vf103_pac::generic::Writable for F16DATA0 {

}

/// Filter 16 data 1 register
pub type F16DATA1 = crate::gd32vf103_pac::generic::Reg<u32, _F16DATA1>;

/// Names register F16DATA1.
pub struct _F16DATA1;

/// Register F16DATA1 can be read.
impl crate::gd32vf103_pac::generic::Readable for F16DATA1 {

}

/// Register F16DATA1 can be written.
impl crate::gd32vf103_pac::generic::Writable for F16DATA1 {

}

/// Filter 17 data 0 register
pub type F17DATA0 = crate::gd32vf103_pac::generic::Reg<u32, _F17DATA0>;

/// Names register F17DATA0.
pub struct _F17DATA0;

/// Register F17DATA0 can be read.
impl crate::gd32vf103_pac::generic::Readable for F17DATA0 {

}

/// Register F17DATA0 can be written.
impl crate::gd32vf103_pac::generic::Writable for F17DATA0 {

}

/// Filter 17 data 1 register
pub type F17DATA1 = crate::gd32vf103_pac::generic::Reg<u32, _F17DATA1>;

/// Names register F17DATA1.
pub struct _F17DATA1;

/// Register F17DATA1 can be read.
impl crate::gd32vf103_pac::generic::Readable for F17DATA1 {

}

/// Register F17DATA1 can be written.
impl crate::gd32vf103_pac::generic::Writable for F17DATA1 {

}

/// Filter 18 data 0 register
pub type F18DATA0 = crate::gd32vf103_pac::generic::Reg<u32, _F18DATA0>;

/// Names register F18DATA0.
pub struct _F18DATA0;

/// Register F18DATA0 can be read.
impl crate::gd32vf103_pac::generic::Readable for F18DATA0 {

}

/// Register F18DATA0 can be written.
impl crate::gd32vf103_pac::generic::Writable for F18DATA0 {

}

/// Filter 18 data 1 register
pub type F18DATA1 = crate::gd32vf103_pac::generic::Reg<u32, _F18DATA1>;

/// Names register F18DATA1.
pub struct _F18DATA1;

/// Register F18DATA1 can be read.
impl crate::gd32vf103_pac::generic::Readable for F18DATA1 {

}

/// Register F18DATA1 can be written.
impl crate::gd32vf103_pac::generic::Writable for F18DATA1 {

}

/// Filter 19 data 0 register
pub type F19DATA0 = crate::gd32vf103_pac::generic::Reg<u32, _F19DATA0>;

/// Names register F19DATA0.
pub struct _F19DATA0;

/// Register F19DATA0 can be read.
impl crate::gd32vf103_pac::generic::Readable for F19DATA0 {

}

/// Register F19DATA0 can be written.
impl crate::gd32vf103_pac::generic::Writable for F19DATA0 {

}

/// Filter 19 data 1 register
pub type F19DATA1 = crate::gd32vf103_pac::generic::Reg<u32, _F19DATA1>;

/// Names register F19DATA1.
pub struct _F19DATA1;

/// Register F19DATA1 can be read.
impl crate::gd32vf103_pac::generic::Readable for F19DATA1 {

}

/// Register F19DATA1 can be written.
impl crate::gd32vf103_pac::generic::Writable for F19DATA1 {

}

/// Filter 20 data 0 register
pub type F20DATA0 = crate::gd32vf103_pac::generic::Reg<u32, _F20DATA0>;

/// Names register F20DATA0.
pub struct _F20DATA0;

/// Register F20DATA0 can be read.
impl crate::gd32vf103_pac::generic::Readable for F20DATA0 {

}

/// Register F20DATA0 can be written.
impl crate::gd32vf103_pac::generic::Writable for F20DATA0 {

}

/// Filter 20 data 1 register
pub type F20DATA1 = crate::gd32vf103_pac::generic::Reg<u32, _F20DATA1>;

/// Names register F20DATA1.
pub struct _F20DATA1;

/// Register F20DATA1 can be read.
impl crate::gd32vf103_pac::generic::Readable for F20DATA1 {

}

/// Register F20DATA1 can be written.
impl crate::gd32vf103_pac::generic::Writable for F20DATA1 {

}

/// Filter 21 data 0 register
pub type F21DATA0 = crate::gd32vf103_pac::generic::Reg<u32, _F21DATA0>;

/// Names register F21DATA0.
pub struct _F21DATA0;

/// Register F21DATA0 can be read.
impl crate::gd32vf103_pac::generic::Readable for F21DATA0 {

}

/// Register F21DATA0 can be written.
impl crate::gd32vf103_pac::generic::Writable for F21DATA0 {

}

/// Filter 21 data 1 register
pub type F21DATA1 = crate::gd32vf103_pac::generic::Reg<u32, _F21DATA1>;

/// Names register F21DATA1.
pub struct _F21DATA1;

/// Register F21DATA1 can be read.
impl crate::gd32vf103_pac::generic::Readable for F21DATA1 {

}

/// Register F21DATA1 can be written.
impl crate::gd32vf103_pac::generic::Writable for F21DATA1 {

}

/// Filter 22 data 0 register
pub type F22DATA0 = crate::gd32vf103_pac::generic::Reg<u32, _F22DATA0>;

/// Names register F22DATA0.
pub struct _F22DATA0;

/// Register F22DATA0 can be read.
impl crate::gd32vf103_pac::generic::Readable for F22DATA0 {

}

/// Register F22DATA0 can be written.
impl crate::gd32vf103_pac::generic::Writable for F22DATA0 {

}

/// Filter 22 data 1 register
pub type F22DATA1 = crate::gd32vf103_pac::generic::Reg<u32, _F22DATA1>;

/// Names register F22DATA1.
pub struct _F22DATA1;

/// Register F22DATA1 can be read.
impl crate::gd32vf103_pac::generic::Readable for F22DATA1 {

}

/// Register F22DATA1 can be written.
impl crate::gd32vf103_pac::generic::Writable for F22DATA1 {

}

/// Filter 23 data 0 register
pub type F23DATA0 = crate::gd32vf103_pac::generic::Reg<u32, _F23DATA0>;

/// Names register F23DATA0.
pub struct _F23DATA0;

/// Register F23DATA0 can be read.
impl crate::gd32vf103_pac::generic::Readable for F23DATA0 {

}

/// Register F23DATA0 can be written.
impl crate::gd32vf103_pac::generic::Writable for F23DATA0 {

}

/// Filter 23 data 1 register
pub type F23DATA1 = crate::gd32vf103_pac::generic::Reg<u32, _F23DATA1>;

/// Names register F23DATA1.
pub struct _F23DATA1;

/// Register F23DATA1 can be read.
impl crate::gd32vf103_pac::generic::Readable for F23DATA1 {

}

/// Register F23DATA1 can be written.
impl crate::gd32vf103_pac::generic::Writable for F23DATA1 {

}

/// Filter 24 data 0 register
pub type F24DATA0 = crate::gd32vf103_pac::generic::Reg<u32, _F24DATA0>;

/// Names register F24DATA0.
pub struct _F24DATA0;

/// Register F24DATA0 can be read.
impl crate::gd32vf103_pac::generic::Readable for F24DATA0 {

}

/// Register F24DATA0 can be written.
impl crate::gd32vf103_pac::generic::Writable for F24DATA0 {

}

/// Filter 24 data 1 register
pub type F24DATA1 = crate::gd32vf103_pac::generic::Reg<u32, _F24DATA1>;

/// Names register F24DATA1.
pub struct _F24DATA1;

/// Register F24DATA1 can be read.
impl crate::gd32vf103_pac::generic::Readable for F24DATA1 {

}

/// Register F24DATA1 can be written.
impl crate::gd32vf103_pac::generic::Writable for F24DATA1 {

}

/// Filter 25 data 0 register
pub type F25DATA0 = crate::gd32vf103_pac::generic::Reg<u32, _F25DATA0>;

/// Names register F25DATA0.
pub struct _F25DATA0;

/// Register F25DATA0 can be read.
impl crate::gd32vf103_pac::generic::Readable for F25DATA0 {

}

/// Register F25DATA0 can be written.
impl crate::gd32vf103_pac::generic::Writable for F25DATA0 {

}

/// Filter 25 data 1 register
pub type F25DATA1 = crate::gd32vf103_pac::generic::Reg<u32, _F25DATA1>;

/// Names register F25DATA1.
pub struct _F25DATA1;

/// Register F25DATA1 can be read.
impl crate::gd32vf103_pac::generic::Readable for F25DATA1 {

}

/// Register F25DATA1 can be written.
impl crate::gd32vf103_pac::generic::Writable for F25DATA1 {

}

/// Filter 26 data 0 register
pub type F26DATA0 = crate::gd32vf103_pac::generic::Reg<u32, _F26DATA0>;

/// Names register F26DATA0.
pub struct _F26DATA0;

/// Register F26DATA0 can be read.
impl crate::gd32vf103_pac::generic::Readable for F26DATA0 {

}

/// Register F26DATA0 can be written.
impl crate::gd32vf103_pac::generic::Writable for F26DATA0 {

}

/// Filter 26 data 1 register
pub type F26DATA1 = crate::gd32vf103_pac::generic::Reg<u32, _F26DATA1>;

/// Names register F26DATA1.
pub struct _F26DATA1;

/// Register F26DATA1 can be read.
impl crate::gd32vf103_pac::generic::Readable for F26DATA1 {

}

/// Register F26DATA1 can be written.
impl crate::gd32vf103_pac::generic::Writable for F26DATA1 {

}

/// Filter 27 data 0 register
pub type F27DATA0 = crate::gd32vf103_pac::generic::Reg<u32, _F27DATA0>;

/// Names register F27DATA0.
pub struct _F27DATA0;

/// Register F27DATA0 can be read.
impl crate::gd32vf103_pac::generic::Readable for F27DATA0 {

}

/// Register F27DATA0 can be written.
impl crate::gd32vf103_pac::generic::Writable for F27DATA0 {

}

/// Filter 27 data 1 register
pub type F27DATA1 = crate::gd32vf103_pac::generic::Reg<u32, _F27DATA1>;

/// Names register F27DATA1.
pub struct _F27DATA1;

/// Register F27DATA1 can be read.
impl crate::gd32vf103_pac::generic::Readable for F27DATA1 {

}

/// Register F27DATA1 can be written.
impl crate::gd32vf103_pac::generic::Writable for F27DATA1 {

}

} // verus!
