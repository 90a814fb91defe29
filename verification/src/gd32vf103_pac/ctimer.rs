use vstd::prelude::*;

verus! {

/// Register block
pub struct RegisterBlock {
    /// 0x00 - Timer value (lower half)
    pub mtime_lo: MTIME_LO,

    /// 0x04 - Timer value (upper half)
    pub mtime_hi: MTIME_HI,

    /// 0x08 - Timer comparison value (lower half)
    pub mtimecmp_lo: MTIMECMP_LO,

    /// 0x0c - Timer comparison value (upper half)
    pub mtimecmp_hi: MTIMECMP_HI,

    /// 0xff8 - Timer control register
    pub mstop: MSTOP,

    /// 0xffc - Software interrupt register
    pub msip: MSIP,
}

/// Timer value (lower half)
pub type MTIME_LO = crate::gd32vf103_pac::generic::Reg<u32, _MTIME_LO>;

/// Names register MTIME_LO.
pub struct _MTIME_LO;

/// Register MTIME_LO can be read.
impl crate::gd32vf103_pac::generic::Readable for MTIME_LO {

}

/// Register MTIME_LO can be written.
impl crate::gd32vf103_pac::generic::Writable for MTIME_LO {

}

/// Timer value (upper half)
pub type MTIME_HI = crate::gd32vf103_pac::generic::Reg<u32, _MTIME_HI>;

/// Names register MTIME_HI.
pub struct _MTIME_HI;

/// Register MTIME_HI can be read.
impl crate::gd32vf103_pac::generic::Readable for MTIME_HI {

}

/// Register MTIME_HI can be written.
impl crate::gd32vf103_pac::generic::Writable for MTIME_HI {

}

/// Timer comparison value (lower half)
pub type MTIMECMP_LO = crate::gd32vf103_pac::generic::Reg<u32, _MTIMECMP_LO>;

/// Names register MTIMECMP_LO.
pub struct _MTIMECMP_LO;

/// Register MTIMECMP_LO can be read.
impl crate::gd32vf103_pac::generic::Readable for MTIMECMP_LO {

}

/// Register MTIMECMP_LO can be written.
impl crate::gd32vf103_pac::generic::Writable for MTIMECMP_LO {

}

/// Timer comparison value (upper half)
pub type MTIMECMP_HI = crate::gd32vf103_pac::generic::Reg<u32, _MTIMECMP_HI>;

/// Names register MTIMECMP_HI.
pub struct _MTIMECMP_HI;

/// Register MTIMECMP_HI can be read.
impl crate::gd32vf103_pac::generic::Readable for MTIMECMP_HI {

}

/// Register MTIMECMP_HI can be written.
impl crate::gd32vf103_pac::generic::Writable for MTIMECMP_HI {

}

/// Timer control register
pub type MSTOP = crate::gd32vf103_pac::generic::Reg<u32, _MSTOP>;

/// Names register MSTOP.
pub struct _MSTOP;

/// Register MSTOP can be read.
impl crate::gd32vf103_pac::generic::Readable for MSTOP {

}

/// Register MSTOP can be written.
impl crate::gd32vf103_pac::generic::Writable for MSTOP {

}

/// Software interrupt register
pub type MSIP = crate::gd32vf103_pac::generic::Reg<u32, _MSIP>;

/// Names register MSIP.
pub struct _MSIP;

/// Register MSIP can be read.
impl crate::gd32vf103_pac::generic::Readable for MSIP {

}

/// Register MSIP can be written.
impl crate::gd32vf103_pac::generic::Writable for MSIP {

}

} // verus!
