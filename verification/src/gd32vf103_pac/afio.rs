use vstd::prelude::*;

/// EXTI sources selection register 0
pub mod extiss0;
/// EXTI sources selection register 1
pub mod extiss1;
/// EXTI sources selection register 2
pub mod extiss2;
/// EXTI sources selection register 3
pub mod extiss3;
/// AFIO port configuration register 0
pub mod pcf0;
/// AFIO port configuration register 1
pub mod pcf1;

verus! {

/// Register block
pub struct RegisterBlock {
    /// 0x00 - Event control register
    pub ec: EC,

    /// 0x04 - AFIO port configuration register 0
    pub pcf0: PCF0,

    /// 0x08 - EXTI sources selection register 0
    pub extiss0: EXTISS0,

    /// 0x0c - EXTI sources selection register 1
    pub extiss1: EXTISS1,

    /// 0x10 - EXTI sources selection register 2
    pub extiss2: EXTISS2,

    /// 0x14 - EXTI sources selection register 3
    pub extiss3: EXTISS3,

    /// 0x1c - AFIO port configuration register 1
    pub pcf1: PCF1,
}

/// Event control register
pub type EC = crate::gd32vf103_pac::generic::Reg<u32, _EC>;

/// Names register EC.
pub struct _EC;

/// Register EC can be read.
impl crate::gd32vf103_pac::generic::Readable for EC {

}

/// Register EC can be written.
impl crate::gd32vf103_pac::generic::Writable for EC {

}

/// AFIO port configuration register 0
pub type PCF0 = crate::gd32vf103_pac::generic::Reg<u32, _PCF0>;

/// Names register PCF0.
pub struct _PCF0;

/// Register PCF0 can be read.
impl crate::gd32vf103_pac::generic::Readable for PCF0 {

}

/// Register PCF0 can be written.
impl crate::gd32vf103_pac::generic::Writable for PCF0 {

}

/// EXTI sources selection register 0
pub type EXTISS0 = crate::gd32vf103_pac::generic::Reg<u32, _EXTISS0>;

/// Names register EXTISS0.
pub struct _EXTISS0;

/// Register EXTISS0 can be read.
impl crate::gd32vf103_pac::generic::Readable for EXTISS0 {

}

/// Register EXTISS0 can be written.
impl crate::gd32vf103_pac::generic::Writable for EXTISS0 {

}

/// EXTI sources selection register 1
pub type EXTISS1 = crate::gd32vf103_pac::generic::Reg<u32, _EXTISS1>;

/// Names register EXTISS1.
pub struct _EXTISS1;

/// Register EXTISS1 can be read.
impl crate::gd32vf103_pac::generic::Readable for EXTISS1 {

}

/// Register EXTISS1 can be written.
impl crate::gd32vf103_pac::generic::Writable for EXTISS1 {

}

/// EXTI sources selection register 2
pub type EXTISS2 = crate::gd32vf103_pac::generic::Reg<u32, _EXTISS2>;

/// Names register EXTISS2.
pub struct _EXTISS2;

/// Register EXTISS2 can be read.
impl crate::gd32vf103_pac::generic::Readable for EXTISS2 {

}

/// Register EXTISS2 can be written.
impl crate::gd32vf103_pac::generic::Writable for EXTISS2 {

}

/// EXTI sources selection register 3
pub type EXTISS3 = crate::gd32vf103_pac::generic::Reg<u32, _EXTISS3>;

/// Names register EXTISS3.
pub struct _EXTISS3;

/// Register EXTISS3 can be read.
impl crate::gd32vf103_pac::generic::Readable for EXTISS3 {

}

/// Register EXTISS3 can be written.
impl crate::gd32vf103_pac::generic::Writable for EXTISS3 {

}

/// AFIO port configuration register 1
pub type PCF1 = crate::gd32vf103_pac::generic::Reg<u32, _PCF1>;

/// Names register PCF1.
pub struct _PCF1;

/// Register PCF1 can be read.
impl crate::gd32vf103_pac::generic::Readable for PCF1 {

}

/// Register PCF1 can be written.
impl crate::gd32vf103_pac::generic::Writable for PCF1 {

}

} // verus!
