use vstd::prelude::*;

/// Inserted data register 0
pub mod idata0;
/// regular data register
pub mod rdata;
/// regular sequence register 0
pub mod rsq0;
/// Sample time register 1
pub mod sampt1;
/// watchdog higher threshold register
pub mod wdht;

verus! {

/// Register block
pub struct RegisterBlock {
    /// 0x00 - status register
    pub stat: STAT,

    /// 0x04 - control register 0
    pub ctl0: CTL0,

    /// 0x08 - control register 1
    pub ctl1: CTL1,

    /// 0x0c - Sample time register 0
    pub sampt0: SAMPT0,

    /// 0x10 - Sample time register 1
    pub sampt1: SAMPT1,

    /// 0x14 - Inserted channel data offset register 0
    pub ioff0: IOFF0,

    /// 0x18 - Inserted channel data offset register 1
    pub ioff1: IOFF1,

    /// 0x1c - Inserted channel data offset register 2
    pub ioff2: IOFF2,

    /// 0x20 - Inserted channel data offset register 3
    pub ioff3: IOFF3,

    /// 0x24 - watchdog higher threshold register
    pub wdht: WDHT,

    /// 0x28 - watchdog lower threshold register
    pub wdlt: WDLT,

    /// 0x2c - regular sequence register 0
    pub rsq0: RSQ0,

    /// 0x30 - regular sequence register 1
    pub rsq1: RSQ1,

    /// 0x34 - regular sequence register 2
    pub rsq2: RSQ2,

    /// 0x38 - Inserted sequence register
    pub isq: ISQ,

    /// 0x3c - Inserted data register 0
    pub idata0: IDATA0,

    /// 0x40 - Inserted data register 1
    pub idata1: IDATA1,

    /// 0x44 - Inserted data register 2
    pub idata2: IDATA2,

    /// 0x48 - Inserted data register 3
    pub idata3: IDATA3,

    /// 0x4c - regular data register
    pub rdata: RDATA,

    /// 0x80 - Oversample control register
    pub ovsampctl: OVSAMPCTL,
}

/// status register
pub type STAT = crate::gd32vf103_pac::generic::Reg<u32, _STAT>;

/// Names register STAT.
pub struct _STAT;

/// Register STAT can be read.
impl crate::gd32vf103_pac::generic::Readable for STAT {

}

/// Register STAT can be written.
impl crate::gd32vf103_pac::generic::Writable for STAT {

}

/// control register 0
pub type CTL0 = crate::gd32vf103_pac::generic::Reg<u32, _CTL0>;

/// Names register CTL0.
pub struct _CTL0;

/// Register CTL0 can be read.
impl crate::gd32vf103_pac::generic::Readable for CTL0 {

}

/// Register CTL0 can be written.
impl crate::gd32vf103_pac::generic::Writable for CTL0 {

}

/// control register 1
pub type CTL1 = crate::gd32vf103_pac::generic::Reg<u32, _CTL1>;

/// Names register CTL1.
pub struct _CTL1;

/// Register CTL1 can be read.
impl crate::gd32vf103_pac::generic::Readable for CTL1 {

}

/// Register CTL1 can be written.
impl crate::gd32vf103_pac::generic::Writable for CTL1 {

}

/// Sample time register 0
pub type SAMPT0 = crate::gd32vf103_pac::generic::Reg<u32, _SAMPT0>;

/// Names register SAMPT0.
pub struct _SAMPT0;

/// Register SAMPT0 can be read.
impl crate::gd32vf103_pac::generic::Readable for SAMPT0 {

}

/// Register SAMPT0 can be written.
impl crate::gd32vf103_pac::generic::Writable for SAMPT0 {

}

/// Sample time register 1
pub type SAMPT1 = crate::gd32vf103_pac::generic::Reg<u32, _SAMPT1>;

/// Names register SAMPT1.
pub struct _SAMPT1;

/// Register SAMPT1 can be read.
impl crate::gd32vf103_pac::generic::Readable for SAMPT1 {

}

/// Register SAMPT1 can be written.
impl crate::gd32vf103_pac::generic::Writable for SAMPT1 {

}

/// Inserted channel data offset register 0
pub type IOFF0 = crate::gd32vf103_pac::generic::Reg<u32, _IOFF0>;

/// Names register IOFF0.
pub struct _IOFF0;

/// Register IOFF0 can be read.
impl crate::gd32vf103_pac::generic::Readable for IOFF0 {

}

/// Register IOFF0 can be written.
impl crate::gd32vf103_pac::generic::Writable for IOFF0 {

}

/// Inserted channel data offset register 1
pub type IOFF1 = crate::gd32vf103_pac::generic::Reg<u32, _IOFF1>;

/// Names register IOFF1.
pub struct _IOFF1;

/// Register IOFF1 can be read.
impl crate::gd32vf103_pac::generic::Readable for IOFF1 {

}

/// Register IOFF1 can be written.
impl crate::gd32vf103_pac::generic::Writable for IOFF1 {

}

/// Inserted channel data offset register 2
pub type IOFF2 = crate::gd32vf103_pac::generic::Reg<u32, _IOFF2>;

/// Names register IOFF2.
pub struct _IOFF2;

/// Register IOFF2 can be read.
impl crate::gd32vf103_pac::generic::Readable for IOFF2 {

}

/// Register IOFF2 can be written.
impl crate::gd32vf103_pac::generic::Writable for IOFF2 {

}

/// Inserted channel data offset register 3
pub type IOFF3 = crate::gd32vf103_pac::generic::Reg<u32, _IOFF3>;

/// Names register IOFF3.
pub struct _IOFF3;

/// Register IOFF3 can be read.
impl crate::gd32vf103_pac::generic::Readable for IOFF3 {

}

/// Register IOFF3 can be written.
impl crate::gd32vf103_pac::generic::Writable for IOFF3 {

}

/// watchdog higher threshold register
pub type WDHT = crate::gd32vf103_pac::generic::Reg<u32, _WDHT>;

/// Names register WDHT.
pub struct _WDHT;

/// Register WDHT can be read.
impl crate::gd32vf103_pac::generic::Readable for WDHT {

}

/// Register WDHT can be written.
impl crate::gd32vf103_pac::generic::Writable for WDHT {

}

/// watchdog lower threshold register
pub type WDLT = crate::gd32vf103_pac::generic::Reg<u32, _WDLT>;

/// Names register WDLT.
pub struct _WDLT;

/// Register WDLT can be read.
impl crate::gd32vf103_pac::generic::Readable for WDLT {

}

/// Register WDLT can be written.
impl crate::gd32vf103_pac::generic::Writable for WDLT {

}

/// regular sequence register 0
pub type RSQ0 = crate::gd32vf103_pac::generic::Reg<u32, _RSQ0>;

/// Names register RSQ0.
pub struct _RSQ0;

/// Register RSQ0 can be read.
impl crate::gd32vf103_pac::generic::Readable for RSQ0 {

}

/// Register RSQ0 can be written.
impl crate::gd32vf103_pac::generic::Writable for RSQ0 {

}

/// regular sequence register 1
pub type RSQ1 = crate::gd32vf103_pac::generic::Reg<u32, _RSQ1>;

/// Names register RSQ1.
pub struct _RSQ1;

/// Register RSQ1 can be read.
impl crate::gd32vf103_pac::generic::Readable for RSQ1 {

}

/// Register RSQ1 can be written.
impl crate::gd32vf103_pac::generic::Writable for RSQ1 {

}

/// regular sequence register 2
pub type RSQ2 = crate::gd32vf103_pac::generic::Reg<u32, _RSQ2>;

/// Names register RSQ2.
pub struct _RSQ2;

/// Register RSQ2 can be read.
impl crate::gd32vf103_pac::generic::Readable for RSQ2 {

}

/// Register RSQ2 can be written.
impl crate::gd32vf103_pac::generic::Writable for RSQ2 {

}

/// Inserted sequence register
pub type ISQ = crate::gd32vf103_pac::generic::Reg<u32, _ISQ>;

/// Names register ISQ.
pub struct _ISQ;

/// Register ISQ can be read.
impl crate::gd32vf103_pac::generic::Readable for ISQ {

}

/// Register ISQ can be written.
impl crate::gd32vf103_pac::generic::Writable for ISQ {

}

/// Inserted data register 0
pub type IDATA0 = crate::gd32vf103_pac::generic::Reg<u32, _IDATA0>;

/// Names register IDATA0.
pub struct _IDATA0;

/// Register IDATA0 can be read.
impl crate::gd32vf103_pac::generic::Readable for IDATA0 {

}

/// Inserted data register 1
pub type IDATA1 = crate::gd32vf103_pac::generic::Reg<u32, _IDATA1>;

/// Names register IDATA1.
pub struct _IDATA1;

/// Register IDATA1 can be read.
impl crate::gd32vf103_pac::generic::Readable for IDATA1 {

}

/// Inserted data register 2
pub type IDATA2 = crate::gd32vf103_pac::generic::Reg<u32, _IDATA2>;

/// Names register IDATA2.
pub struct _IDATA2;

/// Register IDATA2 can be read.
impl crate::gd32vf103_pac::generic::Readable for IDATA2 {

}

/// Inserted data register 3
pub type IDATA3 = crate::gd32vf103_pac::generic::Reg<u32, _IDATA3>;

/// Names register IDATA3.
pub struct _IDATA3;

/// Register IDATA3 can be read.
impl crate::gd32vf103_pac::generic::Readable for IDATA3 {

}

/// regular data register
pub type RDATA = crate::gd32vf103_pac::generic::Reg<u32, _RDATA>;

/// Names register RDATA.
pub struct _RDATA;

/// Register RDATA can be read.
impl crate::gd32vf103_pac::generic::Readable for RDATA {

}

/// Oversample control register
pub type OVSAMPCTL = crate::gd32vf103_pac::generic::Reg<u32, _OVSAMPCTL>;

/// Names register OVSAMPCTL.
pub struct _OVSAMPCTL;

/// Register OVSAMPCTL can be read.
impl crate::gd32vf103_pac::generic::Readable for OVSAMPCTL {

}

/// Register OVSAMPCTL can be written.
impl crate::gd32vf103_pac::generic::Writable for OVSAMPCTL {

}

} // verus!
