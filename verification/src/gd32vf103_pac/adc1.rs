use vstd::prelude::*;

/// control register 1
pub mod ctl1;
/// Inserted channel data offset register 1
pub mod ioff1;
/// Inserted sequence register
pub mod isq;
/// regular data register
pub mod rdata;
/// regular sequence register 1
pub mod rsq1;
/// regular sequence register 2
pub mod rsq2;
/// Sample time register 0
pub mod sampt0;
/// status register
pub mod stat;
/// watchdog lower threshold register
pub mod wdlt;

verus! {

/// control register 1
pub type CTL1 = crate::gd32vf103_pac::generic::Reg<u32, _CTL1>;

/// Names register CTL1.
pub struct _CTL1;

/// Register CTL1 can be read.
impl crate::gd32vf103_pac::generic::Readable for CTL1 {

}

/// Register CTL1 can be written.
impl crate::gd32vf103_pac::generic::Writable for CTL1 {

}

/// Inserted channel data offset register 1
pub type IOFF1 = crate::gd32vf103_pac::generic::Reg<u32, _IOFF1>;

/// Names register IOFF1.
pub struct _IOFF1;

/// Register IOFF1 can be read.
impl crate::gd32vf103_pac::generic::Readable for IOFF1 {

}

/// Register IOFF1 can be written.
impl crate::gd32vf103_pac::generic::Writable for IOFF1 {

}

/// Inserted sequence register
pub type ISQ = crate::gd32vf103_pac::generic::Reg<u32, _ISQ>;

/// Names register ISQ.
pub struct _ISQ;

/// Register ISQ can be read.
impl crate::gd32vf103_pac::generic::Readable for ISQ {

}

/// Register ISQ can be written.
impl crate::gd32vf103_pac::generic::Writable for ISQ {

}

/// regular data register
pub type RDATA = crate::gd32vf103_pac::generic::Reg<u32, _RDATA>;

/// Names register RDATA.
pub struct _RDATA;

/// Register RDATA can be read.
impl crate::gd32vf103_pac::generic::Readable for RDATA {

}

/// regular sequence register 1
pub type RSQ1 = crate::gd32vf103_pac::generic::Reg<u32, _RSQ1>;

/// Names register RSQ1.
pub struct _RSQ1;

/// Register RSQ1 can be read.
impl crate::gd32vf103_pac::generic::Readable for RSQ1 {

}

/// Register RSQ1 can be written.
impl crate::gd32vf103_pac::generic::Writable for RSQ1 {

}

/// regular sequence register 2
pub type RSQ2 = crate::gd32vf103_pac::generic::Reg<u32, _RSQ2>;

/// Names register RSQ2.
pub struct _RSQ2;

/// Register RSQ2 can be read.
impl crate::gd32vf103_pac::generic::Readable for RSQ2 {

}

/// Register RSQ2 can be written.
impl crate::gd32vf103_pac::generic::Writable for RSQ2 {

}

/// Sample time register 0
pub type SAMPT0 = crate::gd32vf103_pac::generic::Reg<u32, _SAMPT0>;

/// Names register SAMPT0.
pub struct _SAMPT0;

/// Register SAMPT0 can be read.
impl crate::gd32vf103_pac::generic::Readable for SAMPT0 {

}

/// Register SAMPT0 can be written.
impl crate::gd32vf103_pac::generic::Writable for SAMPT0 {

}

/// status register
pub type STAT = crate::gd32vf103_pac::generic::Reg<u32, _STAT>;

/// Names register STAT.
pub struct _STAT;

/// Register STAT can be read.
impl crate::gd32vf103_pac::generic::Readable for STAT {

}

/// Register STAT can be written.
impl crate::gd32vf103_pac::generic::Writable for STAT {

}

/// watchdog lower threshold register
pub type WDLT = crate::gd32vf103_pac::generic::Reg<u32, _WDLT>;

/// Names register WDLT.
pub struct _WDLT;

/// Register WDLT can be read.
impl crate::gd32vf103_pac::generic::Readable for WDLT {

}

/// Register WDLT can be written.
impl crate::gd32vf103_pac::generic::Writable for WDLT {

}

} // verus!
