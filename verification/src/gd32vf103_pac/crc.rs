use vstd::prelude::*;

/// Free data register
pub mod fdata;

verus! {

/// Free data register
pub type FDATA = crate::gd32vf103_pac::generic::Reg<u32, _FDATA>;

/// Names register FDATA.
pub struct _FDATA;

/// Register FDATA can be read.
impl crate::gd32vf103_pac::generic::Readable for FDATA {

}

/// Register FDATA can be written.
impl crate::gd32vf103_pac::generic::Writable for FDATA {

}

} // verus!
