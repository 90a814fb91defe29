//! Register access for two RISC-V microcontrollers, the GD32VF103 and the
//! CM32M4xxR: for each register a reader whose methods give the fields, a writer
//! whose field proxies set them, and the reset value, all specified over the bit
//! fields of `bitfield`.
#![allow(non_camel_case_types)]
#![allow(non_snake_case)]

pub mod bitfield;
pub mod cm32m4xxr_pac;
pub mod gd32vf103_pac;
