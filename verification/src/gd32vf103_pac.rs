//! Register access for the GD32VF103 (RISC-V): ADC, AFIO, BKP, CAN, CRC and core timer.

/// Readers, writers and register cells.
pub mod generic;
/// Analog to digital converter 0
pub mod adc0;
/// Analog to digital converter 1
pub mod adc1;
/// Alternate-function I/Os
pub mod afio;
/// Backup registers
pub mod bkp;
/// Controller area network
pub mod can0;
/// Cyclic redundancy check calculation unit
pub mod crc;
/// Core timer
pub mod ctimer;
