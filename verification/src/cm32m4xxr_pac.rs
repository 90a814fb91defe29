//! Register access for the CM32M4xxR (RISC-V N308): USART and window watchdog.

/// Register specifications, readers, writers and register cells.
pub mod generic;
/// Universal synchronous asynchronous receiver transmitter 1
pub mod usart1;
/// Window watchdog
pub mod wwdg;
