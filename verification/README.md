# Register access for the GD32VF103 and the CM32M4xxR

Readers and writers for the memory-mapped registers of two RISC-V
microcontrollers, with every accessor specified and proved in Verus.

- `src/bitfield.rs`: what a field of a register word is (`field_u32`,
  `bit_u32`), what writing one does (`with_field_u32`, `with_bit_u32`), the
  helpers that compute them, and the laws: a field reads back what was written
  to it, a write leaves disjoint fields and bits alone, writing back what was
  read changes nothing, the last write of a field wins, disjoint writes commute,
  and a field is the word divided by `2^offset` modulo `2^width`.
- `src/gd32vf103_pac/`: the ADC, AFIO, BKP, CAN, CRC and core-timer registers of
  the GD32VF103. `generic.rs` holds the reader `R`, the writer `W` and the
  register cell `Reg`.
- `src/cm32m4xxr_pac/`: the USART and window-watchdog registers of the
  CM32M4xxR, where each register has a `*_SPEC` type that gives its reader,
  writer and reset value.

A register cell is read with `read()`; a write starts from `reset_writer()` (or
from `modify_writer()` for a read-modify-write), sets fields through the field
proxies (`w.sjw().bits(2).scmod().set_bit()`) and is stored with `write(&w)`.
