# kiwigb

A Game Boy (DMG) emulator core whose behaviour is stated in contracts and proved with
Verus, with an SDL2 front end.

## Layout

- `src/` — the verified library.
  - `cpu/` — the Sharp LR35902: register file, flags, ALU, interrupt controller,
    instruction tables and disassembler; `semantics.rs` states what every instruction and
    a whole CPU cycle do over an abstract machine state, and `cpu.rs` proves the
    executable CPU against it.
  - `mmu.rs` — the memory map and the devices behind it.
  - `ppu/`, `ppu.rs` — LCD registers, sprite table, scanline rendering and mode timing.
  - `spu/`, `spu.rs` — sound registers and channel state.
  - `timer.rs`, `joypad.rs` — the timer and the joypad register.
  - `gb.rs` — the console: boot state, key input and a frame of emulation.
  - `alu.rs` — the arithmetic operations in the form that writes all four flags.
- `app/` — the program: window, audio queues, keyboard, frame pacing, and the audio
  sampling, which works in floating point.
- `tests/` — tests of the library.
