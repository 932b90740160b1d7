//! Cycle-accurate core of an 8-bit home-console emulator: a 6502-family CPU
//! interpreter, a memory-mapped bus with mirrored regions, a picture
//! processing unit (PPU) with scanline/cycle timing, and an audio processing
//! unit (APU) with pulse and triangle channels. Every state transition is
//! stated as a specification-level model and the executable code is proved
//! against it.

pub mod apu;
pub mod apu_channels;
pub mod bus;
pub mod cpu;
pub mod interrupt;
pub mod joypad;
pub mod opcode;
pub mod ppu;
pub mod ppu_registers;
pub mod rom;
pub mod trace;
