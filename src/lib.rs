//! Core of a Sega Master System emulator: the cartridge mapper, the video
//! display processor, the joypad, the CPU-facing bus and the frame scheduler.

pub mod bus;
pub mod joypad;
pub mod mmu;
pub mod port_sequences;
pub mod scheduler;
pub mod vdp;
