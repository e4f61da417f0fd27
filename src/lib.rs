//! The deterministic core of an emulator for a 32-bit MIPS R3000A game console:
//! CPU interpreter, cop0, the geometry coprocessor, bus, DMA, interrupts,
//! timers, CD-ROM controller, GPU command processor and VRAM.

#![allow(non_snake_case, non_camel_case_types)]

pub mod bios;
pub mod bus;
pub mod bytes;
pub mod cdrom;
pub mod color;
pub mod cpu;
pub mod decoder;
pub mod disk;
pub mod dma;
pub mod exe;
pub mod gpu;
pub mod gte;
pub mod interrupt;
pub mod ram;
pub mod registers;
pub mod spu;
pub mod system_control;
pub mod timer;
