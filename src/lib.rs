// A cycle-stepped emulator core for an 8-bit handheld console: the memory
// bus with its cartridge mappers, timer and interrupt registers, the CPU
// and its two instruction tables, and the background pixel pipeline.
pub mod mbc;
pub mod ppu;
pub mod bus;
pub mod cpu;
pub mod ops;
pub mod inst_set;
pub mod decode;
pub mod gameboy;
