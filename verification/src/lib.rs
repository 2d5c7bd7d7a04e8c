//! A cycle-driven core for the original 8-bit DMG handheld console: CPU
//! interpreter, memory bus with bank-switched cartridge mappers, LCD mode
//! machine and rasterizer, timer, serial port, joypad, and the interrupt
//! controller that ties them together.

pub mod addressing;
pub mod bitops;
pub mod bits;
pub mod bus;
pub mod cartridge;
pub mod cpu;
pub mod gameboy;
pub mod instructions;
pub mod joypad;
pub mod jumps;
pub mod laws;
pub mod lcd;
pub mod loads;
pub mod math;
pub mod mbc1;
pub mod mbc5;
pub mod misc;
pub mod registers;
pub mod serial;
pub mod sound;
pub mod timer;
