//! The processing core of an 8-bit handheld console: the register file and its
//! flags, the 64KB address space with its boot overlay and scanline timing, the
//! instruction handlers with the dispatch that selects them, and the cartridge
//! image that the address space is built from.

pub mod cartridge;
pub mod cpu;
pub mod fault;
pub mod machine;
pub mod memory;
pub mod opcodes;
pub mod registers;
pub mod video;

pub use crate::cpu::Cpu;
pub use crate::fault::Fault;
pub use crate::memory::Memory;
pub use crate::video::{ButtonState, Color, DirectionState, TileUpdate, Video};
