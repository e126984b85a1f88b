//! Core of a Nintendo Entertainment System emulator: the picture processing
//! unit, the cartridge mappers, the controller ports and the bus that ties
//! them together, each with a verified contract. The 6502 itself is an
//! outside collaborator that drives the bus from the host side.

pub mod apu;
pub mod cartridge;
pub mod input;
pub mod mapper;
pub mod nes;
pub mod ppu;
pub mod ppu_render;

