//! Memory-mapped bus and cartridge bank-switching core of a handheld
//! game-console emulator.
//!
//! The crate models the cartridge header, the five bank-controller
//! protocols, battery-backed save RAM, the clock-domain speed controller,
//! and the bus that routes every 16-bit address to its owner.

pub mod bus;
pub mod cartridge;
pub mod speed_controller;
