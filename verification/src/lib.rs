//! The core of an 8-bit handheld console: a 6502-family processor
//! interpreter over a flat memory bus, with the small input and menu types
//! that surround it.

pub mod bus;
pub mod cpu;
pub mod events;
pub mod flags;
pub mod games;
pub mod input;
pub mod laws;
pub mod opcodes;
pub mod screens;
pub mod state;
pub mod step;
