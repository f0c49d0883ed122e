//! Core of a Nintendo Entertainment System emulator: the 6502 CPU, the
//! memory bus, the picture processing unit's register and timing model, the
//! controller port and the iNES cartridge loader.
use vstd::prelude::*;

pub mod bits;
pub mod registers;
pub mod joypad;
pub mod cart;
pub mod latches;
pub mod ppu;
pub mod bus;
pub mod cpu;
pub mod semantics;
pub mod instructions;
pub mod opcodes;
pub mod dispatch;
pub mod laws;
pub mod state;
pub mod game_state;
pub mod trace;

verus! {

} // verus!
