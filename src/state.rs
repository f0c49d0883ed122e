//! Save states: the console RAM and the PPU, captured between instructions.
use vstd::prelude::*;
use crate::bus::{Bus, BusView};
use crate::ppu::{PPU, copy_bytes};

verus! {

/// A snapshot of what a save state restores.
pub struct State {
    pub ram: Vec<u8>,
    pub ppu: PPU,
}

impl State {
    pub fn new(ram: Vec<u8>, ppu: PPU) -> (r: State)
        ensures
            r.ram@ == ram@,
            r.ppu@ == ppu@,
    {
        State { ram, ppu }
    }

    /// Whether the snapshot can be restored: 2 KiB of RAM and a well-formed
    /// PPU.
    pub fn is_valid(&self) -> (r: bool)
        ensures
            r == (self.ram@.len() == 2048 && self.ppu@.wf()),
    {
        self.ram.len() == 2048 && self.ppu.is_well_formed()
    }
}

impl Bus {
    /// Captures RAM and the PPU.
    pub fn save_state(&self) -> (r: State)
        ensures
            r.ram@ == self@.ram,
            r.ppu@ == self@.ppu,
    {
        State::new(copy_bytes(&self.vram), self.ppu.snapshot())
    }

    /// Restores RAM and the PPU from `state` when it is valid; otherwise
    /// leaves the bus untouched. Returns whether it restored.
    pub fn load_state(&mut self, state: State) -> (r: bool)
        requires
            old(self)@.wf(),
        ensures
            r == (state.ram@.len() == 2048 && state.ppu@.wf()),
            r ==> final(self)@ == (BusView { ram: state.ram@, ppu: state.ppu@, ..old(self)@ }),
            !r ==> final(self)@ == old(self)@,
            final(self)@.wf(),
    {
        if state.is_valid() {
            self.vram = state.ram;
            self.ppu = state.ppu;
            true
        } else {
            false
        }
    }
}

} // verus!
