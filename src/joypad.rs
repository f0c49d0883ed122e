//! The standard controller: a strobe latch and a serial shift-out of eight
//! button bits.
use vstd::prelude::*;
use crate::bits::{bit_of, get_bit, set_bit, with_bit};

verus! {

/// The eight buttons of a standard controller.
#[derive(Clone, Copy, Debug, PartialEq, Eq, Structural)]
pub enum Inputs {
    Right,
    Left,
    Down,
    Up,
    Start,
    Select,
    B,
    A,
}

/// Bit of the button snapshot that holds a button; `A` is read out first.
pub open spec fn button_bit(b: Inputs) -> u8 {
    match b {
        Inputs::Right => 7,
        Inputs::Left => 6,
        Inputs::Down => 5,
        Inputs::Up => 4,
        Inputs::Start => 3,
        Inputs::Select => 2,
        Inputs::B => 1,
        Inputs::A => 0,
    }
}

#[derive(Clone, Copy, Debug, PartialEq, Eq, Structural)]
pub struct Joypad {
    pub strobe: bool,
    pub button_index: u8,
    pub button_status: u8,
}

impl Joypad {
    /// What a read of the port returns.
    pub open spec fn read_value(self) -> u8 {
        if self.button_index > 7 {
            1
        } else if bit_of(self.button_status, self.button_index) {
            1
        } else {
            0
        }
    }

    /// The controller after a read of the port.
    pub open spec fn after_read(self) -> Joypad {
        if self.button_index <= 7 && !self.strobe {
            Joypad { button_index: (self.button_index + 1) as u8, ..self }
        } else {
            self
        }
    }

    /// The controller after `data` is written to the port.
    pub open spec fn after_write(self, data: u8) -> Joypad {
        if bit_of(data, 0) {
            Joypad { strobe: true, button_index: 0, ..self }
        } else {
            Joypad { strobe: false, ..self }
        }
    }

    pub open spec fn wf(self) -> bool {
        self.button_index <= 8
    }

    /// A controller with no button held and the strobe low.
    pub open spec fn new_spec() -> Joypad {
        Joypad { strobe: false, button_index: 0, button_status: 0 }
    }

    pub fn new() -> (r: Joypad)
        ensures
            r == Joypad::new_spec(),
            r.wf(),
    {
        Joypad { strobe: false, button_index: 0, button_status: 0 }
    }

    /// What a read of the port would return, without shifting.
    pub fn peek(&self) -> (r: u8)
        ensures
            r == self.read_value(),
    {
        if self.button_index > 7 {
            1
        } else if get_bit(self.button_status, self.button_index) {
            1
        } else {
            0
        }
    }

    /// Shifts out the next button bit; reads past the eighth return 1.
    pub fn read(&mut self) -> (r: u8)
        ensures
            r == old(self).read_value(),
            *final(self) == old(self).after_read(),
            old(self).wf() ==> final(self).wf(),
    {
        if self.button_index > 7 {
            return 1;
        }
        let response: u8 = if get_bit(self.button_status, self.button_index) {
            1
        } else {
            0
        };
        if !self.strobe {
            self.button_index = self.button_index + 1;
        }
        response
    }

    /// Bit 0 of `data` drives the strobe; while it is high the read index is
    /// held at the first button.
    pub fn write(&mut self, data: u8)
        ensures
            *final(self) == old(self).after_write(data),
            old(self).wf() ==> final(self).wf(),
    {
        self.strobe = get_bit(data, 0);
        if self.strobe {
            self.button_index = 0;
        }
    }

    /// Records whether `button` is held down.
    pub fn set_button_pressed_status(&mut self, button: Inputs, pressed: bool)
        ensures
            final(self).button_status == with_bit(
                old(self).button_status,
                button_bit(button),
                pressed,
            ),
            final(self).strobe == old(self).strobe,
            final(self).button_index == old(self).button_index,
    {
        let index: u8 = match button {
            Inputs::Right => 7,
            Inputs::Left => 6,
            Inputs::Down => 5,
            Inputs::Up => 4,
            Inputs::Start => 3,
            Inputs::Select => 2,
            Inputs::B => 1,
            Inputs::A => 0,
        };
        set_bit(&mut self.button_status, index, pressed);
    }
}

impl Default for Joypad {
    fn default() -> (r: Joypad)
        ensures
            r == (Joypad { strobe: false, button_index: 0, button_status: 0 }),
    {
        Joypad::new()
    }
}

} // verus!
