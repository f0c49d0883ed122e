//! A reader for a few gameplay variables that Super Mario Bros. keeps in RAM,
//! for debugging.
use vstd::prelude::*;

verus! {

pub struct GameState {
    pub direction: u8,
    pub player_state: u8,
    pub float_state: u8,
    pub horizontal_speed: u8,
    pub horizontal_level_pos: u8,
    pub screen_x_pos: u8,
}

impl GameState {
    /// Picks the variables out of the 2 KiB of console RAM.
    pub fn new(ram: &Vec<u8>) -> (r: GameState)
        requires
            ram@.len() == 2048,
        ensures
            r.direction == ram@[0x0003],
            r.player_state == ram@[0x000E],
            r.float_state == ram@[0x001D],
            r.horizontal_speed == ram@[0x0057],
            r.horizontal_level_pos == ram@[0x006D],
            r.screen_x_pos == ram@[0x0086],
    {
        GameState {
            direction: ram[0x0003],
            player_state: ram[0x000E],
            float_state: ram[0x001D],
            horizontal_speed: ram[0x0057],
            horizontal_level_pos: ram[0x006D],
            screen_x_pos: ram[0x0086],
        }
    }

    pub fn read_direction(&self) -> (r: &'static str)
        ensures
            r@ == (if self.direction == 1 {
                "Right"@
            } else if self.direction == 2 {
                "Left"@
            } else {
                "INVALID DIRECTION"@
            }),
    {
        match self.direction {
            1 => "Right",
            2 => "Left",
            _ => "INVALID DIRECTION",
        }
    }

    pub fn read_player_state(&self) -> (r: &'static str)
        ensures
            r@ == player_state_name(self.player_state)@,
    {
        match self.player_state {
            0x00 => "Leftmost of screen",
            0x01 => "Climbing vine",
            0x02 => "Entering reversed-L pipe",
            0x03 => "Going down a pipe",
            0x04 => "Autowalk",
            0x05 => "Autowalk",
            0x06 => "Player dies",
            0x07 => "Entering area",
            0x08 => "Normal",
            0x09 => "Transforming from Small to Large (cannot move)",
            0x0A => "Transforming from Large to Small (cannot move)",
            0x0B => "Dying",
            0x0C => "Transforming to Fire Mario (cannot move)",
            _ => "INVALID PLAYER STATE",
        }
    }

    pub fn read_float_state(&self) -> (r: &'static str)
        ensures
            r@ == (if self.float_state == 0 {
                "Standing on solid/else"@
            } else if self.float_state == 1 {
                "Airborn by jumping"@
            } else if self.float_state == 2 {
                "Airborn by walking of a ledge"@
            } else if self.float_state == 3 {
                "Sliding down flagpole"@
            } else {
                "INVALID FLOAT STATE"@
            }),
    {
        match self.float_state {
            0x00 => "Standing on solid/else",
            0x01 => "Airborn by jumping",
            0x02 => "Airborn by walking of a ledge",
            0x03 => "Sliding down flagpole",
            _ => "INVALID FLOAT STATE",
        }
    }
}

/// The name of each player state.
pub open spec fn player_state_name(s: u8) -> &'static str {
    if s == 0 {
        "Leftmost of screen"
    } else if s == 1 {
        "Climbing vine"
    } else if s == 2 {
        "Entering reversed-L pipe"
    } else if s == 3 {
        "Going down a pipe"
    } else if s == 4 || s == 5 {
        "Autowalk"
    } else if s == 6 {
        "Player dies"
    } else if s == 7 {
        "Entering area"
    } else if s == 8 {
        "Normal"
    } else if s == 9 {
        "Transforming from Small to Large (cannot move)"
    } else if s == 10 {
        "Transforming from Large to Small (cannot move)"
    } else if s == 11 {
        "Dying"
    } else if s == 12 {
        "Transforming to Fire Mario (cannot move)"
    } else {
        "INVALID PLAYER STATE"
    }
}

} // verus!
