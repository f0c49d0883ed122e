//! The 6502's architectural registers and the layout of its status byte.
use vstd::prelude::*;
use crate::bits::bit_of;

verus! {

/// The eight bits of the processor status byte `P`, from low to high.
#[derive(Clone, Copy, Debug, PartialEq, Eq, Structural)]
pub enum CPUStatusFlags {
    CarryFlag,
    ZeroResult,
    InterruptDisable,
    DecimalMode,
    BreakFlag,
    Break2Flag,
    OverflowFlag,
    NegativeResult,
}

/// Position of a flag inside the status byte.
pub open spec fn flag_index(f: CPUStatusFlags) -> u8 {
    match f {
        CPUStatusFlags::CarryFlag => 0,
        CPUStatusFlags::ZeroResult => 1,
        CPUStatusFlags::InterruptDisable => 2,
        CPUStatusFlags::DecimalMode => 3,
        CPUStatusFlags::BreakFlag => 4,
        CPUStatusFlags::Break2Flag => 5,
        CPUStatusFlags::OverflowFlag => 6,
        CPUStatusFlags::NegativeResult => 7,
    }
}

impl CPUStatusFlags {
    /// The bit position of this flag in `P`.
    pub fn index(&self) -> (r: u8)
        ensures
            r == flag_index(*self),
            r < 8,
    {
        match self {
            CPUStatusFlags::CarryFlag => 0,
            CPUStatusFlags::ZeroResult => 1,
            CPUStatusFlags::InterruptDisable => 2,
            CPUStatusFlags::DecimalMode => 3,
            CPUStatusFlags::BreakFlag => 4,
            CPUStatusFlags::Break2Flag => 5,
            CPUStatusFlags::OverflowFlag => 6,
            CPUStatusFlags::NegativeResult => 7,
        }
    }
}

pub const CARRY: u8 = 0;
pub const ZERO: u8 = 1;
pub const INTERRUPT_DISABLE: u8 = 2;
pub const DECIMAL: u8 = 3;
pub const BREAK: u8 = 4;
pub const BREAK2: u8 = 5;
pub const OVERFLOW: u8 = 6;
pub const NEGATIVE: u8 = 7;

/// Whether the carry flag is set in the status byte `p`.
pub open spec fn carry_of(p: u8) -> bool {
    bit_of(p, CARRY)
}

/// The CPU's architectural state.
#[derive(Clone, Copy, Debug, PartialEq, Eq, Structural)]
pub struct Registers {
    /// Accumulator.
    pub a: u8,
    /// Index register X.
    pub x: u8,
    /// Index register Y.
    pub y: u8,
    /// Processor status.
    pub p: u8,
    /// Stack pointer into page one.
    pub sp: u8,
    /// Program counter.
    pub pc: u16,
}

impl Registers {
    pub open spec fn new_spec() -> Registers {
        Registers { a: 0, x: 0, y: 0, p: 0, sp: 0, pc: 0 }
    }

    /// All registers zero.
    pub fn new() -> (r: Registers)
        ensures
            r == Registers::new_spec(),
    {
        Registers { a: 0, x: 0, y: 0, p: 0, sp: 0, pc: 0 }
    }
}

} // verus!
