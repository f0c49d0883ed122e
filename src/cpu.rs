//! The 6502 processor: operand addressing, the stack, reset and NMI entry.
use vstd::prelude::*;
use crate::bits::{with_bit, set_bit};
use crate::bus::{Bus, BusView, join};
use crate::registers::{Registers, BREAK, BREAK2, INTERRUPT_DISABLE};

verus! {

pub const STACK: u16 = 0x0100;
pub const STACK_RESET: u8 = 0xFD;
pub const STATUS_RESET: u8 = 0b100100;
pub const NMI_VECTOR: u16 = 0xFFFA;
pub const RESET_VECTOR: u16 = 0xFFFC;

/// How an instruction finds its operand.
#[derive(Clone, Copy, Debug, PartialEq, Eq, Structural)]
pub enum AddressingMode {
    Immediate,
    ZeroPage,
    ZeroPageX,
    ZeroPageY,
    Absolute,
    AbsoluteX,
    AbsoluteY,
    IndirectX,
    IndirectY,
    NoneAddressing,
}

/// Whether `a` and `b` lie on different 256-byte pages.
pub open spec fn crosses_page(a: u16, b: u16) -> bool {
    a & 0xFF00u16 != b & 0xFF00u16
}

/// Resolves the operand whose bytes start at `at`: the effective address,
/// whether indexing crossed a page, and the bus after the reads it took.
pub open spec fn operand_at(b: BusView, r: Registers, mode: AddressingMode, at: u16) -> (
    u16,
    bool,
    BusView,
) {
    match mode {
        AddressingMode::Immediate => (at, false, b),
        AddressingMode::ZeroPage => (b.peek(at) as u16, false, b.after_read(at)),
        AddressingMode::Absolute => (b.word(at), false, b.after_word(at)),
        AddressingMode::ZeroPageX => (
            b.peek(at).wrapping_add(r.x) as u16,
            false,
            b.after_read(at),
        ),
        AddressingMode::ZeroPageY => (
            b.peek(at).wrapping_add(r.y) as u16,
            false,
            b.after_read(at),
        ),
        AddressingMode::AbsoluteX => {
            let base = b.word(at);
            let a = base.wrapping_add(r.x as u16);
            (a, crosses_page(base, a), b.after_word(at))
        },
        AddressingMode::AbsoluteY => {
            let base = b.word(at);
            let a = base.wrapping_add(r.y as u16);
            (a, crosses_page(base, a), b.after_word(at))
        },
        AddressingMode::IndirectX => {
            let b1 = b.after_read(at);
            let ptr = b.peek(at).wrapping_add(r.x);
            let b2 = b1.after_read(ptr as u16);
            let p2 = ptr.wrapping_add(1) as u16;
            (join(b1.peek(ptr as u16), b2.peek(p2)), false, b2.after_read(p2))
        },
        AddressingMode::IndirectY => {
            let base = b.peek(at);
            let b1 = b.after_read(at);
            let b2 = b1.after_read(base as u16);
            let p2 = base.wrapping_add(1) as u16;
            let deref_base = join(b1.peek(base as u16), b2.peek(p2));
            let a = deref_base.wrapping_add(r.y as u16);
            (a, crosses_page(deref_base, a), b2.after_read(p2))
        },
        AddressingMode::NoneAddressing => (0, false, b),
    }
}

/// The CPU as mathematical values.
pub struct CpuView {
    pub regs: Registers,
    pub bus: BusView,
}

impl CpuView {
    pub open spec fn wf(self) -> bool {
        self.bus.wf()
    }

    /// The operand of the instruction whose opcode was just fetched.
    pub open spec fn operand(self, mode: AddressingMode) -> (u16, bool, BusView) {
        operand_at(self.bus, self.regs, mode, self.regs.pc)
    }

    /// Pushes `v`: write to page one at SP, then decrement SP.
    #[verifier::opaque]
    pub open spec fn push(self, v: u8) -> CpuView {
        CpuView {
            regs: Registers { sp: self.regs.sp.wrapping_sub(1), ..self.regs },
            bus: self.bus.after_write((0x0100 + self.regs.sp) as u16, v),
        }
    }

    /// The address the next pop reads.
    pub open spec fn top(self) -> u16 {
        (0x0100 + self.regs.sp.wrapping_add(1)) as u16
    }

    /// The byte the next pop returns.
    pub open spec fn pop_value(self) -> u8 {
        self.bus.peek(self.top())
    }

    /// The CPU after a pop: increment SP, then read.
    pub open spec fn pop(self) -> CpuView {
        CpuView {
            regs: Registers { sp: self.regs.sp.wrapping_add(1), ..self.regs },
            bus: self.bus.after_read(self.top()),
        }
    }

    /// Pushes a word, high byte first.
    pub open spec fn push_16(self, v: u16) -> CpuView {
        self.push((v >> 8u16) as u8).push((v & 0xFFu16) as u8)
    }

    /// The word the next two pops return, low byte first.
    pub open spec fn pop_16_value(self) -> u16 {
        join(self.pop_value(), self.pop().pop_value())
    }

    pub open spec fn pop_16(self) -> CpuView {
        self.pop().pop()
    }

    /// The CPU after taking an NMI.
    pub open spec fn after_nmi(self) -> CpuView {
        let pushed = self.push_16(self.regs.pc).push(
            with_bit(with_bit(self.regs.p, BREAK, false), BREAK2, true),
        );
        let ticked = CpuView {
            regs: Registers {
                p: with_bit(self.regs.p, INTERRUPT_DISABLE, true),
                ..pushed.regs
            },
            bus: pushed.bus.after_tick(2),
        };
        CpuView {
            regs: Registers { pc: ticked.bus.word(NMI_VECTOR), ..ticked.regs },
            bus: ticked.bus.after_word(NMI_VECTOR),
        }
    }
}

/// Stack traffic stays in page one, so it keeps the bus well formed.
pub proof fn lemma_stack_wf(c: CpuView, v: u8)
    requires
        c.wf(),
    ensures
        c.push(v).wf(),
        c.pop().wf(),
{
    reveal(CpuView::push);
    crate::bus::lemma_access_wf(c.bus, (0x0100 + c.regs.sp) as u16, v);
    crate::bus::lemma_access_wf(c.bus, c.top(), v);
}

pub struct CPU {
    pub regs: Registers,
    pub bus: Bus,
}

impl View for CPU {
    type V = CpuView;

    open spec fn view(&self) -> CpuView {
        CpuView { regs: self.regs, bus: self.bus@ }
    }
}

impl CPU {
    pub fn new(bus: Bus) -> (r: CPU)
        ensures
            r.regs == Registers::new_spec(),
            r.bus@ == bus@,
    {
        CPU { regs: Registers::new(), bus }
    }

    /// Reads one byte through the bus.
    pub fn read(&mut self, addr: u16) -> (r: u8)
        requires
            old(self)@.wf(),
        ensures
            r == old(self)@.bus.peek(addr),
            final(self)@ == (CpuView { bus: old(self)@.bus.after_read(addr), ..old(self)@ }),
            final(self)@.wf(),
            final(self)@.bus.cycles == old(self)@.bus.cycles,
    {
        self.bus.read(addr)
    }

    /// Writes one byte through the bus.
    pub fn write(&mut self, addr: u16, value: u8)
        requires
            old(self)@.wf(),
        ensures
            final(self)@ == (CpuView { bus: old(self)@.bus.after_write(addr, value), ..old(self)@ }),
            final(self)@.wf(),
            final(self)@.bus.cycles == old(self)@.bus.cycles,
    {
        self.bus.write(addr, value)
    }

    /// Reads a little-endian word through the bus.
    pub fn read_16(&mut self, addr: u16) -> (r: u16)
        requires
            old(self)@.wf(),
        ensures
            r == old(self)@.bus.word(addr),
            final(self)@ == (CpuView { bus: old(self)@.bus.after_word(addr), ..old(self)@ }),
            final(self)@.wf(),
            final(self)@.bus.cycles == old(self)@.bus.cycles,
    {
        self.bus.read_16(addr)
    }

    /// Writes a little-endian word through the bus.
    pub fn write_16(&mut self, addr: u16, value: u16)
        requires
            old(self)@.wf(),
        ensures
            final(self)@ == (CpuView {
                bus: old(self)@.bus.after_write(addr, (value & 0xFF) as u8).after_write(
                    addr.wrapping_add(1),
                    (value >> 8) as u8,
                ),
                ..old(self)@
            }),
            final(self)@.wf(),
    {
        self.bus.write_16(addr, value)
    }

    /// Resets the registers and jumps through the reset vector at $FFFC.
    pub fn reset(&mut self)
        requires
            old(self)@.wf(),
        ensures
            final(self).regs == (Registers {
                a: 0,
                x: 0,
                y: 0,
                sp: STACK_RESET,
                p: STATUS_RESET,
                pc: old(self)@.bus.word(RESET_VECTOR),
            }),
            final(self)@.bus == old(self)@.bus.after_word(RESET_VECTOR),
            final(self)@.wf(),
            final(self)@.bus.cycles == old(self)@.bus.cycles,
    {
        self.regs.a = 0;
        self.regs.x = 0;
        self.regs.y = 0;
        self.regs.sp = STACK_RESET;
        self.regs.p = STATUS_RESET;
        self.regs.pc = self.read_16(RESET_VECTOR);
    }

    /// Resolves the operand at `addr` for `mode`: the effective address and
    /// whether indexing crossed a page boundary.
    pub fn get_absolute_address(&mut self, mode: &AddressingMode, addr: u16) -> (r: (u16, bool))
        requires
            old(self)@.wf(),
        ensures
            ({
                let (a, crossed, b) = operand_at(old(self)@.bus, old(self).regs, *mode, addr);
                r == (a, crossed) && final(self)@ == (CpuView { bus: b, ..old(self)@ })
            }),
            final(self)@.wf(),
            final(self)@.bus.cycles == old(self)@.bus.cycles,
    {
        match mode {
            AddressingMode::Immediate => (addr, false),
            AddressingMode::ZeroPage => (self.read(addr) as u16, false),
            AddressingMode::Absolute => (self.read_16(addr), false),
            AddressingMode::ZeroPageX => {
                let pos = self.read(addr);
                (pos.wrapping_add(self.regs.x) as u16, false)
            },
            AddressingMode::ZeroPageY => {
                let pos = self.read(addr);
                (pos.wrapping_add(self.regs.y) as u16, false)
            },
            AddressingMode::AbsoluteX => {
                let base = self.read_16(addr);
                let a = base.wrapping_add(self.regs.x as u16);
                (a, base & 0xFF00 != a & 0xFF00)
            },
            AddressingMode::AbsoluteY => {
                let base = self.read_16(addr);
                let a = base.wrapping_add(self.regs.y as u16);
                (a, base & 0xFF00 != a & 0xFF00)
            },
            AddressingMode::IndirectX => {
                let base = self.read(addr);
                let ptr: u8 = base.wrapping_add(self.regs.x);
                let lo = self.read(ptr as u16);
                let hi = self.read(ptr.wrapping_add(1) as u16);
                proof {
                    crate::latches::lemma_value_of(hi, lo);
                }
                (((hi as u16) << 8) | (lo as u16), false)
            },
            AddressingMode::IndirectY => {
                let base = self.read(addr);
                let lo = self.read(base as u16);
                let hi = self.read(base.wrapping_add(1) as u16);
                proof {
                    crate::latches::lemma_value_of(hi, lo);
                }
                let deref_base: u16 = ((hi as u16) << 8) | (lo as u16);
                let deref = deref_base.wrapping_add(self.regs.y as u16);
                (deref, deref & 0xFF00 != deref_base & 0xFF00)
            },
            AddressingMode::NoneAddressing => (0, false),
        }
    }

    /// Resolves the operand of the current instruction, whose bytes start
    /// at PC.
    pub fn get_op_addr(&mut self, mode: &AddressingMode) -> (r: (u16, bool))
        requires
            old(self)@.wf(),
        ensures
            ({
                let (a, crossed, b) = old(self)@.operand(*mode);
                r == (a, crossed) && final(self)@ == (CpuView { bus: b, ..old(self)@ })
            }),
            final(self)@.wf(),
            final(self)@.bus.cycles == old(self)@.bus.cycles,
    {
        let pc = self.regs.pc;
        self.get_absolute_address(mode, pc)
    }

    /// Pushes a byte onto the stack in page one.
    pub fn stack_push(&mut self, data: u8)
        requires
            old(self)@.wf(),
        ensures
            final(self)@ == old(self)@.push(data),
            final(self)@.wf(),
            final(self)@.bus.cycles == old(self)@.bus.cycles,
    {
        reveal(CpuView::push);
        proof {
            lemma_stack_wf(self@, data);
        }
        let sp = self.regs.sp;
        self.write(STACK + sp as u16, data);
        self.regs.sp = sp.wrapping_sub(1);
    }

    /// Pops a byte from the stack.
    pub fn stack_pop(&mut self) -> (r: u8)
        requires
            old(self)@.wf(),
        ensures
            r == old(self)@.pop_value(),
            final(self)@ == old(self)@.pop(),
            final(self)@.wf(),
            final(self)@.bus.cycles == old(self)@.bus.cycles,
    {
        proof {
            lemma_stack_wf(self@, 0);
        }
        self.regs.sp = self.regs.sp.wrapping_add(1);
        let sp = self.regs.sp;
        self.read(STACK + sp as u16)
    }

    /// Pushes a word, high byte first.
    pub fn stack_push_16(&mut self, data: u16)
        requires
            old(self)@.wf(),
        ensures
            final(self)@ == old(self)@.push_16(data),
            final(self)@.wf(),
            final(self)@.bus.cycles == old(self)@.bus.cycles,
    {
        let hi = (data >> 8) as u8;
        let lo = (data & 0xff) as u8;
        self.stack_push(hi);
        self.stack_push(lo);
    }

    /// Pops a word, low byte first.
    pub fn stack_pop_16(&mut self) -> (r: u16)
        requires
            old(self)@.wf(),
        ensures
            r == old(self)@.pop_16_value(),
            final(self)@ == old(self)@.pop_16(),
            final(self)@.wf(),
            final(self)@.bus.cycles == old(self)@.bus.cycles,
    {
        let lo = self.stack_pop();
        let hi = self.stack_pop();
        proof {
            crate::latches::lemma_value_of(hi, lo);
        }
        ((hi as u16) << 8) | (lo as u16)
    }

    /// Enters the NMI handler: pushes PC and the status (Break clear, Break2
    /// set), disables interrupts, bills two cycles and jumps through $FFFA.
    pub fn interrupt_nmi(&mut self)
        requires
            old(self)@.wf(),
        ensures
            final(self)@ == old(self)@.after_nmi(),
            final(self)@.wf(),
            final(self)@.bus.cycles == old(self)@.bus.cycles.wrapping_add(2),
    {
        reveal(CpuView::push);
        let pc = self.regs.pc;
        self.stack_push_16(pc);
        let mut flag = self.regs.p;
        set_bit(&mut flag, BREAK, false);
        set_bit(&mut flag, BREAK2, true);
        self.stack_push(flag);
        set_bit(&mut self.regs.p, INTERRUPT_DISABLE, true);
        self.bus.tick(2);
        self.regs.pc = self.read_16(NMI_VECTOR);
    }
}

} // verus!
