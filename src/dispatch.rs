//! The fetch/decode/execute loop and NMI servicing.
use vstd::prelude::*;
use crate::bits::bit_of;
use crate::bus::BusError;
use crate::cpu::{AddressingMode, CPU, CpuView};
use crate::opcodes::{get_instruction, opcode_shape};
use crate::registers::{Registers, CARRY, DECIMAL, INTERRUPT_DISABLE, NEGATIVE, OVERFLOW, ZERO};

verus! {

/// What one dispatcher step did.
#[derive(Clone, Copy, Debug, PartialEq, Eq, Structural)]
pub enum Step {
    /// An instruction ran.
    Executed,
    /// A BRK ($00) was fetched: the program is done.
    Halted,
}

impl CpuView {
    /// What opcode `op`, decoded with `mode`, does once PC is past it.
    /// Single-byte NOPs change nothing.
    #[verifier::opaque]
    pub open spec fn execute_op(self, op: u8, mode: AddressingMode) -> CpuView {
        match op {
            0x69u8 | 0x65u8 | 0x75u8 | 0x6Du8 | 0x7Du8 | 0x79u8 | 0x61u8 | 0x71u8 => self.adc(mode),
            0x29u8 | 0x25u8 | 0x35u8 | 0x2Du8 | 0x3Du8 | 0x39u8 | 0x21u8 | 0x31u8 => self.and(mode),
            0x0Au8 => self.asl_accumulator(),
            0x06u8 | 0x16u8 | 0x0Eu8 | 0x1Eu8 => self.asl(mode),
            0x90u8 => self.branch(!bit_of(self.regs.p, CARRY)),
            0xB0u8 => self.branch(bit_of(self.regs.p, CARRY)),
            0xF0u8 => self.branch(bit_of(self.regs.p, ZERO)),
            0x30u8 => self.branch(bit_of(self.regs.p, NEGATIVE)),
            0xD0u8 => self.branch(!bit_of(self.regs.p, ZERO)),
            0x10u8 => self.branch(!bit_of(self.regs.p, NEGATIVE)),
            0x50u8 => self.branch(!bit_of(self.regs.p, OVERFLOW)),
            0x70u8 => self.branch(bit_of(self.regs.p, OVERFLOW)),
            0x24u8 | 0x2Cu8 => self.bit(mode),
            0x18u8 => self.set_flag(CARRY, false),
            0xD8u8 => self.set_flag(DECIMAL, false),
            0x58u8 => self.set_flag(INTERRUPT_DISABLE, false),
            0xB8u8 => self.set_flag(OVERFLOW, false),
            0xC9u8 | 0xC5u8 | 0xD5u8 | 0xCDu8 | 0xDDu8 | 0xD9u8 | 0xC1u8 | 0xD1u8 => self.compare(mode, self.regs.a),
            0xE0u8 | 0xE4u8 | 0xECu8 => self.compare(mode, self.regs.x),
            0xC0u8 | 0xC4u8 | 0xCCu8 => self.compare(mode, self.regs.y),
            0xC6u8 | 0xD6u8 | 0xCEu8 | 0xDEu8 => self.dec(mode),
            0xCAu8 => self.set_x(self.regs.x.wrapping_sub(1)),
            0x88u8 => self.set_y(self.regs.y.wrapping_sub(1)),
            0x49u8 | 0x45u8 | 0x55u8 | 0x4Du8 | 0x5Du8 | 0x59u8 | 0x41u8 | 0x51u8 => self.eor(mode),
            0xE6u8 | 0xF6u8 | 0xEEu8 | 0xFEu8 => self.inc(mode),
            0xE8u8 => self.set_x(self.regs.x.wrapping_add(1)),
            0xC8u8 => self.set_y(self.regs.y.wrapping_add(1)),
            0x4Cu8 => self.jmp(),
            0x6Cu8 => self.jmp_indirect(),
            0x20u8 => self.jsr(),
            0xA9u8 | 0xA5u8 | 0xB5u8 | 0xADu8 | 0xBDu8 | 0xB9u8 | 0xA1u8 | 0xB1u8 => self.lda(mode),
            0xA2u8 | 0xA6u8 | 0xB6u8 | 0xAEu8 | 0xBEu8 => self.ldx(mode),
            0xA0u8 | 0xA4u8 | 0xB4u8 | 0xACu8 | 0xBCu8 => self.ldy(mode),
            0x4Au8 => self.lsr_accumulator(),
            0x46u8 | 0x56u8 | 0x4Eu8 | 0x5Eu8 => self.lsr(mode),
            0x09u8 | 0x05u8 | 0x15u8 | 0x0Du8 | 0x1Du8 | 0x19u8 | 0x01u8 | 0x11u8 => self.ora(mode),
            0x48u8 => self.push(self.regs.a),
            0x08u8 => self.push(self.regs.p),
            0x68u8 => self.pla(),
            0x28u8 => self.plp(),
            0x2Au8 => self.rol_accumulator(),
            0x26u8 | 0x36u8 | 0x2Eu8 | 0x3Eu8 => self.rol(mode),
            0x6Au8 => self.ror_accumulator(),
            0x66u8 | 0x76u8 | 0x6Eu8 | 0x7Eu8 => self.ror(mode),
            0x40u8 => self.rti(),
            0x60u8 => self.rts(),
            0xE9u8 | 0xE5u8 | 0xF5u8 | 0xEDu8 | 0xFDu8 | 0xF9u8 | 0xE1u8 | 0xF1u8 => self.sbc(mode),
            0x38u8 => self.set_flag(CARRY, true),
            0xF8u8 => self.set_flag(DECIMAL, true),
            0x78u8 => self.set_flag(INTERRUPT_DISABLE, true),
            0x85u8 | 0x95u8 | 0x8Du8 | 0x9Du8 | 0x99u8 | 0x81u8 | 0x91u8 => self.store(mode, self.regs.a),
            0x86u8 | 0x96u8 | 0x8Eu8 => self.store(mode, self.regs.x),
            0x84u8 | 0x94u8 | 0x8Cu8 => self.store(mode, self.regs.y),
            0xAAu8 => self.set_x(self.regs.a),
            0xA8u8 => self.set_y(self.regs.a),
            0xBAu8 => self.set_x(self.regs.sp),
            0x8Au8 => self.set_a(self.regs.x),
            0x9Au8 => self.with_regs(Registers { sp: self.regs.x, ..self.regs }),
            0x98u8 => self.set_a(self.regs.y),
            0xC7u8 | 0xD7u8 | 0xCFu8 | 0xDFu8 | 0xDBu8 | 0xD3u8 | 0xC3u8 => self.dcp(mode),
            0x27u8 | 0x37u8 | 0x2Fu8 | 0x3Fu8 | 0x3Bu8 | 0x33u8 | 0x23u8 => self.rla(mode),
            0x07u8 | 0x17u8 | 0x0Fu8 | 0x1Fu8 | 0x1Bu8 | 0x03u8 | 0x13u8 => self.slo(mode),
            0x47u8 | 0x57u8 | 0x4Fu8 | 0x5Fu8 | 0x5Bu8 | 0x43u8 | 0x53u8 => self.sre(mode),
            0x80u8 | 0x82u8 | 0x89u8 | 0xC2u8 | 0xE2u8 | 0x04u8 | 0x44u8 | 0x64u8 | 0x14u8 | 0x34u8 | 0x54u8 | 0x74u8 | 0xD4u8 | 0xF4u8 | 0x0Cu8 | 0x1Cu8 | 0x3Cu8 | 0x5Cu8 | 0x7Cu8 | 0xDCu8 | 0xFCu8 => self.load(mode).1,
            0xCBu8 => self.axs(mode),
            0x6Bu8 => self.arr(mode),
            0xEBu8 => self.sbc_unofficial(mode),
            0x0Bu8 | 0x2Bu8 => self.anc(mode),
            0x4Bu8 => self.alr(mode),
            0x67u8 | 0x77u8 | 0x6Fu8 | 0x7Fu8 | 0x7Bu8 | 0x63u8 | 0x73u8 => self.rra(mode),
            0xE7u8 | 0xF7u8 | 0xEFu8 | 0xFFu8 | 0xFBu8 | 0xE3u8 | 0xF3u8 => self.isb(mode),
            0xA7u8 | 0xB7u8 | 0xAFu8 | 0xBFu8 | 0xA3u8 | 0xB3u8 => self.lax(mode),
            0x87u8 | 0x97u8 | 0x8Fu8 | 0x83u8 => self.store(mode, self.regs.a & self.regs.x),
            0xABu8 => self.lxa(mode),
            0x8Bu8 => self.xaa(mode),
            0xBBu8 => self.las(mode),
            0x9Bu8 => self.tas(),
            0x93u8 => self.ahx_indir_y(),
            0x9Fu8 => self.ahx_abs_y(),
            0x9Eu8 => self.shx(),
            0x9Cu8 => self.shy(),
            _ => self,
        }
    }

    /// The cycles that opcode `op` owes beyond its base count.
    #[verifier::opaque]
    pub open spec fn op_penalty(self, op: u8, mode: AddressingMode) -> u8 {
        match op {
            0x69u8 | 0x65u8 | 0x75u8 | 0x6Du8 | 0x7Du8 | 0x79u8 | 0x61u8 | 0x71u8 => self.page_penalty(mode),
            0x29u8 | 0x25u8 | 0x35u8 | 0x2Du8 | 0x3Du8 | 0x39u8 | 0x21u8 | 0x31u8 => self.page_penalty(mode),
            0x90u8 => self.branch_penalty(!bit_of(self.regs.p, CARRY)),
            0xB0u8 => self.branch_penalty(bit_of(self.regs.p, CARRY)),
            0xF0u8 => self.branch_penalty(bit_of(self.regs.p, ZERO)),
            0x30u8 => self.branch_penalty(bit_of(self.regs.p, NEGATIVE)),
            0xD0u8 => self.branch_penalty(!bit_of(self.regs.p, ZERO)),
            0x10u8 => self.branch_penalty(!bit_of(self.regs.p, NEGATIVE)),
            0x50u8 => self.branch_penalty(!bit_of(self.regs.p, OVERFLOW)),
            0x70u8 => self.branch_penalty(bit_of(self.regs.p, OVERFLOW)),
            0xC9u8 | 0xC5u8 | 0xD5u8 | 0xCDu8 | 0xDDu8 | 0xD9u8 | 0xC1u8 | 0xD1u8 => self.page_penalty(mode),
            0xE0u8 | 0xE4u8 | 0xECu8 => self.page_penalty(mode),
            0xC0u8 | 0xC4u8 | 0xCCu8 => self.page_penalty(mode),
            0x49u8 | 0x45u8 | 0x55u8 | 0x4Du8 | 0x5Du8 | 0x59u8 | 0x41u8 | 0x51u8 => self.page_penalty(mode),
            0xA9u8 | 0xA5u8 | 0xB5u8 | 0xADu8 | 0xBDu8 | 0xB9u8 | 0xA1u8 | 0xB1u8 => self.page_penalty(mode),
            0xA2u8 | 0xA6u8 | 0xB6u8 | 0xAEu8 | 0xBEu8 => self.page_penalty(mode),
            0xA0u8 | 0xA4u8 | 0xB4u8 | 0xACu8 | 0xBCu8 => self.page_penalty(mode),
            0x09u8 | 0x05u8 | 0x15u8 | 0x0Du8 | 0x1Du8 | 0x19u8 | 0x01u8 | 0x11u8 => self.page_penalty(mode),
            0xE9u8 | 0xE5u8 | 0xF5u8 | 0xEDu8 | 0xFDu8 | 0xF9u8 | 0xE1u8 | 0xF1u8 => self.page_penalty(mode),
            0x80u8 | 0x82u8 | 0x89u8 | 0xC2u8 | 0xE2u8 | 0x04u8 | 0x44u8 | 0x64u8 | 0x14u8 | 0x34u8 | 0x54u8 | 0x74u8 | 0xD4u8 | 0xF4u8 | 0x0Cu8 | 0x1Cu8 | 0x3Cu8 | 0x5Cu8 | 0x7Cu8 | 0xDCu8 | 0xFCu8 => self.page_penalty(mode),
            0xA7u8 | 0xB7u8 | 0xAFu8 | 0xBFu8 | 0xA3u8 | 0xB3u8 => self.page_penalty(mode),
            _ => 0,
        }
    }

    /// One instruction: fetch the opcode at PC, step past it, execute, bill
    /// the base cycles plus penalties, and step past the operand unless the
    /// instruction moved PC. BRK bills its cycles and halts. The flag says
    /// whether it halted.
    pub open spec fn next(self) -> (CpuView, bool) {
        let pc = self.regs.pc;
        let op = self.bus.peek(pc);
        let c1 = CpuView {
            regs: Registers { pc: pc.wrapping_add(1), ..self.regs },
            bus: self.bus.after_read(pc),
        };
        let (mode, bytes, cycles) = opcode_shape(op);
        if op == 0 {
            (CpuView { bus: c1.bus.after_tick(cycles), ..c1 }, true)
        } else {
            let c2 = c1.execute_op(op, mode);
            let billed = (cycles + c1.op_penalty(op, mode)) as u8;
            let c3 = CpuView { bus: c2.bus.after_tick(billed), ..c2 };
            if c3.regs.pc == c1.regs.pc {
                (
                    c3.with_regs(
                        Registers { pc: c3.regs.pc.wrapping_add((bytes - 1) as u16), ..c3.regs },
                    ),
                    false,
                )
            } else {
                (c3, false)
            }
        }
    }

    /// Services a latched NMI, if any.
    pub open spec fn serviced(self) -> CpuView {
        if self.bus.ppu.nmi_interrupt.is_some() {
            CpuView {
                bus: crate::bus::BusView {
                    ppu: crate::ppu::PpuView { nmi_interrupt: None, ..self.bus.ppu },
                    ..self.bus
                },
                ..self
            }.after_nmi()
        } else {
            self
        }
    }

    /// How a step ends: with the bus's fault if one has been recorded.
    pub open spec fn outcome(self, halted: bool) -> Result<Step, BusError> {
        match self.bus.fault {
            Some(e) => Err(e),
            None => Ok(
                if halted {
                    Step::Halted
                } else {
                    Step::Executed
                },
            ),
        }
    }

    /// One dispatcher step: NMI service, then one instruction.
    pub open spec fn step(self) -> (CpuView, Result<Step, BusError>) {
        let (c, halted) = self.serviced().next();
        (c, c.outcome(halted))
    }

    /// Up to `n` steps, stopping at a halt or a fault. `Ok(true)` means the
    /// program halted.
    pub open spec fn run(self, n: nat) -> (CpuView, Result<bool, BusError>)
        decreases n,
    {
        if n == 0 {
            (self, Ok(false))
        } else {
            let (c, out) = self.step();
            match out {
                Err(e) => (c, Err(e)),
                Ok(Step::Halted) => (c, Ok(true)),
                Ok(Step::Executed) => c.run((n - 1) as nat),
            }
        }
    }
}

/// Adding `a` then `b` to a wrapping counter adds `a + b`.
proof fn lemma_wrapping_add_assoc(x: u64, a: u64, b: u64)
    requires
        a + b <= u64::MAX,
    ensures
        x.wrapping_add(a).wrapping_add(b) == x.wrapping_add((a + b) as u64),
{
}

impl CPU {
    /// Executes an opcode in $00-$1F.
    fn execute_00(&mut self, opcode: u8, mode: &AddressingMode) -> (r: u8)
        requires
            old(self)@.wf(),
            0x00 <= opcode <= 0x1F,
        ensures
            final(self)@ == old(self)@.execute_op(opcode, *mode),
            r == old(self)@.op_penalty(opcode, *mode),
            r <= 2,
            final(self)@.wf(),
            final(self)@.bus.cycles == old(self)@.bus.cycles,
    {
        reveal(CpuView::execute_op);
        reveal(CpuView::op_penalty);
        match opcode {
            0x0A => {
                self.asl_accumulator();
                0
            },
            0x06 | 0x16 | 0x0E | 0x1E => {
                self.asl(mode);
                0
            },
            0x10 => self.bpl(),
            0x18 => {
                self.clc();
                0
            },
            0x09 | 0x05 | 0x15 | 0x0D | 0x1D | 0x19 | 0x01 | 0x11 => self.ora(mode),
            0x08 => {
                self.php();
                0
            },
            0x07 | 0x17 | 0x0F | 0x1F | 0x1B | 0x03 | 0x13 => {
                self.slo(mode);
                0
            },
            0x04 | 0x14 | 0x0C | 0x1C => self.nop_read(mode),
            0x0B => {
                self.anc(mode);
                0
            },
            _ => 0,
        }
    }

    /// Executes an opcode in $20-$3F.
    fn execute_20(&mut self, opcode: u8, mode: &AddressingMode) -> (r: u8)
        requires
            old(self)@.wf(),
            0x20 <= opcode <= 0x3F,
        ensures
            final(self)@ == old(self)@.execute_op(opcode, *mode),
            r == old(self)@.op_penalty(opcode, *mode),
            r <= 2,
            final(self)@.wf(),
            final(self)@.bus.cycles == old(self)@.bus.cycles,
    {
        reveal(CpuView::execute_op);
        reveal(CpuView::op_penalty);
        match opcode {
            0x29 | 0x25 | 0x35 | 0x2D | 0x3D | 0x39 | 0x21 | 0x31 => self.and(mode),
            0x30 => self.bmi(),
            0x24 | 0x2C => {
                self.bit(mode);
                0
            },
            0x20 => {
                self.jsr();
                0
            },
            0x28 => {
                self.plp();
                0
            },
            0x2A => {
                self.rol_accumulator();
                0
            },
            0x26 | 0x36 | 0x2E | 0x3E => {
                self.rol(mode);
                0
            },
            0x38 => {
                self.sec();
                0
            },
            0x27 | 0x37 | 0x2F | 0x3F | 0x3B | 0x33 | 0x23 => {
                self.rla(mode);
                0
            },
            0x34 | 0x3C => self.nop_read(mode),
            0x2B => {
                self.anc(mode);
                0
            },
            _ => 0,
        }
    }

    /// Executes an opcode in $40-$5F.
    fn execute_40(&mut self, opcode: u8, mode: &AddressingMode) -> (r: u8)
        requires
            old(self)@.wf(),
            0x40 <= opcode <= 0x5F,
        ensures
            final(self)@ == old(self)@.execute_op(opcode, *mode),
            r == old(self)@.op_penalty(opcode, *mode),
            r <= 2,
            final(self)@.wf(),
            final(self)@.bus.cycles == old(self)@.bus.cycles,
    {
        reveal(CpuView::execute_op);
        reveal(CpuView::op_penalty);
        match opcode {
            0x50 => self.bvc(),
            0x58 => {
                self.cli();
                0
            },
            0x49 | 0x45 | 0x55 | 0x4D | 0x5D | 0x59 | 0x41 | 0x51 => self.eor(mode),
            0x4C => {
                self.jmp();
                0
            },
            0x4A => {
                self.lsr_accumulator();
                0
            },
            0x46 | 0x56 | 0x4E | 0x5E => {
                self.lsr(mode);
                0
            },
            0x48 => {
                self.pha();
                0
            },
            0x40 => {
                self.rti();
                0
            },
            0x47 | 0x57 | 0x4F | 0x5F | 0x5B | 0x43 | 0x53 => {
                self.sre(mode);
                0
            },
            0x44 | 0x54 | 0x5C => self.nop_read(mode),
            0x4B => {
                self.alr(mode);
                0
            },
            _ => 0,
        }
    }

    /// Executes an opcode in $60-$7F.
    fn execute_60(&mut self, opcode: u8, mode: &AddressingMode) -> (r: u8)
        requires
            old(self)@.wf(),
            0x60 <= opcode <= 0x7F,
        ensures
            final(self)@ == old(self)@.execute_op(opcode, *mode),
            r == old(self)@.op_penalty(opcode, *mode),
            r <= 2,
            final(self)@.wf(),
            final(self)@.bus.cycles == old(self)@.bus.cycles,
    {
        reveal(CpuView::execute_op);
        reveal(CpuView::op_penalty);
        match opcode {
            0x69 | 0x65 | 0x75 | 0x6D | 0x7D | 0x79 | 0x61 | 0x71 => self.adc(mode),
            0x70 => self.bvs(),
            0x6C => {
                self.jmp_indirect();
                0
            },
            0x68 => {
                self.pla();
                0
            },
            0x6A => {
                self.ror_accumulator();
                0
            },
            0x66 | 0x76 | 0x6E | 0x7E => {
                self.ror(mode);
                0
            },
            0x60 => {
                self.rts();
                0
            },
            0x78 => {
                self.sei();
                0
            },
            0x64 | 0x74 | 0x7C => self.nop_read(mode),
            0x6B => {
                self.arr(mode);
                0
            },
            0x67 | 0x77 | 0x6F | 0x7F | 0x7B | 0x63 | 0x73 => {
                self.rra(mode);
                0
            },
            _ => 0,
        }
    }

    /// Executes an opcode in $80-$9F.
    fn execute_80(&mut self, opcode: u8, mode: &AddressingMode) -> (r: u8)
        requires
            old(self)@.wf(),
            0x80 <= opcode <= 0x9F,
        ensures
            final(self)@ == old(self)@.execute_op(opcode, *mode),
            r == old(self)@.op_penalty(opcode, *mode),
            r <= 2,
            final(self)@.wf(),
            final(self)@.bus.cycles == old(self)@.bus.cycles,
    {
        reveal(CpuView::execute_op);
        reveal(CpuView::op_penalty);
        match opcode {
            0x90 => self.bcc(),
            0x88 => {
                self.dey();
                0
            },
            0x85 | 0x95 | 0x8D | 0x9D | 0x99 | 0x81 | 0x91 => {
                self.sta(mode);
                0
            },
            0x86 | 0x96 | 0x8E => {
                self.stx(mode);
                0
            },
            0x84 | 0x94 | 0x8C => {
                self.sty(mode);
                0
            },
            0x8A => {
                self.txa();
                0
            },
            0x9A => {
                self.txs();
                0
            },
            0x98 => {
                self.tya();
                0
            },
            0x80 | 0x82 | 0x89 => self.nop_read(mode),
            0x87 | 0x97 | 0x8F | 0x83 => {
                self.sax(mode);
                0
            },
            0x8B => {
                self.xaa(mode);
                0
            },
            0x9B => {
                self.tas();
                0
            },
            0x93 => {
                self.ahx_indir_y();
                0
            },
            0x9F => {
                self.ahx_abs_y();
                0
            },
            0x9E => {
                self.shx();
                0
            },
            0x9C => {
                self.shy();
                0
            },
            _ => 0,
        }
    }

    /// Executes an opcode in $A0-$BF.
    fn execute_a0(&mut self, opcode: u8, mode: &AddressingMode) -> (r: u8)
        requires
            old(self)@.wf(),
            0xA0 <= opcode <= 0xBF,
        ensures
            final(self)@ == old(self)@.execute_op(opcode, *mode),
            r == old(self)@.op_penalty(opcode, *mode),
            r <= 2,
            final(self)@.wf(),
            final(self)@.bus.cycles == old(self)@.bus.cycles,
    {
        reveal(CpuView::execute_op);
        reveal(CpuView::op_penalty);
        match opcode {
            0xB0 => self.bcs(),
            0xB8 => {
                self.clv();
                0
            },
            0xA9 | 0xA5 | 0xB5 | 0xAD | 0xBD | 0xB9 | 0xA1 | 0xB1 => self.lda(mode),
            0xA2 | 0xA6 | 0xB6 | 0xAE | 0xBE => self.ldx(mode),
            0xA0 | 0xA4 | 0xB4 | 0xAC | 0xBC => self.ldy(mode),
            0xAA => {
                self.tax();
                0
            },
            0xA8 => {
                self.tay();
                0
            },
            0xBA => {
                self.tsx();
                0
            },
            0xA7 | 0xB7 | 0xAF | 0xBF | 0xA3 | 0xB3 => self.lax(mode),
            0xAB => {
                self.lxa(mode);
                0
            },
            0xBB => {
                self.las(mode);
                0
            },
            _ => 0,
        }
    }

    /// Executes an opcode in $C0-$DF.
    fn execute_c0(&mut self, opcode: u8, mode: &AddressingMode) -> (r: u8)
        requires
            old(self)@.wf(),
            0xC0 <= opcode <= 0xDF,
        ensures
            final(self)@ == old(self)@.execute_op(opcode, *mode),
            r == old(self)@.op_penalty(opcode, *mode),
            r <= 2,
            final(self)@.wf(),
            final(self)@.bus.cycles == old(self)@.bus.cycles,
    {
        reveal(CpuView::execute_op);
        reveal(CpuView::op_penalty);
        match opcode {
            0xD0 => self.bne(),
            0xD8 => {
                self.cld();
                0
            },
            0xC9 | 0xC5 | 0xD5 | 0xCD | 0xDD | 0xD9 | 0xC1 | 0xD1 => { let a = self.regs.a; self.compare(mode, a) },
            0xC0 | 0xC4 | 0xCC => { let y = self.regs.y; self.compare(mode, y) },
            0xC6 | 0xD6 | 0xCE | 0xDE => {
                self.dec(mode);
                0
            },
            0xCA => {
                self.dex();
                0
            },
            0xC8 => {
                self.iny();
                0
            },
            0xC7 | 0xD7 | 0xCF | 0xDF | 0xDB | 0xD3 | 0xC3 => {
                self.dcp(mode);
                0
            },
            0xC2 | 0xD4 | 0xDC => self.nop_read(mode),
            0xCB => {
                self.axs(mode);
                0
            },
            _ => 0,
        }
    }

    /// Executes an opcode in $E0-$FF.
    fn execute_e0(&mut self, opcode: u8, mode: &AddressingMode) -> (r: u8)
        requires
            old(self)@.wf(),
            0xE0 <= opcode <= 0xFF,
        ensures
            final(self)@ == old(self)@.execute_op(opcode, *mode),
            r == old(self)@.op_penalty(opcode, *mode),
            r <= 2,
            final(self)@.wf(),
            final(self)@.bus.cycles == old(self)@.bus.cycles,
    {
        reveal(CpuView::execute_op);
        reveal(CpuView::op_penalty);
        match opcode {
            0xF0 => self.beq(),
            0xE0 | 0xE4 | 0xEC => { let x = self.regs.x; self.compare(mode, x) },
            0xE6 | 0xF6 | 0xEE | 0xFE => {
                self.inc(mode);
                0
            },
            0xE8 => {
                self.inx();
                0
            },
            0xE9 | 0xE5 | 0xF5 | 0xED | 0xFD | 0xF9 | 0xE1 | 0xF1 => self.sbc(mode),
            0xF8 => {
                self.sed();
                0
            },
            0xE2 | 0xF4 | 0xFC => self.nop_read(mode),
            0xEB => {
                self.sbc_unofficial(mode);
                0
            },
            0xE7 | 0xF7 | 0xEF | 0xFF | 0xFB | 0xE3 | 0xF3 => {
                self.isb(mode);
                0
            },
            _ => 0,
        }
    }

    /// Executes opcode `opcode` decoded with `mode`; returns the cycles it
    /// owes beyond its base count.
    fn execute(&mut self, opcode: u8, mode: &AddressingMode) -> (r: u8)
        requires
            old(self)@.wf(),
        ensures
            final(self)@ == old(self)@.execute_op(opcode, *mode),
            r == old(self)@.op_penalty(opcode, *mode),
            r <= 2,
            final(self)@.wf(),
            final(self)@.bus.cycles == old(self)@.bus.cycles,
    {
        match opcode / 0x20 {
            0 => self.execute_00(opcode, mode),
            1 => self.execute_20(opcode, mode),
            2 => self.execute_40(opcode, mode),
            3 => self.execute_60(opcode, mode),
            4 => self.execute_80(opcode, mode),
            5 => self.execute_a0(opcode, mode),
            6 => self.execute_c0(opcode, mode),
            _ => self.execute_e0(opcode, mode),
        }
    }

    /// If the PPU has latched an NMI, takes it and enters the handler.
    pub fn handle_nmi(&mut self) -> (r: bool)
        requires
            old(self)@.wf(),
        ensures
            r == old(self)@.bus.ppu.nmi_interrupt.is_some(),
            final(self)@ == old(self)@.serviced(),
            final(self)@.wf(),
            final(self)@.bus.cycles == if r {
                old(self)@.bus.cycles.wrapping_add(2)
            } else {
                old(self)@.bus.cycles
            },
    {
        if let Some(_nmi) = self.bus.poll_nmi_status() {
            self.interrupt_nmi();
            true
        } else {
            false
        }
    }

    /// Fetches, decodes and executes one instruction. The cycle counter
    /// advances by at least two.
    pub fn execute_next(&mut self) -> (r: Result<Step, BusError>)
        requires
            old(self)@.wf(),
        ensures
            final(self)@ == old(self)@.next().0,
            r == final(self)@.outcome(old(self)@.next().1),
            final(self)@.wf(),
            exists|k: u64|
                2 <= k <= 10 && #[trigger] final(self)@.bus.cycles == old(self)@.bus.cycles.wrapping_add(
                    k,
                ),
    {
        let pc = self.regs.pc;
        let opcode = self.read(pc);
        self.regs.pc = pc.wrapping_add(1);
        let program_counter_state = self.regs.pc;
        let instruction = get_instruction(opcode);
        if opcode == 0x00 {
            self.bus.tick(instruction.cycles);
            assert(self@.bus.cycles == old(self)@.bus.cycles.wrapping_add(instruction.cycles as u64));
        } else {
            let penalty = self.execute(opcode, &instruction.addr_mode);
            let billed: u8 = instruction.cycles + penalty;
            self.bus.tick(billed);
            assert(self@.bus.cycles == old(self)@.bus.cycles.wrapping_add(billed as u64));
            if program_counter_state == self.regs.pc {
                self.regs.pc = self.regs.pc.wrapping_add((instruction.bytes - 1) as u16);
            }
        }
        match self.bus.fault {
            Some(e) => Err(e),
            None => Ok(
                if opcode == 0x00 {
                    Step::Halted
                } else {
                    Step::Executed
                },
            ),
        }
    }

    /// One step of the dispatcher: NMI service, then one instruction.
    pub fn step(&mut self) -> (r: Result<Step, BusError>)
        requires
            old(self)@.wf(),
        ensures
            (final(self)@, r) == old(self)@.step(),
            final(self)@.wf(),
            exists|k: u64|
                2 <= k <= 12 && #[trigger] final(self)@.bus.cycles == old(self)@.bus.cycles.wrapping_add(
                    k,
                ),
    {
        let c0 = self.bus.cycles;
        let serviced = self.handle_nmi();
        let c1 = self.bus.cycles;
        let r = self.execute_next();
        proof {
            let k1 = choose|k: u64|
                2 <= k <= 10 && #[trigger] self@.bus.cycles == c1.wrapping_add(k);
            if serviced {
                lemma_wrapping_add_assoc(c0, 2, k1);
                assert(self@.bus.cycles == c0.wrapping_add((k1 + 2) as u64));
            } else {
                assert(self@.bus.cycles == c0.wrapping_add(k1));
            }
        }
        r
    }

    /// Runs at most `max_instructions` steps, stopping at BRK or at a fatal
    /// bus access. Returns `Ok(true)` when BRK was reached.
    pub fn run(&mut self, max_instructions: u64) -> (r: Result<bool, BusError>)
        requires
            old(self)@.wf(),
        ensures
            (final(self)@, r) == old(self)@.run(max_instructions as nat),
            final(self)@.wf(),
    {
        let mut i: u64 = 0;
        while i < max_instructions
            invariant
                i <= max_instructions,
                self@.wf(),
                old(self)@.run(max_instructions as nat) == self@.run((max_instructions - i) as nat),
            decreases max_instructions - i,
        {
            match self.step() {
                Err(e) => return Err(e),
                Ok(Step::Halted) => return Ok(true),
                Ok(Step::Executed) => {},
            }
            i = i + 1;
        }
        Ok(false)
    }
}

} // verus!
