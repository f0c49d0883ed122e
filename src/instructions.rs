//! The 6502 instructions, official and unofficial, each proved to do what
//! its model in `semantics` says.
use vstd::prelude::*;
use crate::bits::{bit_of, with_bit, get_bit, set_bit};
use crate::cpu::{AddressingMode, CPU, CpuView};
use crate::registers::{Registers, CARRY, DECIMAL, INTERRUPT_DISABLE, NEGATIVE, OVERFLOW, ZERO};
use crate::semantics::zn;

verus! {

impl CPU {
    /// Sets Zero and Negative from `result`.
    pub fn update_result_flags(&mut self, result: u8)
        ensures
            final(self)@ == old(self)@.with_regs(
                Registers { p: zn(old(self).regs.p, result), ..old(self).regs },
            ),
    {
        set_bit(&mut self.regs.p, ZERO, result == 0);
        set_bit(&mut self.regs.p, NEGATIVE, get_bit(result, 7));
    }

    fn set_flag(&mut self, index: u8, value: bool)
        requires
            index < 8,
        ensures
            final(self)@ == old(self)@.set_flag(index, value),
    {
        set_bit(&mut self.regs.p, index, value);
    }

    /// Reads an operand; returns it with the page-crossing penalty that a
    /// read-style instruction owes.
    fn load(&mut self, mode: &AddressingMode) -> (r: (u8, u8))
        requires
            old(self)@.wf(),
        ensures
            (r.0, final(self)@) == old(self)@.load(*mode),
            r.1 == old(self)@.page_penalty(*mode),
            r.1 <= 1,
            final(self).regs == old(self).regs,
            final(self)@.wf(),
            final(self)@.bus.cycles == old(self)@.bus.cycles,
    {
        reveal(CpuView::load);
        reveal(CpuView::page_penalty);
        let (addr, page_crossed) = self.get_op_addr(mode);
        let value = self.read(addr);
        (value, if page_crossed { 1 } else { 0 })
    }

    /// Resolves and reads the target of a read-modify-write.
    fn fetch_target(&mut self, mode: &AddressingMode) -> (r: (u16, u8))
        requires
            old(self)@.wf(),
        ensures
            (r.0, r.1, final(self)@) == old(self)@.target(*mode),
            final(self)@.wf(),
            final(self)@.bus.cycles == old(self)@.bus.cycles,
    {
        let (addr, _page_crossed) = self.get_op_addr(mode);
        let value = self.read(addr);
        (addr, value)
    }

    /// Writes `value` to the operand address.
    fn store(&mut self, mode: &AddressingMode, value: u8)
        requires
            old(self)@.wf(),
        ensures
            final(self)@ == old(self)@.store(*mode, value),
            final(self)@.wf(),
            final(self)@.bus.cycles == old(self)@.bus.cycles,
    {
        reveal(CpuView::store);
        let (addr, _page_crossed) = self.get_op_addr(mode);
        self.write(addr, value);
    }

    /// A <- A + value + C, setting Carry, Overflow, Zero and Negative.
    pub fn add_to_accumulator(&mut self, value: u8)
        ensures
            final(self)@ == old(self)@.add_a(value),
    {
        let a = self.regs.a;
        let carry: u16 = if get_bit(self.regs.p, CARRY) {
            1
        } else {
            0
        };
        let sum: u16 = a as u16 + value as u16 + carry;
        let result: u8 = (sum % 256) as u8;
        set_bit(&mut self.regs.p, CARRY, sum > 0xFF);
        set_bit(&mut self.regs.p, OVERFLOW, (value ^ result) & (result ^ a) & 0x80 != 0);
        self.regs.a = result;
        self.update_result_flags(result);
    }

    /// A read-modify-write tail: store `result`, Carry <- `carry`, Z/N from
    /// `result`.
    fn write_back(&mut self, addr: u16, result: u8, carry: bool)
        requires
            old(self)@.wf(),
        ensures
            final(self)@ == (CpuView {
                regs: Registers { p: zn(with_bit(old(self).regs.p, CARRY, carry), result), ..old(self).regs },
                bus: old(self)@.bus.after_write(addr, result),
            }),
            final(self)@.wf(),
            final(self)@.bus.cycles == old(self)@.bus.cycles,
    {
        set_bit(&mut self.regs.p, CARRY, carry);
        self.write(addr, result);
        self.update_result_flags(result);
    }

    /// Takes the branch when `condition` holds; returns the extra cycles.
    fn branch(&mut self, condition: bool) -> (r: u8)
        requires
            old(self)@.wf(),
        ensures
            final(self)@ == old(self)@.branch(condition),
            r == old(self)@.branch_penalty(condition),
            r <= 2,
            final(self)@.wf(),
            final(self)@.bus.cycles == old(self)@.bus.cycles,
    {
        reveal(CpuView::branch);
        reveal(CpuView::branch_penalty);
        if condition {
            let pc = self.regs.pc;
            let off = self.read(pc);
            let disp: u16 = if off < 128 {
                off as u16
            } else {
                off as u16 + 0xFF00
            };
            let jump_addr = pc.wrapping_add(1).wrapping_add(disp);
            self.regs.pc = jump_addr;
            if pc.wrapping_add(1) & 0xFF00 != jump_addr & 0xFF00 {
                2
            } else {
                1
            }
        } else {
            0
        }
    }

    pub fn adc(&mut self, mode: &AddressingMode) -> (r: u8)
        requires
            old(self)@.wf(),
        ensures
            final(self)@ == old(self)@.adc(*mode),
            r == old(self)@.page_penalty(*mode),
            r <= 1,
            final(self)@.wf(),
            final(self)@.bus.cycles == old(self)@.bus.cycles,
    {
        reveal(CpuView::adc);
        reveal(CpuView::page_penalty);
        let (value, penalty) = self.load(mode);
        self.add_to_accumulator(value);
        penalty
    }

    /// SBC is ADC of the operand's complement.
    pub fn sbc(&mut self, mode: &AddressingMode) -> (r: u8)
        requires
            old(self)@.wf(),
        ensures
            final(self)@ == old(self)@.sbc(*mode),
            r == old(self)@.page_penalty(*mode),
            r <= 1,
            final(self)@.wf(),
            final(self)@.bus.cycles == old(self)@.bus.cycles,
    {
        reveal(CpuView::page_penalty);
        reveal(CpuView::sbc);
        let (value, penalty) = self.load(mode);
        self.add_to_accumulator(!value);
        penalty
    }

    pub fn and(&mut self, mode: &AddressingMode) -> (r: u8)
        requires
            old(self)@.wf(),
        ensures
            final(self)@ == old(self)@.and(*mode),
            r == old(self)@.page_penalty(*mode),
            r <= 1,
            final(self)@.wf(),
            final(self)@.bus.cycles == old(self)@.bus.cycles,
    {
        reveal(CpuView::and);
        reveal(CpuView::page_penalty);
        let (value, penalty) = self.load(mode);
        self.regs.a = self.regs.a & value;
        self.update_result_flags(self.regs.a);
        penalty
    }

    pub fn eor(&mut self, mode: &AddressingMode) -> (r: u8)
        requires
            old(self)@.wf(),
        ensures
            final(self)@ == old(self)@.eor(*mode),
            r == old(self)@.page_penalty(*mode),
            r <= 1,
            final(self)@.wf(),
            final(self)@.bus.cycles == old(self)@.bus.cycles,
    {
        reveal(CpuView::eor);
        reveal(CpuView::page_penalty);
        let (value, penalty) = self.load(mode);
        self.regs.a = self.regs.a ^ value;
        self.update_result_flags(self.regs.a);
        penalty
    }

    pub fn ora(&mut self, mode: &AddressingMode) -> (r: u8)
        requires
            old(self)@.wf(),
        ensures
            final(self)@ == old(self)@.ora(*mode),
            r == old(self)@.page_penalty(*mode),
            r <= 1,
            final(self)@.wf(),
            final(self)@.bus.cycles == old(self)@.bus.cycles,
    {
        reveal(CpuView::ora);
        reveal(CpuView::page_penalty);
        let (value, penalty) = self.load(mode);
        self.regs.a = self.regs.a | value;
        self.update_result_flags(self.regs.a);
        penalty
    }

    pub fn lda(&mut self, mode: &AddressingMode) -> (r: u8)
        requires
            old(self)@.wf(),
        ensures
            final(self)@ == old(self)@.lda(*mode),
            r == old(self)@.page_penalty(*mode),
            r <= 1,
            final(self)@.wf(),
            final(self)@.bus.cycles == old(self)@.bus.cycles,
    {
        reveal(CpuView::lda);
        reveal(CpuView::page_penalty);
        let (value, penalty) = self.load(mode);
        self.regs.a = value;
        self.update_result_flags(value);
        penalty
    }

    pub fn ldx(&mut self, mode: &AddressingMode) -> (r: u8)
        requires
            old(self)@.wf(),
        ensures
            final(self)@ == old(self)@.ldx(*mode),
            r == old(self)@.page_penalty(*mode),
            r <= 1,
            final(self)@.wf(),
            final(self)@.bus.cycles == old(self)@.bus.cycles,
    {
        reveal(CpuView::ldx);
        reveal(CpuView::page_penalty);
        let (value, penalty) = self.load(mode);
        self.regs.x = value;
        self.update_result_flags(value);
        penalty
    }

    pub fn ldy(&mut self, mode: &AddressingMode) -> (r: u8)
        requires
            old(self)@.wf(),
        ensures
            final(self)@ == old(self)@.ldy(*mode),
            r == old(self)@.page_penalty(*mode),
            r <= 1,
            final(self)@.wf(),
            final(self)@.bus.cycles == old(self)@.bus.cycles,
    {
        reveal(CpuView::ldy);
        reveal(CpuView::page_penalty);
        let (value, penalty) = self.load(mode);
        self.regs.y = value;
        self.update_result_flags(value);
        penalty
    }

    /// CMP, CPX, CPY: Carry when `compare_reg >= operand`, Z/N from the
    /// difference.
    pub fn compare(&mut self, mode: &AddressingMode, compare_reg: u8) -> (r: u8)
        requires
            old(self)@.wf(),
        ensures
            final(self)@ == old(self)@.compare(*mode, compare_reg),
            r == old(self)@.page_penalty(*mode),
            r <= 1,
            final(self)@.wf(),
            final(self)@.bus.cycles == old(self)@.bus.cycles,
    {
        reveal(CpuView::compare);
        reveal(CpuView::page_penalty);
        let (value, penalty) = self.load(mode);
        set_bit(&mut self.regs.p, CARRY, compare_reg >= value);
        self.update_result_flags(compare_reg.wrapping_sub(value));
        penalty
    }

    pub fn bit(&mut self, mode: &AddressingMode)
        requires
            old(self)@.wf(),
        ensures
            final(self)@ == old(self)@.bit(*mode),
            final(self)@.wf(),
            final(self)@.bus.cycles == old(self)@.bus.cycles,
    {
        reveal(CpuView::bit);
        let (value, _penalty) = self.load(mode);
        let check = self.regs.a & value;
        set_bit(&mut self.regs.p, ZERO, check == 0);
        set_bit(&mut self.regs.p, NEGATIVE, get_bit(value, 7));
        set_bit(&mut self.regs.p, OVERFLOW, get_bit(value, 6));
    }

    pub fn asl_accumulator(&mut self)
        ensures
            final(self)@ == old(self)@.asl_accumulator(),
    {
        set_bit(&mut self.regs.p, CARRY, get_bit(self.regs.a, 7));
        self.regs.a = self.regs.a << 1;
        self.update_result_flags(self.regs.a);
    }

    pub fn lsr_accumulator(&mut self)
        ensures
            final(self)@ == old(self)@.lsr_accumulator(),
    {
        set_bit(&mut self.regs.p, CARRY, get_bit(self.regs.a, 0));
        self.regs.a = self.regs.a >> 1;
        self.update_result_flags(self.regs.a);
    }

    pub fn rol_accumulator(&mut self)
        ensures
            final(self)@ == old(self)@.rol_accumulator(),
    {
        let old_carry = get_bit(self.regs.p, CARRY);
        set_bit(&mut self.regs.p, CARRY, get_bit(self.regs.a, 7));
        self.regs.a = self.regs.a << 1;
        set_bit(&mut self.regs.a, 0, old_carry);
        self.update_result_flags(self.regs.a);
    }

    pub fn ror_accumulator(&mut self)
        ensures
            final(self)@ == old(self)@.ror_accumulator(),
    {
        let old_carry = get_bit(self.regs.p, CARRY);
        set_bit(&mut self.regs.p, CARRY, get_bit(self.regs.a, 0));
        self.regs.a = self.regs.a >> 1;
        set_bit(&mut self.regs.a, 7, old_carry);
        self.update_result_flags(self.regs.a);
    }

    /// Shifts memory left; returns the value written.
    pub fn asl(&mut self, mode: &AddressingMode) -> (r: u8)
        requires
            old(self)@.wf(),
        ensures
            r == old(self)@.asl_value(*mode),
            final(self)@ == old(self)@.asl(*mode),
            final(self)@.wf(),
            final(self)@.bus.cycles == old(self)@.bus.cycles,
    {
        reveal(CpuView::asl);
        let (addr, value) = self.fetch_target(mode);
        let result = value << 1;
        self.write_back(addr, result, get_bit(value, 7));
        result
    }

    /// Shifts memory right; returns the value written.
    pub fn lsr(&mut self, mode: &AddressingMode) -> (r: u8)
        requires
            old(self)@.wf(),
        ensures
            r == old(self)@.lsr_value(*mode),
            final(self)@ == old(self)@.lsr(*mode),
            final(self)@.wf(),
            final(self)@.bus.cycles == old(self)@.bus.cycles,
    {
        reveal(CpuView::lsr);
        let (addr, value) = self.fetch_target(mode);
        let result = value >> 1;
        self.write_back(addr, result, get_bit(value, 0));
        result
    }

    /// Rotates memory left through Carry; returns the value written.
    pub fn rol(&mut self, mode: &AddressingMode) -> (r: u8)
        requires
            old(self)@.wf(),
        ensures
            r == old(self)@.rol_value(*mode),
            final(self)@ == old(self)@.rol(*mode),
            final(self)@.wf(),
            final(self)@.bus.cycles == old(self)@.bus.cycles,
    {
        reveal(CpuView::rol);
        let old_carry = get_bit(self.regs.p, CARRY);
        let (addr, value) = self.fetch_target(mode);
        let mut result = value << 1;
        set_bit(&mut result, 0, old_carry);
        self.write_back(addr, result, get_bit(value, 7));
        result
    }

    /// Rotates memory right through Carry; returns the value written.
    pub fn ror(&mut self, mode: &AddressingMode) -> (r: u8)
        requires
            old(self)@.wf(),
        ensures
            r == old(self)@.ror_value(*mode),
            final(self)@ == old(self)@.ror(*mode),
            final(self)@.wf(),
            final(self)@.bus.cycles == old(self)@.bus.cycles,
    {
        reveal(CpuView::ror);
        let old_carry = get_bit(self.regs.p, CARRY);
        let (addr, value) = self.fetch_target(mode);
        let mut result = value >> 1;
        set_bit(&mut result, 7, old_carry);
        self.write_back(addr, result, get_bit(value, 0));
        result
    }

    /// Increments memory; returns the value written.
    pub fn inc(&mut self, mode: &AddressingMode) -> (r: u8)
        requires
            old(self)@.wf(),
        ensures
            r == old(self)@.inc_value(*mode),
            final(self)@ == old(self)@.inc(*mode),
            final(self)@.wf(),
            final(self)@.bus.cycles == old(self)@.bus.cycles,
    {
        reveal(CpuView::inc);
        let carry = get_bit(self.regs.p, CARRY);
        let (addr, value) = self.fetch_target(mode);
        let result = value.wrapping_add(1);
        self.write_back(addr, result, carry);
        result
    }

    pub fn dec(&mut self, mode: &AddressingMode)
        requires
            old(self)@.wf(),
        ensures
            final(self)@ == old(self)@.dec(*mode),
            final(self)@.wf(),
            final(self)@.bus.cycles == old(self)@.bus.cycles,
    {
        reveal(CpuView::dec);
        let carry = get_bit(self.regs.p, CARRY);
        let (addr, value) = self.fetch_target(mode);
        let result = value.wrapping_sub(1);
        self.write_back(addr, result, carry);
    }

    pub fn bcc(&mut self) -> (r: u8)
        requires
            old(self)@.wf(),
        ensures
            final(self)@ == old(self)@.branch(!bit_of(old(self).regs.p, CARRY)),
            r == old(self)@.branch_penalty(!bit_of(old(self).regs.p, CARRY)),
            r <= 2,
            final(self)@.wf(),
            final(self)@.bus.cycles == old(self)@.bus.cycles,
    {
        reveal(CpuView::branch);
        reveal(CpuView::branch_penalty);
        self.branch(!get_bit(self.regs.p, CARRY))
    }

    pub fn bcs(&mut self) -> (r: u8)
        requires
            old(self)@.wf(),
        ensures
            final(self)@ == old(self)@.branch(bit_of(old(self).regs.p, CARRY)),
            r == old(self)@.branch_penalty(bit_of(old(self).regs.p, CARRY)),
            r <= 2,
            final(self)@.wf(),
            final(self)@.bus.cycles == old(self)@.bus.cycles,
    {
        reveal(CpuView::branch);
        reveal(CpuView::branch_penalty);
        self.branch(get_bit(self.regs.p, CARRY))
    }

    pub fn beq(&mut self) -> (r: u8)
        requires
            old(self)@.wf(),
        ensures
            final(self)@ == old(self)@.branch(bit_of(old(self).regs.p, ZERO)),
            r == old(self)@.branch_penalty(bit_of(old(self).regs.p, ZERO)),
            r <= 2,
            final(self)@.wf(),
            final(self)@.bus.cycles == old(self)@.bus.cycles,
    {
        reveal(CpuView::branch);
        reveal(CpuView::branch_penalty);
        self.branch(get_bit(self.regs.p, ZERO))
    }

    pub fn bne(&mut self) -> (r: u8)
        requires
            old(self)@.wf(),
        ensures
            final(self)@ == old(self)@.branch(!bit_of(old(self).regs.p, ZERO)),
            r == old(self)@.branch_penalty(!bit_of(old(self).regs.p, ZERO)),
            r <= 2,
            final(self)@.wf(),
            final(self)@.bus.cycles == old(self)@.bus.cycles,
    {
        reveal(CpuView::branch);
        reveal(CpuView::branch_penalty);
        self.branch(!get_bit(self.regs.p, ZERO))
    }

    pub fn bmi(&mut self) -> (r: u8)
        requires
            old(self)@.wf(),
        ensures
            final(self)@ == old(self)@.branch(bit_of(old(self).regs.p, NEGATIVE)),
            r == old(self)@.branch_penalty(bit_of(old(self).regs.p, NEGATIVE)),
            r <= 2,
            final(self)@.wf(),
            final(self)@.bus.cycles == old(self)@.bus.cycles,
    {
        reveal(CpuView::branch);
        reveal(CpuView::branch_penalty);
        self.branch(get_bit(self.regs.p, NEGATIVE))
    }

    pub fn bpl(&mut self) -> (r: u8)
        requires
            old(self)@.wf(),
        ensures
            final(self)@ == old(self)@.branch(!bit_of(old(self).regs.p, NEGATIVE)),
            r == old(self)@.branch_penalty(!bit_of(old(self).regs.p, NEGATIVE)),
            r <= 2,
            final(self)@.wf(),
            final(self)@.bus.cycles == old(self)@.bus.cycles,
    {
        reveal(CpuView::branch);
        reveal(CpuView::branch_penalty);
        self.branch(!get_bit(self.regs.p, NEGATIVE))
    }

    pub fn bvc(&mut self) -> (r: u8)
        requires
            old(self)@.wf(),
        ensures
            final(self)@ == old(self)@.branch(!bit_of(old(self).regs.p, OVERFLOW)),
            r == old(self)@.branch_penalty(!bit_of(old(self).regs.p, OVERFLOW)),
            r <= 2,
            final(self)@.wf(),
            final(self)@.bus.cycles == old(self)@.bus.cycles,
    {
        reveal(CpuView::branch);
        reveal(CpuView::branch_penalty);
        self.branch(!get_bit(self.regs.p, OVERFLOW))
    }

    pub fn bvs(&mut self) -> (r: u8)
        requires
            old(self)@.wf(),
        ensures
            final(self)@ == old(self)@.branch(bit_of(old(self).regs.p, OVERFLOW)),
            r == old(self)@.branch_penalty(bit_of(old(self).regs.p, OVERFLOW)),
            r <= 2,
            final(self)@.wf(),
            final(self)@.bus.cycles == old(self)@.bus.cycles,
    {
        reveal(CpuView::branch);
        reveal(CpuView::branch_penalty);
        self.branch(get_bit(self.regs.p, OVERFLOW))
    }

    pub fn clc(&mut self)
        ensures
            final(self)@ == old(self)@.set_flag(CARRY, false),
    {
        self.set_flag(CARRY, false);
    }

    pub fn cld(&mut self)
        ensures
            final(self)@ == old(self)@.set_flag(DECIMAL, false),
    {
        self.set_flag(DECIMAL, false);
    }

    pub fn cli(&mut self)
        ensures
            final(self)@ == old(self)@.set_flag(INTERRUPT_DISABLE, false),
    {
        self.set_flag(INTERRUPT_DISABLE, false);
    }

    pub fn clv(&mut self)
        ensures
            final(self)@ == old(self)@.set_flag(OVERFLOW, false),
    {
        self.set_flag(OVERFLOW, false);
    }

    pub fn sec(&mut self)
        ensures
            final(self)@ == old(self)@.set_flag(CARRY, true),
    {
        self.set_flag(CARRY, true);
    }

    pub fn sed(&mut self)
        ensures
            final(self)@ == old(self)@.set_flag(DECIMAL, true),
    {
        self.set_flag(DECIMAL, true);
    }

    pub fn sei(&mut self)
        ensures
            final(self)@ == old(self)@.set_flag(INTERRUPT_DISABLE, true),
    {
        self.set_flag(INTERRUPT_DISABLE, true);
    }

    pub fn dex(&mut self)
        ensures
            final(self)@ == old(self)@.set_x(old(self).regs.x.wrapping_sub(1)),
    {
        self.regs.x = self.regs.x.wrapping_sub(1);
        self.update_result_flags(self.regs.x);
    }

    pub fn dey(&mut self)
        ensures
            final(self)@ == old(self)@.set_y(old(self).regs.y.wrapping_sub(1)),
    {
        self.regs.y = self.regs.y.wrapping_sub(1);
        self.update_result_flags(self.regs.y);
    }

    pub fn inx(&mut self)
        ensures
            final(self)@ == old(self)@.set_x(old(self).regs.x.wrapping_add(1)),
    {
        self.regs.x = self.regs.x.wrapping_add(1);
        self.update_result_flags(self.regs.x);
    }

    pub fn iny(&mut self)
        ensures
            final(self)@ == old(self)@.set_y(old(self).regs.y.wrapping_add(1)),
    {
        self.regs.y = self.regs.y.wrapping_add(1);
        self.update_result_flags(self.regs.y);
    }

    pub fn tax(&mut self)
        ensures
            final(self)@ == old(self)@.set_x(old(self).regs.a),
    {
        self.regs.x = self.regs.a;
        self.update_result_flags(self.regs.x);
    }

    pub fn tay(&mut self)
        ensures
            final(self)@ == old(self)@.set_y(old(self).regs.a),
    {
        self.regs.y = self.regs.a;
        self.update_result_flags(self.regs.y);
    }

    pub fn tsx(&mut self)
        ensures
            final(self)@ == old(self)@.set_x(old(self).regs.sp),
    {
        self.regs.x = self.regs.sp;
        self.update_result_flags(self.regs.x);
    }

    pub fn txa(&mut self)
        ensures
            final(self)@ == old(self)@.set_a(old(self).regs.x),
    {
        self.regs.a = self.regs.x;
        self.update_result_flags(self.regs.a);
    }

    /// TXS sets no flags.
    pub fn txs(&mut self)
        ensures
            final(self)@ == old(self)@.with_regs(
                Registers { sp: old(self).regs.x, ..old(self).regs },
            ),
    {
        self.regs.sp = self.regs.x;
    }

    pub fn tya(&mut self)
        ensures
            final(self)@ == old(self)@.set_a(old(self).regs.y),
    {
        self.regs.a = self.regs.y;
        self.update_result_flags(self.regs.a);
    }

    pub fn jmp(&mut self)
        requires
            old(self)@.wf(),
        ensures
            final(self)@ == old(self)@.jmp(),
            final(self)@.wf(),
            final(self)@.bus.cycles == old(self)@.bus.cycles,
    {
        reveal(CpuView::jmp);
        let pc = self.regs.pc;
        self.regs.pc = self.read_16(pc);
    }

    pub fn jmp_indirect(&mut self)
        requires
            old(self)@.wf(),
        ensures
            final(self)@ == old(self)@.jmp_indirect(),
            final(self)@.wf(),
            final(self)@.bus.cycles == old(self)@.bus.cycles,
    {
        reveal(CpuView::jmp_indirect);
        let pc = self.regs.pc;
        let mem_address = self.read_16(pc);
        let indirect_ref = if mem_address & 0x00FF == 0x00FF {
            let lo = self.read(mem_address);
            let hi = self.read(mem_address & 0xFF00);
            proof {
                crate::latches::lemma_value_of(hi, lo);
            }
            ((hi as u16) << 8) | (lo as u16)
        } else {
            self.read_16(mem_address)
        };
        self.regs.pc = indirect_ref;
    }

    pub fn jsr(&mut self)
        requires
            old(self)@.wf(),
        ensures
            final(self)@ == old(self)@.jsr(),
            final(self)@.wf(),
            final(self)@.bus.cycles == old(self)@.bus.cycles,
    {
        reveal(CpuView::jsr);
        let pc = self.regs.pc;
        self.stack_push_16(pc.wrapping_add(1));
        let target_address = self.read_16(pc);
        self.regs.pc = target_address;
    }

    pub fn rts(&mut self)
        requires
            old(self)@.wf(),
        ensures
            final(self)@ == old(self)@.rts(),
            final(self)@.wf(),
            final(self)@.bus.cycles == old(self)@.bus.cycles,
    {
        reveal(CpuView::rts);
        let ret = self.stack_pop_16();
        self.regs.pc = ret.wrapping_add(1);
    }

    pub fn rti(&mut self)
        requires
            old(self)@.wf(),
        ensures
            final(self)@ == old(self)@.rti(),
            final(self)@.wf(),
            final(self)@.bus.cycles == old(self)@.bus.cycles,
    {
        reveal(CpuView::rti);
        self.regs.p = self.stack_pop();
        self.regs.pc = self.stack_pop_16();
    }

    pub fn pha(&mut self)
        requires
            old(self)@.wf(),
        ensures
            final(self)@ == old(self)@.push(old(self).regs.a),
            final(self)@.wf(),
            final(self)@.bus.cycles == old(self)@.bus.cycles,
    {
        reveal(CpuView::push);
        let a = self.regs.a;
        self.stack_push(a);
    }

    pub fn php(&mut self)
        requires
            old(self)@.wf(),
        ensures
            final(self)@ == old(self)@.push(old(self).regs.p),
            final(self)@.wf(),
            final(self)@.bus.cycles == old(self)@.bus.cycles,
    {
        reveal(CpuView::push);
        let p = self.regs.p;
        self.stack_push(p);
    }

    pub fn pla(&mut self)
        requires
            old(self)@.wf(),
        ensures
            final(self)@ == old(self)@.pla(),
            final(self)@.wf(),
            final(self)@.bus.cycles == old(self)@.bus.cycles,
    {
        reveal(CpuView::pla);
        self.regs.a = self.stack_pop();
        self.update_result_flags(self.regs.a);
    }

    pub fn plp(&mut self)
        requires
            old(self)@.wf(),
        ensures
            final(self)@ == old(self)@.plp(),
            final(self)@.wf(),
            final(self)@.bus.cycles == old(self)@.bus.cycles,
    {
        reveal(CpuView::plp);
        self.regs.p = self.stack_pop();
    }

    pub fn sta(&mut self, mode: &AddressingMode)
        requires
            old(self)@.wf(),
        ensures
            final(self)@ == old(self)@.store(*mode, old(self).regs.a),
            final(self)@.wf(),
            final(self)@.bus.cycles == old(self)@.bus.cycles,
    {
        reveal(CpuView::store);
        let a = self.regs.a;
        self.store(mode, a);
    }

    pub fn stx(&mut self, mode: &AddressingMode)
        requires
            old(self)@.wf(),
        ensures
            final(self)@ == old(self)@.store(*mode, old(self).regs.x),
            final(self)@.wf(),
            final(self)@.bus.cycles == old(self)@.bus.cycles,
    {
        reveal(CpuView::store);
        let x = self.regs.x;
        self.store(mode, x);
    }

    pub fn sty(&mut self, mode: &AddressingMode)
        requires
            old(self)@.wf(),
        ensures
            final(self)@ == old(self)@.store(*mode, old(self).regs.y),
            final(self)@.wf(),
            final(self)@.bus.cycles == old(self)@.bus.cycles,
    {
        reveal(CpuView::store);
        let y = self.regs.y;
        self.store(mode, y);
    }
}


impl CPU {
    /// DEC then CMP.
    pub fn dcp(&mut self, mode: &AddressingMode)
        requires
            old(self)@.wf(),
        ensures
            final(self)@ == old(self)@.dcp(*mode),
            final(self)@.wf(),
            final(self)@.bus.cycles == old(self)@.bus.cycles,
    {
        reveal(CpuView::dcp);
        let (addr, value) = self.fetch_target(mode);
        let result = value.wrapping_sub(1);
        self.write(addr, result);
        let a = self.regs.a;
        set_bit(&mut self.regs.p, CARRY, a >= result);
        self.update_result_flags(a.wrapping_sub(result));
    }

    /// ROL then AND.
    pub fn rla(&mut self, mode: &AddressingMode)
        requires
            old(self)@.wf(),
        ensures
            final(self)@ == old(self)@.rla(*mode),
            final(self)@.wf(),
            final(self)@.bus.cycles == old(self)@.bus.cycles,
    {
        reveal(CpuView::rla);
        let data = self.rol(mode);
        self.regs.a = self.regs.a & data;
        self.update_result_flags(self.regs.a);
    }

    /// ASL then ORA.
    pub fn slo(&mut self, mode: &AddressingMode)
        requires
            old(self)@.wf(),
        ensures
            final(self)@ == old(self)@.slo(*mode),
            final(self)@.wf(),
            final(self)@.bus.cycles == old(self)@.bus.cycles,
    {
        reveal(CpuView::slo);
        let data = self.asl(mode);
        self.regs.a = self.regs.a | data;
        self.update_result_flags(self.regs.a);
    }

    /// LSR then EOR.
    pub fn sre(&mut self, mode: &AddressingMode)
        requires
            old(self)@.wf(),
        ensures
            final(self)@ == old(self)@.sre(*mode),
            final(self)@.wf(),
            final(self)@.bus.cycles == old(self)@.bus.cycles,
    {
        reveal(CpuView::sre);
        let data = self.lsr(mode);
        self.regs.a = self.regs.a ^ data;
        self.update_result_flags(self.regs.a);
    }

    /// ROR then ADC.
    pub fn rra(&mut self, mode: &AddressingMode)
        requires
            old(self)@.wf(),
        ensures
            final(self)@ == old(self)@.rra(*mode),
            final(self)@.wf(),
            final(self)@.bus.cycles == old(self)@.bus.cycles,
    {
        reveal(CpuView::rra);
        let value = self.ror(mode);
        self.add_to_accumulator(value);
    }

    /// INC then SBC.
    pub fn isb(&mut self, mode: &AddressingMode)
        requires
            old(self)@.wf(),
        ensures
            final(self)@ == old(self)@.isb(*mode),
            final(self)@.wf(),
            final(self)@.bus.cycles == old(self)@.bus.cycles,
    {
        reveal(CpuView::isb);
        let value = self.inc(mode);
        self.add_to_accumulator(!value);
    }

    pub fn axs(&mut self, mode: &AddressingMode)
        requires
            old(self)@.wf(),
        ensures
            final(self)@ == old(self)@.axs(*mode),
            final(self)@.wf(),
            final(self)@.bus.cycles == old(self)@.bus.cycles,
    {
        reveal(CpuView::axs);
        let (value, _penalty) = self.load(mode);
        let x_and_a = self.regs.x & self.regs.a;
        let result = x_and_a.wrapping_sub(value);
        set_bit(&mut self.regs.p, CARRY, x_and_a >= value);
        self.update_result_flags(result);
        self.regs.x = result;
    }

    pub fn arr(&mut self, mode: &AddressingMode)
        requires
            old(self)@.wf(),
        ensures
            final(self)@ == old(self)@.arr(*mode),
            final(self)@.wf(),
            final(self)@.bus.cycles == old(self)@.bus.cycles,
    {
        reveal(CpuView::arr);
        let (value, _penalty) = self.load(mode);
        self.regs.a = self.regs.a & value;
        self.update_result_flags(self.regs.a);
        self.ror_accumulator();
        let result = self.regs.a;
        let bit_5 = get_bit(result, 5);
        let bit_6 = get_bit(result, 6);
        set_bit(&mut self.regs.p, CARRY, bit_6);
        set_bit(&mut self.regs.p, OVERFLOW, bit_5 != bit_6);
        self.update_result_flags(result);
    }

    /// The unofficial SBC ($EB).
    pub fn sbc_unofficial(&mut self, mode: &AddressingMode)
        requires
            old(self)@.wf(),
        ensures
            final(self)@ == old(self)@.sbc_unofficial(*mode),
            final(self)@.wf(),
            final(self)@.bus.cycles == old(self)@.bus.cycles,
    {
        reveal(CpuView::sbc_unofficial);
        let (value, _penalty) = self.load(mode);
        self.add_to_accumulator(!value);
    }

    pub fn anc(&mut self, mode: &AddressingMode)
        requires
            old(self)@.wf(),
        ensures
            final(self)@ == old(self)@.anc(*mode),
            final(self)@.wf(),
            final(self)@.bus.cycles == old(self)@.bus.cycles,
    {
        reveal(CpuView::anc);
        let (value, _penalty) = self.load(mode);
        self.regs.a = self.regs.a & value;
        self.update_result_flags(self.regs.a);
        let negative_flag = get_bit(self.regs.p, NEGATIVE);
        set_bit(&mut self.regs.p, CARRY, negative_flag);
    }

    pub fn alr(&mut self, mode: &AddressingMode)
        requires
            old(self)@.wf(),
        ensures
            final(self)@ == old(self)@.alr(*mode),
            final(self)@.wf(),
            final(self)@.bus.cycles == old(self)@.bus.cycles,
    {
        reveal(CpuView::alr);
        let (value, _penalty) = self.load(mode);
        self.regs.a = self.regs.a & value;
        self.update_result_flags(self.regs.a);
        self.lsr_accumulator();
    }

    pub fn lax(&mut self, mode: &AddressingMode) -> (r: u8)
        requires
            old(self)@.wf(),
        ensures
            final(self)@ == old(self)@.lax(*mode),
            r == old(self)@.page_penalty(*mode),
            r <= 1,
            final(self)@.wf(),
            final(self)@.bus.cycles == old(self)@.bus.cycles,
    {
        reveal(CpuView::lax);
        reveal(CpuView::page_penalty);
        let (value, penalty) = self.load(mode);
        self.regs.a = value;
        self.update_result_flags(value);
        self.regs.x = value;
        penalty
    }

    pub fn sax(&mut self, mode: &AddressingMode)
        requires
            old(self)@.wf(),
        ensures
            final(self)@ == old(self)@.store(*mode, old(self).regs.a & old(self).regs.x),
            final(self)@.wf(),
            final(self)@.bus.cycles == old(self)@.bus.cycles,
    {
        reveal(CpuView::store);
        let value = self.regs.a & self.regs.x;
        self.store(mode, value);
    }

    pub fn lxa(&mut self, mode: &AddressingMode)
        requires
            old(self)@.wf(),
        ensures
            final(self)@ == old(self)@.lxa(*mode),
            final(self)@.wf(),
            final(self)@.bus.cycles == old(self)@.bus.cycles,
    {
        reveal(CpuView::lxa);
        self.lda(mode);
        self.tax();
    }

    pub fn xaa(&mut self, mode: &AddressingMode)
        requires
            old(self)@.wf(),
        ensures
            final(self)@ == old(self)@.xaa(*mode),
            final(self)@.wf(),
            final(self)@.bus.cycles == old(self)@.bus.cycles,
    {
        reveal(CpuView::xaa);
        let (value, _penalty) = self.load(mode);
        self.regs.a = self.regs.x;
        self.update_result_flags(self.regs.a);
        self.regs.a = self.regs.a & value;
        self.update_result_flags(self.regs.a);
    }

    pub fn las(&mut self, mode: &AddressingMode)
        requires
            old(self)@.wf(),
        ensures
            final(self)@ == old(self)@.las(*mode),
            final(self)@.wf(),
            final(self)@.bus.cycles == old(self)@.bus.cycles,
    {
        reveal(CpuView::las);
        let (value, _penalty) = self.load(mode);
        let result = value & self.regs.sp;
        self.regs.a = result;
        self.regs.x = result;
        self.regs.sp = result;
        self.update_result_flags(result);
    }

    pub fn tas(&mut self)
        requires
            old(self)@.wf(),
        ensures
            final(self)@ == old(self)@.tas(),
            final(self)@.wf(),
            final(self)@.bus.cycles == old(self)@.bus.cycles,
    {
        reveal(CpuView::tas);
        let value = self.regs.a & self.regs.x;
        self.regs.sp = value;
        let pc = self.regs.pc;
        let mem_address = self.read_16(pc).wrapping_add(self.regs.y as u16);
        let data = ((mem_address >> 8) as u8).wrapping_add(1) & self.regs.sp;
        self.write(mem_address, data);
    }

    pub fn ahx_indir_y(&mut self)
        requires
            old(self)@.wf(),
        ensures
            final(self)@ == old(self)@.ahx_indir_y(),
            final(self)@.wf(),
            final(self)@.bus.cycles == old(self)@.bus.cycles,
    {
        reveal(CpuView::ahx_indir_y);
        let pc = self.regs.pc;
        let pos: u8 = self.read(pc);
        let mem_address = self.read_16(pos as u16).wrapping_add(self.regs.y as u16);
        let data = self.regs.a & self.regs.x & (mem_address >> 8) as u8;
        self.write(mem_address, data);
    }

    pub fn ahx_abs_y(&mut self)
        requires
            old(self)@.wf(),
        ensures
            final(self)@ == old(self)@.ahx_abs_y(),
            final(self)@.wf(),
            final(self)@.bus.cycles == old(self)@.bus.cycles,
    {
        reveal(CpuView::ahx_abs_y);
        let pc = self.regs.pc;
        let mem_address = self.read_16(pc).wrapping_add(self.regs.y as u16);
        let data = self.regs.a & self.regs.x & (mem_address >> 8) as u8;
        self.write(mem_address, data);
    }

    pub fn shx(&mut self)
        requires
            old(self)@.wf(),
        ensures
            final(self)@ == old(self)@.shx(),
            final(self)@.wf(),
            final(self)@.bus.cycles == old(self)@.bus.cycles,
    {
        reveal(CpuView::shx);
        let pc = self.regs.pc;
        let mem_address = self.read_16(pc).wrapping_add(self.regs.y as u16);
        let data = self.regs.x & ((mem_address >> 8) as u8).wrapping_add(1);
        self.write(mem_address, data);
    }

    pub fn shy(&mut self)
        requires
            old(self)@.wf(),
        ensures
            final(self)@ == old(self)@.shy(),
            final(self)@.wf(),
            final(self)@.bus.cycles == old(self)@.bus.cycles,
    {
        reveal(CpuView::shy);
        let pc = self.regs.pc;
        let mem_address = self.read_16(pc).wrapping_add(self.regs.x as u16);
        let data = self.regs.y & ((mem_address >> 8) as u8).wrapping_add(1);
        self.write(mem_address, data);
    }

    /// The multi-byte NOPs: the read happens, with its page-crossing cycle,
    /// and the value is dropped.
    pub fn nop_read(&mut self, mode: &AddressingMode) -> (r: u8)
        requires
            old(self)@.wf(),
        ensures
            final(self)@ == old(self)@.load(*mode).1,
            r == old(self)@.page_penalty(*mode),
            r <= 1,
            final(self)@.wf(),
            final(self)@.bus.cycles == old(self)@.bus.cycles,
    {
        reveal(CpuView::load);
        reveal(CpuView::page_penalty);
        let (_value, penalty) = self.load(mode);
        penalty
    }
}

} // verus!
