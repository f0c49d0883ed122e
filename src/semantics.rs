//! What each 6502 instruction does, stated over the CPU model.
use vstd::prelude::*;
use crate::bits::{bit_of, with_bit};
use crate::bus::join;
use crate::cpu::{AddressingMode, CpuView, crosses_page};
use crate::registers::{Registers, carry_of, CARRY, ZERO, OVERFLOW, NEGATIVE};

verus! {

/// `p` with Zero and Negative describing `v`.
pub open spec fn zn(p: u8, v: u8) -> u8 {
    with_bit(with_bit(p, ZERO, v == 0), NEGATIVE, bit_of(v, 7))
}

/// Where a taken branch at `pc` (pointing at the displacement byte `off`)
/// lands: after the displacement, moved by `off` read as signed.
pub open spec fn branch_target(pc: u16, off: u8) -> u16 {
    let disp: u16 = if off < 128 {
        off as u16
    } else {
        (off as u16 + 0xFF00) as u16
    };
    pc.wrapping_add(1).wrapping_add(disp)
}

/// The accumulator and status after `A + v + C`.
pub open spec fn add_with_carry(a: u8, v: u8, p: u8) -> (u8, u8) {
    let sum = a as int + v as int + if carry_of(p) {
        1int
    } else {
        0int
    };
    let r = (sum % 256) as u8;
    let overflow = (v ^ r) & (r ^ a) & 0x80u8 != 0;
    (r, zn(with_bit(with_bit(p, CARRY, sum > 255), OVERFLOW, overflow), r))
}

impl CpuView {
    pub open spec fn with_regs(self, r: Registers) -> CpuView {
        CpuView { regs: r, ..self }
    }

    /// Loads `v` into A and sets Z/N from it.
    pub open spec fn set_a(self, v: u8) -> CpuView {
        self.with_regs(Registers { a: v, p: zn(self.regs.p, v), ..self.regs })
    }

    /// Loads `v` into X and sets Z/N from it.
    pub open spec fn set_x(self, v: u8) -> CpuView {
        self.with_regs(Registers { x: v, p: zn(self.regs.p, v), ..self.regs })
    }

    /// Loads `v` into Y and sets Z/N from it.
    pub open spec fn set_y(self, v: u8) -> CpuView {
        self.with_regs(Registers { y: v, p: zn(self.regs.p, v), ..self.regs })
    }

    /// Sets status bit `i` to `b`.
    pub open spec fn set_flag(self, i: u8, b: bool) -> CpuView {
        self.with_regs(Registers { p: with_bit(self.regs.p, i, b), ..self.regs })
    }

    /// An operand read: the value and the CPU after the reads.
    #[verifier::opaque]
    pub open spec fn load(self, mode: AddressingMode) -> (u8, CpuView) {
        let (a, crossed, b1) = self.operand(mode);
        (b1.peek(a), CpuView { bus: b1.after_read(a), ..self })
    }

    /// The extra cycle that a read-style instruction owes when indexing
    /// crossed a page.
    #[verifier::opaque]
    pub open spec fn page_penalty(self, mode: AddressingMode) -> u8 {
        if self.operand(mode).1 {
            1
        } else {
            0
        }
    }

    /// The target of a read-modify-write: its address, its value, and the
    /// CPU after the reads.
    pub open spec fn target(self, mode: AddressingMode) -> (u16, u8, CpuView) {
        let (a, crossed, b1) = self.operand(mode);
        (a, b1.peek(a), CpuView { bus: b1.after_read(a), ..self })
    }

    /// Writes `v` to the operand address.
    #[verifier::opaque]
    pub open spec fn store(self, mode: AddressingMode, v: u8) -> CpuView {
        let (a, crossed, b1) = self.operand(mode);
        CpuView { bus: b1.after_write(a, v), ..self }
    }

    /// A <- A + v + C, with Carry and Overflow.
    pub open spec fn add_a(self, v: u8) -> CpuView {
        let (r, p) = add_with_carry(self.regs.a, v, self.regs.p);
        self.with_regs(Registers { a: r, p, ..self.regs })
    }

    /// Carry set when `reg >= v`; Z/N from `reg - v`.
    pub open spec fn compare_with(self, reg: u8, v: u8) -> CpuView {
        self.with_regs(
            Registers {
                p: zn(with_bit(self.regs.p, CARRY, reg >= v), reg.wrapping_sub(v)),
                ..self.regs
            },
        )
    }

    /// A read-modify-write that stores `r` and sets Carry to `c` and Z/N
    /// from `r`.
    pub open spec fn rmw(self, mode: AddressingMode, r: u8, c: bool) -> CpuView {
        let (a, v, c1) = self.target(mode);
        CpuView {
            regs: Registers { p: zn(with_bit(self.regs.p, CARRY, c), r), ..self.regs },
            bus: c1.bus.after_write(a, r),
        }
    }

    #[verifier::opaque]
    pub open spec fn adc(self, mode: AddressingMode) -> CpuView {
        let (v, c) = self.load(mode);
        c.add_a(v)
    }

    #[verifier::opaque]
    pub open spec fn sbc(self, mode: AddressingMode) -> CpuView {
        let (v, c) = self.load(mode);
        c.add_a(!v)
    }

    #[verifier::opaque]
    pub open spec fn and(self, mode: AddressingMode) -> CpuView {
        let (v, c) = self.load(mode);
        c.set_a(self.regs.a & v)
    }

    #[verifier::opaque]
    pub open spec fn eor(self, mode: AddressingMode) -> CpuView {
        let (v, c) = self.load(mode);
        c.set_a(self.regs.a ^ v)
    }

    #[verifier::opaque]
    pub open spec fn ora(self, mode: AddressingMode) -> CpuView {
        let (v, c) = self.load(mode);
        c.set_a(self.regs.a | v)
    }

    #[verifier::opaque]
    pub open spec fn lda(self, mode: AddressingMode) -> CpuView {
        let (v, c) = self.load(mode);
        c.set_a(v)
    }

    #[verifier::opaque]
    pub open spec fn ldx(self, mode: AddressingMode) -> CpuView {
        let (v, c) = self.load(mode);
        c.set_x(v)
    }

    #[verifier::opaque]
    pub open spec fn ldy(self, mode: AddressingMode) -> CpuView {
        let (v, c) = self.load(mode);
        c.set_y(v)
    }

    #[verifier::opaque]
    pub open spec fn compare(self, mode: AddressingMode, reg: u8) -> CpuView {
        let (v, c) = self.load(mode);
        c.compare_with(reg, v)
    }

    #[verifier::opaque]
    pub open spec fn bit(self, mode: AddressingMode) -> CpuView {
        let (v, c) = self.load(mode);
        c.with_regs(
            Registers {
                p: with_bit(
                    with_bit(with_bit(self.regs.p, ZERO, self.regs.a & v == 0), NEGATIVE, bit_of(v, 7)),
                    OVERFLOW,
                    bit_of(v, 6),
                ),
                ..self.regs
            },
        )
    }

    pub open spec fn asl_accumulator(self) -> CpuView {
        let r = self.regs.a << 1u8;
        self.with_regs(
            Registers {
                a: r,
                p: zn(with_bit(self.regs.p, CARRY, bit_of(self.regs.a, 7)), r),
                ..self.regs
            },
        )
    }

    pub open spec fn lsr_accumulator(self) -> CpuView {
        let r = self.regs.a >> 1u8;
        self.with_regs(
            Registers {
                a: r,
                p: zn(with_bit(self.regs.p, CARRY, bit_of(self.regs.a, 0)), r),
                ..self.regs
            },
        )
    }

    pub open spec fn rol_accumulator(self) -> CpuView {
        let r = with_bit(self.regs.a << 1u8, 0, carry_of(self.regs.p));
        self.with_regs(
            Registers {
                a: r,
                p: zn(with_bit(self.regs.p, CARRY, bit_of(self.regs.a, 7)), r),
                ..self.regs
            },
        )
    }

    pub open spec fn ror_accumulator(self) -> CpuView {
        let r = with_bit(self.regs.a >> 1u8, 7, carry_of(self.regs.p));
        self.with_regs(
            Registers {
                a: r,
                p: zn(with_bit(self.regs.p, CARRY, bit_of(self.regs.a, 0)), r),
                ..self.regs
            },
        )
    }

    /// The value an ASL of memory writes back.
    pub open spec fn asl_value(self, mode: AddressingMode) -> u8 {
        self.target(mode).1 << 1u8
    }

    #[verifier::opaque]
    pub open spec fn asl(self, mode: AddressingMode) -> CpuView {
        self.rmw(mode, self.asl_value(mode), bit_of(self.target(mode).1, 7))
    }

    pub open spec fn lsr_value(self, mode: AddressingMode) -> u8 {
        self.target(mode).1 >> 1u8
    }

    #[verifier::opaque]
    pub open spec fn lsr(self, mode: AddressingMode) -> CpuView {
        self.rmw(mode, self.lsr_value(mode), bit_of(self.target(mode).1, 0))
    }

    pub open spec fn rol_value(self, mode: AddressingMode) -> u8 {
        with_bit(self.target(mode).1 << 1u8, 0, carry_of(self.regs.p))
    }

    #[verifier::opaque]
    pub open spec fn rol(self, mode: AddressingMode) -> CpuView {
        self.rmw(mode, self.rol_value(mode), bit_of(self.target(mode).1, 7))
    }

    pub open spec fn ror_value(self, mode: AddressingMode) -> u8 {
        with_bit(self.target(mode).1 >> 1u8, 7, carry_of(self.regs.p))
    }

    #[verifier::opaque]
    pub open spec fn ror(self, mode: AddressingMode) -> CpuView {
        self.rmw(mode, self.ror_value(mode), bit_of(self.target(mode).1, 0))
    }

    pub open spec fn inc_value(self, mode: AddressingMode) -> u8 {
        self.target(mode).1.wrapping_add(1)
    }

    /// INC and DEC leave Carry alone.
    #[verifier::opaque]
    pub open spec fn inc(self, mode: AddressingMode) -> CpuView {
        self.rmw(mode, self.inc_value(mode), carry_of(self.regs.p))
    }

    pub open spec fn dec_value(self, mode: AddressingMode) -> u8 {
        self.target(mode).1.wrapping_sub(1)
    }

    #[verifier::opaque]
    pub open spec fn dec(self, mode: AddressingMode) -> CpuView {
        self.rmw(mode, self.dec_value(mode), carry_of(self.regs.p))
    }

    /// A conditional branch: when taken, PC moves to the target.
    #[verifier::opaque]
    pub open spec fn branch(self, condition: bool) -> CpuView {
        if !condition {
            self
        } else {
            let pc = self.regs.pc;
            CpuView {
                regs: Registers { pc: branch_target(pc, self.bus.peek(pc)), ..self.regs },
                bus: self.bus.after_read(pc),
            }
        }
    }

    /// Extra cycles of a branch: one when taken, one more when the target
    /// is on another page than the next instruction.
    #[verifier::opaque]
    pub open spec fn branch_penalty(self, condition: bool) -> u8 {
        if !condition {
            0
        } else if crosses_page(
            self.regs.pc.wrapping_add(1),
            branch_target(self.regs.pc, self.bus.peek(self.regs.pc)),
        ) {
            2
        } else {
            1
        }
    }

    #[verifier::opaque]
    pub open spec fn jmp(self) -> CpuView {
        CpuView {
            regs: Registers { pc: self.bus.word(self.regs.pc), ..self.regs },
            bus: self.bus.after_word(self.regs.pc),
        }
    }

    /// JMP through a pointer; a pointer at $xxFF takes its high byte from
    /// $xx00, as the hardware does.
    #[verifier::opaque]
    pub open spec fn jmp_indirect(self) -> CpuView {
        let ptr = self.bus.word(self.regs.pc);
        let b1 = self.bus.after_word(self.regs.pc);
        if ptr & 0x00FFu16 == 0x00FFu16 {
            let b2 = b1.after_read(ptr);
            let page = ptr & 0xFF00u16;
            CpuView {
                regs: Registers { pc: join(b1.peek(ptr), b2.peek(page)), ..self.regs },
                bus: b2.after_read(page),
            }
        } else {
            CpuView { regs: Registers { pc: b1.word(ptr), ..self.regs }, bus: b1.after_word(ptr) }
        }
    }

    /// JSR pushes the address of its own last byte, then jumps.
    #[verifier::opaque]
    pub open spec fn jsr(self) -> CpuView {
        let pc = self.regs.pc;
        let c1 = self.push_16(pc.wrapping_add(1));
        CpuView {
            regs: Registers { pc: c1.bus.word(pc), ..c1.regs },
            bus: c1.bus.after_word(pc),
        }
    }

    #[verifier::opaque]
    pub open spec fn rts(self) -> CpuView {
        let c1 = self.pop_16();
        c1.with_regs(Registers { pc: self.pop_16_value().wrapping_add(1), ..c1.regs })
    }

    #[verifier::opaque]
    pub open spec fn rti(self) -> CpuView {
        let c1 = self.pop().with_regs(Registers { p: self.pop_value(), ..self.pop().regs });
        c1.pop_16().with_regs(Registers { pc: c1.pop_16_value(), ..c1.pop_16().regs })
    }

    #[verifier::opaque]
    pub open spec fn pla(self) -> CpuView {
        self.pop().set_a(self.pop_value())
    }

    #[verifier::opaque]
    pub open spec fn plp(self) -> CpuView {
        self.pop().with_regs(Registers { p: self.pop_value(), ..self.pop().regs })
    }

    #[verifier::opaque]
    pub open spec fn dcp(self, mode: AddressingMode) -> CpuView {
        let (a, v, c1) = self.target(mode);
        let r = v.wrapping_sub(1);
        CpuView { bus: c1.bus.after_write(a, r), ..self }.compare_with(self.regs.a, r)
    }

    #[verifier::opaque]
    pub open spec fn rla(self, mode: AddressingMode) -> CpuView {
        let c = self.rol(mode);
        c.set_a(c.regs.a & self.rol_value(mode))
    }

    #[verifier::opaque]
    pub open spec fn slo(self, mode: AddressingMode) -> CpuView {
        let c = self.asl(mode);
        c.set_a(c.regs.a | self.asl_value(mode))
    }

    #[verifier::opaque]
    pub open spec fn sre(self, mode: AddressingMode) -> CpuView {
        let c = self.lsr(mode);
        c.set_a(c.regs.a ^ self.lsr_value(mode))
    }

    #[verifier::opaque]
    pub open spec fn rra(self, mode: AddressingMode) -> CpuView {
        self.ror(mode).add_a(self.ror_value(mode))
    }

    #[verifier::opaque]
    pub open spec fn isb(self, mode: AddressingMode) -> CpuView {
        self.inc(mode).add_a(!self.inc_value(mode))
    }

    /// X <- (A & X) - v, with Carry as for a compare.
    #[verifier::opaque]
    pub open spec fn axs(self, mode: AddressingMode) -> CpuView {
        let (v, c) = self.load(mode);
        let xa = self.regs.x & self.regs.a;
        let r = xa.wrapping_sub(v);
        c.with_regs(
            Registers { x: r, p: zn(with_bit(self.regs.p, CARRY, xa >= v), r), ..self.regs },
        )
    }

    /// AND then ROR A; Carry from bit 6, Overflow from bit 6 XOR bit 5.
    #[verifier::opaque]
    pub open spec fn arr(self, mode: AddressingMode) -> CpuView {
        let (v, c) = self.load(mode);
        let c2 = c.set_a(self.regs.a & v).ror_accumulator();
        let r = c2.regs.a;
        c2.with_regs(
            Registers {
                p: zn(
                    with_bit(
                        with_bit(c2.regs.p, CARRY, bit_of(r, 6)),
                        OVERFLOW,
                        bit_of(r, 5) != bit_of(r, 6),
                    ),
                    r,
                ),
                ..c2.regs
            },
        )
    }

    #[verifier::opaque]
    pub open spec fn sbc_unofficial(self, mode: AddressingMode) -> CpuView {
        let (v, c) = self.load(mode);
        c.add_a(!v)
    }

    /// AND, then Carry copies Negative.
    #[verifier::opaque]
    pub open spec fn anc(self, mode: AddressingMode) -> CpuView {
        let (v, c) = self.load(mode);
        let c2 = c.set_a(self.regs.a & v);
        c2.set_flag(CARRY, bit_of(c2.regs.p, NEGATIVE))
    }

    #[verifier::opaque]
    pub open spec fn alr(self, mode: AddressingMode) -> CpuView {
        let (v, c) = self.load(mode);
        c.set_a(self.regs.a & v).lsr_accumulator()
    }

    #[verifier::opaque]
    pub open spec fn lax(self, mode: AddressingMode) -> CpuView {
        let (v, c) = self.load(mode);
        c.with_regs(Registers { a: v, x: v, p: zn(self.regs.p, v), ..self.regs })
    }

    #[verifier::opaque]
    pub open spec fn lxa(self, mode: AddressingMode) -> CpuView {
        let c = self.lda(mode);
        c.set_x(c.regs.a)
    }

    #[verifier::opaque]
    pub open spec fn xaa(self, mode: AddressingMode) -> CpuView {
        let (v, c) = self.load(mode);
        c.set_a(self.regs.x).set_a(self.regs.x & v)
    }

    #[verifier::opaque]
    pub open spec fn las(self, mode: AddressingMode) -> CpuView {
        let (v, c) = self.load(mode);
        let r = v & self.regs.sp;
        c.with_regs(Registers { a: r, x: r, sp: r, p: zn(self.regs.p, r), ..self.regs })
    }

    /// The store address of the absolute,index forms that mix in the
    /// address's high byte.
    pub open spec fn indexed_word(self, index: u8) -> u16 {
        self.bus.word(self.regs.pc).wrapping_add(index as u16)
    }

    #[verifier::opaque]
    pub open spec fn tas(self) -> CpuView {
        let sp = self.regs.a & self.regs.x;
        let addr = self.indexed_word(self.regs.y);
        let data = ((addr >> 8u16) as u8).wrapping_add(1) & sp;
        CpuView {
            regs: Registers { sp, ..self.regs },
            bus: self.bus.after_word(self.regs.pc).after_write(addr, data),
        }
    }

    #[verifier::opaque]
    pub open spec fn ahx_indir_y(self) -> CpuView {
        let pos = self.bus.peek(self.regs.pc);
        let b1 = self.bus.after_read(self.regs.pc);
        let addr = b1.word(pos as u16).wrapping_add(self.regs.y as u16);
        let data = self.regs.a & self.regs.x & (addr >> 8u16) as u8;
        CpuView { bus: b1.after_word(pos as u16).after_write(addr, data), ..self }
    }

    #[verifier::opaque]
    pub open spec fn ahx_abs_y(self) -> CpuView {
        let addr = self.indexed_word(self.regs.y);
        let data = self.regs.a & self.regs.x & (addr >> 8u16) as u8;
        CpuView { bus: self.bus.after_word(self.regs.pc).after_write(addr, data), ..self }
    }

    #[verifier::opaque]
    pub open spec fn shx(self) -> CpuView {
        let addr = self.indexed_word(self.regs.y);
        let data = self.regs.x & ((addr >> 8u16) as u8).wrapping_add(1);
        CpuView { bus: self.bus.after_word(self.regs.pc).after_write(addr, data), ..self }
    }

    #[verifier::opaque]
    pub open spec fn shy(self) -> CpuView {
        let addr = self.indexed_word(self.regs.x);
        let data = self.regs.y & ((addr >> 8u16) as u8).wrapping_add(1);
        CpuView { bus: self.bus.after_word(self.regs.pc).after_write(addr, data), ..self }
    }
}

} // verus!
