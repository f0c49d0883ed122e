//! One line of CPU trace per instruction, in the layout of the widely used
//! `nestest.log`: `PC  BYTES  MNEMONIC OPERAND  A:aa X:xx Y:yy P:pp SP:ss`.
//! The line is built from what reads would return, without performing them.
use vstd::prelude::*;
use vstd::string::StringExecFns;
use crate::bus::{BusView, join};
use crate::cpu::{AddressingMode, CPU, CpuView};
use crate::opcodes::{get_instruction, opcode_name, opcode_shape};
use crate::registers::Registers;

verus! {

/// Width of the part of a trace line before the registers.
pub const DISASSEMBLY_WIDTH: usize = 47;

/// The uppercase hexadecimal digit for `n` (below 16).
pub open spec fn hex_digit(n: u8) -> char {
    if n == 0 {
        '0'
    } else if n == 1 {
        '1'
    } else if n == 2 {
        '2'
    } else if n == 3 {
        '3'
    } else if n == 4 {
        '4'
    } else if n == 5 {
        '5'
    } else if n == 6 {
        '6'
    } else if n == 7 {
        '7'
    } else if n == 8 {
        '8'
    } else if n == 9 {
        '9'
    } else if n == 10 {
        'A'
    } else if n == 11 {
        'B'
    } else if n == 12 {
        'C'
    } else if n == 13 {
        'D'
    } else if n == 14 {
        'E'
    } else {
        'F'
    }
}

/// The two hexadecimal digits of `b`.
pub open spec fn hex2(b: u8) -> Seq<char> {
    seq![hex_digit(b / 16), hex_digit(b % 16)]
}

/// The four hexadecimal digits of `w`.
pub open spec fn hex4(w: u16) -> Seq<char> {
    hex2((w / 256) as u8) + hex2((w % 256) as u8)
}

/// The register block that ends every trace line.
pub open spec fn register_field(r: Registers) -> Seq<char> {
    " A:"@ + hex2(r.a) + " X:"@ + hex2(r.x) + " Y:"@ + hex2(r.y) + " P:"@ + hex2(r.p) + " SP:"@
        + hex2(r.sp)
}

fn digit_str(n: u8) -> (r: &'static str)
    requires
        n < 16,
    ensures
        r@ == seq![hex_digit(n)],
{
    match n {
        0 => {
            proof {
                reveal_strlit("0");
            }
            "0"
        },
        1 => {
            proof {
                reveal_strlit("1");
            }
            "1"
        },
        2 => {
            proof {
                reveal_strlit("2");
            }
            "2"
        },
        3 => {
            proof {
                reveal_strlit("3");
            }
            "3"
        },
        4 => {
            proof {
                reveal_strlit("4");
            }
            "4"
        },
        5 => {
            proof {
                reveal_strlit("5");
            }
            "5"
        },
        6 => {
            proof {
                reveal_strlit("6");
            }
            "6"
        },
        7 => {
            proof {
                reveal_strlit("7");
            }
            "7"
        },
        8 => {
            proof {
                reveal_strlit("8");
            }
            "8"
        },
        9 => {
            proof {
                reveal_strlit("9");
            }
            "9"
        },
        10 => {
            proof {
                reveal_strlit("A");
            }
            "A"
        },
        11 => {
            proof {
                reveal_strlit("B");
            }
            "B"
        },
        12 => {
            proof {
                reveal_strlit("C");
            }
            "C"
        },
        13 => {
            proof {
                reveal_strlit("D");
            }
            "D"
        },
        14 => {
            proof {
                reveal_strlit("E");
            }
            "E"
        },
        _ => {
            proof {
                reveal_strlit("F");
            }
            "F"
        },
    }
}

/// Appends the two hexadecimal digits of `b`.
fn push_hex2(s: &mut String, b: u8)
    ensures
        final(s)@ == old(s)@ + hex2(b),
{
    s.append(digit_str(b / 16));
    s.append(digit_str(b % 16));
    assert(final(s)@ =~= old(s)@ + hex2(b));
}

/// Appends the four hexadecimal digits of `w`.
fn push_hex4(s: &mut String, w: u16)
    ensures
        final(s)@ == old(s)@ + hex4(w),
{
    push_hex2(s, (w / 256) as u8);
    push_hex2(s, (w % 256) as u8);
    assert(final(s)@ =~= old(s)@ + hex4(w));
}

/// A branch displacement as a 16-bit two's-complement offset.
pub open spec fn displacement(off: u8) -> u16 {
    if off < 128 {
        off as u16
    } else {
        (off as u16 + 0xFF00) as u16
    }
}

/// The effective address of an operand whose bytes start at `at`, as seen
/// without reading.
pub open spec fn peek_operand(b: BusView, r: Registers, mode: AddressingMode, at: u16) -> u16 {
    match mode {
        AddressingMode::Immediate => at,
        AddressingMode::ZeroPage => b.peek(at) as u16,
        AddressingMode::Absolute => b.peek_word(at),
        AddressingMode::ZeroPageX => b.peek(at).wrapping_add(r.x) as u16,
        AddressingMode::ZeroPageY => b.peek(at).wrapping_add(r.y) as u16,
        AddressingMode::AbsoluteX => b.peek_word(at).wrapping_add(r.x as u16),
        AddressingMode::AbsoluteY => b.peek_word(at).wrapping_add(r.y as u16),
        AddressingMode::IndirectX => {
            let ptr = b.peek(at).wrapping_add(r.x);
            join(b.peek(ptr as u16), b.peek(ptr.wrapping_add(1) as u16))
        },
        AddressingMode::IndirectY => {
            let base = b.peek(at);
            join(b.peek(base as u16), b.peek(base.wrapping_add(1) as u16)).wrapping_add(
                r.y as u16,
            )
        },
        AddressingMode::NoneAddressing => 0,
    }
}

/// The operand column of a one-byte instruction: `A` for the accumulator
/// shifts and rotates.
pub open spec fn operand1_text(code: u8) -> Seq<char> {
    if code == 0x0A || code == 0x4A || code == 0x2A || code == 0x6A {
        "A"@
    } else {
        Seq::empty()
    }
}

/// The operand column of a two-byte instruction at PC.
pub open spec fn operand2_text(c: CpuView, mode: AddressingMode) -> Seq<char> {
    let begin = c.regs.pc;
    let a1 = c.bus.peek(begin.wrapping_add(1));
    let addr = peek_operand(c.bus, c.regs, mode, begin.wrapping_add(1));
    let v = c.bus.peek(addr);
    match mode {
        AddressingMode::Immediate => "#$"@ + hex2(a1),
        AddressingMode::ZeroPage => "$"@ + hex2(addr as u8) + " = "@ + hex2(v),
        AddressingMode::ZeroPageX => "$"@ + hex2(a1) + ",X @ "@ + hex2(addr as u8) + " = "@ + hex2(v),
        AddressingMode::ZeroPageY => "$"@ + hex2(a1) + ",Y @ "@ + hex2(addr as u8) + " = "@ + hex2(v),
        AddressingMode::IndirectX => "($"@ + hex2(a1) + ",X) @ "@ + hex2(a1.wrapping_add(c.regs.x))
            + " = "@ + hex4(addr) + " = "@ + hex2(v),
        AddressingMode::IndirectY => "($"@ + hex2(a1) + "),Y = "@ + hex4(
            addr.wrapping_sub(c.regs.y as u16),
        ) + " @ "@ + hex4(addr) + " = "@ + hex2(v),
        AddressingMode::NoneAddressing => "$"@ + hex4(
            begin.wrapping_add(2).wrapping_add(displacement(a1)),
        ),
        _ => Seq::empty(),
    }
}

/// Where JMP ($xxxx) goes, with the same-page wrap of the pointer's high
/// byte.
pub open spec fn indirect_target(b: BusView, ptr: u16) -> u16 {
    if ptr & 0x00FFu16 == 0x00FFu16 {
        join(b.peek(ptr), b.peek(ptr & 0xFF00u16))
    } else {
        b.peek_word(ptr)
    }
}

/// The operand column of a three-byte instruction at PC.
pub open spec fn operand3_text(c: CpuView, code: u8, mode: AddressingMode) -> Seq<char> {
    let begin = c.regs.pc;
    let w = c.bus.peek_word(begin.wrapping_add(1));
    let addr = peek_operand(c.bus, c.regs, mode, begin.wrapping_add(1));
    let v = c.bus.peek(addr);
    if code == 0x6C {
        "($"@ + hex4(w) + ") = "@ + hex4(indirect_target(c.bus, w))
    } else if code == 0x4C || code == 0x20 {
        "$"@ + hex4(w)
    } else {
        match mode {
            AddressingMode::Absolute => "$"@ + hex4(addr) + " = "@ + hex2(v),
            AddressingMode::AbsoluteX => "$"@ + hex4(w) + ",X @ "@ + hex4(addr) + " = "@ + hex2(v),
            AddressingMode::AbsoluteY => "$"@ + hex4(w) + ",Y @ "@ + hex4(addr) + " = "@ + hex2(v),
            _ => Seq::empty(),
        }
    }
}

/// The operand column of the instruction at PC.
pub open spec fn operand_text(c: CpuView, code: u8, mode: AddressingMode, bytes: u8) -> Seq<
    char,
> {
    if bytes <= 1 {
        operand1_text(code)
    } else if bytes == 2 {
        operand2_text(c, mode)
    } else {
        operand3_text(c, code, mode)
    }
}

/// The instruction's bytes: two hex digits each, three blanks for each
/// byte it does not use.
pub open spec fn bytes_field(b: BusView, begin: u16, bytes: u8) -> Seq<char> {
    hex2(b.peek(begin)) + (if bytes >= 2 {
        " "@ + hex2(b.peek(begin.wrapping_add(1)))
    } else {
        "   "@
    }) + (if bytes >= 3 {
        " "@ + hex2(b.peek(begin.wrapping_add(2)))
    } else {
        "   "@
    })
}

/// A mnemonic right-aligned in four columns.
pub open spec fn name_field(name: Seq<char>) -> Seq<char> {
    if name.len() < 4 {
        " "@ + name
    } else {
        name
    }
}

/// `s` padded with blanks to at least `n` characters.
pub open spec fn pad_to(s: Seq<char>, n: nat) -> Seq<char> {
    if s.len() >= n {
        s
    } else {
        s + Seq::new((n - s.len()) as nat, |i: int| ' ')
    }
}

/// Everything between the PC and the padding: the byte column, the
/// mnemonic and, when there is one, the operand.
pub open spec fn disassembly(c: CpuView) -> Seq<char> {
    let code = c.bus.peek(c.regs.pc);
    let (mode, bytes, cycles) = opcode_shape(code);
    let operand = operand_text(c, code, mode, bytes);
    "  "@ + bytes_field(c.bus, c.regs.pc, bytes) + " "@ + name_field(opcode_name(code)@) + (if operand.len()
        > 0 {
        " "@ + operand
    } else {
        Seq::empty()
    })
}

/// The whole trace line of the instruction at PC.
pub open spec fn trace_text(c: CpuView) -> Seq<char> {
    hex4(c.regs.pc) + pad_to(disassembly(c), 43) + register_field(c.regs)
}

impl CPU {
    /// The effective address of the operand at `at`, without reading.
    fn peek_address(&self, mode: AddressingMode, at: u16) -> (r: u16)
        requires
            self@.wf(),
        ensures
            r == peek_operand(self.bus@, self.regs, mode, at),
    {
        match mode {
            AddressingMode::Immediate => at,
            AddressingMode::ZeroPage => self.bus.peek(at) as u16,
            AddressingMode::Absolute => self.bus.peek_16(at),
            AddressingMode::ZeroPageX => self.bus.peek(at).wrapping_add(self.regs.x) as u16,
            AddressingMode::ZeroPageY => self.bus.peek(at).wrapping_add(self.regs.y) as u16,
            AddressingMode::AbsoluteX => self.bus.peek_16(at).wrapping_add(self.regs.x as u16),
            AddressingMode::AbsoluteY => self.bus.peek_16(at).wrapping_add(self.regs.y as u16),
            AddressingMode::IndirectX => {
                let ptr = self.bus.peek(at).wrapping_add(self.regs.x);
                let lo = self.bus.peek(ptr as u16);
                let hi = self.bus.peek(ptr.wrapping_add(1) as u16);
                proof {
                    crate::latches::lemma_value_of(hi, lo);
                }
                ((hi as u16) << 8) | (lo as u16)
            },
            AddressingMode::IndirectY => {
                let base = self.bus.peek(at);
                let lo = self.bus.peek(base as u16);
                let hi = self.bus.peek(base.wrapping_add(1) as u16);
                proof {
                    crate::latches::lemma_value_of(hi, lo);
                }
                (((hi as u16) << 8) | (lo as u16)).wrapping_add(self.regs.y as u16)
            },
            AddressingMode::NoneAddressing => 0,
        }
    }

    fn trace_operand2(&self, mode: AddressingMode) -> (r: String)
        requires
            self@.wf(),
        ensures
            r@ == operand2_text(self@, mode),
    {
        let begin = self.regs.pc;
        let a1 = self.bus.peek(begin.wrapping_add(1));
        let addr = self.peek_address(mode, begin.wrapping_add(1));
        let v = self.bus.peek(addr);
        let mut s = String::new();
        match mode {
            AddressingMode::Immediate => {
                s.append("#$");
                push_hex2(&mut s, a1);
            },
            AddressingMode::ZeroPage => {
                s.append("$");
                push_hex2(&mut s, addr as u8);
                s.append(" = ");
                push_hex2(&mut s, v);
            },
            AddressingMode::ZeroPageX => {
                s.append("$");
                push_hex2(&mut s, a1);
                s.append(",X @ ");
                push_hex2(&mut s, addr as u8);
                s.append(" = ");
                push_hex2(&mut s, v);
            },
            AddressingMode::ZeroPageY => {
                s.append("$");
                push_hex2(&mut s, a1);
                s.append(",Y @ ");
                push_hex2(&mut s, addr as u8);
                s.append(" = ");
                push_hex2(&mut s, v);
            },
            AddressingMode::IndirectX => {
                s.append("($");
                push_hex2(&mut s, a1);
                s.append(",X) @ ");
                push_hex2(&mut s, a1.wrapping_add(self.regs.x));
                s.append(" = ");
                push_hex4(&mut s, addr);
                s.append(" = ");
                push_hex2(&mut s, v);
            },
            AddressingMode::IndirectY => {
                s.append("($");
                push_hex2(&mut s, a1);
                s.append("),Y = ");
                push_hex4(&mut s, addr.wrapping_sub(self.regs.y as u16));
                s.append(" @ ");
                push_hex4(&mut s, addr);
                s.append(" = ");
                push_hex2(&mut s, v);
            },
            AddressingMode::NoneAddressing => {
                // a relative branch: the target after the displacement
                let disp: u16 = if a1 < 128 {
                    a1 as u16
                } else {
                    a1 as u16 + 0xFF00
                };
                s.append("$");
                push_hex4(&mut s, begin.wrapping_add(2).wrapping_add(disp));
            },
            _ => {},
        }
        assert(s@ =~= operand2_text(self@, mode));
        s
    }

    fn trace_operand3(&self, code: u8, mode: AddressingMode) -> (r: String)
        requires
            self@.wf(),
        ensures
            r@ == operand3_text(self@, code, mode),
    {
        let begin = self.regs.pc;
        let w = self.bus.peek_16(begin.wrapping_add(1));
        let addr = self.peek_address(mode, begin.wrapping_add(1));
        let v = self.bus.peek(addr);
        let mut s = String::new();
        if code == 0x6C {
            let target = if w & 0x00FF == 0x00FF {
                let lo = self.bus.peek(w);
                let hi = self.bus.peek(w & 0xFF00);
                proof {
                    crate::latches::lemma_value_of(hi, lo);
                }
                ((hi as u16) << 8) | (lo as u16)
            } else {
                self.bus.peek_16(w)
            };
            s.append("($");
            push_hex4(&mut s, w);
            s.append(") = ");
            push_hex4(&mut s, target);
        } else if code == 0x4C || code == 0x20 {
            s.append("$");
            push_hex4(&mut s, w);
        } else {
            match mode {
                AddressingMode::Absolute => {
                    s.append("$");
                    push_hex4(&mut s, addr);
                    s.append(" = ");
                    push_hex2(&mut s, v);
                },
                AddressingMode::AbsoluteX => {
                    s.append("$");
                    push_hex4(&mut s, w);
                    s.append(",X @ ");
                    push_hex4(&mut s, addr);
                    s.append(" = ");
                    push_hex2(&mut s, v);
                },
                AddressingMode::AbsoluteY => {
                    s.append("$");
                    push_hex4(&mut s, w);
                    s.append(",Y @ ");
                    push_hex4(&mut s, addr);
                    s.append(" = ");
                    push_hex2(&mut s, v);
                },
                _ => {},
            }
        }
        assert(s@ =~= operand3_text(self@, code, mode));
        s
    }

    /// The operand column of the instruction at PC.
    fn trace_operand(&self, code: u8, mode: AddressingMode, bytes: u8) -> (r: String)
        requires
            self@.wf(),
        ensures
            r@ == operand_text(self@, code, mode, bytes),
    {
        if bytes <= 1 {
            let mut s = String::new();
            if code == 0x0A || code == 0x4A || code == 0x2A || code == 0x6A {
                s.append("A");
            }
            assert(s@ =~= operand1_text(code));
            s
        } else if bytes == 2 {
            self.trace_operand2(mode)
        } else {
            self.trace_operand3(code, mode)
        }
    }

    /// The byte column, mnemonic and operand of the instruction at PC.
    fn disassemble(&self) -> (r: String)
        requires
            self@.wf(),
        ensures
            r@ == disassembly(self@),
    {
        let begin = self.regs.pc;
        let code = self.bus.peek(begin);
        let ops = get_instruction(code);
        let mut body = String::new();
        body.append("  ");
        let column = self.bytes_column(ops.bytes);
        body.append(column.as_str());
        body.append(" ");
        if ops.name.unicode_len() < 4 {
            body.append(" ");
        }
        body.append(ops.name);
        let operand = self.trace_operand(code, ops.addr_mode, ops.bytes);
        if operand.as_str().unicode_len() > 0 {
            body.append(" ");
            body.append(operand.as_str());
        }
        assert(body@ =~= disassembly(self@));
        body
    }

    /// The byte column of the instruction at PC.
    fn bytes_column(&self, bytes: u8) -> (r: String)
        requires
            self@.wf(),
        ensures
            r@ == bytes_field(self.bus@, self.regs.pc, bytes),
    {
        let begin = self.regs.pc;
        let mut s = String::new();
        push_hex2(&mut s, self.bus.peek(begin));
        if bytes >= 2 {
            s.append(" ");
            push_hex2(&mut s, self.bus.peek(begin.wrapping_add(1)));
        } else {
            s.append("   ");
        }
        if bytes >= 3 {
            s.append(" ");
            push_hex2(&mut s, self.bus.peek(begin.wrapping_add(2)));
        } else {
            s.append("   ");
        }
        assert(s@ =~= bytes_field(self.bus@, begin, bytes));
        s
    }

    /// The trace line of the instruction at PC: its address, its bytes, its
    /// mnemonic right-aligned in four columns and its operand, padded to
    /// column 47, then the registers. Nothing is read for real, so the
    /// machine is unchanged.
    pub fn trace(&mut self) -> (r: String)
        requires
            old(self)@.wf(),
        ensures
            r@ == trace_text(old(self)@),
            final(self)@ == old(self)@,
    {
        let regs = self.regs;
        let mut body = self.disassemble();
        pad(&mut body, DISASSEMBLY_WIDTH - 4);
        let mut line = String::new();
        push_hex4(&mut line, regs.pc);
        line.append(body.as_str());
        line.append(" A:");
        push_hex2(&mut line, regs.a);
        line.append(" X:");
        push_hex2(&mut line, regs.x);
        line.append(" Y:");
        push_hex2(&mut line, regs.y);
        line.append(" P:");
        push_hex2(&mut line, regs.p);
        line.append(" SP:");
        push_hex2(&mut line, regs.sp);
        assert(line@ =~= trace_text(self@));
        line
    }
}

/// Appends blanks until `s` has at least `n` characters.
fn pad(s: &mut String, n: usize)
    ensures
        final(s)@ == pad_to(old(s)@, n as nat),
{
    let ghost start = s@;
    assert(s@ =~= start + Seq::new(0, |i: int| ' '));
    while s.as_str().unicode_len() < n
        invariant
            start == old(s)@,
            start.len() <= s@.len(),
            start.len() < n ==> s@.len() <= n,
            start.len() >= n ==> s@.len() == start.len(),
            s@ == start + Seq::new((s@.len() - start.len()) as nat, |i: int| ' '),
        decreases n - s@.len(),
    {
        proof {
            reveal_strlit(" ");
        }
        s.append(" ");
        assert(s@ =~= start + Seq::new((s@.len() - start.len()) as nat, |i: int| ' '));
    }
    proof {
        if start.len() >= n {
            assert(s@ =~= start);
        } else {
            assert(s@.len() == n);
        }
    }
}

} // verus!
