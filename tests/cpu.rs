use nes_emu::bus::{Bus, BusError};
use nes_emu::cart::Cart;
use nes_emu::cpu::CPU;
use nes_emu::dispatch::Step;
use nes_emu::opcodes::get_instruction;

/// A 32 KiB NROM image whose PRG starts with `program` at $8000, with the
/// reset vector pointing there.
fn image(program: &[u8]) -> Vec<u8> {
    let mut rom = vec![0x4E, 0x45, 0x53, 0x1A, 2, 1, 0, 0, 0, 0, 0, 0, 0, 0, 0, 0];
    let mut prg = vec![0u8; 0x8000];
    prg[..program.len()].copy_from_slice(program);
    prg[0x7FFC] = 0x00;
    prg[0x7FFD] = 0x80;
    rom.extend_from_slice(&prg);
    rom.extend_from_slice(&vec![0u8; 0x2000]);
    rom
}

fn cpu_with(program: &[u8]) -> CPU {
    let cart = Cart::new(&image(program)).unwrap();
    let mut cpu = CPU::new(Bus::new(cart));
    cpu.reset();
    cpu
}

fn flag(cpu: &CPU, bit: u8) -> bool {
    cpu.regs.p & (1 << bit) != 0
}

#[test]
fn lda_immediate_then_brk() {
    let mut cpu = cpu_with(&[0xA9, 0x05, 0x00]);
    assert_eq!(cpu.regs.pc, 0x8000);
    assert_eq!(cpu.run(100), Ok(true));
    assert_eq!(cpu.regs.a, 0x05);
    assert!(!flag(&cpu, 1));
    assert!(!flag(&cpu, 7));
}

#[test]
fn inx_overflows_to_zero() {
    let mut cpu = cpu_with(&[0xA9, 0xFF, 0xAA, 0xE8, 0x00]);
    assert_eq!(cpu.run(100), Ok(true));
    assert_eq!(cpu.regs.x, 0);
    assert!(flag(&cpu, 1));
    assert!(!flag(&cpu, 7));
}

#[test]
fn adc_sets_overflow_and_negative() {
    let mut cpu = cpu_with(&[0x69, 0x50, 0x00]);
    cpu.regs.a = 0x50;
    cpu.regs.p &= !1;
    assert_eq!(cpu.run(100), Ok(true));
    assert_eq!(cpu.regs.a, 0xA0);
    assert!(!flag(&cpu, 0));
    assert!(flag(&cpu, 6));
    assert!(flag(&cpu, 7));
}

#[test]
fn sbc_borrows() {
    // SEC; LDA #$10; SBC #$20
    let mut cpu = cpu_with(&[0x38, 0xA9, 0x10, 0xE9, 0x20, 0x00]);
    assert_eq!(cpu.run(100), Ok(true));
    assert_eq!(cpu.regs.a, 0xF0);
    assert!(!flag(&cpu, 0));
    assert!(flag(&cpu, 7));
}

#[test]
fn jmp_indirect_wraps_within_page() {
    // JMP ($02FF): the high byte comes from $0200, not $0300.
    let mut cpu = cpu_with(&[0x6C, 0xFF, 0x02]);
    cpu.bus.write(0x02FF, 0x40);
    cpu.bus.write(0x0200, 0x80);
    cpu.bus.write(0x0300, 0x50);
    assert_eq!(cpu.step(), Ok(Step::Executed));
    assert_eq!(cpu.regs.pc, 0x8040);
}

#[test]
fn zero_page_x_wraps() {
    let mut cpu = cpu_with(&[0xB5, 0x80, 0x00]);
    cpu.regs.x = 0xFF;
    cpu.bus.write(0x7F, 0xAB);
    assert_eq!(cpu.run(100), Ok(true));
    assert_eq!(cpu.regs.a, 0xAB);
}

#[test]
fn every_step_bills_at_least_two_cycles() {
    // NOP; LDA $12; INX; BRK
    let mut cpu = cpu_with(&[0xEA, 0xA5, 0x12, 0xE8, 0x00]);
    for _ in 0..4 {
        let before = cpu.bus.cycles;
        cpu.step().unwrap();
        assert!(cpu.bus.cycles - before >= 2);
    }
}

#[test]
fn page_cross_costs_a_cycle() {
    // LDX #$01; LDA $80FF,X (crosses into $8100)
    let mut cpu = cpu_with(&[0xA2, 0x01, 0xBD, 0xFF, 0x80, 0x00]);
    cpu.step().unwrap();
    let before = cpu.bus.cycles;
    cpu.step().unwrap();
    assert_eq!(cpu.bus.cycles - before, 5);
}

#[test]
fn taken_branch_moves_pc() {
    // LDA #$00; BEQ +2; LDA #$01; BRK at $8006
    let mut cpu = cpu_with(&[0xA9, 0x00, 0xF0, 0x02, 0xA9, 0x01, 0x00]);
    assert_eq!(cpu.run(100), Ok(true));
    assert_eq!(cpu.regs.a, 0x00);
    assert_eq!(cpu.regs.pc, 0x8007);
}

#[test]
fn jsr_and_rts_return() {
    // JSR $8006; LDY #$07; BRK; ...; $8006: LDX #$09; RTS
    let mut cpu = cpu_with(&[0x20, 0x06, 0x80, 0xA0, 0x07, 0x00, 0xA2, 0x09, 0x60]);
    assert_eq!(cpu.run(100), Ok(true));
    assert_eq!(cpu.regs.x, 0x09);
    assert_eq!(cpu.regs.y, 0x07);
    assert_eq!(cpu.regs.sp, 0xFD);
}

#[test]
fn stack_push_then_pop_round_trips() {
    let mut cpu = cpu_with(&[0x00]);
    let sp = cpu.regs.sp;
    cpu.stack_push(0x5A);
    assert_eq!(cpu.regs.sp, sp.wrapping_sub(1));
    assert_eq!(cpu.stack_pop(), 0x5A);
    assert_eq!(cpu.regs.sp, sp);
}

#[test]
fn stack_pointer_wraps() {
    let mut cpu = cpu_with(&[0x00]);
    cpu.regs.sp = 0x00;
    cpu.stack_push(0x11);
    assert_eq!(cpu.regs.sp, 0xFF);
    assert_eq!(cpu.bus.read(0x0100), 0x11);
    assert_eq!(cpu.stack_pop(), 0x11);
    assert_eq!(cpu.regs.sp, 0x00);
}

#[test]
fn write_to_rom_is_fatal() {
    // STA $8000
    let mut cpu = cpu_with(&[0x8D, 0x00, 0x80, 0x00]);
    assert_eq!(cpu.step(), Err(BusError::WriteToRom));
}

#[test]
fn decode_table_shapes() {
    let lda = get_instruction(0xA9);
    assert_eq!(lda.name, "LDA");
    assert_eq!(lda.bytes, 2);
    assert_eq!(lda.cycles, 2);
    let jmp = get_instruction(0x6C);
    assert_eq!(jmp.name, "JMP");
    assert_eq!(jmp.bytes, 3);
    for op in 0..=255u8 {
        let i = get_instruction(op);
        assert!(i.cycles >= 2 && (1..=3).contains(&i.bytes));
    }
}

#[test]
fn nmi_entry_pushes_state_and_jumps() {
    let mut image = image(&[0xEA, 0x00]);
    // NMI vector -> $8010
    image[16 + 0x7FFA] = 0x10;
    image[16 + 0x7FFB] = 0x80;
    let mut cpu = CPU::new(Bus::new(Cart::new(&image).unwrap()));
    cpu.reset();
    cpu.interrupt_nmi();
    assert_eq!(cpu.regs.pc, 0x8010);
    assert_eq!(cpu.regs.sp, 0xFA);
    assert_eq!(cpu.bus.read(0x01FD), 0x80);
    assert_eq!(cpu.bus.read(0x01FC), 0x00);
    assert_eq!(cpu.bus.read(0x01FB), 0b0010_0100);
    assert!(cpu.regs.p & 0b100 != 0);
}

#[test]
fn trace_line_layout() {
    let mut cpu = cpu_with(&[0xA9, 0x05, 0x4C, 0x00, 0x80]);
    let expected = format!("{:47} A:00 X:00 Y:00 P:24 SP:FD", "8000  A9 05     LDA #$05");
    assert_eq!(cpu.trace(), expected);
    cpu.step().unwrap();
    let expected = format!("{:47} A:05 X:00 Y:00 P:24 SP:FD", "8002  4C 00 80  JMP $8000");
    assert_eq!(cpu.trace(), expected);
}

#[test]
fn trace_zero_page_operand() {
    // STX $10 with $10 holding $33
    let mut cpu = cpu_with(&[0x86, 0x10, 0x00]);
    cpu.bus.write(0x10, 0x33);
    let expected = format!("{:47} A:00 X:00 Y:00 P:24 SP:FD", "8000  86 10     STX $10 = 33");
    assert_eq!(cpu.trace(), expected);
}

#[test]
fn trace_accumulator_shift_and_branch() {
    // ASL A; BNE -3
    let mut cpu = cpu_with(&[0x0A, 0xD0, 0xFD, 0x00]);
    let expected = format!("{:47} A:00 X:00 Y:00 P:24 SP:FD", "8000  0A        ASL A");
    assert_eq!(cpu.trace(), expected);
    cpu.step().unwrap();
    let expected = format!("{:47} A:00 X:00 Y:00 P:26 SP:FD", "8001  D0 FD     BNE $8000");
    assert_eq!(cpu.trace(), expected);
}

#[test]
fn trace_does_not_disturb_ppu_registers() {
    // LDA $2002
    let mut cpu = cpu_with(&[0xAD, 0x02, 0x20, 0x00]);
    cpu.bus.write(0x2006, 0x21);
    let _ = cpu.trace();
    assert!(!cpu.bus.ppu.addr.hi_ptr);
}
