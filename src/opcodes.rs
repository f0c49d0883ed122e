//! The opcode table: for each byte, its addressing mode, mnemonic, length
//! and base cycle count.
use vstd::prelude::*;
use crate::cpu::AddressingMode;

verus! {

/// One decoded opcode.
#[derive(Clone, Copy, Debug)]
pub struct Instruction {
    pub addr_mode: AddressingMode,
    pub name: &'static str,
    /// Length in bytes, opcode included.
    pub bytes: u8,
    /// Base cycle count, before page-crossing and branch penalties.
    pub cycles: u8,
}

/// Operand bytes that an addressing mode takes after the opcode.
pub open spec fn operand_len(mode: AddressingMode) -> u8 {
    match mode {
        AddressingMode::Absolute | AddressingMode::AbsoluteX | AddressingMode::AbsoluteY => 2,
        AddressingMode::NoneAddressing => 0,
        _ => 1,
    }
}

/// Addressing mode, length and base cycles of each opcode.
#[verifier::opaque]
pub open spec fn opcode_shape(op: u8) -> (AddressingMode, u8, u8) {
    match op {
        0x00u8 => (AddressingMode::NoneAddressing, 1u8, 7u8),
        0x01u8 => (AddressingMode::IndirectX, 2u8, 6u8),
        0x02u8 => (AddressingMode::NoneAddressing, 1u8, 2u8),
        0x03u8 => (AddressingMode::IndirectX, 2u8, 8u8),
        0x04u8 => (AddressingMode::ZeroPage, 2u8, 3u8),
        0x05u8 => (AddressingMode::ZeroPage, 2u8, 3u8),
        0x06u8 => (AddressingMode::ZeroPage, 2u8, 5u8),
        0x07u8 => (AddressingMode::ZeroPage, 2u8, 5u8),
        0x08u8 => (AddressingMode::NoneAddressing, 1u8, 3u8),
        0x09u8 => (AddressingMode::Immediate, 2u8, 2u8),
        0x0Au8 => (AddressingMode::NoneAddressing, 1u8, 2u8),
        0x0Bu8 => (AddressingMode::Immediate, 2u8, 2u8),
        0x0Cu8 => (AddressingMode::Absolute, 3u8, 4u8),
        0x0Du8 => (AddressingMode::Absolute, 3u8, 4u8),
        0x0Eu8 => (AddressingMode::Absolute, 3u8, 6u8),
        0x0Fu8 => (AddressingMode::Absolute, 3u8, 6u8),
        0x10u8 => (AddressingMode::NoneAddressing, 2u8, 2u8),
        0x11u8 => (AddressingMode::IndirectY, 2u8, 5u8),
        0x12u8 => (AddressingMode::NoneAddressing, 1u8, 2u8),
        0x13u8 => (AddressingMode::IndirectY, 2u8, 8u8),
        0x14u8 => (AddressingMode::ZeroPageX, 2u8, 4u8),
        0x15u8 => (AddressingMode::ZeroPageX, 2u8, 4u8),
        0x16u8 => (AddressingMode::ZeroPageX, 2u8, 6u8),
        0x17u8 => (AddressingMode::ZeroPageX, 2u8, 6u8),
        0x18u8 => (AddressingMode::NoneAddressing, 1u8, 2u8),
        0x19u8 => (AddressingMode::AbsoluteY, 3u8, 4u8),
        0x1Au8 => (AddressingMode::NoneAddressing, 1u8, 2u8),
        0x1Bu8 => (AddressingMode::AbsoluteY, 3u8, 7u8),
        0x1Cu8 => (AddressingMode::AbsoluteX, 3u8, 4u8),
        0x1Du8 => (AddressingMode::AbsoluteX, 3u8, 4u8),
        0x1Eu8 => (AddressingMode::AbsoluteX, 3u8, 7u8),
        0x1Fu8 => (AddressingMode::AbsoluteX, 3u8, 7u8),
        0x20u8 => (AddressingMode::Absolute, 3u8, 6u8),
        0x21u8 => (AddressingMode::IndirectX, 2u8, 6u8),
        0x22u8 => (AddressingMode::NoneAddressing, 1u8, 2u8),
        0x23u8 => (AddressingMode::IndirectX, 2u8, 8u8),
        0x24u8 => (AddressingMode::ZeroPage, 2u8, 3u8),
        0x25u8 => (AddressingMode::ZeroPage, 2u8, 3u8),
        0x26u8 => (AddressingMode::ZeroPage, 2u8, 5u8),
        0x27u8 => (AddressingMode::ZeroPage, 2u8, 5u8),
        0x28u8 => (AddressingMode::NoneAddressing, 1u8, 4u8),
        0x29u8 => (AddressingMode::Immediate, 2u8, 2u8),
        0x2Au8 => (AddressingMode::NoneAddressing, 1u8, 2u8),
        0x2Bu8 => (AddressingMode::Immediate, 2u8, 2u8),
        0x2Cu8 => (AddressingMode::Absolute, 3u8, 4u8),
        0x2Du8 => (AddressingMode::Absolute, 3u8, 4u8),
        0x2Eu8 => (AddressingMode::Absolute, 3u8, 6u8),
        0x2Fu8 => (AddressingMode::Absolute, 3u8, 6u8),
        0x30u8 => (AddressingMode::NoneAddressing, 2u8, 2u8),
        0x31u8 => (AddressingMode::IndirectY, 2u8, 5u8),
        0x32u8 => (AddressingMode::NoneAddressing, 1u8, 2u8),
        0x33u8 => (AddressingMode::IndirectY, 2u8, 8u8),
        0x34u8 => (AddressingMode::ZeroPageX, 2u8, 4u8),
        0x35u8 => (AddressingMode::ZeroPageX, 2u8, 4u8),
        0x36u8 => (AddressingMode::ZeroPageX, 2u8, 6u8),
        0x37u8 => (AddressingMode::ZeroPageX, 2u8, 6u8),
        0x38u8 => (AddressingMode::NoneAddressing, 1u8, 2u8),
        0x39u8 => (AddressingMode::AbsoluteY, 3u8, 4u8),
        0x3Au8 => (AddressingMode::NoneAddressing, 1u8, 2u8),
        0x3Bu8 => (AddressingMode::AbsoluteY, 3u8, 7u8),
        0x3Cu8 => (AddressingMode::AbsoluteX, 3u8, 4u8),
        0x3Du8 => (AddressingMode::AbsoluteX, 3u8, 4u8),
        0x3Eu8 => (AddressingMode::AbsoluteX, 3u8, 7u8),
        0x3Fu8 => (AddressingMode::AbsoluteX, 3u8, 7u8),
        0x40u8 => (AddressingMode::NoneAddressing, 1u8, 6u8),
        0x41u8 => (AddressingMode::IndirectX, 2u8, 6u8),
        0x42u8 => (AddressingMode::NoneAddressing, 1u8, 2u8),
        0x43u8 => (AddressingMode::IndirectX, 2u8, 8u8),
        0x44u8 => (AddressingMode::ZeroPage, 2u8, 3u8),
        0x45u8 => (AddressingMode::ZeroPage, 2u8, 3u8),
        0x46u8 => (AddressingMode::ZeroPage, 2u8, 5u8),
        0x47u8 => (AddressingMode::ZeroPage, 2u8, 5u8),
        0x48u8 => (AddressingMode::NoneAddressing, 1u8, 3u8),
        0x49u8 => (AddressingMode::Immediate, 2u8, 2u8),
        0x4Au8 => (AddressingMode::NoneAddressing, 1u8, 2u8),
        0x4Bu8 => (AddressingMode::Immediate, 2u8, 2u8),
        0x4Cu8 => (AddressingMode::Absolute, 3u8, 3u8),
        0x4Du8 => (AddressingMode::Absolute, 3u8, 4u8),
        0x4Eu8 => (AddressingMode::Absolute, 3u8, 6u8),
        0x4Fu8 => (AddressingMode::Absolute, 3u8, 6u8),
        0x50u8 => (AddressingMode::NoneAddressing, 2u8, 2u8),
        0x51u8 => (AddressingMode::IndirectY, 2u8, 5u8),
        0x52u8 => (AddressingMode::NoneAddressing, 1u8, 2u8),
        0x53u8 => (AddressingMode::IndirectY, 2u8, 8u8),
        0x54u8 => (AddressingMode::ZeroPageX, 2u8, 4u8),
        0x55u8 => (AddressingMode::ZeroPageX, 2u8, 4u8),
        0x56u8 => (AddressingMode::ZeroPageX, 2u8, 6u8),
        0x57u8 => (AddressingMode::ZeroPageX, 2u8, 6u8),
        0x58u8 => (AddressingMode::NoneAddressing, 1u8, 2u8),
        0x59u8 => (AddressingMode::AbsoluteY, 3u8, 4u8),
        0x5Au8 => (AddressingMode::NoneAddressing, 1u8, 2u8),
        0x5Bu8 => (AddressingMode::AbsoluteY, 3u8, 7u8),
        0x5Cu8 => (AddressingMode::AbsoluteX, 3u8, 4u8),
        0x5Du8 => (AddressingMode::AbsoluteX, 3u8, 4u8),
        0x5Eu8 => (AddressingMode::AbsoluteX, 3u8, 7u8),
        0x5Fu8 => (AddressingMode::AbsoluteX, 3u8, 7u8),
        0x60u8 => (AddressingMode::NoneAddressing, 1u8, 6u8),
        0x61u8 => (AddressingMode::IndirectX, 2u8, 6u8),
        0x62u8 => (AddressingMode::NoneAddressing, 1u8, 2u8),
        0x63u8 => (AddressingMode::IndirectX, 2u8, 8u8),
        0x64u8 => (AddressingMode::ZeroPage, 2u8, 3u8),
        0x65u8 => (AddressingMode::ZeroPage, 2u8, 3u8),
        0x66u8 => (AddressingMode::ZeroPage, 2u8, 5u8),
        0x67u8 => (AddressingMode::ZeroPage, 2u8, 5u8),
        0x68u8 => (AddressingMode::NoneAddressing, 1u8, 4u8),
        0x69u8 => (AddressingMode::Immediate, 2u8, 2u8),
        0x6Au8 => (AddressingMode::NoneAddressing, 1u8, 2u8),
        0x6Bu8 => (AddressingMode::Immediate, 2u8, 2u8),
        0x6Cu8 => (AddressingMode::NoneAddressing, 3u8, 5u8),
        0x6Du8 => (AddressingMode::Absolute, 3u8, 4u8),
        0x6Eu8 => (AddressingMode::Absolute, 3u8, 6u8),
        0x6Fu8 => (AddressingMode::Absolute, 3u8, 6u8),
        0x70u8 => (AddressingMode::NoneAddressing, 2u8, 2u8),
        0x71u8 => (AddressingMode::IndirectY, 2u8, 5u8),
        0x72u8 => (AddressingMode::NoneAddressing, 1u8, 2u8),
        0x73u8 => (AddressingMode::IndirectY, 2u8, 8u8),
        0x74u8 => (AddressingMode::ZeroPageX, 2u8, 4u8),
        0x75u8 => (AddressingMode::ZeroPageX, 2u8, 4u8),
        0x76u8 => (AddressingMode::ZeroPageX, 2u8, 6u8),
        0x77u8 => (AddressingMode::ZeroPageX, 2u8, 6u8),
        0x78u8 => (AddressingMode::NoneAddressing, 1u8, 2u8),
        0x79u8 => (AddressingMode::AbsoluteY, 3u8, 4u8),
        0x7Au8 => (AddressingMode::NoneAddressing, 1u8, 2u8),
        0x7Bu8 => (AddressingMode::AbsoluteY, 3u8, 7u8),
        0x7Cu8 => (AddressingMode::AbsoluteX, 3u8, 4u8),
        0x7Du8 => (AddressingMode::AbsoluteX, 3u8, 4u8),
        0x7Eu8 => (AddressingMode::AbsoluteX, 3u8, 7u8),
        0x7Fu8 => (AddressingMode::AbsoluteX, 3u8, 7u8),
        0x80u8 => (AddressingMode::Immediate, 2u8, 2u8),
        0x81u8 => (AddressingMode::IndirectX, 2u8, 6u8),
        0x82u8 => (AddressingMode::Immediate, 2u8, 2u8),
        0x83u8 => (AddressingMode::IndirectX, 2u8, 6u8),
        0x84u8 => (AddressingMode::ZeroPage, 2u8, 3u8),
        0x85u8 => (AddressingMode::ZeroPage, 2u8, 3u8),
        0x86u8 => (AddressingMode::ZeroPage, 2u8, 3u8),
        0x87u8 => (AddressingMode::ZeroPage, 2u8, 3u8),
        0x88u8 => (AddressingMode::NoneAddressing, 1u8, 2u8),
        0x89u8 => (AddressingMode::Immediate, 2u8, 2u8),
        0x8Au8 => (AddressingMode::NoneAddressing, 1u8, 2u8),
        0x8Bu8 => (AddressingMode::Immediate, 2u8, 3u8),
        0x8Cu8 => (AddressingMode::Absolute, 3u8, 4u8),
        0x8Du8 => (AddressingMode::Absolute, 3u8, 4u8),
        0x8Eu8 => (AddressingMode::Absolute, 3u8, 4u8),
        0x8Fu8 => (AddressingMode::Absolute, 3u8, 4u8),
        0x90u8 => (AddressingMode::NoneAddressing, 2u8, 2u8),
        0x91u8 => (AddressingMode::IndirectY, 2u8, 6u8),
        0x92u8 => (AddressingMode::NoneAddressing, 1u8, 2u8),
        0x93u8 => (AddressingMode::IndirectY, 2u8, 8u8),
        0x94u8 => (AddressingMode::ZeroPageX, 2u8, 4u8),
        0x95u8 => (AddressingMode::ZeroPageX, 2u8, 4u8),
        0x96u8 => (AddressingMode::ZeroPageY, 2u8, 4u8),
        0x97u8 => (AddressingMode::ZeroPageY, 2u8, 4u8),
        0x98u8 => (AddressingMode::NoneAddressing, 1u8, 2u8),
        0x99u8 => (AddressingMode::AbsoluteY, 3u8, 5u8),
        0x9Au8 => (AddressingMode::NoneAddressing, 1u8, 2u8),
        0x9Bu8 => (AddressingMode::AbsoluteY, 3u8, 2u8),
        0x9Cu8 => (AddressingMode::AbsoluteX, 3u8, 4u8),
        0x9Du8 => (AddressingMode::AbsoluteX, 3u8, 5u8),
        0x9Eu8 => (AddressingMode::AbsoluteY, 3u8, 4u8),
        0x9Fu8 => (AddressingMode::AbsoluteY, 3u8, 4u8),
        0xA0u8 => (AddressingMode::Immediate, 2u8, 2u8),
        0xA1u8 => (AddressingMode::IndirectX, 2u8, 6u8),
        0xA2u8 => (AddressingMode::Immediate, 2u8, 2u8),
        0xA3u8 => (AddressingMode::IndirectX, 2u8, 6u8),
        0xA4u8 => (AddressingMode::ZeroPage, 2u8, 3u8),
        0xA5u8 => (AddressingMode::ZeroPage, 2u8, 3u8),
        0xA6u8 => (AddressingMode::ZeroPage, 2u8, 3u8),
        0xA7u8 => (AddressingMode::ZeroPage, 2u8, 3u8),
        0xA8u8 => (AddressingMode::NoneAddressing, 1u8, 2u8),
        0xA9u8 => (AddressingMode::Immediate, 2u8, 2u8),
        0xAAu8 => (AddressingMode::NoneAddressing, 1u8, 2u8),
        0xABu8 => (AddressingMode::Immediate, 2u8, 3u8),
        0xACu8 => (AddressingMode::Absolute, 3u8, 4u8),
        0xADu8 => (AddressingMode::Absolute, 3u8, 4u8),
        0xAEu8 => (AddressingMode::Absolute, 3u8, 4u8),
        0xAFu8 => (AddressingMode::Absolute, 3u8, 4u8),
        0xB0u8 => (AddressingMode::NoneAddressing, 2u8, 2u8),
        0xB1u8 => (AddressingMode::IndirectY, 2u8, 5u8),
        0xB2u8 => (AddressingMode::NoneAddressing, 1u8, 2u8),
        0xB3u8 => (AddressingMode::IndirectY, 2u8, 5u8),
        0xB4u8 => (AddressingMode::ZeroPageX, 2u8, 4u8),
        0xB5u8 => (AddressingMode::ZeroPageX, 2u8, 4u8),
        0xB6u8 => (AddressingMode::ZeroPageY, 2u8, 4u8),
        0xB7u8 => (AddressingMode::ZeroPageY, 2u8, 4u8),
        0xB8u8 => (AddressingMode::NoneAddressing, 1u8, 2u8),
        0xB9u8 => (AddressingMode::AbsoluteY, 3u8, 4u8),
        0xBAu8 => (AddressingMode::NoneAddressing, 1u8, 2u8),
        0xBBu8 => (AddressingMode::AbsoluteY, 3u8, 2u8),
        0xBCu8 => (AddressingMode::AbsoluteX, 3u8, 4u8),
        0xBDu8 => (AddressingMode::AbsoluteX, 3u8, 4u8),
        0xBEu8 => (AddressingMode::AbsoluteY, 3u8, 4u8),
        0xBFu8 => (AddressingMode::AbsoluteY, 3u8, 4u8),
        0xC0u8 => (AddressingMode::Immediate, 2u8, 2u8),
        0xC1u8 => (AddressingMode::IndirectX, 2u8, 6u8),
        0xC2u8 => (AddressingMode::Immediate, 2u8, 2u8),
        0xC3u8 => (AddressingMode::IndirectX, 2u8, 8u8),
        0xC4u8 => (AddressingMode::ZeroPage, 2u8, 3u8),
        0xC5u8 => (AddressingMode::ZeroPage, 2u8, 3u8),
        0xC6u8 => (AddressingMode::ZeroPage, 2u8, 5u8),
        0xC7u8 => (AddressingMode::ZeroPage, 2u8, 5u8),
        0xC8u8 => (AddressingMode::NoneAddressing, 1u8, 2u8),
        0xC9u8 => (AddressingMode::Immediate, 2u8, 2u8),
        0xCAu8 => (AddressingMode::NoneAddressing, 1u8, 2u8),
        0xCBu8 => (AddressingMode::Immediate, 2u8, 2u8),
        0xCCu8 => (AddressingMode::Absolute, 3u8, 4u8),
        0xCDu8 => (AddressingMode::Absolute, 3u8, 4u8),
        0xCEu8 => (AddressingMode::Absolute, 3u8, 6u8),
        0xCFu8 => (AddressingMode::Absolute, 3u8, 6u8),
        0xD0u8 => (AddressingMode::NoneAddressing, 2u8, 2u8),
        0xD1u8 => (AddressingMode::IndirectY, 2u8, 5u8),
        0xD2u8 => (AddressingMode::NoneAddressing, 1u8, 2u8),
        0xD3u8 => (AddressingMode::IndirectY, 2u8, 8u8),
        0xD4u8 => (AddressingMode::ZeroPageX, 2u8, 4u8),
        0xD5u8 => (AddressingMode::ZeroPageX, 2u8, 4u8),
        0xD6u8 => (AddressingMode::ZeroPageX, 2u8, 6u8),
        0xD7u8 => (AddressingMode::ZeroPageX, 2u8, 6u8),
        0xD8u8 => (AddressingMode::NoneAddressing, 1u8, 2u8),
        0xD9u8 => (AddressingMode::AbsoluteY, 3u8, 4u8),
        0xDAu8 => (AddressingMode::NoneAddressing, 1u8, 2u8),
        0xDBu8 => (AddressingMode::AbsoluteY, 3u8, 7u8),
        0xDCu8 => (AddressingMode::AbsoluteX, 3u8, 4u8),
        0xDDu8 => (AddressingMode::AbsoluteX, 3u8, 4u8),
        0xDEu8 => (AddressingMode::AbsoluteX, 3u8, 7u8),
        0xDFu8 => (AddressingMode::AbsoluteX, 3u8, 7u8),
        0xE0u8 => (AddressingMode::Immediate, 2u8, 2u8),
        0xE1u8 => (AddressingMode::IndirectX, 2u8, 6u8),
        0xE2u8 => (AddressingMode::Immediate, 2u8, 2u8),
        0xE3u8 => (AddressingMode::IndirectX, 2u8, 8u8),
        0xE4u8 => (AddressingMode::ZeroPage, 2u8, 3u8),
        0xE5u8 => (AddressingMode::ZeroPage, 2u8, 3u8),
        0xE6u8 => (AddressingMode::ZeroPage, 2u8, 5u8),
        0xE7u8 => (AddressingMode::ZeroPage, 2u8, 5u8),
        0xE8u8 => (AddressingMode::NoneAddressing, 1u8, 2u8),
        0xE9u8 => (AddressingMode::Immediate, 2u8, 2u8),
        0xEAu8 => (AddressingMode::NoneAddressing, 1u8, 2u8),
        0xEBu8 => (AddressingMode::Immediate, 2u8, 2u8),
        0xECu8 => (AddressingMode::Absolute, 3u8, 4u8),
        0xEDu8 => (AddressingMode::Absolute, 3u8, 4u8),
        0xEEu8 => (AddressingMode::Absolute, 3u8, 6u8),
        0xEFu8 => (AddressingMode::Absolute, 3u8, 6u8),
        0xF0u8 => (AddressingMode::NoneAddressing, 2u8, 2u8),
        0xF1u8 => (AddressingMode::IndirectY, 2u8, 5u8),
        0xF2u8 => (AddressingMode::NoneAddressing, 1u8, 2u8),
        0xF3u8 => (AddressingMode::IndirectY, 2u8, 8u8),
        0xF4u8 => (AddressingMode::ZeroPageX, 2u8, 4u8),
        0xF5u8 => (AddressingMode::ZeroPageX, 2u8, 4u8),
        0xF6u8 => (AddressingMode::ZeroPageX, 2u8, 6u8),
        0xF7u8 => (AddressingMode::ZeroPageX, 2u8, 6u8),
        0xF8u8 => (AddressingMode::NoneAddressing, 1u8, 2u8),
        0xF9u8 => (AddressingMode::AbsoluteY, 3u8, 4u8),
        0xFAu8 => (AddressingMode::NoneAddressing, 1u8, 2u8),
        0xFBu8 => (AddressingMode::AbsoluteY, 3u8, 7u8),
        0xFCu8 => (AddressingMode::AbsoluteX, 3u8, 4u8),
        0xFDu8 => (AddressingMode::AbsoluteX, 3u8, 4u8),
        0xFEu8 => (AddressingMode::AbsoluteX, 3u8, 7u8),
        0xFFu8 => (AddressingMode::AbsoluteX, 3u8, 7u8),
    }
}

/// The mnemonic of each opcode, as traces print it.
#[verifier::opaque]
pub open spec fn opcode_name(op: u8) -> &'static str {
    match op {
        0x00u8 => "BRK",
        0x01u8 => "ORA",
        0x02u8 => "*NOP",
        0x03u8 => "*SLO",
        0x04u8 => "*NOP",
        0x05u8 => "ORA",
        0x06u8 => "ASL",
        0x07u8 => "*SLO",
        0x08u8 => "PHP",
        0x09u8 => "ORA",
        0x0Au8 => "ASL",
        0x0Bu8 => "*ANC",
        0x0Cu8 => "*NOP",
        0x0Du8 => "ORA",
        0x0Eu8 => "ASL",
        0x0Fu8 => "*SLO",
        0x10u8 => "BPL",
        0x11u8 => "ORA",
        0x12u8 => "*NOP",
        0x13u8 => "*SLO",
        0x14u8 => "*NOP",
        0x15u8 => "ORA",
        0x16u8 => "ASL",
        0x17u8 => "*SLO",
        0x18u8 => "CLC",
        0x19u8 => "ORA",
        0x1Au8 => "*NOP",
        0x1Bu8 => "*SLO",
        0x1Cu8 => "*NOP",
        0x1Du8 => "ORA",
        0x1Eu8 => "ASL",
        0x1Fu8 => "*SLO",
        0x20u8 => "JSR",
        0x21u8 => "AND",
        0x22u8 => "*NOP",
        0x23u8 => "*RLA",
        0x24u8 => "BIT",
        0x25u8 => "AND",
        0x26u8 => "ROL",
        0x27u8 => "*RLA",
        0x28u8 => "PLP",
        0x29u8 => "AND",
        0x2Au8 => "ROL",
        0x2Bu8 => "*ANC",
        0x2Cu8 => "BIT",
        0x2Du8 => "AND",
        0x2Eu8 => "ROL",
        0x2Fu8 => "*RLA",
        0x30u8 => "BMI",
        0x31u8 => "AND",
        0x32u8 => "*NOP",
        0x33u8 => "*RLA",
        0x34u8 => "*NOP",
        0x35u8 => "AND",
        0x36u8 => "ROL",
        0x37u8 => "*RLA",
        0x38u8 => "SEC",
        0x39u8 => "AND",
        0x3Au8 => "*NOP",
        0x3Bu8 => "*RLA",
        0x3Cu8 => "*NOP",
        0x3Du8 => "AND",
        0x3Eu8 => "ROL",
        0x3Fu8 => "*RLA",
        0x40u8 => "RTI",
        0x41u8 => "EOR",
        0x42u8 => "*NOP",
        0x43u8 => "*SRE",
        0x44u8 => "*NOP",
        0x45u8 => "EOR",
        0x46u8 => "LSR",
        0x47u8 => "*SRE",
        0x48u8 => "PHA",
        0x49u8 => "EOR",
        0x4Au8 => "LSR",
        0x4Bu8 => "*ALR",
        0x4Cu8 => "JMP",
        0x4Du8 => "EOR",
        0x4Eu8 => "LSR",
        0x4Fu8 => "*SRE",
        0x50u8 => "BVC",
        0x51u8 => "EOR",
        0x52u8 => "*NOP",
        0x53u8 => "*SRE",
        0x54u8 => "*NOP",
        0x55u8 => "EOR",
        0x56u8 => "LSR",
        0x57u8 => "*SRE",
        0x58u8 => "CLI",
        0x59u8 => "EOR",
        0x5Au8 => "*NOP",
        0x5Bu8 => "*SRE",
        0x5Cu8 => "*NOP",
        0x5Du8 => "EOR",
        0x5Eu8 => "LSR",
        0x5Fu8 => "*SRE",
        0x60u8 => "RTS",
        0x61u8 => "ADC",
        0x62u8 => "*NOP",
        0x63u8 => "*RRA",
        0x64u8 => "*NOP",
        0x65u8 => "ADC",
        0x66u8 => "ROR",
        0x67u8 => "*RRA",
        0x68u8 => "PLA",
        0x69u8 => "ADC",
        0x6Au8 => "ROR",
        0x6Bu8 => "*ARR",
        0x6Cu8 => "JMP",
        0x6Du8 => "ADC",
        0x6Eu8 => "ROR",
        0x6Fu8 => "*RRA",
        0x70u8 => "BVS",
        0x71u8 => "ADC",
        0x72u8 => "*NOP",
        0x73u8 => "*RRA",
        0x74u8 => "*NOP",
        0x75u8 => "ADC",
        0x76u8 => "ROR",
        0x77u8 => "*RRA",
        0x78u8 => "SEI",
        0x79u8 => "ADC",
        0x7Au8 => "*NOP",
        0x7Bu8 => "*RRA",
        0x7Cu8 => "*NOP",
        0x7Du8 => "ADC",
        0x7Eu8 => "ROR",
        0x7Fu8 => "*RRA",
        0x80u8 => "*NOP",
        0x81u8 => "STA",
        0x82u8 => "*NOP",
        0x83u8 => "*SAX",
        0x84u8 => "STY",
        0x85u8 => "STA",
        0x86u8 => "STX",
        0x87u8 => "*SAX",
        0x88u8 => "DEY",
        0x89u8 => "*NOP",
        0x8Au8 => "TXA",
        0x8Bu8 => "*XAA",
        0x8Cu8 => "STY",
        0x8Du8 => "STA",
        0x8Eu8 => "STX",
        0x8Fu8 => "*SAX",
        0x90u8 => "BCC",
        0x91u8 => "STA",
        0x92u8 => "*NOP",
        0x93u8 => "*AHX",
        0x94u8 => "STY",
        0x95u8 => "STA",
        0x96u8 => "STX",
        0x97u8 => "*SAX",
        0x98u8 => "TYA",
        0x99u8 => "STA",
        0x9Au8 => "TXS",
        0x9Bu8 => "*TAS",
        0x9Cu8 => "*SHY",
        0x9Du8 => "STA",
        0x9Eu8 => "*SHX",
        0x9Fu8 => "*AHX",
        0xA0u8 => "LDY",
        0xA1u8 => "LDA",
        0xA2u8 => "LDX",
        0xA3u8 => "*LAX",
        0xA4u8 => "LDY",
        0xA5u8 => "LDA",
        0xA6u8 => "LDX",
        0xA7u8 => "*LAX",
        0xA8u8 => "TAY",
        0xA9u8 => "LDA",
        0xAAu8 => "TAX",
        0xABu8 => "*LXA",
        0xACu8 => "LDY",
        0xADu8 => "LDA",
        0xAEu8 => "LDX",
        0xAFu8 => "*LAX",
        0xB0u8 => "BCS",
        0xB1u8 => "LDA",
        0xB2u8 => "*NOP",
        0xB3u8 => "*LAX",
        0xB4u8 => "LDY",
        0xB5u8 => "LDA",
        0xB6u8 => "LDX",
        0xB7u8 => "*LAX",
        0xB8u8 => "CLV",
        0xB9u8 => "LDA",
        0xBAu8 => "TSX",
        0xBBu8 => "*LAS",
        0xBCu8 => "LDY",
        0xBDu8 => "LDA",
        0xBEu8 => "LDX",
        0xBFu8 => "*LAX",
        0xC0u8 => "CPY",
        0xC1u8 => "CMP",
        0xC2u8 => "*NOP",
        0xC3u8 => "*DCP",
        0xC4u8 => "CPY",
        0xC5u8 => "CMP",
        0xC6u8 => "DEC",
        0xC7u8 => "*DCP",
        0xC8u8 => "INY",
        0xC9u8 => "CMP",
        0xCAu8 => "DEX",
        0xCBu8 => "*AXS",
        0xCCu8 => "CPY",
        0xCDu8 => "CMP",
        0xCEu8 => "DEC",
        0xCFu8 => "*DCP",
        0xD0u8 => "BNE",
        0xD1u8 => "CMP",
        0xD2u8 => "*NOP",
        0xD3u8 => "*DCP",
        0xD4u8 => "*NOP",
        0xD5u8 => "CMP",
        0xD6u8 => "DEC",
        0xD7u8 => "*DCP",
        0xD8u8 => "CLD",
        0xD9u8 => "CMP",
        0xDAu8 => "*NOP",
        0xDBu8 => "*DCP",
        0xDCu8 => "*NOP",
        0xDDu8 => "CMP",
        0xDEu8 => "DEC",
        0xDFu8 => "*DCP",
        0xE0u8 => "CPX",
        0xE1u8 => "SBC",
        0xE2u8 => "*NOP",
        0xE3u8 => "*ISB",
        0xE4u8 => "CPX",
        0xE5u8 => "SBC",
        0xE6u8 => "INC",
        0xE7u8 => "*ISB",
        0xE8u8 => "INX",
        0xE9u8 => "SBC",
        0xEAu8 => "NOP",
        0xEBu8 => "*SBC",
        0xECu8 => "CPX",
        0xEDu8 => "SBC",
        0xEEu8 => "INC",
        0xEFu8 => "*ISB",
        0xF0u8 => "BEQ",
        0xF1u8 => "SBC",
        0xF2u8 => "*NOP",
        0xF3u8 => "*ISB",
        0xF4u8 => "*NOP",
        0xF5u8 => "SBC",
        0xF6u8 => "INC",
        0xF7u8 => "*ISB",
        0xF8u8 => "SED",
        0xF9u8 => "SBC",
        0xFAu8 => "*NOP",
        0xFBu8 => "*ISB",
        0xFCu8 => "*NOP",
        0xFDu8 => "SBC",
        0xFEu8 => "INC",
        0xFFu8 => "*ISB",
    }
}

fn instr(addr_mode: AddressingMode, name: &'static str, bytes: u8, cycles: u8) -> (r: Instruction)
    ensures
        r.addr_mode == addr_mode && r.name == name && r.bytes == bytes && r.cycles == cycles,
{
    Instruction { addr_mode, name, bytes, cycles }
}

/// Opcodes $00-$0F.
fn decode_row_0(opcode: u8) -> (r: Instruction)
    requires
        0x00 <= opcode <= 0x0F,
    ensures
        (r.addr_mode, r.bytes, r.cycles) == opcode_shape(opcode),
        r.name == opcode_name(opcode),
        1 <= r.bytes <= 3,
        2 <= r.cycles <= 8,
        r.addr_mode != AddressingMode::NoneAddressing ==> r.bytes == 1 + operand_len(r.addr_mode),
{
    reveal(opcode_shape);
    reveal(opcode_name);
    match opcode {
        0x00 => instr(AddressingMode::NoneAddressing, "BRK", 1, 7),
        0x01 => instr(AddressingMode::IndirectX, "ORA", 2, 6),
        0x02 => instr(AddressingMode::NoneAddressing, "*NOP", 1, 2),
        0x03 => instr(AddressingMode::IndirectX, "*SLO", 2, 8),
        0x04 => instr(AddressingMode::ZeroPage, "*NOP", 2, 3),
        0x05 => instr(AddressingMode::ZeroPage, "ORA", 2, 3),
        0x06 => instr(AddressingMode::ZeroPage, "ASL", 2, 5),
        0x07 => instr(AddressingMode::ZeroPage, "*SLO", 2, 5),
        0x08 => instr(AddressingMode::NoneAddressing, "PHP", 1, 3),
        0x09 => instr(AddressingMode::Immediate, "ORA", 2, 2),
        0x0A => instr(AddressingMode::NoneAddressing, "ASL", 1, 2),
        0x0B => instr(AddressingMode::Immediate, "*ANC", 2, 2),
        0x0C => instr(AddressingMode::Absolute, "*NOP", 3, 4),
        0x0D => instr(AddressingMode::Absolute, "ORA", 3, 4),
        0x0E => instr(AddressingMode::Absolute, "ASL", 3, 6),
        _ => instr(AddressingMode::Absolute, "*SLO", 3, 6),
    }
}

/// Opcodes $10-$1F.
fn decode_row_1(opcode: u8) -> (r: Instruction)
    requires
        0x10 <= opcode <= 0x1F,
    ensures
        (r.addr_mode, r.bytes, r.cycles) == opcode_shape(opcode),
        r.name == opcode_name(opcode),
        1 <= r.bytes <= 3,
        2 <= r.cycles <= 8,
        r.addr_mode != AddressingMode::NoneAddressing ==> r.bytes == 1 + operand_len(r.addr_mode),
{
    reveal(opcode_shape);
    reveal(opcode_name);
    match opcode {
        0x10 => instr(AddressingMode::NoneAddressing, "BPL", 2, 2),
        0x11 => instr(AddressingMode::IndirectY, "ORA", 2, 5),
        0x12 => instr(AddressingMode::NoneAddressing, "*NOP", 1, 2),
        0x13 => instr(AddressingMode::IndirectY, "*SLO", 2, 8),
        0x14 => instr(AddressingMode::ZeroPageX, "*NOP", 2, 4),
        0x15 => instr(AddressingMode::ZeroPageX, "ORA", 2, 4),
        0x16 => instr(AddressingMode::ZeroPageX, "ASL", 2, 6),
        0x17 => instr(AddressingMode::ZeroPageX, "*SLO", 2, 6),
        0x18 => instr(AddressingMode::NoneAddressing, "CLC", 1, 2),
        0x19 => instr(AddressingMode::AbsoluteY, "ORA", 3, 4),
        0x1A => instr(AddressingMode::NoneAddressing, "*NOP", 1, 2),
        0x1B => instr(AddressingMode::AbsoluteY, "*SLO", 3, 7),
        0x1C => instr(AddressingMode::AbsoluteX, "*NOP", 3, 4),
        0x1D => instr(AddressingMode::AbsoluteX, "ORA", 3, 4),
        0x1E => instr(AddressingMode::AbsoluteX, "ASL", 3, 7),
        _ => instr(AddressingMode::AbsoluteX, "*SLO", 3, 7),
    }
}

/// Opcodes $20-$2F.
fn decode_row_2(opcode: u8) -> (r: Instruction)
    requires
        0x20 <= opcode <= 0x2F,
    ensures
        (r.addr_mode, r.bytes, r.cycles) == opcode_shape(opcode),
        r.name == opcode_name(opcode),
        1 <= r.bytes <= 3,
        2 <= r.cycles <= 8,
        r.addr_mode != AddressingMode::NoneAddressing ==> r.bytes == 1 + operand_len(r.addr_mode),
{
    reveal(opcode_shape);
    reveal(opcode_name);
    match opcode {
        0x20 => instr(AddressingMode::Absolute, "JSR", 3, 6),
        0x21 => instr(AddressingMode::IndirectX, "AND", 2, 6),
        0x22 => instr(AddressingMode::NoneAddressing, "*NOP", 1, 2),
        0x23 => instr(AddressingMode::IndirectX, "*RLA", 2, 8),
        0x24 => instr(AddressingMode::ZeroPage, "BIT", 2, 3),
        0x25 => instr(AddressingMode::ZeroPage, "AND", 2, 3),
        0x26 => instr(AddressingMode::ZeroPage, "ROL", 2, 5),
        0x27 => instr(AddressingMode::ZeroPage, "*RLA", 2, 5),
        0x28 => instr(AddressingMode::NoneAddressing, "PLP", 1, 4),
        0x29 => instr(AddressingMode::Immediate, "AND", 2, 2),
        0x2A => instr(AddressingMode::NoneAddressing, "ROL", 1, 2),
        0x2B => instr(AddressingMode::Immediate, "*ANC", 2, 2),
        0x2C => instr(AddressingMode::Absolute, "BIT", 3, 4),
        0x2D => instr(AddressingMode::Absolute, "AND", 3, 4),
        0x2E => instr(AddressingMode::Absolute, "ROL", 3, 6),
        _ => instr(AddressingMode::Absolute, "*RLA", 3, 6),
    }
}

/// Opcodes $30-$3F.
fn decode_row_3(opcode: u8) -> (r: Instruction)
    requires
        0x30 <= opcode <= 0x3F,
    ensures
        (r.addr_mode, r.bytes, r.cycles) == opcode_shape(opcode),
        r.name == opcode_name(opcode),
        1 <= r.bytes <= 3,
        2 <= r.cycles <= 8,
        r.addr_mode != AddressingMode::NoneAddressing ==> r.bytes == 1 + operand_len(r.addr_mode),
{
    reveal(opcode_shape);
    reveal(opcode_name);
    match opcode {
        0x30 => instr(AddressingMode::NoneAddressing, "BMI", 2, 2),
        0x31 => instr(AddressingMode::IndirectY, "AND", 2, 5),
        0x32 => instr(AddressingMode::NoneAddressing, "*NOP", 1, 2),
        0x33 => instr(AddressingMode::IndirectY, "*RLA", 2, 8),
        0x34 => instr(AddressingMode::ZeroPageX, "*NOP", 2, 4),
        0x35 => instr(AddressingMode::ZeroPageX, "AND", 2, 4),
        0x36 => instr(AddressingMode::ZeroPageX, "ROL", 2, 6),
        0x37 => instr(AddressingMode::ZeroPageX, "*RLA", 2, 6),
        0x38 => instr(AddressingMode::NoneAddressing, "SEC", 1, 2),
        0x39 => instr(AddressingMode::AbsoluteY, "AND", 3, 4),
        0x3A => instr(AddressingMode::NoneAddressing, "*NOP", 1, 2),
        0x3B => instr(AddressingMode::AbsoluteY, "*RLA", 3, 7),
        0x3C => instr(AddressingMode::AbsoluteX, "*NOP", 3, 4),
        0x3D => instr(AddressingMode::AbsoluteX, "AND", 3, 4),
        0x3E => instr(AddressingMode::AbsoluteX, "ROL", 3, 7),
        _ => instr(AddressingMode::AbsoluteX, "*RLA", 3, 7),
    }
}

/// Opcodes $40-$4F.
fn decode_row_4(opcode: u8) -> (r: Instruction)
    requires
        0x40 <= opcode <= 0x4F,
    ensures
        (r.addr_mode, r.bytes, r.cycles) == opcode_shape(opcode),
        r.name == opcode_name(opcode),
        1 <= r.bytes <= 3,
        2 <= r.cycles <= 8,
        r.addr_mode != AddressingMode::NoneAddressing ==> r.bytes == 1 + operand_len(r.addr_mode),
{
    reveal(opcode_shape);
    reveal(opcode_name);
    match opcode {
        0x40 => instr(AddressingMode::NoneAddressing, "RTI", 1, 6),
        0x41 => instr(AddressingMode::IndirectX, "EOR", 2, 6),
        0x42 => instr(AddressingMode::NoneAddressing, "*NOP", 1, 2),
        0x43 => instr(AddressingMode::IndirectX, "*SRE", 2, 8),
        0x44 => instr(AddressingMode::ZeroPage, "*NOP", 2, 3),
        0x45 => instr(AddressingMode::ZeroPage, "EOR", 2, 3),
        0x46 => instr(AddressingMode::ZeroPage, "LSR", 2, 5),
        0x47 => instr(AddressingMode::ZeroPage, "*SRE", 2, 5),
        0x48 => instr(AddressingMode::NoneAddressing, "PHA", 1, 3),
        0x49 => instr(AddressingMode::Immediate, "EOR", 2, 2),
        0x4A => instr(AddressingMode::NoneAddressing, "LSR", 1, 2),
        0x4B => instr(AddressingMode::Immediate, "*ALR", 2, 2),
        0x4C => instr(AddressingMode::Absolute, "JMP", 3, 3),
        0x4D => instr(AddressingMode::Absolute, "EOR", 3, 4),
        0x4E => instr(AddressingMode::Absolute, "LSR", 3, 6),
        _ => instr(AddressingMode::Absolute, "*SRE", 3, 6),
    }
}

/// Opcodes $50-$5F.
fn decode_row_5(opcode: u8) -> (r: Instruction)
    requires
        0x50 <= opcode <= 0x5F,
    ensures
        (r.addr_mode, r.bytes, r.cycles) == opcode_shape(opcode),
        r.name == opcode_name(opcode),
        1 <= r.bytes <= 3,
        2 <= r.cycles <= 8,
        r.addr_mode != AddressingMode::NoneAddressing ==> r.bytes == 1 + operand_len(r.addr_mode),
{
    reveal(opcode_shape);
    reveal(opcode_name);
    match opcode {
        0x50 => instr(AddressingMode::NoneAddressing, "BVC", 2, 2),
        0x51 => instr(AddressingMode::IndirectY, "EOR", 2, 5),
        0x52 => instr(AddressingMode::NoneAddressing, "*NOP", 1, 2),
        0x53 => instr(AddressingMode::IndirectY, "*SRE", 2, 8),
        0x54 => instr(AddressingMode::ZeroPageX, "*NOP", 2, 4),
        0x55 => instr(AddressingMode::ZeroPageX, "EOR", 2, 4),
        0x56 => instr(AddressingMode::ZeroPageX, "LSR", 2, 6),
        0x57 => instr(AddressingMode::ZeroPageX, "*SRE", 2, 6),
        0x58 => instr(AddressingMode::NoneAddressing, "CLI", 1, 2),
        0x59 => instr(AddressingMode::AbsoluteY, "EOR", 3, 4),
        0x5A => instr(AddressingMode::NoneAddressing, "*NOP", 1, 2),
        0x5B => instr(AddressingMode::AbsoluteY, "*SRE", 3, 7),
        0x5C => instr(AddressingMode::AbsoluteX, "*NOP", 3, 4),
        0x5D => instr(AddressingMode::AbsoluteX, "EOR", 3, 4),
        0x5E => instr(AddressingMode::AbsoluteX, "LSR", 3, 7),
        _ => instr(AddressingMode::AbsoluteX, "*SRE", 3, 7),
    }
}

/// Opcodes $60-$6F.
fn decode_row_6(opcode: u8) -> (r: Instruction)
    requires
        0x60 <= opcode <= 0x6F,
    ensures
        (r.addr_mode, r.bytes, r.cycles) == opcode_shape(opcode),
        r.name == opcode_name(opcode),
        1 <= r.bytes <= 3,
        2 <= r.cycles <= 8,
        r.addr_mode != AddressingMode::NoneAddressing ==> r.bytes == 1 + operand_len(r.addr_mode),
{
    reveal(opcode_shape);
    reveal(opcode_name);
    match opcode {
        0x60 => instr(AddressingMode::NoneAddressing, "RTS", 1, 6),
        0x61 => instr(AddressingMode::IndirectX, "ADC", 2, 6),
        0x62 => instr(AddressingMode::NoneAddressing, "*NOP", 1, 2),
        0x63 => instr(AddressingMode::IndirectX, "*RRA", 2, 8),
        0x64 => instr(AddressingMode::ZeroPage, "*NOP", 2, 3),
        0x65 => instr(AddressingMode::ZeroPage, "ADC", 2, 3),
        0x66 => instr(AddressingMode::ZeroPage, "ROR", 2, 5),
        0x67 => instr(AddressingMode::ZeroPage, "*RRA", 2, 5),
        0x68 => instr(AddressingMode::NoneAddressing, "PLA", 1, 4),
        0x69 => instr(AddressingMode::Immediate, "ADC", 2, 2),
        0x6A => instr(AddressingMode::NoneAddressing, "ROR", 1, 2),
        0x6B => instr(AddressingMode::Immediate, "*ARR", 2, 2),
        0x6C => instr(AddressingMode::NoneAddressing, "JMP", 3, 5),
        0x6D => instr(AddressingMode::Absolute, "ADC", 3, 4),
        0x6E => instr(AddressingMode::Absolute, "ROR", 3, 6),
        _ => instr(AddressingMode::Absolute, "*RRA", 3, 6),
    }
}

/// Opcodes $70-$7F.
fn decode_row_7(opcode: u8) -> (r: Instruction)
    requires
        0x70 <= opcode <= 0x7F,
    ensures
        (r.addr_mode, r.bytes, r.cycles) == opcode_shape(opcode),
        r.name == opcode_name(opcode),
        1 <= r.bytes <= 3,
        2 <= r.cycles <= 8,
        r.addr_mode != AddressingMode::NoneAddressing ==> r.bytes == 1 + operand_len(r.addr_mode),
{
    reveal(opcode_shape);
    reveal(opcode_name);
    match opcode {
        0x70 => instr(AddressingMode::NoneAddressing, "BVS", 2, 2),
        0x71 => instr(AddressingMode::IndirectY, "ADC", 2, 5),
        0x72 => instr(AddressingMode::NoneAddressing, "*NOP", 1, 2),
        0x73 => instr(AddressingMode::IndirectY, "*RRA", 2, 8),
        0x74 => instr(AddressingMode::ZeroPageX, "*NOP", 2, 4),
        0x75 => instr(AddressingMode::ZeroPageX, "ADC", 2, 4),
        0x76 => instr(AddressingMode::ZeroPageX, "ROR", 2, 6),
        0x77 => instr(AddressingMode::ZeroPageX, "*RRA", 2, 6),
        0x78 => instr(AddressingMode::NoneAddressing, "SEI", 1, 2),
        0x79 => instr(AddressingMode::AbsoluteY, "ADC", 3, 4),
        0x7A => instr(AddressingMode::NoneAddressing, "*NOP", 1, 2),
        0x7B => instr(AddressingMode::AbsoluteY, "*RRA", 3, 7),
        0x7C => instr(AddressingMode::AbsoluteX, "*NOP", 3, 4),
        0x7D => instr(AddressingMode::AbsoluteX, "ADC", 3, 4),
        0x7E => instr(AddressingMode::AbsoluteX, "ROR", 3, 7),
        _ => instr(AddressingMode::AbsoluteX, "*RRA", 3, 7),
    }
}

/// Opcodes $80-$8F.
fn decode_row_8(opcode: u8) -> (r: Instruction)
    requires
        0x80 <= opcode <= 0x8F,
    ensures
        (r.addr_mode, r.bytes, r.cycles) == opcode_shape(opcode),
        r.name == opcode_name(opcode),
        1 <= r.bytes <= 3,
        2 <= r.cycles <= 8,
        r.addr_mode != AddressingMode::NoneAddressing ==> r.bytes == 1 + operand_len(r.addr_mode),
{
    reveal(opcode_shape);
    reveal(opcode_name);
    match opcode {
        0x80 => instr(AddressingMode::Immediate, "*NOP", 2, 2),
        0x81 => instr(AddressingMode::IndirectX, "STA", 2, 6),
        0x82 => instr(AddressingMode::Immediate, "*NOP", 2, 2),
        0x83 => instr(AddressingMode::IndirectX, "*SAX", 2, 6),
        0x84 => instr(AddressingMode::ZeroPage, "STY", 2, 3),
        0x85 => instr(AddressingMode::ZeroPage, "STA", 2, 3),
        0x86 => instr(AddressingMode::ZeroPage, "STX", 2, 3),
        0x87 => instr(AddressingMode::ZeroPage, "*SAX", 2, 3),
        0x88 => instr(AddressingMode::NoneAddressing, "DEY", 1, 2),
        0x89 => instr(AddressingMode::Immediate, "*NOP", 2, 2),
        0x8A => instr(AddressingMode::NoneAddressing, "TXA", 1, 2),
        0x8B => instr(AddressingMode::Immediate, "*XAA", 2, 3),
        0x8C => instr(AddressingMode::Absolute, "STY", 3, 4),
        0x8D => instr(AddressingMode::Absolute, "STA", 3, 4),
        0x8E => instr(AddressingMode::Absolute, "STX", 3, 4),
        _ => instr(AddressingMode::Absolute, "*SAX", 3, 4),
    }
}

/// Opcodes $90-$9F.
fn decode_row_9(opcode: u8) -> (r: Instruction)
    requires
        0x90 <= opcode <= 0x9F,
    ensures
        (r.addr_mode, r.bytes, r.cycles) == opcode_shape(opcode),
        r.name == opcode_name(opcode),
        1 <= r.bytes <= 3,
        2 <= r.cycles <= 8,
        r.addr_mode != AddressingMode::NoneAddressing ==> r.bytes == 1 + operand_len(r.addr_mode),
{
    reveal(opcode_shape);
    reveal(opcode_name);
    match opcode {
        0x90 => instr(AddressingMode::NoneAddressing, "BCC", 2, 2),
        0x91 => instr(AddressingMode::IndirectY, "STA", 2, 6),
        0x92 => instr(AddressingMode::NoneAddressing, "*NOP", 1, 2),
        0x93 => instr(AddressingMode::IndirectY, "*AHX", 2, 8),
        0x94 => instr(AddressingMode::ZeroPageX, "STY", 2, 4),
        0x95 => instr(AddressingMode::ZeroPageX, "STA", 2, 4),
        0x96 => instr(AddressingMode::ZeroPageY, "STX", 2, 4),
        0x97 => instr(AddressingMode::ZeroPageY, "*SAX", 2, 4),
        0x98 => instr(AddressingMode::NoneAddressing, "TYA", 1, 2),
        0x99 => instr(AddressingMode::AbsoluteY, "STA", 3, 5),
        0x9A => instr(AddressingMode::NoneAddressing, "TXS", 1, 2),
        0x9B => instr(AddressingMode::AbsoluteY, "*TAS", 3, 2),
        0x9C => instr(AddressingMode::AbsoluteX, "*SHY", 3, 4),
        0x9D => instr(AddressingMode::AbsoluteX, "STA", 3, 5),
        0x9E => instr(AddressingMode::AbsoluteY, "*SHX", 3, 4),
        _ => instr(AddressingMode::AbsoluteY, "*AHX", 3, 4),
    }
}

/// Opcodes $A0-$AF.
fn decode_row_a(opcode: u8) -> (r: Instruction)
    requires
        0xA0 <= opcode <= 0xAF,
    ensures
        (r.addr_mode, r.bytes, r.cycles) == opcode_shape(opcode),
        r.name == opcode_name(opcode),
        1 <= r.bytes <= 3,
        2 <= r.cycles <= 8,
        r.addr_mode != AddressingMode::NoneAddressing ==> r.bytes == 1 + operand_len(r.addr_mode),
{
    reveal(opcode_shape);
    reveal(opcode_name);
    match opcode {
        0xA0 => instr(AddressingMode::Immediate, "LDY", 2, 2),
        0xA1 => instr(AddressingMode::IndirectX, "LDA", 2, 6),
        0xA2 => instr(AddressingMode::Immediate, "LDX", 2, 2),
        0xA3 => instr(AddressingMode::IndirectX, "*LAX", 2, 6),
        0xA4 => instr(AddressingMode::ZeroPage, "LDY", 2, 3),
        0xA5 => instr(AddressingMode::ZeroPage, "LDA", 2, 3),
        0xA6 => instr(AddressingMode::ZeroPage, "LDX", 2, 3),
        0xA7 => instr(AddressingMode::ZeroPage, "*LAX", 2, 3),
        0xA8 => instr(AddressingMode::NoneAddressing, "TAY", 1, 2),
        0xA9 => instr(AddressingMode::Immediate, "LDA", 2, 2),
        0xAA => instr(AddressingMode::NoneAddressing, "TAX", 1, 2),
        0xAB => instr(AddressingMode::Immediate, "*LXA", 2, 3),
        0xAC => instr(AddressingMode::Absolute, "LDY", 3, 4),
        0xAD => instr(AddressingMode::Absolute, "LDA", 3, 4),
        0xAE => instr(AddressingMode::Absolute, "LDX", 3, 4),
        _ => instr(AddressingMode::Absolute, "*LAX", 3, 4),
    }
}

/// Opcodes $B0-$BF.
fn decode_row_b(opcode: u8) -> (r: Instruction)
    requires
        0xB0 <= opcode <= 0xBF,
    ensures
        (r.addr_mode, r.bytes, r.cycles) == opcode_shape(opcode),
        r.name == opcode_name(opcode),
        1 <= r.bytes <= 3,
        2 <= r.cycles <= 8,
        r.addr_mode != AddressingMode::NoneAddressing ==> r.bytes == 1 + operand_len(r.addr_mode),
{
    reveal(opcode_shape);
    reveal(opcode_name);
    match opcode {
        0xB0 => instr(AddressingMode::NoneAddressing, "BCS", 2, 2),
        0xB1 => instr(AddressingMode::IndirectY, "LDA", 2, 5),
        0xB2 => instr(AddressingMode::NoneAddressing, "*NOP", 1, 2),
        0xB3 => instr(AddressingMode::IndirectY, "*LAX", 2, 5),
        0xB4 => instr(AddressingMode::ZeroPageX, "LDY", 2, 4),
        0xB5 => instr(AddressingMode::ZeroPageX, "LDA", 2, 4),
        0xB6 => instr(AddressingMode::ZeroPageY, "LDX", 2, 4),
        0xB7 => instr(AddressingMode::ZeroPageY, "*LAX", 2, 4),
        0xB8 => instr(AddressingMode::NoneAddressing, "CLV", 1, 2),
        0xB9 => instr(AddressingMode::AbsoluteY, "LDA", 3, 4),
        0xBA => instr(AddressingMode::NoneAddressing, "TSX", 1, 2),
        0xBB => instr(AddressingMode::AbsoluteY, "*LAS", 3, 2),
        0xBC => instr(AddressingMode::AbsoluteX, "LDY", 3, 4),
        0xBD => instr(AddressingMode::AbsoluteX, "LDA", 3, 4),
        0xBE => instr(AddressingMode::AbsoluteY, "LDX", 3, 4),
        _ => instr(AddressingMode::AbsoluteY, "*LAX", 3, 4),
    }
}

/// Opcodes $C0-$CF.
fn decode_row_c(opcode: u8) -> (r: Instruction)
    requires
        0xC0 <= opcode <= 0xCF,
    ensures
        (r.addr_mode, r.bytes, r.cycles) == opcode_shape(opcode),
        r.name == opcode_name(opcode),
        1 <= r.bytes <= 3,
        2 <= r.cycles <= 8,
        r.addr_mode != AddressingMode::NoneAddressing ==> r.bytes == 1 + operand_len(r.addr_mode),
{
    reveal(opcode_shape);
    reveal(opcode_name);
    match opcode {
        0xC0 => instr(AddressingMode::Immediate, "CPY", 2, 2),
        0xC1 => instr(AddressingMode::IndirectX, "CMP", 2, 6),
        0xC2 => instr(AddressingMode::Immediate, "*NOP", 2, 2),
        0xC3 => instr(AddressingMode::IndirectX, "*DCP", 2, 8),
        0xC4 => instr(AddressingMode::ZeroPage, "CPY", 2, 3),
        0xC5 => instr(AddressingMode::ZeroPage, "CMP", 2, 3),
        0xC6 => instr(AddressingMode::ZeroPage, "DEC", 2, 5),
        0xC7 => instr(AddressingMode::ZeroPage, "*DCP", 2, 5),
        0xC8 => instr(AddressingMode::NoneAddressing, "INY", 1, 2),
        0xC9 => instr(AddressingMode::Immediate, "CMP", 2, 2),
        0xCA => instr(AddressingMode::NoneAddressing, "DEX", 1, 2),
        0xCB => instr(AddressingMode::Immediate, "*AXS", 2, 2),
        0xCC => instr(AddressingMode::Absolute, "CPY", 3, 4),
        0xCD => instr(AddressingMode::Absolute, "CMP", 3, 4),
        0xCE => instr(AddressingMode::Absolute, "DEC", 3, 6),
        _ => instr(AddressingMode::Absolute, "*DCP", 3, 6),
    }
}

/// Opcodes $D0-$DF.
fn decode_row_d(opcode: u8) -> (r: Instruction)
    requires
        0xD0 <= opcode <= 0xDF,
    ensures
        (r.addr_mode, r.bytes, r.cycles) == opcode_shape(opcode),
        r.name == opcode_name(opcode),
        1 <= r.bytes <= 3,
        2 <= r.cycles <= 8,
        r.addr_mode != AddressingMode::NoneAddressing ==> r.bytes == 1 + operand_len(r.addr_mode),
{
    reveal(opcode_shape);
    reveal(opcode_name);
    match opcode {
        0xD0 => instr(AddressingMode::NoneAddressing, "BNE", 2, 2),
        0xD1 => instr(AddressingMode::IndirectY, "CMP", 2, 5),
        0xD2 => instr(AddressingMode::NoneAddressing, "*NOP", 1, 2),
        0xD3 => instr(AddressingMode::IndirectY, "*DCP", 2, 8),
        0xD4 => instr(AddressingMode::ZeroPageX, "*NOP", 2, 4),
        0xD5 => instr(AddressingMode::ZeroPageX, "CMP", 2, 4),
        0xD6 => instr(AddressingMode::ZeroPageX, "DEC", 2, 6),
        0xD7 => instr(AddressingMode::ZeroPageX, "*DCP", 2, 6),
        0xD8 => instr(AddressingMode::NoneAddressing, "CLD", 1, 2),
        0xD9 => instr(AddressingMode::AbsoluteY, "CMP", 3, 4),
        0xDA => instr(AddressingMode::NoneAddressing, "*NOP", 1, 2),
        0xDB => instr(AddressingMode::AbsoluteY, "*DCP", 3, 7),
        0xDC => instr(AddressingMode::AbsoluteX, "*NOP", 3, 4),
        0xDD => instr(AddressingMode::AbsoluteX, "CMP", 3, 4),
        0xDE => instr(AddressingMode::AbsoluteX, "DEC", 3, 7),
        _ => instr(AddressingMode::AbsoluteX, "*DCP", 3, 7),
    }
}

/// Opcodes $E0-$EF.
fn decode_row_e(opcode: u8) -> (r: Instruction)
    requires
        0xE0 <= opcode <= 0xEF,
    ensures
        (r.addr_mode, r.bytes, r.cycles) == opcode_shape(opcode),
        r.name == opcode_name(opcode),
        1 <= r.bytes <= 3,
        2 <= r.cycles <= 8,
        r.addr_mode != AddressingMode::NoneAddressing ==> r.bytes == 1 + operand_len(r.addr_mode),
{
    reveal(opcode_shape);
    reveal(opcode_name);
    match opcode {
        0xE0 => instr(AddressingMode::Immediate, "CPX", 2, 2),
        0xE1 => instr(AddressingMode::IndirectX, "SBC", 2, 6),
        0xE2 => instr(AddressingMode::Immediate, "*NOP", 2, 2),
        0xE3 => instr(AddressingMode::IndirectX, "*ISB", 2, 8),
        0xE4 => instr(AddressingMode::ZeroPage, "CPX", 2, 3),
        0xE5 => instr(AddressingMode::ZeroPage, "SBC", 2, 3),
        0xE6 => instr(AddressingMode::ZeroPage, "INC", 2, 5),
        0xE7 => instr(AddressingMode::ZeroPage, "*ISB", 2, 5),
        0xE8 => instr(AddressingMode::NoneAddressing, "INX", 1, 2),
        0xE9 => instr(AddressingMode::Immediate, "SBC", 2, 2),
        0xEA => instr(AddressingMode::NoneAddressing, "NOP", 1, 2),
        0xEB => instr(AddressingMode::Immediate, "*SBC", 2, 2),
        0xEC => instr(AddressingMode::Absolute, "CPX", 3, 4),
        0xED => instr(AddressingMode::Absolute, "SBC", 3, 4),
        0xEE => instr(AddressingMode::Absolute, "INC", 3, 6),
        _ => instr(AddressingMode::Absolute, "*ISB", 3, 6),
    }
}

/// Opcodes $F0-$FF.
fn decode_row_f(opcode: u8) -> (r: Instruction)
    requires
        0xF0 <= opcode <= 0xFF,
    ensures
        (r.addr_mode, r.bytes, r.cycles) == opcode_shape(opcode),
        r.name == opcode_name(opcode),
        1 <= r.bytes <= 3,
        2 <= r.cycles <= 8,
        r.addr_mode != AddressingMode::NoneAddressing ==> r.bytes == 1 + operand_len(r.addr_mode),
{
    reveal(opcode_shape);
    reveal(opcode_name);
    match opcode {
        0xF0 => instr(AddressingMode::NoneAddressing, "BEQ", 2, 2),
        0xF1 => instr(AddressingMode::IndirectY, "SBC", 2, 5),
        0xF2 => instr(AddressingMode::NoneAddressing, "*NOP", 1, 2),
        0xF3 => instr(AddressingMode::IndirectY, "*ISB", 2, 8),
        0xF4 => instr(AddressingMode::ZeroPageX, "*NOP", 2, 4),
        0xF5 => instr(AddressingMode::ZeroPageX, "SBC", 2, 4),
        0xF6 => instr(AddressingMode::ZeroPageX, "INC", 2, 6),
        0xF7 => instr(AddressingMode::ZeroPageX, "*ISB", 2, 6),
        0xF8 => instr(AddressingMode::NoneAddressing, "SED", 1, 2),
        0xF9 => instr(AddressingMode::AbsoluteY, "SBC", 3, 4),
        0xFA => instr(AddressingMode::NoneAddressing, "*NOP", 1, 2),
        0xFB => instr(AddressingMode::AbsoluteY, "*ISB", 3, 7),
        0xFC => instr(AddressingMode::AbsoluteX, "*NOP", 3, 4),
        0xFD => instr(AddressingMode::AbsoluteX, "SBC", 3, 4),
        0xFE => instr(AddressingMode::AbsoluteX, "INC", 3, 7),
        _ => instr(AddressingMode::AbsoluteX, "*ISB", 3, 7),
    }
}

/// Decodes an opcode byte. Every byte decodes; instructions with an operand
/// are one byte longer than their operand, and none takes fewer than two
/// cycles.
pub fn get_instruction(opcode: u8) -> (r: Instruction)
    ensures
        (r.addr_mode, r.bytes, r.cycles) == opcode_shape(opcode),
        r.name == opcode_name(opcode),
        1 <= r.bytes <= 3,
        2 <= r.cycles <= 8,
        r.addr_mode != AddressingMode::NoneAddressing ==> r.bytes == 1 + operand_len(r.addr_mode),
{
    match opcode / 16 {
        0 => decode_row_0(opcode),
        1 => decode_row_1(opcode),
        2 => decode_row_2(opcode),
        3 => decode_row_3(opcode),
        4 => decode_row_4(opcode),
        5 => decode_row_5(opcode),
        6 => decode_row_6(opcode),
        7 => decode_row_7(opcode),
        8 => decode_row_8(opcode),
        9 => decode_row_9(opcode),
        10 => decode_row_a(opcode),
        11 => decode_row_b(opcode),
        12 => decode_row_c(opcode),
        13 => decode_row_d(opcode),
        14 => decode_row_e(opcode),
        _ => decode_row_f(opcode),
    }
}

} // verus!
