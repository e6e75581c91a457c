//! Tests for the opcode catalog: descriptor construction, lookup of
//! supported and unsupported bytes, and the distinct opcode bytes of the
//! two indexed absolute store variants.

use cpu6502::cpu::{AddressingMode, CPU};
use cpu6502::opcodes::{lookup, OpCode};

#[test]
fn test_opcode_new_keeps_fields() {
    let op = OpCode::new(0xE8, "INX", 1, 7, AddressingMode::NoneAddressing);
    assert_eq!(op.code, 0xE8);
    assert_eq!(op.instruction, "INX");
    assert_eq!(op.length, 1);
    assert_eq!(op.cycles, 7);
    assert_eq!(op.mode, AddressingMode::NoneAddressing);
}

#[test]
fn test_lookup_supported_opcode() {
    let entry = lookup(0xB6).unwrap();
    assert_eq!(entry.code, 0xB6);
    assert_eq!(entry.instruction, "LDX");
    assert_eq!(entry.length, 2);
    assert_eq!(entry.cycles, 4);
    assert_eq!(entry.mode, AddressingMode::ZeroPageY);
}

#[test]
fn test_lookup_missing_opcode() {
    assert!(lookup(0xFF).is_none());
    assert!(lookup(0x02).is_none());
}

#[test]
fn test_indexed_store_variants_have_distinct_bytes() {
    assert_eq!(lookup(0x9D).unwrap().mode, AddressingMode::AbsoluteX);
    assert_eq!(lookup(0x99).unwrap().mode, AddressingMode::AbsoluteY);
}

#[test]
fn test_sta_absolute_y() {
    let mut cpu = CPU::new();
    cpu.load(vec![0xA9, 0x42, 0x99, 0x00, 0x02, 0x00]).unwrap();
    cpu.register_y = 5;
    cpu.execute().unwrap();
    assert_eq!(cpu.mem_read(0x0205), 0x42);
}
