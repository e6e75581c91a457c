//! Behavioral tests for the execution engine: load, transfer, increment and
//! store scenarios, the error taxonomy, and the wrapping edge cases of the
//! addressing modes.

use cpu6502::cpu::{CpuError, CPU};

#[test]
fn test_0xa9_lda_immediate_load_data() {
    let mut cpu = CPU::new();
    cpu.run(vec![0xA9, 0x05, 0x00]).unwrap();
    assert_eq!(cpu.register_a, 0x05);
    assert!(cpu.status & 0b0000_0010 == 0b00);
    assert!(cpu.status & 0b1000_0000 == 0);
}

#[test]
fn test_0xa9_lda_zero_flag() {
    let mut cpu = CPU::new();
    cpu.run(vec![0xA9, 0x00, 0x00]).unwrap();
    assert!(cpu.status & 0b0000_0010 == 0b10);
}

#[test]
fn test_0xa2_ldx_immediate_load_data() {
    let mut cpu = CPU::new();
    cpu.run(vec![0xA2, 0x05, 0x00]).unwrap();
    assert_eq!(cpu.register_x, 0x05);
    assert!(cpu.status & 0b0000_0010 == 0b00);
    assert!(cpu.status & 0b1000_0000 == 0);
}

#[test]
fn test_0xa2_ldx_zero_flag() {
    let mut cpu = CPU::new();
    cpu.run(vec![0xA2, 0x00, 0x00]).unwrap();
    assert!(cpu.status & 0b0000_0010 == 0b10);
}

#[test]
fn test_0xaa_tax_move_a_to_x() {
    let mut cpu = CPU::new();
    cpu.register_a = 10;
    cpu.load(vec![0xAA, 0x00]).unwrap();
    cpu.execute().unwrap();
    assert_eq!(cpu.register_x, 10);
}

#[test]
fn test_0xe8_inx_increments_x() {
    let mut cpu = CPU::new();
    cpu.register_x = 10;
    cpu.load(vec![0xE8, 0x00]).unwrap();
    cpu.execute().unwrap();
    assert_eq!(cpu.register_x, 11);
}

#[test]
fn test_inx_overflow() {
    let mut cpu = CPU::new();
    cpu.register_x = 0xff;
    cpu.load(vec![0xe8, 0xe8, 0x00]).unwrap();
    cpu.execute().unwrap();
    assert_eq!(cpu.register_x, 1)
}

#[test]
fn test_5_ops_working_together() {
    let mut cpu = CPU::new();
    cpu.run(vec![0xA9, 0xC0, 0xAA, 0xE8, 0x00]).unwrap();
    assert_eq!(cpu.register_x, 0xC1);
}

#[test]
fn test_lda_from_memory() {
    let mut cpu = CPU::new();
    cpu.mem_write(0x10, 0x55);
    cpu.run(vec![0xa5, 0x10, 0x00]).unwrap();
    assert_eq!(cpu.register_a, 0x55);
}

#[test]
fn test_inx_wraparound_sets_zero_clears_negative() {
    let mut cpu = CPU::new();
    cpu.register_x = 0xFF;
    cpu.load(vec![0xE8, 0x00]).unwrap();
    cpu.execute().unwrap();
    assert_eq!(cpu.register_x, 0x00);
    assert!(cpu.status & 0b0000_0010 != 0);
    assert!(cpu.status & 0b1000_0000 == 0);
}

#[test]
fn test_lda_negative_flag() {
    let mut cpu = CPU::new();
    cpu.run(vec![0xA9, 0x80, 0x00]).unwrap();
    assert_eq!(cpu.register_a, 0x80);
    assert!(cpu.status & 0b1000_0000 != 0);
    assert!(cpu.status & 0b0000_0010 == 0);
}

#[test]
fn test_tax_zero_flag() {
    let mut cpu = CPU::new();
    cpu.run(vec![0xAA, 0x00]).unwrap();
    assert_eq!(cpu.register_x, 0);
    assert!(cpu.status & 0b0000_0010 != 0);
}

#[test]
fn test_flag_updates_leave_other_status_bits_alone() {
    let mut cpu = CPU::new();
    cpu.register_x = 4;
    cpu.status = 0b0100_0001;
    cpu.load(vec![0xE8, 0x00]).unwrap();
    cpu.execute().unwrap();
    // X became 5: zero and negative stay clear, bits 0 and 6 survive.
    assert_eq!(cpu.register_x, 5);
    assert_eq!(cpu.status, 0b0100_0001);
}

#[test]
fn test_sta_zero_page() {
    let mut cpu = CPU::new();
    cpu.run(vec![0xA9, 0x42, 0x85, 0x10, 0x00]).unwrap();
    assert_eq!(cpu.mem_read(0x10), 0x42);
}

#[test]
fn test_ldx_from_memory() {
    let mut cpu = CPU::new();
    cpu.mem_write(0x10, 0x55);
    cpu.run(vec![0xA6, 0x10, 0x00]).unwrap();
    assert_eq!(cpu.register_x, 0x55);
}

#[test]
fn test_lda_absolute() {
    let mut cpu = CPU::new();
    cpu.mem_write(0x1234, 0x77);
    cpu.run(vec![0xAD, 0x34, 0x12, 0x00]).unwrap();
    assert_eq!(cpu.register_a, 0x77);
}

#[test]
fn test_lda_zero_page_x_wraps_in_zero_page() {
    let mut cpu = CPU::new();
    cpu.mem_write(0x0F, 0x33);
    cpu.load(vec![0xB5, 0x10, 0x00]).unwrap();
    cpu.register_x = 0xFF;
    cpu.execute().unwrap();
    // 0x10 + 0xFF wraps at 8 bits to 0x0F.
    assert_eq!(cpu.register_a, 0x33);
}

#[test]
fn test_lda_absolute_y_wraps_address_space() {
    let mut cpu = CPU::new();
    cpu.mem_write(0x0001, 0x21);
    cpu.load(vec![0xB9, 0xFF, 0xFF, 0x00]).unwrap();
    cpu.register_y = 2;
    cpu.execute().unwrap();
    // 0xFFFF + 2 wraps at 16 bits to 0x0001.
    assert_eq!(cpu.register_a, 0x21);
}

#[test]
fn test_lda_indirect_x() {
    let mut cpu = CPU::new();
    cpu.mem_write(0x24, 0x34);
    cpu.mem_write(0x25, 0x12);
    cpu.mem_write(0x1234, 0x99);
    cpu.load(vec![0xA1, 0x20, 0x00]).unwrap();
    cpu.register_x = 4;
    cpu.execute().unwrap();
    assert_eq!(cpu.register_a, 0x99);
    assert!(cpu.status & 0b1000_0000 != 0);
}

#[test]
fn test_unrecognized_opcode() {
    let mut cpu = CPU::new();
    let result = cpu.run(vec![0xFF]);
    assert_eq!(result, Err(CpuError::UnrecognizedOpcode(0xFF)));
    // No register mutation beyond the program counter advancing past the
    // fetched byte.
    assert_eq!(cpu.register_a, 0);
    assert_eq!(cpu.register_x, 0);
    assert_eq!(cpu.register_y, 0);
    assert_eq!(cpu.program_counter, 0x8001);
}

#[test]
fn test_unimplemented_opcode() {
    let mut cpu = CPU::new();
    let result = cpu.run(vec![0x69, 0x01, 0x00]);
    assert_eq!(result, Err(CpuError::UnimplementedOpcode(0x69)));
}

#[test]
fn test_program_too_large() {
    let mut cpu = CPU::new();
    let result = cpu.run(vec![0x00; 0x8001]);
    assert_eq!(result, Err(CpuError::ProgramTooLarge));
    // The machine is untouched: nothing was copied and nothing ran.
    assert_eq!(cpu.program_counter, 0);
    assert_eq!(cpu.mem_read(0x8000), 0);
}

#[test]
fn test_program_of_maximal_size_loads() {
    let mut cpu = CPU::new();
    // 0x8000 bytes exactly fill the space above the origin; the first byte
    // is BRK, so execution halts at once.
    cpu.run(vec![0x00; 0x8000]).unwrap();
    assert_eq!(cpu.program_counter, 0x8001);
}

#[test]
fn test_word_read_at_top_of_memory_is_fatal() {
    let mut cpu = CPU::new();
    // An absolute LDA whose operand word would straddle the end of the
    // address space.
    cpu.mem_write(0xFFFE, 0xAD);
    cpu.program_counter = 0xFFFE;
    let result = cpu.execute();
    assert_eq!(result, Err(CpuError::AddressOutOfRange));
}

#[test]
fn test_reset_is_idempotent() {
    let mut cpu = CPU::new();
    cpu.load(vec![0xA9, 0x05, 0x00]).unwrap();
    cpu.register_a = 7;
    cpu.register_x = 8;
    cpu.register_y = 9;
    cpu.status = 0xAB;
    cpu.reset();
    let first = (
        cpu.register_a,
        cpu.register_x,
        cpu.register_y,
        cpu.status,
        cpu.program_counter,
    );
    cpu.reset();
    let second = (
        cpu.register_a,
        cpu.register_x,
        cpu.register_y,
        cpu.status,
        cpu.program_counter,
    );
    assert_eq!(first, second);
    assert_eq!(first, (0, 0, 0, 0, 0x8000));
}

#[test]
fn test_memory_word_accessors_are_little_endian() {
    let mut cpu = CPU::new();
    cpu.mem_write_u16(0x10, 0xABCD);
    assert_eq!(cpu.mem_read(0x10), 0xCD);
    assert_eq!(cpu.mem_read(0x11), 0xAB);
    assert_eq!(cpu.mem_read_u16(0x10), 0xABCD);
}
