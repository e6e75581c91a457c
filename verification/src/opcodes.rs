//! The opcode catalog: an immutable mapping from each supported opcode byte
//! to its descriptor.
//!
//! The catalog is a total function on the opcode byte, so each byte has at
//! most one descriptor by construction; a duplicate registration, the
//! classic integrity hazard of a table built by repeated insertion, cannot
//! arise.  [`opcode_info`] is the catalog's mathematical statement and
//! [`lookup`] is proved to agree with it entry by entry.

use vstd::prelude::*;

use crate::cpu::AddressingMode;

verus! {

/// One immutable catalog record: the opcode byte itself, its mnemonic, the
/// instruction's full encoded length in bytes (opcode + operands), its cycle
/// cost (informational only; this core models no timing), and its
/// addressing mode.
pub struct OpCode {
    pub code: u8,
    pub instruction: &'static str,
    pub length: u8,
    pub cycles: u8,
    pub mode: AddressingMode,
}

impl OpCode {
    /// Assembles a descriptor from its five fields.
    pub fn new(
        code: u8,
        instruction: &'static str,
        length: u8,
        cycles: u8,
        mode: AddressingMode,
    ) -> (entry: OpCode)
        ensures
            entry.code == code,
            entry.instruction == instruction,
            entry.length == length,
            entry.cycles == cycles,
            entry.mode == mode,
    {
        OpCode { code, instruction, length, cycles, mode }
    }
}

/// The abstract content of one catalog entry: the descriptor's fields with
/// the mnemonic as a sequence of characters.
pub ghost struct OpInfo {
    pub mnemonic: Seq<char>,
    pub length: u8,
    pub cycles: u8,
    pub mode: AddressingMode,
}

/// Shorthand for a present catalog entry.
pub open spec fn entry(mnemonic: Seq<char>, length: u8, cycles: u8, mode: AddressingMode) -> Option<
    OpInfo,
> {
    Some(OpInfo { mnemonic, length, cycles, mode })
}

/// The catalog itself: which opcode bytes are supported, and what each one
/// means.  A byte mapped to `None` is unrecognized and must be treated by
/// the engine as a fatal error, never as a no-op.
pub open spec fn opcode_info(code: u8) -> Option<OpInfo> {
    if code == 0x00 {
        entry("BRK"@, 1, 7, AddressingMode::NoneAddressing)
    } else if code == 0x69 {
        entry("ADC"@, 2, 2, AddressingMode::Immediate)
    } else if code == 0x65 {
        entry("ADC"@, 2, 3, AddressingMode::ZeroPage)
    } else if code == 0x75 {
        entry("ADC"@, 2, 4, AddressingMode::ZeroPageX)
    } else if code == 0x6D {
        entry("ADC"@, 3, 4, AddressingMode::Absolute)
    } else if code == 0x7D {
        entry("ADC"@, 3, 4, AddressingMode::AbsoluteX)
    } else if code == 0x79 {
        entry("ADC"@, 3, 4, AddressingMode::AbsoluteY)
    } else if code == 0x61 {
        entry("ADC"@, 2, 6, AddressingMode::IndirectX)
    } else if code == 0x71 {
        entry("ADC"@, 2, 5, AddressingMode::IndirectY)
    } else if code == 0x29 {
        entry("AND"@, 2, 2, AddressingMode::Immediate)
    } else if code == 0x25 {
        entry("AND"@, 2, 3, AddressingMode::ZeroPage)
    } else if code == 0x35 {
        entry("AND"@, 2, 4, AddressingMode::ZeroPageX)
    } else if code == 0x2D {
        entry("AND"@, 3, 4, AddressingMode::Absolute)
    } else if code == 0x3D {
        entry("AND"@, 3, 4, AddressingMode::AbsoluteX)
    } else if code == 0x39 {
        entry("AND"@, 3, 4, AddressingMode::AbsoluteY)
    } else if code == 0x21 {
        entry("AND"@, 2, 6, AddressingMode::IndirectX)
    } else if code == 0x31 {
        entry("AND"@, 2, 5, AddressingMode::IndirectY)
    } else if code == 0x0A {
        entry("ASL"@, 1, 2, AddressingMode::Accumulator)
    } else if code == 0x06 {
        entry("ASL"@, 2, 5, AddressingMode::ZeroPage)
    } else if code == 0x16 {
        entry("ASL"@, 2, 6, AddressingMode::ZeroPageX)
    } else if code == 0x0E {
        entry("ASL"@, 3, 6, AddressingMode::Absolute)
    } else if code == 0x1E {
        entry("ASL"@, 3, 7, AddressingMode::AbsoluteX)
    } else if code == 0xE8 {
        entry("INX"@, 1, 7, AddressingMode::NoneAddressing)
    } else if code == 0xA9 {
        entry("LDA"@, 2, 2, AddressingMode::Immediate)
    } else if code == 0xA5 {
        entry("LDA"@, 2, 3, AddressingMode::ZeroPage)
    } else if code == 0xB5 {
        entry("LDA"@, 2, 4, AddressingMode::ZeroPageX)
    } else if code == 0xAD {
        entry("LDA"@, 3, 4, AddressingMode::Absolute)
    } else if code == 0xBD {
        entry("LDA"@, 3, 4, AddressingMode::AbsoluteX)
    } else if code == 0xB9 {
        entry("LDA"@, 3, 4, AddressingMode::AbsoluteY)
    } else if code == 0xA1 {
        entry("LDA"@, 2, 6, AddressingMode::IndirectX)
    } else if code == 0xB1 {
        entry("LDA"@, 2, 5, AddressingMode::IndirectY)
    } else if code == 0xA2 {
        entry("LDX"@, 2, 2, AddressingMode::Immediate)
    } else if code == 0xA6 {
        entry("LDX"@, 2, 3, AddressingMode::ZeroPage)
    } else if code == 0xB6 {
        entry("LDX"@, 2, 4, AddressingMode::ZeroPageY)
    } else if code == 0xAE {
        entry("LDX"@, 3, 4, AddressingMode::Absolute)
    } else if code == 0xBE {
        entry("LDX"@, 3, 4, AddressingMode::AbsoluteY)
    } else if code == 0xA0 {
        entry("LDY"@, 2, 2, AddressingMode::Immediate)
    } else if code == 0xA4 {
        entry("LDY"@, 2, 3, AddressingMode::ZeroPage)
    } else if code == 0xB4 {
        entry("LDY"@, 2, 4, AddressingMode::ZeroPageX)
    } else if code == 0xAC {
        entry("LDY"@, 3, 4, AddressingMode::Absolute)
    } else if code == 0xBC {
        entry("LDY"@, 3, 4, AddressingMode::AbsoluteY)
    } else if code == 0x85 {
        entry("STA"@, 2, 3, AddressingMode::ZeroPage)
    } else if code == 0x95 {
        entry("STA"@, 2, 4, AddressingMode::ZeroPageX)
    } else if code == 0x8D {
        entry("STA"@, 3, 4, AddressingMode::Absolute)
    } else if code == 0x9D {
        entry("STA"@, 3, 5, AddressingMode::AbsoluteX)
    } else if code == 0x99 {
        entry("STA"@, 3, 5, AddressingMode::AbsoluteY)
    } else if code == 0x81 {
        entry("STA"@, 2, 6, AddressingMode::IndirectX)
    } else if code == 0x91 {
        entry("STA"@, 2, 6, AddressingMode::IndirectY)
    } else if code == 0xAA {
        entry("TAX"@, 1, 2, AddressingMode::NoneAddressing)
    } else {
        None
    }
}

/// Looks the opcode byte up in the catalog.  Returns the descriptor that
/// [`opcode_info`] states for the byte, and `None` exactly when the byte is
/// unsupported.
pub fn lookup(code: u8) -> (found: Option<OpCode>)
    ensures
        found is Some <==> opcode_info(code) is Some,
        found matches Some(op) ==> {
            let info = opcode_info(code)->Some_0;
            &&& op.code == code
            &&& op.instruction@ == info.mnemonic
            &&& op.length == info.length
            &&& op.cycles == info.cycles
            &&& op.mode == info.mode
        },
{
    if code == 0x00 {
        Some(OpCode::new(0x00, "BRK", 1, 7, AddressingMode::NoneAddressing))
    } else if code == 0x69 {
        Some(OpCode::new(0x69, "ADC", 2, 2, AddressingMode::Immediate))
    } else if code == 0x65 {
        Some(OpCode::new(0x65, "ADC", 2, 3, AddressingMode::ZeroPage))
    } else if code == 0x75 {
        Some(OpCode::new(0x75, "ADC", 2, 4, AddressingMode::ZeroPageX))
    } else if code == 0x6D {
        Some(OpCode::new(0x6D, "ADC", 3, 4, AddressingMode::Absolute))
    } else if code == 0x7D {
        Some(OpCode::new(0x7D, "ADC", 3, 4, AddressingMode::AbsoluteX))
    } else if code == 0x79 {
        Some(OpCode::new(0x79, "ADC", 3, 4, AddressingMode::AbsoluteY))
    } else if code == 0x61 {
        Some(OpCode::new(0x61, "ADC", 2, 6, AddressingMode::IndirectX))
    } else if code == 0x71 {
        Some(OpCode::new(0x71, "ADC", 2, 5, AddressingMode::IndirectY))
    } else if code == 0x29 {
        Some(OpCode::new(0x29, "AND", 2, 2, AddressingMode::Immediate))
    } else if code == 0x25 {
        Some(OpCode::new(0x25, "AND", 2, 3, AddressingMode::ZeroPage))
    } else if code == 0x35 {
        Some(OpCode::new(0x35, "AND", 2, 4, AddressingMode::ZeroPageX))
    } else if code == 0x2D {
        Some(OpCode::new(0x2D, "AND", 3, 4, AddressingMode::Absolute))
    } else if code == 0x3D {
        Some(OpCode::new(0x3D, "AND", 3, 4, AddressingMode::AbsoluteX))
    } else if code == 0x39 {
        Some(OpCode::new(0x39, "AND", 3, 4, AddressingMode::AbsoluteY))
    } else if code == 0x21 {
        Some(OpCode::new(0x21, "AND", 2, 6, AddressingMode::IndirectX))
    } else if code == 0x31 {
        Some(OpCode::new(0x31, "AND", 2, 5, AddressingMode::IndirectY))
    } else if code == 0x0A {
        Some(OpCode::new(0x0A, "ASL", 1, 2, AddressingMode::Accumulator))
    } else if code == 0x06 {
        Some(OpCode::new(0x06, "ASL", 2, 5, AddressingMode::ZeroPage))
    } else if code == 0x16 {
        Some(OpCode::new(0x16, "ASL", 2, 6, AddressingMode::ZeroPageX))
    } else if code == 0x0E {
        Some(OpCode::new(0x0E, "ASL", 3, 6, AddressingMode::Absolute))
    } else if code == 0x1E {
        Some(OpCode::new(0x1E, "ASL", 3, 7, AddressingMode::AbsoluteX))
    } else if code == 0xE8 {
        Some(OpCode::new(0xE8, "INX", 1, 7, AddressingMode::NoneAddressing))
    } else if code == 0xA9 {
        Some(OpCode::new(0xA9, "LDA", 2, 2, AddressingMode::Immediate))
    } else if code == 0xA5 {
        Some(OpCode::new(0xA5, "LDA", 2, 3, AddressingMode::ZeroPage))
    } else if code == 0xB5 {
        Some(OpCode::new(0xB5, "LDA", 2, 4, AddressingMode::ZeroPageX))
    } else if code == 0xAD {
        Some(OpCode::new(0xAD, "LDA", 3, 4, AddressingMode::Absolute))
    } else if code == 0xBD {
        Some(OpCode::new(0xBD, "LDA", 3, 4, AddressingMode::AbsoluteX))
    } else if code == 0xB9 {
        Some(OpCode::new(0xB9, "LDA", 3, 4, AddressingMode::AbsoluteY))
    } else if code == 0xA1 {
        Some(OpCode::new(0xA1, "LDA", 2, 6, AddressingMode::IndirectX))
    } else if code == 0xB1 {
        Some(OpCode::new(0xB1, "LDA", 2, 5, AddressingMode::IndirectY))
    } else if code == 0xA2 {
        Some(OpCode::new(0xA2, "LDX", 2, 2, AddressingMode::Immediate))
    } else if code == 0xA6 {
        Some(OpCode::new(0xA6, "LDX", 2, 3, AddressingMode::ZeroPage))
    } else if code == 0xB6 {
        Some(OpCode::new(0xB6, "LDX", 2, 4, AddressingMode::ZeroPageY))
    } else if code == 0xAE {
        Some(OpCode::new(0xAE, "LDX", 3, 4, AddressingMode::Absolute))
    } else if code == 0xBE {
        Some(OpCode::new(0xBE, "LDX", 3, 4, AddressingMode::AbsoluteY))
    } else if code == 0xA0 {
        Some(OpCode::new(0xA0, "LDY", 2, 2, AddressingMode::Immediate))
    } else if code == 0xA4 {
        Some(OpCode::new(0xA4, "LDY", 2, 3, AddressingMode::ZeroPage))
    } else if code == 0xB4 {
        Some(OpCode::new(0xB4, "LDY", 2, 4, AddressingMode::ZeroPageX))
    } else if code == 0xAC {
        Some(OpCode::new(0xAC, "LDY", 3, 4, AddressingMode::Absolute))
    } else if code == 0xBC {
        Some(OpCode::new(0xBC, "LDY", 3, 4, AddressingMode::AbsoluteY))
    } else if code == 0x85 {
        Some(OpCode::new(0x85, "STA", 2, 3, AddressingMode::ZeroPage))
    } else if code == 0x95 {
        Some(OpCode::new(0x95, "STA", 2, 4, AddressingMode::ZeroPageX))
    } else if code == 0x8D {
        Some(OpCode::new(0x8D, "STA", 3, 4, AddressingMode::Absolute))
    } else if code == 0x9D {
        Some(OpCode::new(0x9D, "STA", 3, 5, AddressingMode::AbsoluteX))
    } else if code == 0x99 {
        Some(OpCode::new(0x99, "STA", 3, 5, AddressingMode::AbsoluteY))
    } else if code == 0x81 {
        Some(OpCode::new(0x81, "STA", 2, 6, AddressingMode::IndirectX))
    } else if code == 0x91 {
        Some(OpCode::new(0x91, "STA", 2, 6, AddressingMode::IndirectY))
    } else if code == 0xAA {
        Some(OpCode::new(0xAA, "TAX", 1, 2, AddressingMode::NoneAddressing))
    } else {
        None
    }
}

} // verus!
