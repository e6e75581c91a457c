//! The mathematical model of the processor.
//!
//! [`CpuView`] is the abstract machine state; the spec functions in this
//! module say, for every state, what each operation and each fetched
//! instruction does to it.  The executable engine in [`crate::cpu`] is
//! specified and verified against these definitions.

use vstd::prelude::*;

use crate::cpu::{AddressingMode, CpuError};
use crate::opcodes::opcode_info;

verus! {

/// Number of addressable bytes: the full 64 KiB address space.
pub const MEMORY_SIZE: usize = 0x10000;

/// Address at which a program is placed by `load`.
pub const PROGRAM_START: u16 = 0x8000;

/// Address of the little-endian reset vector read by `reset`.
pub const RESET_VECTOR: u16 = 0xFFFC;

/// The largest program `load` accepts: the space between the origin and the
/// top of memory.
pub const MAX_PROGRAM_SIZE: usize = 0x8000;

/// The abstract state of the machine: the three 8-bit registers, the
/// status byte, the 16-bit program counter, and the contents of memory.
#[verifier::ext_equal]
pub ghost struct CpuView {
    pub a: u8,
    pub x: u8,
    pub y: u8,
    pub status: u8,
    pub pc: u16,
    pub mem: Seq<u8>,
}

impl CpuView {
    /// Memory always spans the full address space.
    pub open spec fn wf(self) -> bool {
        self.mem.len() == MEMORY_SIZE
    }
}

/// The little-endian word stored at `pos`: low byte at `pos`, high byte at
/// `pos + 1`.  Meaningful only for `pos < 0xFFFF`; the byte at the very top
/// of memory has no in-range successor.
pub open spec fn word_at(mem: Seq<u8>, pos: u16) -> u16 {
    (mem[pos as int] + 256 * mem[pos as int + 1]) as u16
}

/// Low byte of a 16-bit word.
pub open spec fn word_lo(w: u16) -> u8 {
    (w % 256) as u8
}

/// High byte of a 16-bit word.
pub open spec fn word_hi(w: u16) -> u8 {
    (w / 256) as u8
}

/// Memory after a little-endian word write at `pos`.
pub open spec fn word_written(mem: Seq<u8>, pos: u16, w: u16) -> Seq<u8> {
    mem.update(pos as int, word_lo(w)).update(pos as int + 1, word_hi(w))
}

/// The status byte after an operation produced the 8-bit result `r`:
/// the zero flag (bit 1) records whether `r` is zero, the negative flag
/// (bit 7) copies bit 7 of `r`, and every other bit keeps its old value.
pub open spec fn flags_after(status: u8, r: u8) -> u8 {
    let with_zero = if r == 0 {
        status | 0x02
    } else {
        status & 0xFD
    };
    if r & 0x80 != 0 {
        with_zero | 0x80
    } else {
        with_zero & 0x7F
    }
}

/// The zero flag is set exactly on a zero result, the negative flag copies
/// bit 7 of the result, and no other status bit is touched — for every
/// prior status byte and every 8-bit result of a flag-updating operation.
pub proof fn lemma_flag_consistency(status: u8, r: u8)
    by (bit_vector)
    ensures
        flags_after(status, r) & 0x02 != 0 <==> r == 0,
        flags_after(status, r) & 0x80 != 0 <==> r & 0x80 != 0,
        flags_after(status, r) & 0x7D == status & 0x7D,
{
}

/// Whether a mode names an operand that lives in memory.  `Accumulator` and
/// `NoneAddressing` do not; asking for their address is a contract
/// violation, never reachable through a well-formed catalog.
pub open spec fn resolvable(mode: AddressingMode) -> bool {
    !(mode is Accumulator || mode is NoneAddressing)
}

/// The effective operand address for `mode` in state `s`, whose program
/// counter points at the first operand byte.  Byte-index arithmetic wraps at
/// 8 bits and absolute-address arithmetic wraps at 16 bits, as on the real
/// chip.  `None` means resolution would read a word whose high byte lies
/// beyond the top of memory — a fatal range error, never a silent wrap of
/// the whole address space.
pub open spec fn resolve(mode: AddressingMode, s: CpuView) -> Option<u16> {
    match mode {
        AddressingMode::Immediate => Some(s.pc),
        AddressingMode::ZeroPage => Some(s.mem[s.pc as int] as u16),
        AddressingMode::ZeroPageX => Some(s.mem[s.pc as int].wrapping_add(s.x) as u16),
        AddressingMode::ZeroPageY => Some(s.mem[s.pc as int].wrapping_add(s.y) as u16),
        AddressingMode::Absolute => if s.pc == 0xFFFF {
            None
        } else {
            Some(word_at(s.mem, s.pc))
        },
        AddressingMode::AbsoluteX => if s.pc == 0xFFFF {
            None
        } else {
            Some(word_at(s.mem, s.pc).wrapping_add(s.x as u16))
        },
        AddressingMode::AbsoluteY => if s.pc == 0xFFFF {
            None
        } else {
            Some(word_at(s.mem, s.pc).wrapping_add(s.y as u16))
        },
        AddressingMode::Indirect => if s.pc == 0xFFFF {
            None
        } else {
            let pointer = word_at(s.mem, s.pc);
            if pointer == 0xFFFF {
                None
            } else {
                Some(word_at(s.mem, pointer))
            }
        },
        AddressingMode::IndirectX => Some(
            word_at(s.mem, s.mem[s.pc as int].wrapping_add(s.x) as u16),
        ),
        AddressingMode::IndirectY => Some(
            word_at(s.mem, s.mem[s.pc as int].wrapping_add(s.y) as u16),
        ),
        AddressingMode::Accumulator => None,
        AddressingMode::NoneAddressing => None,
    }
}

/// INX: X is incremented with 8-bit wraparound and the flags follow the new
/// X.
pub open spec fn op_inx(s: CpuView) -> CpuView {
    let x = s.x.wrapping_add(1);
    CpuView { x, status: flags_after(s.status, x), ..s }
}

/// TAX: the accumulator is copied into X and the flags follow the new X.
pub open spec fn op_tax(s: CpuView) -> CpuView {
    CpuView { x: s.a, status: flags_after(s.status, s.a), ..s }
}

/// LDA: the byte at `addr` is loaded into the accumulator and the flags
/// follow it.
pub open spec fn op_lda(s: CpuView, addr: u16) -> CpuView {
    let value = s.mem[addr as int];
    CpuView { a: value, status: flags_after(s.status, value), ..s }
}

/// LDX: the byte at `addr` is loaded into X and the flags follow it.
pub open spec fn op_ldx(s: CpuView, addr: u16) -> CpuView {
    let value = s.mem[addr as int];
    CpuView { x: value, status: flags_after(s.status, value), ..s }
}

/// STA: the accumulator is stored at `addr`.  Stores never affect flags.
pub open spec fn op_sta(s: CpuView, addr: u16) -> CpuView {
    CpuView { mem: s.mem.update(addr as int, s.a), ..s }
}

/// The opcode bytes of the LDA family.
pub open spec fn is_lda(code: u8) -> bool {
    code == 0xA9 || code == 0xA5 || code == 0xB5 || code == 0xAD || code == 0xBD || code == 0xB9
        || code == 0xA1 || code == 0xB1
}

/// The opcode bytes of the LDX family.
pub open spec fn is_ldx(code: u8) -> bool {
    code == 0xA2 || code == 0xA6 || code == 0xB6 || code == 0xAE || code == 0xBE
}

/// The opcode bytes of the STA family.
pub open spec fn is_sta(code: u8) -> bool {
    code == 0x85 || code == 0x95 || code == 0x8D || code == 0x9D || code == 0x99 || code == 0x81
        || code == 0x91
}

/// The state after the program counter has skipped the operand bytes of an
/// instruction of the given encoded length (the opcode byte itself was
/// already consumed by the fetch).
pub open spec fn advanced(s: CpuView, length: u8) -> CpuView {
    CpuView { pc: s.pc.wrapping_add((length - 1) as u16), ..s }
}

/// What one fetch-decode-execute iteration does to the machine.
pub ghost enum Step {
    /// The instruction completed and execution continues in this state.
    Next(CpuView),
    /// A BRK was fetched: execution halts in this state.
    Halt(CpuView),
    /// A fatal error: execution aborts, leaving this state.
    Fault(CpuView, CpuError),
}

/// One iteration of the fetch-decode-execute loop, from state `s`: fetch
/// the opcode byte at the program counter and advance past it; look the byte
/// up in the catalog (absence is fatal); dispatch; then skip the operand
/// bytes.  BRK halts; a cataloged opcode without a dispatch arm is a
/// distinct fatal error, never a silent no-op.
pub open spec fn step(s: CpuView) -> Step {
    let code = s.mem[s.pc as int];
    let fetched = CpuView { pc: s.pc.wrapping_add(1), ..s };
    match opcode_info(code) {
        Option::None => Step::Fault(fetched, CpuError::UnrecognizedOpcode(code)),
        Option::Some(info) => {
            if code == 0x00 {
                Step::Halt(fetched)
            } else if code == 0xE8 {
                Step::Next(advanced(op_inx(fetched), info.length))
            } else if code == 0xAA {
                Step::Next(advanced(op_tax(fetched), info.length))
            } else if is_lda(code) || is_ldx(code) || is_sta(code) {
                match resolve(info.mode, fetched) {
                    Option::None => Step::Fault(fetched, CpuError::AddressOutOfRange),
                    Option::Some(addr) => {
                        let applied = if is_lda(code) {
                            op_lda(fetched, addr)
                        } else if is_ldx(code) {
                            op_ldx(fetched, addr)
                        } else {
                            op_sta(fetched, addr)
                        };
                        Step::Next(advanced(applied, info.length))
                    },
                }
            } else {
                Step::Fault(fetched, CpuError::UnimplementedOpcode(code))
            }
        },
    }
}

/// Execution from `s` reaches the terminal `outcome` after at most `n`
/// completed instructions.
pub open spec fn run_ends(s: CpuView, outcome: Step, n: nat) -> bool
    decreases n,
{
    match step(s) {
        Step::Next(next) => n > 0 && run_ends(next, outcome, (n - 1) as nat),
        _ => outcome == step(s),
    }
}

/// Execution from `s` halts or faults, ending exactly in `outcome`.
pub open spec fn terminates_with(s: CpuView, outcome: Step) -> bool {
    exists|n: nat| run_ends(s, outcome, n)
}

/// Execution from `s` reaches BRK or a fatal error after finitely many
/// instructions.  A program that never does (nothing in this opcode subset
/// rewrites the program counter, but a wrapped counter can revisit old
/// bytes forever) runs without end, which no verified loop may do.
pub open spec fn halts(s: CpuView) -> bool {
    exists|outcome: Step, n: nat| run_ends(s, outcome, n)
}

/// Execution is deterministic: if both `o1` and `o2` can be reached from
/// `s` as terminal outcomes within some number of instructions, they are the
/// same outcome.  So the engine never has a choice between halting and
/// faulting, nor between two final states.
pub proof fn lemma_outcome_unique(s: CpuView, o1: Step, o2: Step)
    requires
        terminates_with(s, o1),
        terminates_with(s, o2),
    ensures
        o1 == o2,
{
    let n1 = choose|n: nat| run_ends(s, o1, n);
    let n2 = choose|n: nat| run_ends(s, o2, n);
    lemma_run_ends_unique(s, o1, o2, n1, n2);
}

proof fn lemma_run_ends_unique(s: CpuView, o1: Step, o2: Step, n1: nat, n2: nat)
    requires
        run_ends(s, o1, n1),
        run_ends(s, o2, n2),
    ensures
        o1 == o2,
    decreases n1,
{
    match step(s) {
        Step::Next(next) => {
            lemma_run_ends_unique(next, o1, o2, (n1 - 1) as nat, (n2 - 1) as nat);
        },
        _ => {
        },
    }
}

/// Memory after `load`: the program bytes sit at [`PROGRAM_START`], the
/// reset vector holds [`PROGRAM_START`] as a little-endian word (written
/// after the copy, so it wins even when a maximal program reaches it), and
/// every other byte is untouched.
pub open spec fn loaded_mem(mem: Seq<u8>, program: Seq<u8>) -> Seq<u8> {
    let with_program = Seq::new(
        mem.len(),
        |i: int|
            if PROGRAM_START <= i < PROGRAM_START + program.len() {
                program[i - PROGRAM_START]
            } else {
                mem[i]
            },
    );
    word_written(with_program, RESET_VECTOR, PROGRAM_START)
}

/// The machine after `load`: memory as [`loaded_mem`], the program counter
/// at the origin, registers and flags untouched.
pub open spec fn after_load(s: CpuView, program: Seq<u8>) -> CpuView {
    CpuView { pc: PROGRAM_START, mem: loaded_mem(s.mem, program), ..s }
}

/// The machine after `reset`: all three registers and the status byte are
/// zeroed and the program counter is read from the reset vector.  Memory is
/// untouched.
pub open spec fn after_reset(s: CpuView) -> CpuView {
    CpuView { a: 0, x: 0, y: 0, status: 0, pc: word_at(s.mem, RESET_VECTOR), ..s }
}

/// The machine `run` starts executing from: load, then reset.
pub open spec fn start_state(s: CpuView, program: Seq<u8>) -> CpuView {
    after_reset(after_load(s, program))
}

/// INX wraps: from X = 0xFF the new X is 0x00, with the zero flag set and
/// the negative flag clear — in every state, whatever the other registers
/// and flags hold.
pub proof fn lemma_inx_wraparound(s: CpuView)
    requires
        s.x == 0xFF,
    ensures
        op_inx(s).x == 0,
        op_inx(s).status & 0x02 != 0,
        op_inx(s).status & 0x80 == 0,
{
    lemma_flag_consistency(s.status, 0);
    assert(0u8 & 0x80 == 0) by (bit_vector);
}

/// Reset is idempotent: a second `reset` with no intervening `load` (or any
/// other change to memory) leaves the registers, flags and program counter
/// exactly as the first one did.
pub proof fn lemma_reset_idempotent(s: CpuView)
    ensures
        after_reset(after_reset(s)) == after_reset(s),
{
}

} // verus!
