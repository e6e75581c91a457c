//! The execution engine: registers, status flags, program counter and the
//! addressable memory, together with the load / reset / fetch-decode-execute
//! cycle.  Every method is specified against the abstract machine of
//! [`crate::semantics`].

use vstd::prelude::*;

use crate::opcodes::lookup;
use crate::semantics::{
    after_load, after_reset, flags_after, halts, op_inx, op_lda, op_ldx, op_sta, op_tax,
    resolvable, resolve, run_ends, start_state, step, terminates_with, word_at, word_written,
    CpuView, Step, MAX_PROGRAM_SIZE, MEMORY_SIZE, PROGRAM_START, RESET_VECTOR,
};

verus! {

/// The rule by which an instruction's operand location is computed from the
/// bytes that follow the opcode.  `Accumulator` and `NoneAddressing` name
/// instructions whose operand is not in memory at all; asking the resolver
/// for their address is a contract violation.
#[derive(Clone, Copy, Debug, PartialEq, Eq, Structural)]
pub enum AddressingMode {
    Immediate,
    ZeroPage,
    ZeroPageX,
    ZeroPageY,
    Absolute,
    AbsoluteX,
    AbsoluteY,
    Indirect,
    IndirectX,
    IndirectY,
    Accumulator,
    NoneAddressing,
}

/// A fatal execution error.  No error is recoverable mid-instruction: the
/// engine reports it and leaves the machine exactly as the failing fetch
/// left it.
#[derive(Clone, Copy, Debug, PartialEq, Eq, Structural)]
pub enum CpuError {
    /// The fetched opcode byte is absent from the catalog: the program is
    /// malformed or uses an instruction outside the supported set.
    UnrecognizedOpcode(u8),
    /// The fetched opcode is cataloged but has no dispatch arm yet; kept
    /// distinct from `UnrecognizedOpcode` for clearer diagnostics.
    UnimplementedOpcode(u8),
    /// Resolving the operand would read a word at the very top of memory,
    /// whose second byte lies outside the address space.
    AddressOutOfRange,
    /// The program does not fit between the load origin and the top of
    /// memory.
    ProgramTooLarge,
}

/// The processor: three 8-bit registers, the status byte, the 16-bit
/// program counter, and the 64 KiB memory it owns exclusively.
pub struct CPU {
    pub register_a: u8,
    pub register_x: u8,
    pub register_y: u8,
    pub status: u8,
    pub program_counter: u16,
    memory: Vec<u8>,
}

impl View for CPU {
    type V = CpuView;

    closed spec fn view(&self) -> CpuView {
        CpuView {
            a: self.register_a,
            x: self.register_x,
            y: self.register_y,
            status: self.status,
            pc: self.program_counter,
            mem: self.memory@,
        }
    }
}

impl CPU {
    /// The memory vector spans the whole address space.  Established by
    /// `new` and preserved by every method.
    pub open spec fn wf(&self) -> bool {
        self@.wf()
    }

    /// A fresh machine: all registers, flags and the program counter are
    /// zero, and so is every byte of memory.
    pub fn new() -> (cpu: CPU)
        ensures
            cpu.wf(),
            cpu@.a == 0,
            cpu@.x == 0,
            cpu@.y == 0,
            cpu@.status == 0,
            cpu@.pc == 0,
            forall|i: int| 0 <= i < MEMORY_SIZE ==> cpu@.mem[i] == 0,
    {
        let memory = vec![0u8; MEMORY_SIZE];
        CPU {
            register_a: 0,
            register_x: 0,
            register_y: 0,
            status: 0,
            program_counter: 0,
            memory,
        }
    }

    /// Read the byte at `addr`.  Every 16-bit address lies inside the
    /// 64 KiB space, so a single-byte read cannot go out of range.
    pub fn mem_read(&self, addr: u16) -> (b: u8)
        requires
            self.wf(),
        ensures
            b == self@.mem[addr as int],
    {
        self.memory[addr as usize]
    }

    /// Write `data` to the byte at `addr`.  No side effect beyond the
    /// targeted byte.
    pub fn mem_write(&mut self, addr: u16, data: u8)
        requires
            old(self).wf(),
        ensures
            final(self).wf(),
            final(self)@ == (CpuView { mem: old(self)@.mem.update(addr as int, data), ..old(self)@ }),
    {
        self.memory.set(addr as usize, data);
    }

    /// Read the little-endian word whose low byte sits at `pos`.  The high
    /// byte sits at `pos + 1`, so `pos` must not be the last address.
    pub fn mem_read_u16(&self, pos: u16) -> (w: u16)
        requires
            self.wf(),
            pos < 0xFFFF,
        ensures
            w == word_at(self@.mem, pos),
    {
        let lower = self.mem_read(pos);
        let upper = self.mem_read(pos + 1);
        lower as u16 + 256 * (upper as u16)
    }

    /// Write `data` as a little-endian word: low byte at `pos`, high byte
    /// at `pos + 1`, which must both be in range.
    pub fn mem_write_u16(&mut self, pos: u16, data: u16)
        requires
            old(self).wf(),
            pos < 0xFFFF,
        ensures
            final(self).wf(),
            final(self)@ == (CpuView { mem: word_written(old(self)@.mem, pos, data), ..old(self)@ }),
    {
        let lower = (data % 256) as u8;
        let upper = (data / 256) as u8;
        self.mem_write(pos, lower);
        self.mem_write(pos + 1, upper);
    }

    /// Set the zero and negative flags from the 8-bit result of an
    /// operation, leaving every other status bit alone.
    fn set_cpu_status_flags(&mut self, result: u8)
        requires
            old(self).wf(),
        ensures
            final(self).wf(),
            final(self)@ == (CpuView { status: flags_after(old(self)@.status, result), ..old(self)@ }),
    {
        if result == 0 {
            self.status = self.status | 0b0000_0010;
        } else {
            self.status = self.status & 0b1111_1101;
        }
        if result & 0b1000_0000 != 0 {
            self.status = self.status | 0b1000_0000;
        } else {
            self.status = self.status & 0b0111_1111;
        }
    }

    /// INX: add one to X with 8-bit wraparound and update the flags from
    /// the new X.
    fn inx(&mut self)
        requires
            old(self).wf(),
        ensures
            final(self).wf(),
            final(self)@ == op_inx(old(self)@),
    {
        if self.register_x == u8::MAX {
            self.register_x = 0;
        } else {
            self.register_x = self.register_x + 1;
        }
        let x = self.register_x;
        self.set_cpu_status_flags(x);
    }

    /// TAX: copy the accumulator into X and update the flags from the new
    /// X.
    fn tax(&mut self)
        requires
            old(self).wf(),
        ensures
            final(self).wf(),
            final(self)@ == op_tax(old(self)@),
    {
        self.register_x = self.register_a;
        let x = self.register_x;
        self.set_cpu_status_flags(x);
    }

    /// Compute the memory address of the operand pointed to by the program
    /// counter, under the given addressing mode.  The mode must be one that
    /// names a memory operand; an indexed or indirect dereference that would
    /// read a word at the top of memory is reported as a fatal range error.
    fn get_operand_address(&self, mode: &AddressingMode) -> (addr: Result<u16, CpuError>)
        requires
            self.wf(),
            resolvable(*mode),
        ensures
            match resolve(*mode, self@) {
                Some(a) => addr == Ok::<u16, CpuError>(a),
                None => addr == Err::<u16, CpuError>(CpuError::AddressOutOfRange),
            },
    {
        match mode {
            AddressingMode::Immediate => Ok(self.program_counter),
            AddressingMode::ZeroPage => Ok(self.mem_read(self.program_counter) as u16),
            AddressingMode::ZeroPageX => {
                let pos = self.mem_read(self.program_counter);
                Ok(pos.wrapping_add(self.register_x) as u16)
            },
            AddressingMode::ZeroPageY => {
                let pos = self.mem_read(self.program_counter);
                Ok(pos.wrapping_add(self.register_y) as u16)
            },
            AddressingMode::Absolute => {
                if self.program_counter == 0xFFFF {
                    Err(CpuError::AddressOutOfRange)
                } else {
                    Ok(self.mem_read_u16(self.program_counter))
                }
            },
            AddressingMode::AbsoluteX => {
                if self.program_counter == 0xFFFF {
                    Err(CpuError::AddressOutOfRange)
                } else {
                    let pos = self.mem_read_u16(self.program_counter);
                    Ok(pos.wrapping_add(self.register_x as u16))
                }
            },
            AddressingMode::AbsoluteY => {
                if self.program_counter == 0xFFFF {
                    Err(CpuError::AddressOutOfRange)
                } else {
                    let pos = self.mem_read_u16(self.program_counter);
                    Ok(pos.wrapping_add(self.register_y as u16))
                }
            },
            AddressingMode::Indirect => {
                if self.program_counter == 0xFFFF {
                    Err(CpuError::AddressOutOfRange)
                } else {
                    let pointer = self.mem_read_u16(self.program_counter);
                    if pointer == 0xFFFF {
                        Err(CpuError::AddressOutOfRange)
                    } else {
                        Ok(self.mem_read_u16(pointer))
                    }
                }
            },
            AddressingMode::IndirectX => {
                let pos = self.mem_read(self.program_counter);
                let pointer = pos.wrapping_add(self.register_x) as u16;
                Ok(self.mem_read_u16(pointer))
            },
            AddressingMode::IndirectY => {
                let pos = self.mem_read(self.program_counter);
                let pointer = pos.wrapping_add(self.register_y) as u16;
                Ok(self.mem_read_u16(pointer))
            },
            AddressingMode::Accumulator => unreached(),
            AddressingMode::NoneAddressing => unreached(),
        }
    }

    /// LDA: load the byte at the resolved operand address into the
    /// accumulator and update the flags from it.
    fn lda(&mut self, mode: &AddressingMode) -> (r: Result<(), CpuError>)
        requires
            old(self).wf(),
            resolvable(*mode),
        ensures
            final(self).wf(),
            match resolve(*mode, old(self)@) {
                Some(addr) => r == Ok::<(), CpuError>(()) && final(self)@ == op_lda(
                    old(self)@,
                    addr,
                ),
                None => r == Err::<(), CpuError>(CpuError::AddressOutOfRange) && final(self)@
                    == old(self)@,
            },
    {
        let addr = match self.get_operand_address(mode) {
            Ok(addr) => addr,
            Err(e) => return Err(e),
        };
        let value = self.mem_read(addr);
        self.register_a = value;
        let a = self.register_a;
        self.set_cpu_status_flags(a);
        Ok(())
    }

    /// LDX: load the byte at the resolved operand address into X and update
    /// the flags from it.
    fn ldx(&mut self, mode: &AddressingMode) -> (r: Result<(), CpuError>)
        requires
            old(self).wf(),
            resolvable(*mode),
        ensures
            final(self).wf(),
            match resolve(*mode, old(self)@) {
                Some(addr) => r == Ok::<(), CpuError>(()) && final(self)@ == op_ldx(
                    old(self)@,
                    addr,
                ),
                None => r == Err::<(), CpuError>(CpuError::AddressOutOfRange) && final(self)@
                    == old(self)@,
            },
    {
        let addr = match self.get_operand_address(mode) {
            Ok(addr) => addr,
            Err(e) => return Err(e),
        };
        let value = self.mem_read(addr);
        self.register_x = value;
        let x = self.register_x;
        self.set_cpu_status_flags(x);
        Ok(())
    }

    /// STA: store the accumulator at the resolved operand address.  Stores
    /// never affect flags.
    fn sta(&mut self, mode: &AddressingMode) -> (r: Result<(), CpuError>)
        requires
            old(self).wf(),
            resolvable(*mode),
        ensures
            final(self).wf(),
            match resolve(*mode, old(self)@) {
                Some(addr) => r == Ok::<(), CpuError>(()) && final(self)@ == op_sta(
                    old(self)@,
                    addr,
                ),
                None => r == Err::<(), CpuError>(CpuError::AddressOutOfRange) && final(self)@
                    == old(self)@,
            },
    {
        let addr = match self.get_operand_address(mode) {
            Ok(addr) => addr,
            Err(e) => return Err(e),
        };
        let a = self.register_a;
        self.mem_write(addr, a);
        Ok(())
    }

    /// Copy the program into memory at the fixed origin, write the origin
    /// into the reset vector as a little-endian word, and point the program
    /// counter at the origin.  A program larger than the space between the
    /// origin and the top of memory is rejected whole, leaving the machine
    /// untouched.
    pub fn load(&mut self, program: Vec<u8>) -> (r: Result<(), CpuError>)
        requires
            old(self).wf(),
        ensures
            final(self).wf(),
            program@.len() > MAX_PROGRAM_SIZE ==> r == Err::<(), CpuError>(CpuError::ProgramTooLarge)
                && final(self)@ == old(self)@,
            program@.len() <= MAX_PROGRAM_SIZE ==> r == Ok::<(), CpuError>(()) && final(self)@ == after_load(
                old(self)@,
                program@,
            ),
    {
        if program.len() > MAX_PROGRAM_SIZE {
            return Err(CpuError::ProgramTooLarge);
        }
        let ghost orig = self@;
        let mut i: usize = 0;
        while i < program.len()
            invariant
                self.wf(),
                program@.len() <= MAX_PROGRAM_SIZE,
                i <= program@.len(),
                self@.a == orig.a,
                self@.x == orig.x,
                self@.y == orig.y,
                self@.status == orig.status,
                self@.pc == orig.pc,
                orig.mem.len() == MEMORY_SIZE,
                forall|j: int|
                    0 <= j < MEMORY_SIZE ==> self@.mem[j] == if PROGRAM_START <= j < PROGRAM_START
                        + i {
                        program@[j - PROGRAM_START]
                    } else {
                        orig.mem[j]
                    },
            decreases program@.len() - i,
        {
            let byte = program[i];
            self.mem_write(PROGRAM_START + i as u16, byte);
            i = i + 1;
        }
        self.mem_write_u16(RESET_VECTOR, PROGRAM_START);
        self.program_counter = PROGRAM_START;
        proof {
            assert(self@.mem =~= after_load(orig, program@).mem);
            assert(self@ =~= after_load(orig, program@));
        }
        Ok(())
    }

    /// Zero the three registers and the status byte and read the program
    /// counter back from the reset vector.  Memory is untouched, so a second
    /// reset with no intervening load reproduces the same state.
    pub fn reset(&mut self)
        requires
            old(self).wf(),
        ensures
            final(self).wf(),
            final(self)@ == after_reset(old(self)@),
    {
        self.register_a = 0;
        self.register_x = 0;
        self.register_y = 0;
        self.status = 0;
        self.program_counter = self.mem_read_u16(RESET_VECTOR);
    }

    /// One iteration of the fetch-decode-execute loop: fetch the opcode
    /// byte at the program counter, advance past it, look it up in the
    /// catalog, dispatch, and skip the operand bytes.  Returns `Ok(true)`
    /// when the instruction was BRK (the machine is halted), `Ok(false)`
    /// when execution may continue, and the fatal error otherwise — exactly
    /// as [`step`] states for the prior state.  Exposed so that a caller
    /// who cannot know a program halts may drive execution under a step
    /// budget of its own.
    pub fn step(&mut self) -> (r: Result<bool, CpuError>)
        requires
            old(self).wf(),
        ensures
            final(self).wf(),
            match step(old(self)@) {
                Step::Halt(s) => r == Ok::<bool, CpuError>(true) && final(self)@ == s,
                Step::Next(s) => r == Ok::<bool, CpuError>(false) && final(self)@ == s,
                Step::Fault(s, e) => r == Err::<bool, CpuError>(e) && final(self)@ == s,
            },
    {
        let opcode = self.mem_read(self.program_counter);
        self.program_counter = self.program_counter.wrapping_add(1);
        let entry = match lookup(opcode) {
            Some(entry) => entry,
            None => return Err(CpuError::UnrecognizedOpcode(opcode)),
        };
        if opcode == 0x00 {
            // BRK
            return Ok(true);
        } else if opcode == 0xE8 {
            self.inx();
        } else if opcode == 0xAA {
            self.tax();
        } else if opcode == 0xA9 || opcode == 0xA5 || opcode == 0xB5 || opcode == 0xAD || opcode
            == 0xBD || opcode == 0xB9 || opcode == 0xA1 || opcode == 0xB1 {
            match self.lda(&entry.mode) {
                Ok(()) => (),
                Err(e) => return Err(e),
            }
        } else if opcode == 0xA2 || opcode == 0xA6 || opcode == 0xB6 || opcode == 0xAE || opcode
            == 0xBE {
            match self.ldx(&entry.mode) {
                Ok(()) => (),
                Err(e) => return Err(e),
            }
        } else if opcode == 0x85 || opcode == 0x95 || opcode == 0x8D || opcode == 0x9D || opcode
            == 0x99 || opcode == 0x81 || opcode == 0x91 {
            match self.sta(&entry.mode) {
                Ok(()) => (),
                Err(e) => return Err(e),
            }
        } else {
            return Err(CpuError::UnimplementedOpcode(opcode));
        }
        self.program_counter = self.program_counter.wrapping_add((entry.length - 1) as u16);
        Ok(false)
    }

    /// The fetch-decode-execute loop, to be called once `load` and `reset`
    /// have set the machine up.  Runs until BRK (`Ok`) or a fatal error
    /// (`Err`), leaving the machine exactly where the halt or the fault
    /// left it.  Every verified loop must provably end, so the caller must
    /// know that execution from the current state halts; for an arbitrary
    /// program, drive [`CPU::step`] under a step budget instead.
    pub fn execute(&mut self) -> (r: Result<(), CpuError>)
        requires
            old(self).wf(),
            halts(old(self)@),
        ensures
            final(self).wf(),
            r is Ok ==> terminates_with(old(self)@, Step::Halt(final(self)@)),
            r matches Err(e) ==> terminates_with(old(self)@, Step::Fault(final(self)@, e)),
    {
        let ghost init = self@;
        let ghost (outcome, initial_fuel) = choose|o: Step, n: nat| run_ends(init, o, n);
        let ghost mut fuel: nat = initial_fuel;
        loop
            invariant
                self.wf(),
                init == old(self)@,
                run_ends(self@, outcome, fuel),
                run_ends(init, outcome, initial_fuel),
            decreases fuel,
        {
            match self.step() {
                Ok(true) => {
                    proof {
                        assert(outcome == Step::Halt(self@));
                        assert(terminates_with(init, outcome));
                    }
                    return Ok(());
                },
                Ok(false) => {
                    proof {
                        fuel = (fuel - 1) as nat;
                    }
                },
                Err(e) => {
                    proof {
                        assert(outcome == Step::Fault(self@, e));
                        assert(terminates_with(init, outcome));
                    }
                    return Err(e);
                },
            }
        }
    }

    /// Load the program, reset the machine, and execute it: the convenience
    /// composition a caller uses to run a byte program from scratch.  The
    /// caller must know the program halts (reaches BRK or a fault); see
    /// [`CPU::execute`].
    pub fn run(&mut self, program: Vec<u8>) -> (r: Result<(), CpuError>)
        requires
            old(self).wf(),
            program@.len() <= MAX_PROGRAM_SIZE ==> halts(start_state(old(self)@, program@)),
        ensures
            final(self).wf(),
            program@.len() > MAX_PROGRAM_SIZE ==> r == Err::<(), CpuError>(CpuError::ProgramTooLarge)
                && final(self)@ == old(self)@,
            program@.len() <= MAX_PROGRAM_SIZE ==> {
                let started = start_state(old(self)@, program@);
                &&& r is Ok ==> terminates_with(started, Step::Halt(final(self)@))
                &&& r matches Err(e) ==> terminates_with(started, Step::Fault(final(self)@, e))
            },
    {
        match self.load(program) {
            Ok(()) => (),
            Err(e) => return Err(e),
        }
        self.reset();
        self.execute()
    }
}

} // verus!
