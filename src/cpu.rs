use vstd::prelude::*;

use crate::error::CpuError;
use crate::flags::{assign_flag, sign_bit, with_zero_negative, CpuFlags, Flag, POWER_UP_STATUS};
use crate::opcodes::{build_table, standard_entries, AddressMode, OpCode, OpcodeCatalog};

verus! {

/// Stack pointer value after power-up and after a reset.
pub const STACK_RESET: u8 = 0xfd;

/// Address at which `load` places a program.
pub const PROGRAM_BASE: u16 = 0x8000;

/// Address of the little-endian word from which `reset` takes the program counter.
pub const RESET_VECTOR: u16 = 0xFFFC;

/// Number of instructions after which `run` gives up on reaching BRK.
pub const MAX_STEPS: u64 = 0xFFFF_FFFF_FFFF_FFFF;

/// The 16-bit value with low byte `lo` and high byte `hi`.
pub open spec fn word(lo: u8, hi: u8) -> u16 {
    (hi as int * 0x100 + lo as int) as u16
}

/// Shifting the high byte up and or-ing in the low byte builds `word(lo, hi)`.
pub proof fn lemma_word_from_bytes(lo: u8, hi: u8)
    ensures
        ((hi as u16) << 8) | (lo as u16) == word(lo, hi),
{
    assert(((hi as u16) << 8) | (lo as u16) == hi as u16 * 256 + lo as u16) by (bit_vector);
}

/// The little-endian word at `addr`; the high byte comes from the next address,
/// wrapping from the end of memory to address 0.
pub open spec fn read_word(mem: Seq<u8>, addr: u16) -> u16 {
    word(mem[addr as int], mem[(addr as int + 1) % 0x10000])
}

/// The little-endian word at zero-page address `ptr`; the high byte comes from the next
/// zero-page address, wrapping from 0xFF to 0x00.
pub open spec fn read_zero_page_word(mem: Seq<u8>, ptr: u8) -> u16 {
    word(mem[ptr as int], mem[(ptr as int + 1) % 0x100])
}

/// `x + y`, wrapped to 8 bits.
pub open spec fn add8(x: int, y: int) -> u8 {
    ((x + y) % 0x100) as u8
}

/// `x + y`, wrapped to 16 bits.
pub open spec fn add16(x: int, y: int) -> u16 {
    ((x + y) % 0x10000) as u16
}

/// Opcodes of LDA, one per addressing mode.
pub open spec fn is_lda(code: u8) -> bool {
    code == 0xA9 || code == 0xA5 || code == 0xB5 || code == 0xAD || code == 0xBD || code == 0xB9
        || code == 0xA1 || code == 0xB1
}

/// Opcodes of ADC, one per addressing mode.
pub open spec fn is_adc(code: u8) -> bool {
    code == 0x69 || code == 0x65 || code == 0x75 || code == 0x6D || code == 0x7D || code == 0x79
        || code == 0x61 || code == 0x71
}

/// Opcode of BRK.
pub const BRK: u8 = 0x00;

/// Opcode of TAX.
pub const TAX: u8 = 0xAA;

/// Opcode of INX.
pub const INX: u8 = 0xE8;

/// The whole machine state as a mathematical value.
pub struct CpuState {
    pub register_a: u8,
    pub register_x: u8,
    pub register_y: u8,
    pub status: CpuFlags,
    pub program_counter: u16,
    pub stack_pointer: u8,
    pub memory: Seq<u8>,
}

impl CpuState {
    /// Memory spans the whole 16-bit address space.
    pub open spec fn wf(self) -> bool {
        self.memory.len() == 0x10000
    }

    pub open spec fn with_pc(self, pc: u16) -> CpuState {
        CpuState { program_counter: pc, ..self }
    }

    pub open spec fn with_memory(self, memory: Seq<u8>) -> CpuState {
        CpuState { memory, ..self }
    }

    /// The effective address of an operand in `mode`, the program counter standing on the
    /// first operand byte.
    pub open spec fn operand_address(self, mode: AddressMode) -> Result<u16, CpuError> {
        let mem = self.memory;
        let pc = self.program_counter;
        match mode {
            AddressMode::Immediate => Ok(pc),
            AddressMode::ZeroPage => Ok(mem[pc as int] as u16),
            AddressMode::ZeroPageX => Ok(add8(mem[pc as int] as int, self.register_x as int) as u16),
            AddressMode::ZeroPageY => Ok(add8(mem[pc as int] as int, self.register_y as int) as u16),
            AddressMode::Absolute => Ok(read_word(mem, pc)),
            AddressMode::AbsoluteX => Ok(add16(read_word(mem, pc) as int, self.register_x as int)),
            AddressMode::AbsoluteY => Ok(add16(read_word(mem, pc) as int, self.register_y as int)),
            AddressMode::IndirectX => Ok(
                read_zero_page_word(mem, add8(mem[pc as int] as int, self.register_x as int)),
            ),
            AddressMode::IndirectY => Ok(
                add16(read_zero_page_word(mem, mem[pc as int]) as int, self.register_y as int),
            ),
            AddressMode::NoneAddress => Err(CpuError::UnsupportedAddressingMode),
        }
    }

    /// LDA: the accumulator takes the byte at `addr`; Zero and Negative describe it.
    pub open spec fn lda(self, addr: u16) -> CpuState {
        let v = self.memory[addr as int];
        CpuState { register_a: v, status: with_zero_negative(self.status, v), ..self }
    }

    /// TAX: X takes the accumulator; Zero and Negative describe it.
    pub open spec fn tax(self) -> CpuState {
        CpuState {
            register_x: self.register_a,
            status: with_zero_negative(self.status, self.register_a),
            ..self
        }
    }

    /// INX: X goes up by one, from 0xFF to 0x00; Zero and Negative describe the result.
    pub open spec fn inx(self) -> CpuState {
        let x = add8(self.register_x as int, 1);
        CpuState { register_x: x, status: with_zero_negative(self.status, x), ..self }
    }

    /// ADC: the accumulator takes the 8-bit sum of itself, the byte at `addr` and the carry.
    /// Carry tells whether the unsigned sum passed 0xFF, Overflow whether both operands had
    /// one sign and the result has the other, Zero and Negative describe the result.
    pub open spec fn adc(self, addr: u16) -> CpuState {
        let a = self.register_a;
        let m = self.memory[addr as int];
        let sum = a as int + m as int + if self.status.has(Flag::Carry) {
            1int
        } else {
            0int
        };
        let r = (sum % 0x100) as u8;
        let overflow = sign_bit(a) == sign_bit(m) && sign_bit(r) != sign_bit(a);
        let status = assign_flag(
            assign_flag(self.status, Flag::Carry, sum > 0xFF),
            Flag::Overflow,
            overflow,
        );
        CpuState { register_a: r, status: with_zero_negative(status, r), ..self }
    }

    /// The program counter moved past the operand bytes of `op`.
    pub open spec fn skip_operands(self, op: OpCode) -> CpuState {
        self.with_pc(add16(self.program_counter as int, op.len as int - 1))
    }

    /// Executes the instruction `code`, whose opcode byte has been consumed, as described by its
    /// catalog entry `op`. `Ok(true)` when it was BRK, `Ok(false)` when execution goes on.
    pub open spec fn execute(self, code: u8, op: OpCode) -> (CpuState, Result<bool, CpuError>) {
        if code == BRK {
            (self, Ok(true))
        } else if code == TAX {
            (self.tax().skip_operands(op), Ok(false))
        } else if code == INX {
            (self.inx().skip_operands(op), Ok(false))
        } else if is_lda(code) || is_adc(code) {
            match self.operand_address(op.mode) {
                Err(e) => (self, Err(e)),
                Ok(addr) => (
                    if is_lda(code) {
                        self.lda(addr)
                    } else {
                        self.adc(addr)
                    }.skip_operands(op),
                    Ok(false),
                ),
            }
        } else {
            (self, Err(CpuError::Unimplemented(code)))
        }
    }

    /// One fetch-decode-execute cycle against the catalog table `catalog`.
    pub open spec fn step(self, catalog: Seq<Option<OpCode>>) -> (CpuState, Result<bool, CpuError>) {
        let code = self.memory[self.program_counter as int];
        let fetched = self.with_pc(add16(self.program_counter as int, 1));
        match catalog[code as int] {
            None => (fetched, Err(CpuError::UnknownOpcode(code))),
            Some(op) => fetched.execute(code, op),
        }
    }

    /// Steps until BRK, an error, or `fuel` instructions without either.
    pub open spec fn run(self, catalog: Seq<Option<OpCode>>, fuel: nat) -> (CpuState, Result<(), CpuError>)
        decreases fuel,
    {
        if fuel == 0 {
            (self, Err(CpuError::StepLimit))
        } else {
            let (next, r) = self.step(catalog);
            match r {
                Err(e) => (next, Err(e)),
                Ok(true) => (next, Ok(())),
                Ok(false) => next.run(catalog, (fuel - 1) as nat),
            }
        }
    }

    /// `program` copied to memory from the base address on, the base address written at the
    /// reset vector, and the program counter on the base address.
    pub open spec fn loaded(self, program: Seq<u8>) -> CpuState {
        CpuState {
            memory: Seq::new(
                0x10000,
                |i: int|
                    if i == RESET_VECTOR as int {
                        0x00u8
                    } else if i == RESET_VECTOR as int + 1 {
                        0x80u8
                    } else if PROGRAM_BASE as int <= i < PROGRAM_BASE as int + program.len() {
                        program[i - PROGRAM_BASE as int]
                    } else {
                        self.memory[i]
                    },
            ),
            program_counter: PROGRAM_BASE,
            ..self
        }
    }

    /// Registers cleared, stack pointer and status at their power-up values, and the program
    /// counter taken from the reset vector; memory is kept.
    pub open spec fn reset(self) -> CpuState {
        CpuState {
            register_a: 0,
            register_x: 0,
            register_y: 0,
            stack_pointer: STACK_RESET,
            status: CpuFlags { bits: POWER_UP_STATUS },
            program_counter: read_word(self.memory, RESET_VECTOR),
            memory: self.memory,
        }
    }
}

/// Whether a program of `len` bytes fits between the base address and the end of memory.
pub open spec fn fits(len: nat) -> bool {
    PROGRAM_BASE as int + len <= 0x10000
}

/// The 6502 processor with its 64 KiB of memory.
pub struct CPU {
    pub register_a: u8,
    pub register_x: u8,
    pub register_y: u8,
    pub status: CpuFlags,
    pub program_counter: u16,
    pub stack_pointer: u8,
    memory: [u8; 0x10000],
}

impl View for CPU {
    type V = CpuState;

    closed spec fn view(&self) -> CpuState {
        CpuState {
            register_a: self.register_a,
            register_x: self.register_x,
            register_y: self.register_y,
            status: self.status,
            program_counter: self.program_counter,
            stack_pointer: self.stack_pointer,
            memory: self.memory@,
        }
    }
}

impl CPU {
    /// The view's memory always spans the address space.
    pub proof fn lemma_view_wf(&self)
        ensures
            self@.wf(),
    {
    }

    /// Registers, flags and program counter zeroed, stack pointer at its reset value, memory
    /// zeroed.
    pub fn new() -> (r: Self)
        ensures
            r@ == (CpuState {
                register_a: 0,
                register_x: 0,
                register_y: 0,
                status: CpuFlags { bits: 0 },
                program_counter: 0,
                stack_pointer: STACK_RESET,
                memory: Seq::new(0x10000, |i: int| 0u8),
            }),
    {
        let r = CPU {
            register_a: 0,
            register_x: 0,
            register_y: 0,
            stack_pointer: STACK_RESET,
            program_counter: 0,
            status: CpuFlags::from_bits_truncate(0),
            memory: [0u8; 0x10000],
        };
        assert(r.memory@ =~= Seq::new(0x10000, |i: int| 0u8));
        r
    }

    /// The value of the accumulator.
    pub fn register_a(&self) -> (r: u8)
        ensures
            r == self@.register_a,
    {
        self.register_a
    }

    /// Gives the accumulator the value `v`; nothing else changes.
    pub fn set_register_a(&mut self, v: u8)
        ensures
            final(self)@ == (CpuState { register_a: v, ..old(self)@ }),
    {
        self.register_a = v;
    }

    /// The value of the X register.
    pub fn register_x(&self) -> (r: u8)
        ensures
            r == self@.register_x,
    {
        self.register_x
    }

    /// Gives the X register the value `v`; nothing else changes.
    pub fn set_register_x(&mut self, v: u8)
        ensures
            final(self)@ == (CpuState { register_x: v, ..old(self)@ }),
    {
        self.register_x = v;
    }

    /// The value of the Y register.
    pub fn register_y(&self) -> (r: u8)
        ensures
            r == self@.register_y,
    {
        self.register_y
    }

    /// Gives the Y register the value `v`; nothing else changes.
    pub fn set_register_y(&mut self, v: u8)
        ensures
            final(self)@ == (CpuState { register_y: v, ..old(self)@ }),
    {
        self.register_y = v;
    }

    /// The value of the status register.
    pub fn status(&self) -> (r: CpuFlags)
        ensures
            r == self@.status,
    {
        self.status
    }

    /// Gives the status register the value `v`; nothing else changes.
    pub fn set_status(&mut self, v: CpuFlags)
        ensures
            final(self)@ == (CpuState { status: v, ..old(self)@ }),
    {
        self.status = v;
    }

    /// The value of the program counter.
    pub fn program_counter(&self) -> (r: u16)
        ensures
            r == self@.program_counter,
    {
        self.program_counter
    }

    /// Gives the program counter the value `v`; nothing else changes.
    pub fn set_program_counter(&mut self, v: u16)
        ensures
            final(self)@ == (CpuState { program_counter: v, ..old(self)@ }),
    {
        self.program_counter = v;
    }

    /// The value of the stack pointer.
    pub fn stack_pointer(&self) -> (r: u8)
        ensures
            r == self@.stack_pointer,
    {
        self.stack_pointer
    }

    /// Gives the stack pointer the value `v`; nothing else changes.
    pub fn set_stack_pointer(&mut self, v: u8)
        ensures
            final(self)@ == (CpuState { stack_pointer: v, ..old(self)@ }),
    {
        self.stack_pointer = v;
    }

    pub fn mem_read(&self, addr: u16) -> (r: u8)
        ensures
            r == self@.memory[addr as int],
    {
        self.memory[addr as usize]
    }

    pub fn mem_write(&mut self, addr: u16, data: u8)
        ensures
            final(self)@ == old(self)@.with_memory(old(self)@.memory.update(addr as int, data)),
    {
        self.memory[addr as usize] = data;
        assert(self@.memory =~= old(self)@.memory.update(addr as int, data));
    }

    /// The little-endian word at `pos` and the address after it.
    pub fn mem_read_u16(&self, pos: u16) -> (r: u16)
        ensures
            r == read_word(self@.memory, pos),
    {
        let lo = self.mem_read(pos);
        let hi = self.mem_read(pos.wrapping_add(1));
        proof {
            lemma_word_from_bytes(lo, hi);
        }
        ((hi as u16) << 8) | (lo as u16)
    }

    /// The little-endian word at zero-page address `ptr` and the zero-page address after it.
    fn mem_read_zero_page_u16(&self, ptr: u8) -> (r: u16)
        ensures
            r == read_zero_page_word(self@.memory, ptr),
    {
        let lo = self.mem_read(ptr as u16);
        let hi = self.mem_read(ptr.wrapping_add(1) as u16);
        proof {
            lemma_word_from_bytes(lo, hi);
        }
        ((hi as u16) << 8) | (lo as u16)
    }

    /// Writes `data` little-endian at `pos` and the address after it.
    pub fn mem_write_u16(&mut self, pos: u16, data: u16)
        ensures
            final(self)@ == old(self)@.with_memory(
                old(self)@.memory.update(pos as int, (data % 0x100) as u8).update(
                    (pos as int + 1) % 0x10000,
                    (data / 0x100) as u8,
                ),
            ),
    {
        let hi = (data >> 8) as u8;
        let lo = (data & 0xff) as u8;
        assert((data >> 8) as u8 == data / 256) by (bit_vector);
        assert((data & 0xff) as u8 == data % 256) by (bit_vector);
        self.mem_write(pos, lo);
        self.mem_write(pos.wrapping_add(1), hi);
    }

    /// The effective address of the current instruction's operand; the program counter
    /// stands on the first operand byte.
    pub fn get_operand_address(&self, mode: &AddressMode) -> (r: Result<u16, CpuError>)
        ensures
            r == self@.operand_address(*mode),
    {
        let pc = self.program_counter;
        match mode {
            AddressMode::Immediate => Ok(pc),
            AddressMode::ZeroPage => Ok(self.mem_read(pc) as u16),
            AddressMode::ZeroPageX => {
                let pos = self.mem_read(pc);
                Ok(pos.wrapping_add(self.register_x) as u16)
            },
            AddressMode::ZeroPageY => {
                let pos = self.mem_read(pc);
                Ok(pos.wrapping_add(self.register_y) as u16)
            },
            AddressMode::Absolute => Ok(self.mem_read_u16(pc)),
            AddressMode::AbsoluteX => {
                let base = self.mem_read_u16(pc);
                Ok(base.wrapping_add(self.register_x as u16))
            },
            AddressMode::AbsoluteY => {
                let base = self.mem_read_u16(pc);
                Ok(base.wrapping_add(self.register_y as u16))
            },
            AddressMode::IndirectX => {
                let base = self.mem_read(pc);
                let ptr = base.wrapping_add(self.register_x);
                Ok(self.mem_read_zero_page_u16(ptr))
            },
            AddressMode::IndirectY => {
                let base = self.mem_read(pc);
                let deref_base = self.mem_read_zero_page_u16(base);
                Ok(deref_base.wrapping_add(self.register_y as u16))
            },
            AddressMode::NoneAddress => Err(CpuError::UnsupportedAddressingMode),
        }
    }

    /// Copies `program` to memory from the base address on, writes the base address at the
    /// reset vector, and points the program counter at it. Refuses a program that does not fit.
    pub fn load(&mut self, program: Vec<u8>) -> (r: Result<(), CpuError>)
        ensures
            fits(program@.len()) ==> r == Ok::<(), CpuError>(()) && final(self)@ == old(self)@.loaded(
                program@,
            ),
            !fits(program@.len()) ==> r == Err::<(), CpuError>(CpuError::ProgramTooLarge)
                && final(self)@ == old(self)@,
    {
        let n = program.len();
        if n > 0x8000 {
            return Err(CpuError::ProgramTooLarge);
        }
        let ghost start = self@;
        let mut i: usize = 0;
        assert(self@.memory =~= Seq::new(
            0x10000,
            |k: int|
                if 0x8000 <= k < 0x8000 + i {
                    program@[k - 0x8000]
                } else {
                    start.memory[k]
                },
        ));
        while i < n
            invariant
                n == program@.len() <= 0x8000,
                i <= n,
                start.wf(),
                self@ == start.with_memory(
                    Seq::new(
                        0x10000,
                        |k: int|
                            if 0x8000 <= k < 0x8000 + i {
                                program@[k - 0x8000]
                            } else {
                                start.memory[k]
                            },
                    ),
                ),
            decreases n - i,
        {
            self.memory[0x8000 + i] = program[i];
            assert(self@.memory =~= Seq::new(
                0x10000,
                |k: int|
                    if 0x8000 <= k < 0x8000 + i + 1 {
                        program@[k - 0x8000]
                    } else {
                        start.memory[k]
                    },
            ));
            i = i + 1;
        }
        self.program_counter = PROGRAM_BASE;
        self.mem_write_u16(RESET_VECTOR, PROGRAM_BASE);
        assert(self@.memory =~= start.loaded(program@).memory);
        Ok(())
    }

    /// Clears the registers, puts stack pointer and status at their power-up values, and takes
    /// the program counter from the reset vector.
    pub fn reset(&mut self)
        ensures
            final(self)@ == old(self)@.reset(),
    {
        self.register_a = 0;
        self.register_x = 0;
        self.register_y = 0;
        self.stack_pointer = STACK_RESET;
        self.status = CpuFlags::from_bits_truncate(POWER_UP_STATUS);
        self.program_counter = self.mem_read_u16(RESET_VECTOR);
    }

    /// LDA with its operand in `mode`.
    pub fn lda(&mut self, mode: &AddressMode) -> (r: Result<(), CpuError>)
        ensures
            match old(self)@.operand_address(*mode) {
                Ok(addr) => r is Ok && final(self)@ == old(self)@.lda(addr),
                Err(e) => r == Err::<(), CpuError>(e) && final(self)@ == old(self)@,
            },
    {
        let addr = match self.get_operand_address(mode) {
            Ok(addr) => addr,
            Err(e) => return Err(e),
        };
        let value = self.mem_read(addr);
        self.register_a = value;
        self.status.update_zero_negative(value);
        Ok(())
    }

    /// TAX: copies the accumulator to X.
    pub fn tax(&mut self)
        ensures
            final(self)@ == old(self)@.tax(),
    {
        self.register_x = self.register_a;
        self.status.update_zero_negative(self.register_x);
    }

    /// INX: increments X, wrapping from 0xFF to 0x00.
    pub fn inx(&mut self)
        ensures
            final(self)@ == old(self)@.inx(),
    {
        self.register_x = self.register_x.wrapping_add(1);
        self.status.update_zero_negative(self.register_x);
    }

    /// ADC with its operand in `mode`.
    pub fn adc(&mut self, mode: &AddressMode) -> (r: Result<(), CpuError>)
        ensures
            match old(self)@.operand_address(*mode) {
                Ok(addr) => r is Ok && final(self)@ == old(self)@.adc(addr),
                Err(e) => r == Err::<(), CpuError>(e) && final(self)@ == old(self)@,
            },
    {
        let addr = match self.get_operand_address(mode) {
            Ok(addr) => addr,
            Err(e) => return Err(e),
        };
        let m = self.mem_read(addr);
        let a = self.register_a;
        let carry_in: u16 = if self.status.test(Flag::Carry) {
            1
        } else {
            0
        };
        let sum: u16 = a as u16 + m as u16 + carry_in;
        let result = (sum % 0x100) as u8;
        let a_negative = a & 0x80 != 0;
        let overflow = a_negative == (m & 0x80 != 0) && (result & 0x80 != 0) != a_negative;
        self.status.assign(Flag::Carry, sum > 0xFF);
        self.status.assign(Flag::Overflow, overflow);
        self.register_a = result;
        self.status.update_zero_negative(result);
        Ok(())
    }

    /// Runs the handler of `code` and moves the program counter past its operand bytes.
    fn execute(&mut self, code: u8, op: &OpCode) -> (r: Result<bool, CpuError>)
        requires
            1 <= op.len <= 3,
        ensures
            (final(self)@, r) == old(self)@.execute(code, *op),
    {
        match code {
            0x00 => {
                return Ok(true);
            },
            0xAA => self.tax(),
            0xE8 => self.inx(),
            0xA9 | 0xA5 | 0xB5 | 0xAD | 0xBD | 0xB9 | 0xA1 | 0xB1 => {
                if let Err(e) = self.lda(&op.mode) {
                    return Err(e);
                }
            },
            0x69 | 0x65 | 0x75 | 0x6D | 0x7D | 0x79 | 0x61 | 0x71 => {
                if let Err(e) = self.adc(&op.mode) {
                    return Err(e);
                }
            },
            _ => {
                return Err(CpuError::Unimplemented(code));
            },
        }
        self.program_counter = self.program_counter.wrapping_add((op.len - 1) as u16);
        Ok(false)
    }

    /// Fetches, decodes and executes one instruction. `Ok(true)` when it was BRK.
    pub fn step(&mut self, catalog: &OpcodeCatalog) -> (r: Result<bool, CpuError>)
        ensures
            (final(self)@, r) == old(self)@.step(catalog@),
    {
        let code = self.mem_read(self.program_counter);
        self.program_counter = self.program_counter.wrapping_add(1);
        let op = match catalog.lookup(code) {
            Ok(op) => op,
            Err(e) => return Err(e),
        };
        self.execute(code, &op)
    }

    /// Executes instructions until BRK or an error; an error leaves the state as it was when
    /// the error came. Gives up with `StepLimit` after `MAX_STEPS` instructions.
    pub fn run(&mut self, catalog: &OpcodeCatalog) -> (r: Result<(), CpuError>)
        ensures
            (final(self)@, r) == old(self)@.run(catalog@, MAX_STEPS as nat),
    {
        let ghost start = self@;
        let mut fuel: u64 = MAX_STEPS;
        loop
            invariant
                start == old(self)@,
                self@.run(catalog@, fuel as nat) == start.run(catalog@, MAX_STEPS as nat),
            decreases fuel,
        {
            if fuel == 0 {
                return Err(CpuError::StepLimit);
            }
            let ghost before = self@;
            assert(before.run(catalog@, fuel as nat) == match before.step(catalog@) {
                (next, Err(e)) => (next, Err(e)),
                (next, Ok(true)) => (next, Ok(())),
                (next, Ok(false)) => next.run(catalog@, (fuel - 1) as nat),
            });
            match self.step(catalog) {
                Err(e) => return Err(e),
                Ok(true) => return Ok(()),
                Ok(false) => {},
            }
            fuel = fuel - 1;
        }
    }

    /// `load`, then `reset`, then `run`.
    pub fn load_and_run(&mut self, program: Vec<u8>, catalog: &OpcodeCatalog) -> (r: Result<(), CpuError>)
        ensures
            fits(program@.len()) ==> (final(self)@, r) == old(self)@.loaded(program@).reset().run(
                catalog@,
                MAX_STEPS as nat,
            ),
            !fits(program@.len()) ==> r == Err::<(), CpuError>(CpuError::ProgramTooLarge)
                && final(self)@ == old(self)@,
    {
        if let Err(e) = self.load(program) {
            return Err(e);
        }
        self.reset();
        self.run(catalog)
    }

    /// Loads `program` and executes it from the base address with the standard catalog,
    /// keeping the registers as they are.
    pub fn interpret(&mut self, program: Vec<u8>) -> (r: Result<(), CpuError>)
        ensures
            match build_table(standard_entries()) {
                Err(e) => r == Err::<(), CpuError>(e) && final(self)@ == old(self)@,
                Ok(table) => {
                    &&& fits(program@.len()) ==> (final(self)@, r) == old(self)@.loaded(
                        program@,
                    ).run(table, MAX_STEPS as nat)
                    &&& !fits(program@.len()) ==> r == Err::<(), CpuError>(
                        CpuError::ProgramTooLarge,
                    ) && final(self)@ == old(self)@
                },
            },
    {
        let catalog = match OpcodeCatalog::standard() {
            Ok(catalog) => catalog,
            Err(e) => return Err(e),
        };
        if let Err(e) = self.load(program) {
            return Err(e);
        }
        self.run(&catalog)
    }
}

} // verus!
