use vstd::prelude::*;

use crate::error::CpuError;

verus! {

/// How an instruction's operand bytes become the address it reads or writes.
#[derive(Clone, Copy, Debug, PartialEq, Eq, Structural)]
pub enum AddressMode {
    Immediate,
    Absolute,
    AbsoluteX,
    AbsoluteY,
    ZeroPage,
    ZeroPageX,
    ZeroPageY,
    IndirectX,
    IndirectY,
    /// Implied or accumulator operand, or one the engine decodes by itself (branches, jumps).
    NoneAddress,
}

/// What the catalog records of one opcode byte.
#[derive(Clone, Copy, Debug)]
pub struct OpCode {
    pub code: u8,
    pub mnemonic: &'static str,
    /// Length of the whole instruction in bytes, opcode included.
    pub len: u8,
    /// Base cycle count, before page-crossing or branch penalties.
    pub cycles: u8,
    pub mode: AddressMode,
}

pub open spec fn opcode(code: u8, mnemonic: &'static str, len: u8, cycles: u8, mode: AddressMode) -> OpCode {
    OpCode { code, mnemonic, len, cycles, mode }
}

impl OpCode {
    pub fn new(code: u8, mnemonic: &'static str, len: u8, cycles: u8, mode: AddressMode) -> (r: Self)
        ensures
            r == opcode(code, mnemonic, len, cycles, mode),
    {
        OpCode { code, mnemonic, len, cycles, mode }
    }
}

/// The catalog has a slot for each of the 256 opcode bytes.
pub open spec fn empty_table() -> Seq<Option<OpCode>> {
    Seq::new(256, |i: int| None)
}

/// The table that registering `entries` in order gives, or the first reason to refuse them:
/// an entry whose length is not 1 to 3 bytes, or whose code an earlier entry already took.
pub open spec fn build_table(entries: Seq<OpCode>) -> Result<Seq<Option<OpCode>>, CpuError>
    decreases entries.len(),
{
    if entries.len() == 0 {
        Ok(empty_table())
    } else {
        let op = entries.last();
        match build_table(entries.drop_last()) {
            Err(e) => Err(e),
            Ok(t) => if op.len < 1 || op.len > 3 {
                Err(CpuError::InvalidOperandLength(op.code))
            } else if t[op.code as int] is Some {
                Err(CpuError::DuplicateOpcode(op.code))
            } else {
                Ok(t.update(op.code as int, Some(op)))
            },
        }
    }
}

/// Every slot holds either nothing or the entry for its own byte, of a length of 1 to 3.
pub open spec fn table_wf(t: Seq<Option<OpCode>>) -> bool {
    &&& t.len() == 256
    &&& forall|i: int|
        0 <= i < 256 && #[trigger] t[i] is Some ==> t[i]->Some_0.code == i && 1
            <= t[i]->Some_0.len <= 3
}

/// Whether `entries` registers an entry for `code`.
pub open spec fn registers(entries: Seq<OpCode>, code: u8) -> bool {
    exists|k: int| 0 <= k < entries.len() && #[trigger] entries[k].code == code
}

/// A table built from entries is well formed, and has an entry for exactly the registered bytes,
/// each the one registered for it.
pub proof fn lemma_build_table_contents(entries: Seq<OpCode>)
    requires
        build_table(entries) is Ok,
    ensures
        table_wf(build_table(entries)->Ok_0),
        forall|c: u8|
            #![trigger build_table(entries)->Ok_0[c as int]]
            (build_table(entries)->Ok_0[c as int] is Some) == registers(entries, c),
        forall|k: int|
            0 <= k < entries.len() ==> build_table(entries)->Ok_0[#[trigger] entries[k].code as int]
                == Some(entries[k]),
    decreases entries.len(),
{
    if entries.len() > 0 {
        let prev = entries.drop_last();
        let op = entries.last();
        lemma_build_table_contents(prev);
        let t = build_table(prev)->Ok_0;
        assert forall|c: u8|
            #![trigger build_table(entries)->Ok_0[c as int]]
            (build_table(entries)->Ok_0[c as int] is Some) == registers(entries, c) by {
            if c == op.code {
                assert(entries[entries.len() - 1].code == c);
            } else {
                assert(t[c as int] is Some == registers(prev, c));
                if registers(entries, c) {
                    let k = choose|k: int| 0 <= k < entries.len() && #[trigger] entries[k].code == c;
                    assert(prev[k].code == c);
                }
                if registers(prev, c) {
                    let k = choose|k: int| 0 <= k < prev.len() && #[trigger] prev[k].code == c;
                    assert(entries[k].code == c);
                }
            }
        }
        assert forall|k: int| 0 <= k < entries.len() implies build_table(
            entries,
        )->Ok_0[#[trigger] entries[k].code as int] == Some(entries[k]) by {
            if k < entries.len() - 1 {
                assert(prev[k] == entries[k]);
                assert(entries[k].code != op.code);
            }
        }
    }
}

/// Once registering a prefix of the entries has failed, registering all of them fails the same way.
pub proof fn lemma_build_table_failure_stays(entries: Seq<OpCode>, k: int)
    requires
        0 <= k <= entries.len(),
        build_table(entries.take(k)) is Err,
    ensures
        build_table(entries) == build_table(entries.take(k)),
    decreases entries.len() - k,
{
    if k < entries.len() {
        assert(entries.take(k + 1).drop_last() =~= entries.take(k));
        lemma_build_table_failure_stays(entries, k + 1);
    } else {
        assert(entries.take(k) =~= entries);
    }
}

/// Immutable lookup from opcode byte to its catalog entry.
pub struct OpcodeCatalog {
    table: Vec<Option<OpCode>>,
}

impl View for OpcodeCatalog {
    type V = Seq<Option<OpCode>>;

    closed spec fn view(&self) -> Seq<Option<OpCode>> {
        self.table@
    }
}

/// Whether `r` is what registering `entries` gives.
pub open spec fn built_from(r: Result<OpcodeCatalog, CpuError>, entries: Seq<OpCode>) -> bool {
    match r {
        Ok(c) => build_table(entries) == Ok::<Seq<Option<OpCode>>, CpuError>(c@),
        Err(e) => build_table(entries) == Err::<Seq<Option<OpCode>>, CpuError>(e),
    }
}

impl OpcodeCatalog {
    #[verifier::type_invariant]
    spec fn inv(&self) -> bool {
        table_wf(self.table@)
    }

    /// Registers `entries` in order; refuses a length outside 1 to 3 bytes and a repeated code.
    pub fn from_entries(entries: &Vec<OpCode>) -> (r: Result<OpcodeCatalog, CpuError>)
        ensures
            built_from(r, entries@),
    {
        let mut table: Vec<Option<OpCode>> = Vec::new();
        let mut j: usize = 0;
        while j < 256
            invariant
                j <= 256,
                table@ =~= Seq::new(j as nat, |i: int| None::<OpCode>),
            decreases 256 - j,
        {
            table.push(None);
            j = j + 1;
        }
        assert(table@ =~= empty_table());
        assert(entries@.take(0) =~= Seq::<OpCode>::empty());
        let mut i: usize = 0;
        while i < entries.len()
            invariant
                i <= entries@.len(),
                build_table(entries@.take(i as int)) == Ok::<Seq<Option<OpCode>>, CpuError>(table@),
                table_wf(table@),
            decreases entries@.len() - i,
        {
            let op = entries[i];
            assert(entries@.take(i + 1).drop_last() =~= entries@.take(i as int));
            assert(entries@.take(i + 1).last() == op);
            if op.len < 1 || op.len > 3 {
                proof {
                    lemma_build_table_failure_stays(entries@, i + 1);
                }
                return Err(CpuError::InvalidOperandLength(op.code));
            }
            if table[op.code as usize].is_some() {
                proof {
                    lemma_build_table_failure_stays(entries@, i + 1);
                }
                return Err(CpuError::DuplicateOpcode(op.code));
            }
            table.set(op.code as usize, Some(op));
            proof {
                lemma_build_table_contents(entries@.take(i + 1));
            }
            i = i + 1;
        }
        assert(entries@.take(i as int) =~= entries@);
        proof {
            lemma_build_table_contents(entries@);
        }
        Ok(OpcodeCatalog { table })
    }

    /// The catalog of the 151 documented 6502 opcodes.
    pub fn standard() -> (r: Result<OpcodeCatalog, CpuError>)
        ensures
            built_from(r, standard_entries()),
    {
        let entries = cpu_ops_codes();
        OpcodeCatalog::from_entries(&entries)
    }

    /// The entry for `code`, or `UnknownOpcode` where the catalog has none.
    pub fn lookup(&self, code: u8) -> (r: Result<OpCode, CpuError>)
        ensures
            self@.len() == 256,
            r == (match self@[code as int] {
                Some(op) => Ok(op),
                None => Err(CpuError::UnknownOpcode(code)),
            }),
            r matches Ok(op) ==> op.code == code && 1 <= op.len <= 3,
    {
        proof {
            use_type_invariant(self);
        }
        match self.table[code as usize] {
            Some(op) => Ok(op),
            None => Err(CpuError::UnknownOpcode(code)),
        }
    }
}

/// The documented 6502 instruction set, one entry per opcode byte.
pub open spec fn standard_entries() -> Seq<OpCode> {
    seq![
        // ADC: Add with carry
        opcode(0x69, "ADC", 2, 2, AddressMode::Immediate),
        opcode(0x65, "ADC", 2, 3, AddressMode::ZeroPage),
        opcode(0x75, "ADC", 2, 4, AddressMode::ZeroPageX),
        opcode(0x6D, "ADC", 3, 4, AddressMode::Absolute),
        opcode(0x7D, "ADC", 3, 4, AddressMode::AbsoluteX),
        opcode(0x79, "ADC", 3, 4, AddressMode::AbsoluteY),
        opcode(0x61, "ADC", 2, 6, AddressMode::IndirectX),
        opcode(0x71, "ADC", 2, 5, AddressMode::IndirectY),
        // AND: Logical and
        opcode(0x29, "AND", 2, 2, AddressMode::Immediate),
        opcode(0x25, "AND", 2, 3, AddressMode::ZeroPage),
        opcode(0x35, "AND", 2, 4, AddressMode::ZeroPageX),
        opcode(0x2D, "AND", 3, 4, AddressMode::Absolute),
        opcode(0x3D, "AND", 3, 4, AddressMode::AbsoluteX),
        opcode(0x39, "AND", 3, 4, AddressMode::AbsoluteY),
        opcode(0x21, "AND", 2, 6, AddressMode::IndirectX),
        opcode(0x31, "AND", 2, 5, AddressMode::IndirectY),
        // ASL: Arithmetic shift left
        opcode(0x0A, "ASL", 1, 2, AddressMode::NoneAddress),
        opcode(0x06, "ASL", 2, 5, AddressMode::ZeroPage),
        opcode(0x16, "ASL", 2, 6, AddressMode::ZeroPageX),
        opcode(0x0E, "ASL", 3, 6, AddressMode::Absolute),
        opcode(0x1E, "ASL", 3, 7, AddressMode::AbsoluteX),
        // BCC: Branch if carry clear
        opcode(0x90, "BCC", 2, 2, AddressMode::NoneAddress),
        // BCS: Branch if carry set
        opcode(0xB0, "BCS", 2, 2, AddressMode::NoneAddress),
        // BEQ: Branch if equal
        opcode(0xF0, "BEQ", 2, 2, AddressMode::NoneAddress),
        // BMI: Branch if minus
        opcode(0x30, "BMI", 2, 2, AddressMode::NoneAddress),
        // BNE: Branch if not equal
        opcode(0xD0, "BNE", 2, 2, AddressMode::NoneAddress),
        // BPL: Branch if positive
        opcode(0x10, "BPL", 2, 2, AddressMode::NoneAddress),
        // BVC: Branch if overflow clear
        opcode(0x50, "BVC", 2, 2, AddressMode::NoneAddress),
        // BVS: Branch if overflow set
        opcode(0x70, "BVS", 2, 2, AddressMode::NoneAddress),
        // BIT: Bit test
        opcode(0x24, "BIT", 2, 3, AddressMode::ZeroPage),
        opcode(0x2C, "BIT", 3, 4, AddressMode::Absolute),
        // BRK: Force interrupt
        opcode(0x00, "BRK", 1, 7, AddressMode::NoneAddress),
        // CLC: Clear carry flag
        opcode(0x18, "CLC", 1, 2, AddressMode::NoneAddress),
        // CLD: Clear decimal mode
        opcode(0xD8, "CLD", 1, 2, AddressMode::NoneAddress),
        // CLI: Clear interrupt disable
        opcode(0x58, "CLI", 1, 2, AddressMode::NoneAddress),
        // CLV: Clear overflow flag
        opcode(0xB8, "CLV", 1, 2, AddressMode::NoneAddress),
        // CMP: Compare
        opcode(0xC9, "CMP", 2, 2, AddressMode::Immediate),
        opcode(0xC5, "CMP", 2, 3, AddressMode::ZeroPage),
        opcode(0xD5, "CMP", 2, 4, AddressMode::ZeroPageX),
        opcode(0xCD, "CMP", 3, 4, AddressMode::Absolute),
        opcode(0xDD, "CMP", 3, 4, AddressMode::AbsoluteX),
        opcode(0xD9, "CMP", 3, 4, AddressMode::AbsoluteY),
        opcode(0xC1, "CMP", 2, 6, AddressMode::IndirectX),
        opcode(0xD1, "CMP", 2, 5, AddressMode::IndirectY),
        // CPX: Compare X register
        opcode(0xE0, "CPX", 2, 2, AddressMode::Immediate),
        opcode(0xE4, "CPX", 2, 3, AddressMode::ZeroPage),
        opcode(0xEC, "CPX", 3, 4, AddressMode::Absolute),
        // CPY: Compare Y register
        opcode(0xC0, "CPY", 2, 2, AddressMode::Immediate),
        opcode(0xC4, "CPY", 2, 3, AddressMode::ZeroPage),
        opcode(0xCC, "CPY", 3, 4, AddressMode::Absolute),
        // DEC: Decrement memory
        opcode(0xC6, "DEC", 2, 5, AddressMode::ZeroPage),
        opcode(0xD6, "DEC", 2, 6, AddressMode::ZeroPageX),
        opcode(0xCE, "DEC", 3, 6, AddressMode::Absolute),
        opcode(0xDE, "DEC", 3, 7, AddressMode::AbsoluteX),
        // DEX: Decrement X register
        opcode(0xCA, "DEX", 1, 2, AddressMode::NoneAddress),
        // DEY: Decrement Y register
        opcode(0x88, "DEY", 1, 2, AddressMode::NoneAddress),
        // EOR: Exclusive or
        opcode(0x49, "EOR", 2, 2, AddressMode::Immediate),
        opcode(0x45, "EOR", 2, 3, AddressMode::ZeroPage),
        opcode(0x55, "EOR", 2, 4, AddressMode::ZeroPageX),
        opcode(0x4D, "EOR", 3, 4, AddressMode::Absolute),
        opcode(0x5D, "EOR", 3, 4, AddressMode::AbsoluteX),
        opcode(0x59, "EOR", 3, 4, AddressMode::AbsoluteY),
        opcode(0x41, "EOR", 2, 6, AddressMode::IndirectX),
        opcode(0x51, "EOR", 2, 5, AddressMode::IndirectY),
        // INC: Increment memory
        opcode(0xE6, "INC", 2, 5, AddressMode::ZeroPage),
        opcode(0xF6, "INC", 2, 6, AddressMode::ZeroPageX),
        opcode(0xEE, "INC", 3, 6, AddressMode::Absolute),
        opcode(0xFE, "INC", 3, 7, AddressMode::AbsoluteX),
        // INX: Increment X register
        opcode(0xE8, "INX", 1, 2, AddressMode::NoneAddress),
        // INY: Increment Y register
        opcode(0xC8, "INY", 1, 2, AddressMode::NoneAddress),
        // JMP: Jump
        opcode(0x4C, "JMP", 3, 3, AddressMode::Absolute),
        opcode(0x6C, "JMP", 3, 5, AddressMode::NoneAddress),
        // JSR: Jump to subroutine
        opcode(0x20, "JSR", 3, 6, AddressMode::NoneAddress),
        // LDA: Load accumulator
        opcode(0xA9, "LDA", 2, 2, AddressMode::Immediate),
        opcode(0xA5, "LDA", 2, 3, AddressMode::ZeroPage),
        opcode(0xB5, "LDA", 2, 4, AddressMode::ZeroPageX),
        opcode(0xAD, "LDA", 3, 4, AddressMode::Absolute),
        opcode(0xBD, "LDA", 3, 4, AddressMode::AbsoluteX),
        opcode(0xB9, "LDA", 3, 4, AddressMode::AbsoluteY),
        opcode(0xA1, "LDA", 2, 6, AddressMode::IndirectX),
        opcode(0xB1, "LDA", 2, 5, AddressMode::IndirectY),
        // LDX: Load X register
        opcode(0xA2, "LDX", 2, 2, AddressMode::Immediate),
        opcode(0xA6, "LDX", 2, 3, AddressMode::ZeroPage),
        opcode(0xB6, "LDX", 2, 4, AddressMode::ZeroPageY),
        opcode(0xAE, "LDX", 3, 4, AddressMode::Absolute),
        opcode(0xBE, "LDX", 3, 4, AddressMode::AbsoluteY),
        // LDY: Load Y register
        opcode(0xA0, "LDY", 2, 2, AddressMode::Immediate),
        opcode(0xA4, "LDY", 2, 3, AddressMode::ZeroPage),
        opcode(0xB4, "LDY", 2, 4, AddressMode::ZeroPageX),
        opcode(0xAC, "LDY", 3, 4, AddressMode::Absolute),
        opcode(0xBC, "LDY", 3, 4, AddressMode::AbsoluteX),
        // LSR: Logical shift right
        opcode(0x4A, "LSR", 1, 2, AddressMode::NoneAddress),
        opcode(0x46, "LSR", 2, 5, AddressMode::ZeroPage),
        opcode(0x56, "LSR", 2, 6, AddressMode::ZeroPageX),
        opcode(0x4E, "LSR", 3, 6, AddressMode::Absolute),
        opcode(0x5E, "LSR", 3, 7, AddressMode::AbsoluteX),
        // NOP: No operation
        opcode(0xEA, "NOP", 1, 2, AddressMode::NoneAddress),
        // ORA: Logical inclusive or
        opcode(0x09, "ORA", 2, 2, AddressMode::Immediate),
        opcode(0x05, "ORA", 2, 3, AddressMode::ZeroPage),
        opcode(0x15, "ORA", 2, 4, AddressMode::ZeroPageX),
        opcode(0x0D, "ORA", 3, 4, AddressMode::Absolute),
        opcode(0x1D, "ORA", 3, 4, AddressMode::AbsoluteX),
        opcode(0x19, "ORA", 3, 4, AddressMode::AbsoluteY),
        opcode(0x01, "ORA", 2, 6, AddressMode::IndirectX),
        opcode(0x11, "ORA", 2, 5, AddressMode::IndirectY),
        // PHA: Push accumulator
        opcode(0x48, "PHA", 1, 3, AddressMode::NoneAddress),
        // PHP: Push processor status
        opcode(0x08, "PHP", 1, 3, AddressMode::NoneAddress),
        // PLA: Pull accumulator
        opcode(0x68, "PLA", 1, 4, AddressMode::NoneAddress),
        // PLP: Pull processor status
        opcode(0x28, "PLP", 1, 4, AddressMode::NoneAddress),
        // ROL: Rotate left
        opcode(0x2A, "ROL", 1, 2, AddressMode::NoneAddress),
        opcode(0x26, "ROL", 2, 5, AddressMode::ZeroPage),
        opcode(0x36, "ROL", 2, 6, AddressMode::ZeroPageX),
        opcode(0x2E, "ROL", 3, 6, AddressMode::Absolute),
        opcode(0x3E, "ROL", 3, 7, AddressMode::AbsoluteX),
        // ROR: Rotate right
        opcode(0x6A, "ROR", 1, 2, AddressMode::NoneAddress),
        opcode(0x66, "ROR", 2, 5, AddressMode::ZeroPage),
        opcode(0x76, "ROR", 2, 6, AddressMode::ZeroPageX),
        opcode(0x6E, "ROR", 3, 6, AddressMode::Absolute),
        opcode(0x7E, "ROR", 3, 7, AddressMode::AbsoluteX),
        // RTI: Return from interrupt
        opcode(0x40, "RTI", 1, 6, AddressMode::NoneAddress),
        // RTS: Return from subroutine
        opcode(0x60, "RTS", 1, 6, AddressMode::NoneAddress),
        // SBC: Subtract with carry
        opcode(0xE9, "SBC", 2, 2, AddressMode::Immediate),
        opcode(0xE5, "SBC", 2, 3, AddressMode::ZeroPage),
        opcode(0xF5, "SBC", 2, 4, AddressMode::ZeroPageX),
        opcode(0xED, "SBC", 3, 4, AddressMode::Absolute),
        opcode(0xFD, "SBC", 3, 4, AddressMode::AbsoluteX),
        opcode(0xF9, "SBC", 3, 4, AddressMode::AbsoluteY),
        opcode(0xE1, "SBC", 2, 6, AddressMode::IndirectX),
        opcode(0xF1, "SBC", 2, 5, AddressMode::IndirectY),
        // SEC: Set carry flag
        opcode(0x38, "SEC", 1, 2, AddressMode::NoneAddress),
        // SED: Set decimal flag
        opcode(0xF8, "SED", 1, 2, AddressMode::NoneAddress),
        // SEI: Set interrupt disable
        opcode(0x78, "SEI", 1, 2, AddressMode::NoneAddress),
        // STA: Store accumulator
        opcode(0x85, "STA", 2, 3, AddressMode::ZeroPage),
        opcode(0x95, "STA", 2, 4, AddressMode::ZeroPageX),
        opcode(0x8D, "STA", 3, 4, AddressMode::Absolute),
        opcode(0x9D, "STA", 3, 5, AddressMode::AbsoluteX),
        opcode(0x99, "STA", 3, 5, AddressMode::AbsoluteY),
        opcode(0x81, "STA", 2, 6, AddressMode::IndirectX),
        opcode(0x91, "STA", 2, 6, AddressMode::IndirectY),
        // STX: Store X register
        opcode(0x86, "STX", 2, 3, AddressMode::ZeroPage),
        opcode(0x96, "STX", 2, 4, AddressMode::ZeroPageY),
        opcode(0x8E, "STX", 3, 4, AddressMode::Absolute),
        // STY: Store Y register
        opcode(0x84, "STY", 2, 3, AddressMode::ZeroPage),
        opcode(0x94, "STY", 2, 4, AddressMode::ZeroPageX),
        opcode(0x8C, "STY", 3, 4, AddressMode::Absolute),
        // TAX: Transfer accumulator to X
        opcode(0xAA, "TAX", 1, 2, AddressMode::NoneAddress),
        // TAY: Transfer accumulator to Y
        opcode(0xA8, "TAY", 1, 2, AddressMode::NoneAddress),
        // TSX: Transfer stack pointer to X
        opcode(0xBA, "TSX", 1, 2, AddressMode::NoneAddress),
        // TXA: Transfer X to accumulator
        opcode(0x8A, "TXA", 1, 2, AddressMode::NoneAddress),
        // TXS: Transfer X to stack pointer
        opcode(0x9A, "TXS", 1, 2, AddressMode::NoneAddress),
        // TYA: Transfer Y to accumulator
        opcode(0x98, "TYA", 1, 2, AddressMode::NoneAddress),
    ]
}

/// The entries of `standard_entries`, as a vector.
pub fn cpu_ops_codes() -> (r: Vec<OpCode>)
    ensures
        r@ == standard_entries(),
{
    let r = vec![
        // ADC: Add with carry
        OpCode::new(0x69, "ADC", 2, 2, AddressMode::Immediate),
        OpCode::new(0x65, "ADC", 2, 3, AddressMode::ZeroPage),
        OpCode::new(0x75, "ADC", 2, 4, AddressMode::ZeroPageX),
        OpCode::new(0x6D, "ADC", 3, 4, AddressMode::Absolute),
        OpCode::new(0x7D, "ADC", 3, 4, AddressMode::AbsoluteX),
        OpCode::new(0x79, "ADC", 3, 4, AddressMode::AbsoluteY),
        OpCode::new(0x61, "ADC", 2, 6, AddressMode::IndirectX),
        OpCode::new(0x71, "ADC", 2, 5, AddressMode::IndirectY),
        // AND: Logical and
        OpCode::new(0x29, "AND", 2, 2, AddressMode::Immediate),
        OpCode::new(0x25, "AND", 2, 3, AddressMode::ZeroPage),
        OpCode::new(0x35, "AND", 2, 4, AddressMode::ZeroPageX),
        OpCode::new(0x2D, "AND", 3, 4, AddressMode::Absolute),
        OpCode::new(0x3D, "AND", 3, 4, AddressMode::AbsoluteX),
        OpCode::new(0x39, "AND", 3, 4, AddressMode::AbsoluteY),
        OpCode::new(0x21, "AND", 2, 6, AddressMode::IndirectX),
        OpCode::new(0x31, "AND", 2, 5, AddressMode::IndirectY),
        // ASL: Arithmetic shift left
        OpCode::new(0x0A, "ASL", 1, 2, AddressMode::NoneAddress),
        OpCode::new(0x06, "ASL", 2, 5, AddressMode::ZeroPage),
        OpCode::new(0x16, "ASL", 2, 6, AddressMode::ZeroPageX),
        OpCode::new(0x0E, "ASL", 3, 6, AddressMode::Absolute),
        OpCode::new(0x1E, "ASL", 3, 7, AddressMode::AbsoluteX),
        // BCC: Branch if carry clear
        OpCode::new(0x90, "BCC", 2, 2, AddressMode::NoneAddress),
        // BCS: Branch if carry set
        OpCode::new(0xB0, "BCS", 2, 2, AddressMode::NoneAddress),
        // BEQ: Branch if equal
        OpCode::new(0xF0, "BEQ", 2, 2, AddressMode::NoneAddress),
        // BMI: Branch if minus
        OpCode::new(0x30, "BMI", 2, 2, AddressMode::NoneAddress),
        // BNE: Branch if not equal
        OpCode::new(0xD0, "BNE", 2, 2, AddressMode::NoneAddress),
        // BPL: Branch if positive
        OpCode::new(0x10, "BPL", 2, 2, AddressMode::NoneAddress),
        // BVC: Branch if overflow clear
        OpCode::new(0x50, "BVC", 2, 2, AddressMode::NoneAddress),
        // BVS: Branch if overflow set
        OpCode::new(0x70, "BVS", 2, 2, AddressMode::NoneAddress),
        // BIT: Bit test
        OpCode::new(0x24, "BIT", 2, 3, AddressMode::ZeroPage),
        OpCode::new(0x2C, "BIT", 3, 4, AddressMode::Absolute),
        // BRK: Force interrupt
        OpCode::new(0x00, "BRK", 1, 7, AddressMode::NoneAddress),
        // CLC: Clear carry flag
        OpCode::new(0x18, "CLC", 1, 2, AddressMode::NoneAddress),
        // CLD: Clear decimal mode
        OpCode::new(0xD8, "CLD", 1, 2, AddressMode::NoneAddress),
        // CLI: Clear interrupt disable
        OpCode::new(0x58, "CLI", 1, 2, AddressMode::NoneAddress),
        // CLV: Clear overflow flag
        OpCode::new(0xB8, "CLV", 1, 2, AddressMode::NoneAddress),
        // CMP: Compare
        OpCode::new(0xC9, "CMP", 2, 2, AddressMode::Immediate),
        OpCode::new(0xC5, "CMP", 2, 3, AddressMode::ZeroPage),
        OpCode::new(0xD5, "CMP", 2, 4, AddressMode::ZeroPageX),
        OpCode::new(0xCD, "CMP", 3, 4, AddressMode::Absolute),
        OpCode::new(0xDD, "CMP", 3, 4, AddressMode::AbsoluteX),
        OpCode::new(0xD9, "CMP", 3, 4, AddressMode::AbsoluteY),
        OpCode::new(0xC1, "CMP", 2, 6, AddressMode::IndirectX),
        OpCode::new(0xD1, "CMP", 2, 5, AddressMode::IndirectY),
        // CPX: Compare X register
        OpCode::new(0xE0, "CPX", 2, 2, AddressMode::Immediate),
        OpCode::new(0xE4, "CPX", 2, 3, AddressMode::ZeroPage),
        OpCode::new(0xEC, "CPX", 3, 4, AddressMode::Absolute),
        // CPY: Compare Y register
        OpCode::new(0xC0, "CPY", 2, 2, AddressMode::Immediate),
        OpCode::new(0xC4, "CPY", 2, 3, AddressMode::ZeroPage),
        OpCode::new(0xCC, "CPY", 3, 4, AddressMode::Absolute),
        // DEC: Decrement memory
        OpCode::new(0xC6, "DEC", 2, 5, AddressMode::ZeroPage),
        OpCode::new(0xD6, "DEC", 2, 6, AddressMode::ZeroPageX),
        OpCode::new(0xCE, "DEC", 3, 6, AddressMode::Absolute),
        OpCode::new(0xDE, "DEC", 3, 7, AddressMode::AbsoluteX),
        // DEX: Decrement X register
        OpCode::new(0xCA, "DEX", 1, 2, AddressMode::NoneAddress),
        // DEY: Decrement Y register
        OpCode::new(0x88, "DEY", 1, 2, AddressMode::NoneAddress),
        // EOR: Exclusive or
        OpCode::new(0x49, "EOR", 2, 2, AddressMode::Immediate),
        OpCode::new(0x45, "EOR", 2, 3, AddressMode::ZeroPage),
        OpCode::new(0x55, "EOR", 2, 4, AddressMode::ZeroPageX),
        OpCode::new(0x4D, "EOR", 3, 4, AddressMode::Absolute),
        OpCode::new(0x5D, "EOR", 3, 4, AddressMode::AbsoluteX),
        OpCode::new(0x59, "EOR", 3, 4, AddressMode::AbsoluteY),
        OpCode::new(0x41, "EOR", 2, 6, AddressMode::IndirectX),
        OpCode::new(0x51, "EOR", 2, 5, AddressMode::IndirectY),
        // INC: Increment memory
        OpCode::new(0xE6, "INC", 2, 5, AddressMode::ZeroPage),
        OpCode::new(0xF6, "INC", 2, 6, AddressMode::ZeroPageX),
        OpCode::new(0xEE, "INC", 3, 6, AddressMode::Absolute),
        OpCode::new(0xFE, "INC", 3, 7, AddressMode::AbsoluteX),
        // INX: Increment X register
        OpCode::new(0xE8, "INX", 1, 2, AddressMode::NoneAddress),
        // INY: Increment Y register
        OpCode::new(0xC8, "INY", 1, 2, AddressMode::NoneAddress),
        // JMP: Jump
        OpCode::new(0x4C, "JMP", 3, 3, AddressMode::Absolute),
        OpCode::new(0x6C, "JMP", 3, 5, AddressMode::NoneAddress),
        // JSR: Jump to subroutine
        OpCode::new(0x20, "JSR", 3, 6, AddressMode::NoneAddress),
        // LDA: Load accumulator
        OpCode::new(0xA9, "LDA", 2, 2, AddressMode::Immediate),
        OpCode::new(0xA5, "LDA", 2, 3, AddressMode::ZeroPage),
        OpCode::new(0xB5, "LDA", 2, 4, AddressMode::ZeroPageX),
        OpCode::new(0xAD, "LDA", 3, 4, AddressMode::Absolute),
        OpCode::new(0xBD, "LDA", 3, 4, AddressMode::AbsoluteX),
        OpCode::new(0xB9, "LDA", 3, 4, AddressMode::AbsoluteY),
        OpCode::new(0xA1, "LDA", 2, 6, AddressMode::IndirectX),
        OpCode::new(0xB1, "LDA", 2, 5, AddressMode::IndirectY),
        // LDX: Load X register
        OpCode::new(0xA2, "LDX", 2, 2, AddressMode::Immediate),
        OpCode::new(0xA6, "LDX", 2, 3, AddressMode::ZeroPage),
        OpCode::new(0xB6, "LDX", 2, 4, AddressMode::ZeroPageY),
        OpCode::new(0xAE, "LDX", 3, 4, AddressMode::Absolute),
        OpCode::new(0xBE, "LDX", 3, 4, AddressMode::AbsoluteY),
        // LDY: Load Y register
        OpCode::new(0xA0, "LDY", 2, 2, AddressMode::Immediate),
        OpCode::new(0xA4, "LDY", 2, 3, AddressMode::ZeroPage),
        OpCode::new(0xB4, "LDY", 2, 4, AddressMode::ZeroPageX),
        OpCode::new(0xAC, "LDY", 3, 4, AddressMode::Absolute),
        OpCode::new(0xBC, "LDY", 3, 4, AddressMode::AbsoluteX),
        // LSR: Logical shift right
        OpCode::new(0x4A, "LSR", 1, 2, AddressMode::NoneAddress),
        OpCode::new(0x46, "LSR", 2, 5, AddressMode::ZeroPage),
        OpCode::new(0x56, "LSR", 2, 6, AddressMode::ZeroPageX),
        OpCode::new(0x4E, "LSR", 3, 6, AddressMode::Absolute),
        OpCode::new(0x5E, "LSR", 3, 7, AddressMode::AbsoluteX),
        // NOP: No operation
        OpCode::new(0xEA, "NOP", 1, 2, AddressMode::NoneAddress),
        // ORA: Logical inclusive or
        OpCode::new(0x09, "ORA", 2, 2, AddressMode::Immediate),
        OpCode::new(0x05, "ORA", 2, 3, AddressMode::ZeroPage),
        OpCode::new(0x15, "ORA", 2, 4, AddressMode::ZeroPageX),
        OpCode::new(0x0D, "ORA", 3, 4, AddressMode::Absolute),
        OpCode::new(0x1D, "ORA", 3, 4, AddressMode::AbsoluteX),
        OpCode::new(0x19, "ORA", 3, 4, AddressMode::AbsoluteY),
        OpCode::new(0x01, "ORA", 2, 6, AddressMode::IndirectX),
        OpCode::new(0x11, "ORA", 2, 5, AddressMode::IndirectY),
        // PHA: Push accumulator
        OpCode::new(0x48, "PHA", 1, 3, AddressMode::NoneAddress),
        // PHP: Push processor status
        OpCode::new(0x08, "PHP", 1, 3, AddressMode::NoneAddress),
        // PLA: Pull accumulator
        OpCode::new(0x68, "PLA", 1, 4, AddressMode::NoneAddress),
        // PLP: Pull processor status
        OpCode::new(0x28, "PLP", 1, 4, AddressMode::NoneAddress),
        // ROL: Rotate left
        OpCode::new(0x2A, "ROL", 1, 2, AddressMode::NoneAddress),
        OpCode::new(0x26, "ROL", 2, 5, AddressMode::ZeroPage),
        OpCode::new(0x36, "ROL", 2, 6, AddressMode::ZeroPageX),
        OpCode::new(0x2E, "ROL", 3, 6, AddressMode::Absolute),
        OpCode::new(0x3E, "ROL", 3, 7, AddressMode::AbsoluteX),
        // ROR: Rotate right
        OpCode::new(0x6A, "ROR", 1, 2, AddressMode::NoneAddress),
        OpCode::new(0x66, "ROR", 2, 5, AddressMode::ZeroPage),
        OpCode::new(0x76, "ROR", 2, 6, AddressMode::ZeroPageX),
        OpCode::new(0x6E, "ROR", 3, 6, AddressMode::Absolute),
        OpCode::new(0x7E, "ROR", 3, 7, AddressMode::AbsoluteX),
        // RTI: Return from interrupt
        OpCode::new(0x40, "RTI", 1, 6, AddressMode::NoneAddress),
        // RTS: Return from subroutine
        OpCode::new(0x60, "RTS", 1, 6, AddressMode::NoneAddress),
        // SBC: Subtract with carry
        OpCode::new(0xE9, "SBC", 2, 2, AddressMode::Immediate),
        OpCode::new(0xE5, "SBC", 2, 3, AddressMode::ZeroPage),
        OpCode::new(0xF5, "SBC", 2, 4, AddressMode::ZeroPageX),
        OpCode::new(0xED, "SBC", 3, 4, AddressMode::Absolute),
        OpCode::new(0xFD, "SBC", 3, 4, AddressMode::AbsoluteX),
        OpCode::new(0xF9, "SBC", 3, 4, AddressMode::AbsoluteY),
        OpCode::new(0xE1, "SBC", 2, 6, AddressMode::IndirectX),
        OpCode::new(0xF1, "SBC", 2, 5, AddressMode::IndirectY),
        // SEC: Set carry flag
        OpCode::new(0x38, "SEC", 1, 2, AddressMode::NoneAddress),
        // SED: Set decimal flag
        OpCode::new(0xF8, "SED", 1, 2, AddressMode::NoneAddress),
        // SEI: Set interrupt disable
        OpCode::new(0x78, "SEI", 1, 2, AddressMode::NoneAddress),
        // STA: Store accumulator
        OpCode::new(0x85, "STA", 2, 3, AddressMode::ZeroPage),
        OpCode::new(0x95, "STA", 2, 4, AddressMode::ZeroPageX),
        OpCode::new(0x8D, "STA", 3, 4, AddressMode::Absolute),
        OpCode::new(0x9D, "STA", 3, 5, AddressMode::AbsoluteX),
        OpCode::new(0x99, "STA", 3, 5, AddressMode::AbsoluteY),
        OpCode::new(0x81, "STA", 2, 6, AddressMode::IndirectX),
        OpCode::new(0x91, "STA", 2, 6, AddressMode::IndirectY),
        // STX: Store X register
        OpCode::new(0x86, "STX", 2, 3, AddressMode::ZeroPage),
        OpCode::new(0x96, "STX", 2, 4, AddressMode::ZeroPageY),
        OpCode::new(0x8E, "STX", 3, 4, AddressMode::Absolute),
        // STY: Store Y register
        OpCode::new(0x84, "STY", 2, 3, AddressMode::ZeroPage),
        OpCode::new(0x94, "STY", 2, 4, AddressMode::ZeroPageX),
        OpCode::new(0x8C, "STY", 3, 4, AddressMode::Absolute),
        // TAX: Transfer accumulator to X
        OpCode::new(0xAA, "TAX", 1, 2, AddressMode::NoneAddress),
        // TAY: Transfer accumulator to Y
        OpCode::new(0xA8, "TAY", 1, 2, AddressMode::NoneAddress),
        // TSX: Transfer stack pointer to X
        OpCode::new(0xBA, "TSX", 1, 2, AddressMode::NoneAddress),
        // TXA: Transfer X to accumulator
        OpCode::new(0x8A, "TXA", 1, 2, AddressMode::NoneAddress),
        // TXS: Transfer X to stack pointer
        OpCode::new(0x9A, "TXS", 1, 2, AddressMode::NoneAddress),
        // TYA: Transfer Y to accumulator
        OpCode::new(0x98, "TYA", 1, 2, AddressMode::NoneAddress),
    ];
    assert(r@ =~= standard_entries());
    r
}

} // verus!
