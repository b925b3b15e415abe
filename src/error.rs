use vstd::prelude::*;

verus! {

/// Why the emulator stopped or refused an input.
#[derive(Clone, Copy, Debug, PartialEq, Eq, Structural)]
pub enum CpuError {
    /// The byte fetched as an opcode has no entry in the opcode catalog.
    UnknownOpcode(u8),
    /// The opcode is in the catalog, but the engine has no handler for it.
    Unimplemented(u8),
    /// An operand address was asked for an instruction without an address operand.
    UnsupportedAddressingMode,
    /// The program does not fit between the load address and the end of memory.
    ProgramTooLarge,
    /// Two catalog entries name the same opcode byte.
    DuplicateOpcode(u8),
    /// A catalog entry gives an instruction length outside 1 to 3 bytes.
    InvalidOperandLength(u8),
    /// `run` executed its whole step budget without reaching BRK.
    StepLimit,
}

} // verus!
