use vstd::prelude::*;

use crate::cpu::{add16, fits, word, CpuState, BRK, INX, PROGRAM_BASE};
use crate::error::CpuError;
use crate::flags::{lemma_zero_negative_flags, sign_bit, Flag};
use crate::opcodes::{AddressMode, OpCode};

verus! {

/// After LDA loads a value `v`, the accumulator holds `v`, Zero is set iff `v` is 0,
/// Negative iff bit 7 of `v` is set, and no other flag changes.
pub proof fn lemma_lda_flags(s: CpuState, addr: u16)
    ensures
        s.lda(addr).register_a == s.memory[addr as int],
        s.lda(addr).status.has(Flag::Zero) == (s.memory[addr as int] == 0),
        s.lda(addr).status.has(Flag::Negative) == sign_bit(s.memory[addr as int]),
        forall|g: Flag|
            g != Flag::Zero && g != Flag::Negative ==> #[trigger] s.lda(addr).status.has(g)
                == s.status.has(g),
{
    lemma_zero_negative_flags(s.status, s.memory[addr as int]);
}

/// TAX sets the flags exactly as LDA of the accumulator's current value does, and writes
/// that value to X where LDA writes it to the accumulator.
pub proof fn lemma_tax_flags_match_lda(s: CpuState, addr: u16)
    requires
        s.memory[addr as int] == s.register_a,
    ensures
        s.tax().status == s.lda(addr).status,
        s.tax().register_x == s.lda(addr).register_a,
        s.tax().register_a == s.register_a,
        s.lda(addr).register_x == s.register_x,
{
}

/// INX on X = 0xFF wraps X to 0x00, sets Zero and clears Negative.
pub proof fn lemma_inx_wraps(s: CpuState)
    requires
        s.register_x == 0xFF,
    ensures
        s.inx().register_x == 0,
        s.inx().status.has(Flag::Zero),
        !s.inx().status.has(Flag::Negative),
{
    lemma_zero_negative_flags(s.status, 0);
    assert(!sign_bit(0)) by (bit_vector);
}

/// IndirectX reads its target little-endian from the zero-page pointer `(p + X) mod 256`;
/// the high byte comes from address 0x00 when the pointer is 0xFF.
pub proof fn lemma_indirect_x_address(s: CpuState)
    requires
        s.wf(),
    ensures
        ({
            let p = s.memory[s.program_counter as int];
            let ptr = (p as int + s.register_x as int) % 256;
            let hi_at = if ptr == 0xFF {
                0
            } else {
                ptr + 1
            };
            s.operand_address(AddressMode::IndirectX) == Ok::<u16, CpuError>(
                word(s.memory[ptr], s.memory[hi_at]),
            )
        }),
{
}

/// IndirectY reads a little-endian base from the zero-page pointer `p`, the high byte from
/// address 0x00 when `p` is 0xFF, and adds Y with 16-bit wraparound.
pub proof fn lemma_indirect_y_address(s: CpuState)
    requires
        s.wf(),
    ensures
        ({
            let p = s.memory[s.program_counter as int] as int;
            let hi_at = if p == 0xFF {
                0
            } else {
                p + 1
            };
            let base = word(s.memory[p], s.memory[hi_at]);
            s.operand_address(AddressMode::IndirectY) == Ok::<u16, CpuError>(
                ((base as int + s.register_y as int) % 0x10000) as u16,
            )
        }),
{
}

/// Loading a program that fits and then resetting always starts execution at the base address.
pub proof fn lemma_load_then_reset_starts_at_base(s: CpuState, program: Seq<u8>)
    requires
        s.wf(),
        fits(program.len()),
    ensures
        s.loaded(program).reset().program_counter == PROGRAM_BASE,
{
    let m = s.loaded(program).memory;
    assert(m[0xFFFC] == 0x00 && m[0xFFFD] == 0x80);
}

/// Fetching a byte that the catalog lacks stops the run with `UnknownOpcode`, in the state
/// reached so far, the program counter past that byte: nothing is rolled back.
pub proof fn lemma_unknown_opcode_stops_run(s: CpuState, catalog: Seq<Option<OpCode>>, fuel: nat)
    requires
        fuel > 0,
        catalog[s.memory[s.program_counter as int] as int] is None,
    ensures
        s.run(catalog, fuel) == (
            s.with_pc(add16(s.program_counter as int, 1)),
            Err::<(), CpuError>(CpuError::UnknownOpcode(s.memory[s.program_counter as int])),
        ),
{
}

/// A step that neither halts nor fails hands its whole effect on: the run goes on from the
/// state that step left, so what earlier instructions changed stays when a later one fails.
pub proof fn lemma_run_continues_from_step(s: CpuState, catalog: Seq<Option<OpCode>>, fuel: nat)
    requires
        s.step(catalog).1 == Ok::<bool, CpuError>(false),
    ensures
        s.run(catalog, fuel + 1) == s.step(catalog).0.run(catalog, fuel),
{
}

/// With INX and BRK in the catalog, INX; INX; BRK from X = 0xFF halts with X = 0x01:
/// X wraps to 0x00 and then goes on to 0x01.
pub proof fn lemma_two_inx_from_ff(s: CpuState, catalog: Seq<Option<OpCode>>, fuel: nat)
    requires
        s.wf(),
        fuel >= 3,
        catalog[INX as int] matches Some(op) && op.len == 1,
        catalog[BRK as int] is Some,
        s.register_x == 0xFF,
        s.memory[s.program_counter as int] == INX,
        s.memory[add16(s.program_counter as int, 1) as int] == INX,
        s.memory[add16(s.program_counter as int, 2) as int] == BRK,
    ensures
        s.run(catalog, fuel).1 == Ok::<(), CpuError>(()),
        s.run(catalog, fuel).0.register_x == 1,
{
    let s1 = s.step(catalog).0;
    assert(s1.program_counter == add16(s.program_counter as int, 1));
    assert(s1.register_x == 0);
    let s2 = s1.step(catalog).0;
    assert(s2.program_counter == add16(s.program_counter as int, 2));
    assert(s2.register_x == 1);
    lemma_run_continues_from_step(s, catalog, (fuel - 1) as nat);
    lemma_run_continues_from_step(s1, catalog, (fuel - 2) as nat);
}

/// With LDA immediate in the catalog, LDA #v followed by a byte that the catalog lacks stops
/// with `UnknownOpcode`, and the accumulator and flags keep what LDA gave them.
pub proof fn lemma_lda_then_unknown_keeps_load(s: CpuState, catalog: Seq<Option<OpCode>>, fuel: nat)
    requires
        s.wf(),
        fuel >= 2,
        catalog[0xA9] matches Some(op) && op.len == 2 && op.mode == AddressMode::Immediate,
        s.memory[s.program_counter as int] == 0xA9,
        catalog[s.memory[add16(s.program_counter as int, 2) as int] as int] is None,
    ensures
        ({
            let v = s.memory[add16(s.program_counter as int, 1) as int];
            let b = s.memory[add16(s.program_counter as int, 2) as int];
            let (t, r) = s.run(catalog, fuel);
            &&& r == Err::<(), CpuError>(CpuError::UnknownOpcode(b))
            &&& t.register_a == v
            &&& t.status.has(Flag::Zero) == (v == 0)
            &&& t.status.has(Flag::Negative) == sign_bit(v)
        }),
{
    let v = s.memory[add16(s.program_counter as int, 1) as int];
    let s1 = s.step(catalog).0;
    assert(s1.program_counter == add16(s.program_counter as int, 2));
    assert(s1.register_a == v);
    lemma_zero_negative_flags(s.status, v);
    lemma_run_continues_from_step(s, catalog, (fuel - 1) as nat);
    lemma_unknown_opcode_stops_run(s1, catalog, (fuel - 1) as nat);
}

} // verus!
