//! The DAA transform: its mathematical specification and the verified
//! executable implementation.

use vstd::prelude::*;

use crate::cpu::Cpu;
use crate::cpu::CpuFlags;
use crate::cpu::CpuState;

verus! {

/// The low nibble (bits 3..0) of a byte.
pub open spec fn low_nibble(x: u8) -> u8 {
    x & 0x0f
}

/// The high nibble (bits 7..4) of a byte.
pub open spec fn high_nibble(x: u8) -> u8 {
    x >> 4
}

/// The carry flag after the transform: a set input carry stays set, and a
/// high-nibble correction sets it.
pub open spec fn daa_carry_out(a: u8, carry: bool) -> bool {
    carry || high_nibble(a) > 9 || (high_nibble(a) == 9 && low_nibble(a) > 9)
}

/// The correction added to the accumulator: `0x06` when the low nibble needs
/// adjusting, plus `0x60` when the high nibble does.
pub open spec fn daa_correction(a: u8, aux_carry: bool, carry: bool) -> u8 {
    let low = if aux_carry || low_nibble(a) > 9 { 0x06u8 } else { 0x00u8 };
    if daa_carry_out(a, carry) {
        (low + 0x60) as u8
    } else {
        low
    }
}

/// The corrected accumulator: the correction is added with 8-bit wraparound.
pub open spec fn daa_result(a: u8, aux_carry: bool, carry: bool) -> u8 {
    ((a + daa_correction(a, aux_carry, carry)) % 256) as u8
}

/// The auxiliary-carry flag after the transform: whether adding the correction
/// carries out of the low nibble of the original accumulator.
pub open spec fn daa_aux_carry_out(a: u8, aux_carry: bool, carry: bool) -> bool {
    low_nibble(a) + low_nibble(daa_correction(a, aux_carry, carry)) > 0x0f
}

/// Whether bit 7 of a byte is set.
pub open spec fn sign_of(x: u8) -> bool {
    x & 0x80 == 0x80
}

/// The number of set bits in a byte.
pub open spec fn pop8(x: u8) -> int {
    (x & 1) + ((x >> 1) & 1) + ((x >> 2) & 1) + ((x >> 3) & 1) + ((x >> 4) & 1) + ((x >> 5) & 1)
        + ((x >> 6) & 1) + ((x >> 7) & 1)
}

/// Whether a byte has an even number of set bits.
pub open spec fn even_parity(x: u8) -> bool {
    pop8(x) % 2 == 0
}

/// The cycle counter after one instruction: four more, modulo 2^64.
pub open spec fn cycles_after(c: u64) -> u64 {
    ((c + 4) % 0x1_0000_0000_0000_0000) as u64
}

/// The whole register state after the transform: the accumulator corrected,
/// every flag recomputed from it, the cycle counter advanced, and every other
/// field exactly as it was.
pub open spec fn daa_state(s: CpuState) -> CpuState {
    let adjusted = daa_result(s.a, s.flags.aux_carry, s.flags.carry);
    CpuState {
        a: adjusted,
        b: s.b,
        c: s.c,
        d: s.d,
        e: s.e,
        h: s.h,
        l: s.l,
        stack_pointer: s.stack_pointer,
        program_counter: s.program_counter,
        cycles: cycles_after(s.cycles),
        flags: CpuFlags {
            sign: sign_of(adjusted),
            zero: adjusted == 0,
            aux_carry: daa_aux_carry_out(s.a, s.flags.aux_carry, s.flags.carry),
            parity: even_parity(adjusted),
            carry: daa_carry_out(s.a, s.flags.carry),
        },
    }
}

/// Whether `x` has an even number of set bits.
pub fn parity_of(x: u8) -> (r: bool)
    ensures
        r == even_parity(x),
{
    proof {
        assert((x & 1) <= 1 && ((x >> 1) & 1) <= 1 && ((x >> 2) & 1) <= 1 && ((x >> 3) & 1) <= 1
            && ((x >> 4) & 1) <= 1 && ((x >> 5) & 1) <= 1 && ((x >> 6) & 1) <= 1 && ((x >> 7) & 1)
            <= 1) by (bit_vector);
    }
    let count: u8 = (x & 1) + ((x >> 1) & 1) + ((x >> 2) & 1) + ((x >> 3) & 1) + ((x >> 4) & 1) + (
    (x >> 5) & 1) + ((x >> 6) & 1) + ((x >> 7) & 1);
    count % 2 == 0
}

/// Apply the DAA instruction to a register state.
///
/// The transform is total: every accumulator byte and every combination of
/// flags has a defined result, so nothing is required of the input. Only the
/// accumulator, the flags and the cycle counter change.
pub fn apply_daa(state: CpuState) -> (r: CpuState)
    ensures
        r == daa_state(state),
        r.cycles == (state.cycles + 4) % 0x1_0000_0000_0000_0000,
        state.flags.carry ==> r.flags.carry,
        r.flags.zero == (r.a == 0),
        r.flags.sign == sign_of(r.a),
        r.flags.parity == even_parity(r.a),
        r.b == state.b && r.c == state.c && r.d == state.d && r.e == state.e && r.h == state.h
            && r.l == state.l,
        r.stack_pointer == state.stack_pointer,
        r.program_counter == state.program_counter,
{
    let mut s = state;
    s.cycles = s.cycles.wrapping_add(4);
    proof {
        if state.cycles + 4 <= u64::MAX {
            assert((state.cycles + 4) % 0x1_0000_0000_0000_0000 == state.cycles + 4);
        } else {
            assert((state.cycles + 4) % 0x1_0000_0000_0000_0000 == state.cycles + 4
                - 0x1_0000_0000_0000_0000);
        }
    }
    let msn: u8 = s.a >> 4;
    let lsn: u8 = s.a & 0x0f;
    proof {
        let a0 = s.a;
        assert(a0 & 0x0f <= 0x0f) by (bit_vector);
    }
    let mut correction: u8 = if s.flags.aux_carry || lsn > 9 {
        0x06
    } else {
        0x00
    };
    if s.flags.carry || msn > 9 || (msn == 9 && lsn > 9) {
        correction = correction + 0x60;
        s.flags.carry = true;
    }
    let result: u8 = s.a.wrapping_add(correction);
    proof {
        if state.a + correction <= u8::MAX {
            assert((state.a + correction) % 256 == state.a + correction);
        } else {
            assert((state.a + correction) % 256 == state.a + correction - 256);
        }
        assert(correction & 0x0f <= 0x0f) by (bit_vector);
    }
    let aux: bool = (s.a & 0x0f) + (correction & 0x0f) > 0x0f;
    s.flags.sign = (result & 0x80) == 0x80;
    s.flags.zero = result == 0;
    s.flags.aux_carry = aux;
    s.flags.parity = parity_of(result);
    s.a = result;
    s
}

/// Run the one implemented opcode, DAA, on a caller's machine. The identifier
/// and the opcode byte pass through unchanged.
pub fn execute(cpu: Cpu) -> (r: Cpu)
    ensures
        r.state == daa_state(cpu.state),
        r.id == cpu.id,
        r.opcode == cpu.opcode,
{
    Cpu { state: apply_daa(cpu.state), id: cpu.id, opcode: cpu.opcode }
}

/// The carry flag is sticky: whatever the accumulator holds, a set input
/// carry is still set after the transform.
pub proof fn lemma_carry_sticky(a: u8, carry: bool)
    requires
        carry,
    ensures
        daa_carry_out(a, carry),
{
}

} // verus!
