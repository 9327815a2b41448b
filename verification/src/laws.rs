//! Architectural identities of the 6502 core, stated over the model in
//! [`crate::semantics`] and proved for all inputs.

use vstd::prelude::*;

use crate::semantics::{
    compare_flags, flag, set_flag, spec_add_to_a, spec_jmp_ind, spec_php, spec_plp, spec_pop_val,
    spec_popped, spec_push, spec_update_nz, wf_state, word_at, CpuState, FLAG_BREAK, FLAG_BREAK2,
    FLAG_CARRY, FLAG_NEGATIVE, FLAG_ZERO, STACK_BASE,
};

verus! {

/// Forcing one flag bit leaves every bit outside its mask alone.
pub proof fn lemma_set_flag_preserves(p: u8, mask: u8, on: bool, other: u8)
    by (bit_vector)
    requires
        mask & other == 0,
    ensures
        set_flag(p, mask, on) & other == p & other,
{
}

/// Forcing one nonempty flag bit makes it read back as forced.
pub proof fn lemma_set_flag_reads(p: u8, mask: u8, on: bool)
    by (bit_vector)
    requires
        mask != 0,
    ensures
        flag(set_flag(p, mask, on), mask) == on,
{
}

/// The Z/N update touches no status bit outside Z and N, sets Z exactly for
/// a zero result, and sets N exactly from the result's bit 7.
pub proof fn lemma_update_nz(p: u8, v: u8)
    ensures
        flag(spec_update_nz(p, v), FLAG_ZERO) == (v == 0),
        flag(spec_update_nz(p, v), FLAG_NEGATIVE) == (v & 0x80 != 0),
        spec_update_nz(p, v) & !(FLAG_ZERO | FLAG_NEGATIVE) == p & !(FLAG_ZERO | FLAG_NEGATIVE),
{
    assert(flag(spec_update_nz(p, v), FLAG_ZERO) == (v == 0)) by (bit_vector);
    assert(flag(spec_update_nz(p, v), FLAG_NEGATIVE) == (v & 0x80 != 0)) by (bit_vector);
    assert(spec_update_nz(p, v) & !(FLAG_ZERO | FLAG_NEGATIVE) == p & !(FLAG_ZERO
        | FLAG_NEGATIVE)) by (bit_vector);
}

/// The Z/N update leaves any flag outside Z and N unchanged.
pub proof fn lemma_update_nz_preserves(p: u8, v: u8, mask: u8)
    by (bit_vector)
    requires
        mask & (FLAG_ZERO | FLAG_NEGATIVE) == 0,
    ensures
        spec_update_nz(p, v) & mask == p & mask,
{
}

/// Addition with carry balances its books: the integer sum of the old
/// accumulator, the operand and the incoming carry equals the new
/// accumulator plus 256 exactly when the outgoing carry is set.
pub proof fn lemma_adc_sum(s: CpuState, m: u8)
    ensures
        ({
            let t = spec_add_to_a(s, m);
            let c_in: int = if flag(s.p, FLAG_CARRY) {
                1
            } else {
                0
            };
            let c_out: int = if flag(t.p, FLAG_CARRY) {
                256
            } else {
                0
            };
            s.a + m + c_in == t.a + c_out
        }),
{
    let t = spec_add_to_a(s, m);
    let carry_in: u16 = if flag(s.p, FLAG_CARRY) {
        1u16
    } else {
        0u16
    };
    let sum: u16 = (s.a + m + carry_in) as u16;
    let result: u8 = (sum % 0x100) as u8;
    let p1 = set_flag(s.p, FLAG_CARRY, sum > 0xff);
    let p2 = if (m ^ result) & (result ^ s.a) & 0x80 != 0 {
        p1 | 0x40u8
    } else {
        p1 & !0x40u8
    };
    assert(p2 == set_flag(p1, 0x40u8, (m ^ result) & (result ^ s.a) & 0x80 != 0));
    assert(0x40u8 & FLAG_CARRY == 0) by (bit_vector);
    assert(FLAG_CARRY & (FLAG_ZERO | FLAG_NEGATIVE) == 0) by (bit_vector);
    lemma_set_flag_preserves(p1, 0x40u8, (m ^ result) & (result ^ s.a) & 0x80 != 0, FLAG_CARRY);
    lemma_update_nz_preserves(p2, result, FLAG_CARRY);
    lemma_set_flag_reads(s.p, FLAG_CARRY, sum > 0xff);
    assert(flag(t.p, FLAG_CARRY) == flag(p1, FLAG_CARRY)) by {
        assert(t.p & FLAG_CARRY == p1 & FLAG_CARRY);
    }
    assert(sum < 512);
    assert(sum % 0x100 == if sum >= 0x100 {
        sum - 0x100
    } else {
        sum as int
    });
}

/// ADC then SBC of the same operand restores the accumulator, provided the
/// carry is clear before the addition and forced set before the
/// subtraction.  (With the carry set before the addition, the pair comes
/// back one high: from A = 0, m = 0 and C = 1 the addition leaves 1 and the
/// subtraction leaves 1.)
pub proof fn lemma_adc_sbc_round_trip(s: CpuState, m: u8)
    requires
        !flag(s.p, FLAG_CARRY),
    ensures
        ({
            let t = spec_add_to_a(s, m);
            let withc = CpuState { p: t.p | FLAG_CARRY, ..t };
            spec_add_to_a(withc, !m).a == s.a
        }),
{
    let t = spec_add_to_a(s, m);
    let withc = CpuState { p: t.p | FLAG_CARRY, ..t };
    assert(t.a == (s.a + m) % 0x100);
    assert(flag(withc.p, FLAG_CARRY)) by {
        let tp = t.p;
        assert((tp | 0x1u8) & 0x1u8 != 0) by (bit_vector);
    }
    assert(!m == 255 - m) by (bit_vector);
    let sum2: u16 = (t.a + !m + 1) as u16;
    assert(sum2 == t.a + 256 - m);
    if s.a + m < 0x100 {
        assert(t.a == s.a + m);
        assert(sum2 == s.a + 256);
        assert(sum2 % 0x100 == s.a as int);
    } else {
        assert(t.a == s.a + m - 0x100);
        assert(sum2 == s.a as int);
        assert(sum2 % 0x100 == s.a as int);
    }
}

/// After a compare, C holds exactly when the operand is no greater than the
/// register, Z exactly on equality, and N is bit 7 of the wrapped
/// difference.
pub proof fn lemma_compare(p: u8, reg: u8, m: u8)
    ensures
        flag(compare_flags(p, reg, m), FLAG_CARRY) == (m <= reg),
        flag(compare_flags(p, reg, m), FLAG_ZERO) == (reg == m),
        flag(compare_flags(p, reg, m), FLAG_NEGATIVE) == (reg.wrapping_sub(m) & 0x80 != 0),
{
    let p1 = set_flag(p, FLAG_CARRY, m <= reg);
    let d = reg.wrapping_sub(m);
    lemma_update_nz(p1, d);
    assert(FLAG_CARRY & (FLAG_ZERO | FLAG_NEGATIVE) == 0) by (bit_vector);
    lemma_update_nz_preserves(p1, d, FLAG_CARRY);
    lemma_set_flag_reads(p, FLAG_CARRY, m <= reg);
    assert(flag(compare_flags(p, reg, m), FLAG_CARRY) == flag(p1, FLAG_CARRY)) by {
        assert(compare_flags(p, reg, m) & FLAG_CARRY == p1 & FLAG_CARRY);
    }
    assert((d == 0) == (reg == m));
}

/// A balanced push and pop return the stack pointer to its old value and
/// deliver the pushed byte back.
pub proof fn lemma_push_pop(s: CpuState, data: u8)
    requires
        wf_state(s),
    ensures
        spec_popped(spec_push(s, data)).sp == s.sp,
        spec_pop_val(spec_push(s, data)) == data,
{
}

/// JMP indirect from a pointer whose low byte is $FF takes its high byte
/// from the start of the pointer's own page, not from the following
/// address.
pub proof fn lemma_jmp_indirect_bug(s: CpuState)
    requires
        word_at(s.mem, s.pc) & 0x00FF == 0x00FF,
    ensures
        ({
            let p = word_at(s.mem, s.pc);
            spec_jmp_ind(s).pc == ((s.mem[(p & 0xFF00) as int] as u16) << 8) | (s.mem[p as int]
                as u16)
        }),
{
}

/// PHP pushes a copy of the status byte with B and U forced on, whatever
/// the live status register holds — and leaves the live register untouched.
pub proof fn lemma_php(s: CpuState)
    requires
        wf_state(s),
    ensures
        spec_php(s).mem[STACK_BASE + s.sp as int] & FLAG_BREAK != 0,
        spec_php(s).mem[STACK_BASE + s.sp as int] & FLAG_BREAK2 != 0,
        spec_php(s).p == s.p,
{
    let sp = s.p;
    assert((sp | FLAG_BREAK | FLAG_BREAK2) & FLAG_BREAK != 0) by (bit_vector);
    assert((sp | FLAG_BREAK | FLAG_BREAK2) & FLAG_BREAK2 != 0) by (bit_vector);
}

/// PLP restores every status bit from the popped byte except B, which is
/// forced clear, and U, which is forced set.
pub proof fn lemma_plp(s: CpuState)
    ensures
        ({
            let v = spec_pop_val(s);
            let t = spec_plp(s);
            &&& t.p & !(FLAG_BREAK | FLAG_BREAK2) == v & !(FLAG_BREAK | FLAG_BREAK2)
            &&& t.p & FLAG_BREAK == 0
            &&& t.p & FLAG_BREAK2 == FLAG_BREAK2
        }),
{
    let v = spec_pop_val(s);
    assert(((v & !FLAG_BREAK) | FLAG_BREAK2) & !(FLAG_BREAK | FLAG_BREAK2) == v & !(FLAG_BREAK
        | FLAG_BREAK2)) by (bit_vector);
    assert(((v & !FLAG_BREAK) | FLAG_BREAK2) & FLAG_BREAK == 0) by (bit_vector);
    assert(((v & !FLAG_BREAK) | FLAG_BREAK2) & FLAG_BREAK2 == FLAG_BREAK2) by (bit_vector);
}

} // verus!
