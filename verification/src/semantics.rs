//! The mathematical model of the 6502 core.
//!
//! A machine configuration is a [`CpuState`]: the six registers together with
//! the 65,536-byte memory as a sequence.  Every instruction of the official
//! set is given a meaning as a function from state to state, and [`spec_step`]
//! composes fetch, decode, execute and the program-counter adjustment into a
//! single small-step transition.  The executable interpreter in [`crate::cpu`]
//! is proved against these definitions.

use vstd::prelude::*;

use crate::cpu::AddressingMode;
use crate::opcodes::{opcode_len, opcode_mode, recognized};

verus! {

// Status flag bit masks (bit 0 = LSB).
pub const FLAG_CARRY: u8 = 0x01;
pub const FLAG_ZERO: u8 = 0x02;
pub const FLAG_INTERRUPT: u8 = 0x04;
pub const FLAG_DECIMAL: u8 = 0x08;
pub const FLAG_BREAK: u8 = 0x10;
pub const FLAG_BREAK2: u8 = 0x20;
pub const FLAG_OVERFLOW: u8 = 0x40;
pub const FLAG_NEGATIVE: u8 = 0x80;

/// Size of the flat address space: 2^16 bytes.
pub const MEMORY_SIZE: usize = 0x10000;

/// The stack lives in page one: the stack pointer names the byte at
/// `STACK_BASE + sp`.
pub const STACK_BASE: u16 = 0x0100;

/// Initial value of the stack pointer.
pub const STACK_RESET: u8 = 0xFD;

/// Program images are loaded at this address.
pub const LOAD_ADDR: u16 = 0x0600;

/// The little-endian word at this address seeds the program counter on reset.
pub const RESET_VECTOR: u16 = 0xFFFC;

/// A machine configuration: the register file plus the 64 KiB memory.
#[verifier::ext_equal]
pub ghost struct CpuState {
    /// Accumulator.
    pub a: u8,
    /// X index register.
    pub x: u8,
    /// Y index register.
    pub y: u8,
    /// Status flags.
    pub p: u8,
    /// Stack pointer (offset into page one).
    pub sp: u8,
    /// Program counter.
    pub pc: u16,
    /// The flat 65,536-byte memory.
    pub mem: Seq<u8>,
}

/// A well-formed state has exactly the full 16-bit address space.
pub open spec fn wf_state(s: CpuState) -> bool {
    s.mem.len() == MEMORY_SIZE
}

/// Whether a flag bit is set in a status byte.
pub open spec fn flag(p: u8, mask: u8) -> bool {
    p & mask != 0
}

/// A status byte with the given flag bit forced on or off.
pub open spec fn set_flag(p: u8, mask: u8, on: bool) -> u8 {
    if on {
        p | mask
    } else {
        p & !mask
    }
}

/// Status byte after an 8-bit result: Z iff the result is zero, N iff its
/// bit 7 is set; all other bits unchanged.
pub open spec fn spec_update_nz(p: u8, v: u8) -> u8 {
    set_flag(set_flag(p, FLAG_ZERO, v == 0), FLAG_NEGATIVE, v & 0x80 != 0)
}

/// The little-endian 16-bit word at `pos`; the high byte is read at
/// `pos + 1` wrapping at the end of the address space.
pub open spec fn word_at(mem: Seq<u8>, pos: u16) -> u16 {
    ((mem[pos.wrapping_add(1) as int] as u16) << 8) | (mem[pos as int] as u16)
}

/// Memory after storing a little-endian 16-bit word at `pos` (low byte
/// first, high byte at `pos + 1` wrapping).
pub open spec fn word_put(mem: Seq<u8>, pos: u16, data: u16) -> Seq<u8> {
    mem.update(pos as int, (data & 0xff) as u8).update(
        pos.wrapping_add(1) as int,
        (data >> 8) as u8,
    )
}

/// Memory after overwriting the range starting at `start` with `bytes`.
pub open spec fn store_range(mem: Seq<u8>, start: int, bytes: Seq<u8>) -> Seq<u8> {
    mem.map(
        |i: int, b: u8|
            if start <= i < start + bytes.len() {
                bytes[i - start]
            } else {
                b
            },
    )
}

/// The 16-bit sign extension of an 8-bit displacement.
pub open spec fn sign_ext16(b: u8) -> u16 {
    if b < 0x80 {
        b as u16
    } else {
        (b + 0xFF00) as u16
    }
}

/// The effective operand address for one of the ten addressing modes, given
/// the program counter pointing at the first operand byte.
pub open spec fn operand_addr(s: CpuState, mode: AddressingMode) -> u16 {
    match mode {
        AddressingMode::Immediate => s.pc,
        AddressingMode::ZeroPage => s.mem[s.pc as int] as u16,
        AddressingMode::ZeroPage_X => s.mem[s.pc as int].wrapping_add(s.x) as u16,
        AddressingMode::ZeroPage_Y => s.mem[s.pc as int].wrapping_add(s.y) as u16,
        AddressingMode::Absolute => word_at(s.mem, s.pc),
        AddressingMode::Absolute_X => word_at(s.mem, s.pc).wrapping_add(s.x as u16),
        AddressingMode::Absolute_Y => word_at(s.mem, s.pc).wrapping_add(s.y as u16),
        AddressingMode::Indirect_X => {
            let p = s.mem[s.pc as int].wrapping_add(s.x);
            ((s.mem[p.wrapping_add(1) as int] as u16) << 8) | (s.mem[p as int] as u16)
        },
        AddressingMode::Indirect_Y => {
            let b = s.mem[s.pc as int];
            let base = ((s.mem[b.wrapping_add(1) as int] as u16) << 8) | (s.mem[b as int] as u16);
            base.wrapping_add(s.y as u16)
        },
        AddressingMode::NoneAddressing => 0,
    }
}

/// The operand byte an instruction with the given mode reads.
pub open spec fn operand(s: CpuState, mode: AddressingMode) -> u8 {
    s.mem[operand_addr(s, mode) as int]
}

// Register writes with their flag effects.

/// Store into the accumulator and update Z and N.
pub open spec fn spec_set_a(s: CpuState, v: u8) -> CpuState {
    CpuState { a: v, p: spec_update_nz(s.p, v), ..s }
}

/// Store into X and update Z and N.
pub open spec fn spec_set_x(s: CpuState, v: u8) -> CpuState {
    CpuState { x: v, p: spec_update_nz(s.p, v), ..s }
}

/// Store into Y and update Z and N.
pub open spec fn spec_set_y(s: CpuState, v: u8) -> CpuState {
    CpuState { y: v, p: spec_update_nz(s.p, v), ..s }
}

// ALU helpers.

/// Carry-aware addition into the accumulator: `A + data + C` in wide
/// arithmetic; C becomes the ninth bit, V the signed-overflow test, and the
/// low eight bits land in A with the usual Z/N update.
pub open spec fn spec_add_to_a(s: CpuState, data: u8) -> CpuState {
    let carry_in: u16 = if flag(s.p, FLAG_CARRY) {
        1u16
    } else {
        0u16
    };
    let sum: u16 = (s.a + data + carry_in) as u16;
    let result: u8 = (sum % 0x100) as u8;
    let p1 = set_flag(s.p, FLAG_CARRY, sum > 0xff);
    let p2 = if (data ^ result) & (result ^ s.a) & 0x80 != 0 {
        p1 | FLAG_OVERFLOW
    } else {
        p1 & !FLAG_OVERFLOW
    };
    CpuState { a: result, p: spec_update_nz(p2, result), ..s }
}

/// Status byte after comparing a register with a memory operand: C iff
/// `m <= reg` (unsigned), Z and N from `(reg - m) mod 256`.
pub open spec fn compare_flags(p: u8, reg: u8, m: u8) -> u8 {
    spec_update_nz(set_flag(p, FLAG_CARRY, m <= reg), reg.wrapping_sub(m))
}

// Stack operations.

/// State after pushing one byte: the byte lands at `STACK_BASE + sp` and the
/// stack pointer decrements, wrapping within the page.
pub open spec fn spec_push(s: CpuState, data: u8) -> CpuState {
    CpuState {
        mem: s.mem.update(STACK_BASE + s.sp as int, data),
        sp: s.sp.wrapping_sub(1),
        ..s
    }
}

/// State after pushing a 16-bit word, high byte first.
pub open spec fn spec_push16(s: CpuState, data: u16) -> CpuState {
    spec_push(spec_push(s, (data >> 8) as u8), (data & 0xff) as u8)
}

/// The byte a pop would return: the stack pointer increments first, then the
/// byte at `STACK_BASE + sp` is read.
pub open spec fn spec_pop_val(s: CpuState) -> u8 {
    s.mem[STACK_BASE + s.sp.wrapping_add(1) as int]
}

/// State after popping one byte (only the stack pointer moves).
pub open spec fn spec_popped(s: CpuState) -> CpuState {
    CpuState { sp: s.sp.wrapping_add(1), ..s }
}

/// The 16-bit word a double pop would return, low byte first.
pub open spec fn spec_pop16_val(s: CpuState) -> u16 {
    ((spec_pop_val(spec_popped(s)) as u16) << 8) | (spec_pop_val(s) as u16)
}

/// State after popping a 16-bit word.
pub open spec fn spec_popped16(s: CpuState) -> CpuState {
    spec_popped(spec_popped(s))
}

// Loads, stores, logical operations.

/// LDA: load the operand into A, updating Z and N.
pub open spec fn spec_lda(s: CpuState, mode: AddressingMode) -> CpuState {
    spec_set_a(s, operand(s, mode))
}

/// LDX: load the operand into X, updating Z and N.
pub open spec fn spec_ldx(s: CpuState, mode: AddressingMode) -> CpuState {
    spec_set_x(s, operand(s, mode))
}

/// LDY: load the operand into Y, updating Z and N.
pub open spec fn spec_ldy(s: CpuState, mode: AddressingMode) -> CpuState {
    spec_set_y(s, operand(s, mode))
}

/// STA: store A at the effective address; no flag effects.
pub open spec fn spec_sta(s: CpuState, mode: AddressingMode) -> CpuState {
    CpuState { mem: s.mem.update(operand_addr(s, mode) as int, s.a), ..s }
}

/// STX: store X at the effective address; no flag effects.
pub open spec fn spec_stx(s: CpuState, mode: AddressingMode) -> CpuState {
    CpuState { mem: s.mem.update(operand_addr(s, mode) as int, s.x), ..s }
}

/// STY: store Y at the effective address; no flag effects.
pub open spec fn spec_sty(s: CpuState, mode: AddressingMode) -> CpuState {
    CpuState { mem: s.mem.update(operand_addr(s, mode) as int, s.y), ..s }
}

/// AND: bitwise conjunction into A.
pub open spec fn spec_and(s: CpuState, mode: AddressingMode) -> CpuState {
    spec_set_a(s, operand(s, mode) & s.a)
}

/// ORA: bitwise disjunction into A.
pub open spec fn spec_ora(s: CpuState, mode: AddressingMode) -> CpuState {
    spec_set_a(s, operand(s, mode) | s.a)
}

/// EOR: bitwise exclusive or into A.
pub open spec fn spec_eor(s: CpuState, mode: AddressingMode) -> CpuState {
    spec_set_a(s, operand(s, mode) ^ s.a)
}

/// ADC: carry-aware addition of the operand into A.
pub open spec fn spec_adc(s: CpuState, mode: AddressingMode) -> CpuState {
    spec_add_to_a(s, operand(s, mode))
}

/// SBC: addition of the operand's bitwise complement, the 6502's
/// two's-complement subtraction identity `A - m - (1 - C)`.
pub open spec fn spec_sbc(s: CpuState, mode: AddressingMode) -> CpuState {
    spec_add_to_a(s, !operand(s, mode))
}

/// CMP/CPX/CPY: compare a register with the operand.
pub open spec fn spec_compare(s: CpuState, mode: AddressingMode, reg: u8) -> CpuState {
    CpuState { p: compare_flags(s.p, reg, operand(s, mode)), ..s }
}

// Shifts and rotates.

/// ASL on the accumulator: C takes bit 7, A shifts left.
pub open spec fn spec_asl_acc(s: CpuState) -> CpuState {
    let p1 = set_flag(s.p, FLAG_CARRY, s.a >> 7 == 1);
    spec_set_a(CpuState { p: p1, ..s }, s.a << 1)
}

/// ASL on memory: C takes bit 7, the byte shifts left, Z/N from the result.
pub open spec fn spec_asl(s: CpuState, mode: AddressingMode) -> CpuState {
    let addr = operand_addr(s, mode);
    let data = s.mem[addr as int];
    let p1 = set_flag(s.p, FLAG_CARRY, data >> 7 == 1);
    let v = data << 1;
    CpuState { mem: s.mem.update(addr as int, v), p: spec_update_nz(p1, v), ..s }
}

/// LSR on the accumulator: C takes bit 0, A shifts right.
pub open spec fn spec_lsr_acc(s: CpuState) -> CpuState {
    let p1 = set_flag(s.p, FLAG_CARRY, s.a & 1 == 1);
    spec_set_a(CpuState { p: p1, ..s }, s.a >> 1)
}

/// LSR on memory: C takes bit 0, the byte shifts right, Z/N from the result.
pub open spec fn spec_lsr(s: CpuState, mode: AddressingMode) -> CpuState {
    let addr = operand_addr(s, mode);
    let data = s.mem[addr as int];
    let p1 = set_flag(s.p, FLAG_CARRY, data & 1 == 1);
    let v = data >> 1;
    CpuState { mem: s.mem.update(addr as int, v), p: spec_update_nz(p1, v), ..s }
}

/// ROL on the accumulator: the old carry enters at bit 0, bit 7 leaves into C.
pub open spec fn spec_rol_acc(s: CpuState) -> CpuState {
    let old_carry = flag(s.p, FLAG_CARRY);
    let p1 = set_flag(s.p, FLAG_CARRY, s.a >> 7 == 1);
    let v = if old_carry {
        (s.a << 1) | 1
    } else {
        s.a << 1
    };
    spec_set_a(CpuState { p: p1, ..s }, v)
}

/// ROL on memory.
pub open spec fn spec_rol(s: CpuState, mode: AddressingMode) -> CpuState {
    let addr = operand_addr(s, mode);
    let data = s.mem[addr as int];
    let old_carry = flag(s.p, FLAG_CARRY);
    let p1 = set_flag(s.p, FLAG_CARRY, data >> 7 == 1);
    let v = if old_carry {
        (data << 1) | 1
    } else {
        data << 1
    };
    CpuState { mem: s.mem.update(addr as int, v), p: spec_update_nz(p1, v), ..s }
}

/// ROR on the accumulator: the old carry enters at bit 7, bit 0 leaves into C.
pub open spec fn spec_ror_acc(s: CpuState) -> CpuState {
    let old_carry = flag(s.p, FLAG_CARRY);
    let p1 = set_flag(s.p, FLAG_CARRY, s.a & 1 == 1);
    let v = if old_carry {
        (s.a >> 1) | 0x80
    } else {
        s.a >> 1
    };
    spec_set_a(CpuState { p: p1, ..s }, v)
}

/// ROR on memory.
pub open spec fn spec_ror(s: CpuState, mode: AddressingMode) -> CpuState {
    let addr = operand_addr(s, mode);
    let data = s.mem[addr as int];
    let old_carry = flag(s.p, FLAG_CARRY);
    let p1 = set_flag(s.p, FLAG_CARRY, data & 1 == 1);
    let v = if old_carry {
        (data >> 1) | 0x80
    } else {
        data >> 1
    };
    CpuState { mem: s.mem.update(addr as int, v), p: spec_update_nz(p1, v), ..s }
}

// Increments and decrements on memory.

/// INC: add one to a memory byte, wrapping, with Z/N from the result.
pub open spec fn spec_inc(s: CpuState, mode: AddressingMode) -> CpuState {
    let addr = operand_addr(s, mode);
    let v = s.mem[addr as int].wrapping_add(1);
    CpuState { mem: s.mem.update(addr as int, v), p: spec_update_nz(s.p, v), ..s }
}

/// DEC: subtract one from a memory byte, wrapping, with Z/N from the result.
pub open spec fn spec_dec(s: CpuState, mode: AddressingMode) -> CpuState {
    let addr = operand_addr(s, mode);
    let v = s.mem[addr as int].wrapping_sub(1);
    CpuState { mem: s.mem.update(addr as int, v), p: spec_update_nz(s.p, v), ..s }
}

// Bit test, branches, jumps and returns.

/// BIT: Z from `A & m`, N from bit 7 of the operand, V from bit 6; A is
/// untouched.
pub open spec fn spec_bit(s: CpuState, mode: AddressingMode) -> CpuState {
    let data = operand(s, mode);
    let p1 = set_flag(s.p, FLAG_ZERO, s.a & data == 0);
    let p2 = set_flag(p1, FLAG_NEGATIVE, data & 0x80 != 0);
    CpuState { p: set_flag(p2, FLAG_OVERFLOW, data & 0x40 != 0), ..s }
}

/// A conditional branch: when taken, the signed displacement at the program
/// counter is added past the displacement byte, wrapping at 16 bits.
pub open spec fn spec_branch(s: CpuState, condition: bool) -> CpuState {
    if condition {
        let jump = s.mem[s.pc as int];
        CpuState { pc: s.pc.wrapping_add(1).wrapping_add(sign_ext16(jump)), ..s }
    } else {
        s
    }
}

/// JMP absolute: the program counter takes the 16-bit operand.
pub open spec fn spec_jmp_abs(s: CpuState) -> CpuState {
    CpuState { pc: word_at(s.mem, s.pc), ..s }
}

/// JMP indirect, with the 6502 page-boundary defect: when the pointer's low
/// byte is `$FF`, the high byte of the target is read from the start of the
/// pointer's own page rather than from the next page.
pub open spec fn spec_jmp_ind(s: CpuState) -> CpuState {
    let p = word_at(s.mem, s.pc);
    let target = if p & 0x00FF == 0x00FF {
        ((s.mem[(p & 0xFF00) as int] as u16) << 8) | (s.mem[p as int] as u16)
    } else {
        word_at(s.mem, p)
    };
    CpuState { pc: target, ..s }
}

/// JSR: push the address of the instruction's last byte (high byte first),
/// then jump to the absolute operand, which is read after the push lands.
pub open spec fn spec_jsr(s: CpuState) -> CpuState {
    let s1 = spec_push16(s, s.pc.wrapping_add(1));
    CpuState { pc: word_at(s1.mem, s1.pc), ..s1 }
}

/// RTS: pop the return address and resume one byte past it.
pub open spec fn spec_rts(s: CpuState) -> CpuState {
    CpuState { pc: spec_pop16_val(s).wrapping_add(1), ..spec_popped16(s) }
}

/// RTI: pop the status byte (B cleared, U set), then pop the program counter
/// with no adjustment.
pub open spec fn spec_rti(s: CpuState) -> CpuState {
    let v = spec_pop_val(s);
    let s1 = spec_popped(s);
    CpuState {
        p: (v & !FLAG_BREAK) | FLAG_BREAK2,
        pc: spec_pop16_val(s1),
        ..spec_popped16(s1)
    }
}

// Stack instructions.

/// PHA: push the accumulator.
pub open spec fn spec_pha(s: CpuState) -> CpuState {
    spec_push(s, s.a)
}

/// PHP: push the status byte with B and U both set in the pushed copy only.
pub open spec fn spec_php(s: CpuState) -> CpuState {
    spec_push(s, s.p | FLAG_BREAK | FLAG_BREAK2)
}

/// PLA: pop into the accumulator, updating Z and N.
pub open spec fn spec_pla(s: CpuState) -> CpuState {
    spec_set_a(spec_popped(s), spec_pop_val(s))
}

/// PLP: pop into the status register, with B forced clear and U forced set.
pub open spec fn spec_plp(s: CpuState) -> CpuState {
    CpuState { p: (spec_pop_val(s) & !FLAG_BREAK) | FLAG_BREAK2, ..spec_popped(s) }
}

// The executor.

/// The opcode byte the machine would fetch next.
pub open spec fn spec_fetch(s: CpuState) -> u8 {
    s.mem[s.pc as int]
}

/// The machine halts exactly when the next fetch would return BRK.
pub open spec fn spec_halted(s: CpuState) -> bool {
    spec_fetch(s) == 0x00
}

/// The terminal state: fetching BRK advances the program counter past it and
/// execution stops.
pub open spec fn spec_brk(s: CpuState) -> CpuState {
    CpuState { pc: s.pc.wrapping_add(1), ..s }
}

/// The effect of one decoded instruction, given the state after the opcode
/// fetch (the program counter points at the first operand byte).
pub open spec fn spec_exec_insn(s: CpuState, code: u8) -> CpuState {
    let mode = opcode_mode(code);
    match code {
        // ADC
        0x69 | 0x65 | 0x75 | 0x6D | 0x7D | 0x79 | 0x61 | 0x71 => spec_adc(s, mode),
        // AND
        0x29 | 0x25 | 0x35 | 0x2D | 0x3D | 0x39 | 0x21 | 0x31 => spec_and(s, mode),
        // ASL
        0x0A => spec_asl_acc(s),
        0x06 | 0x16 | 0x0E | 0x1E => spec_asl(s, mode),
        // Branches
        0x90 => spec_branch(s, !flag(s.p, FLAG_CARRY)),
        0xB0 => spec_branch(s, flag(s.p, FLAG_CARRY)),
        0xF0 => spec_branch(s, flag(s.p, FLAG_ZERO)),
        0x30 => spec_branch(s, flag(s.p, FLAG_NEGATIVE)),
        0xD0 => spec_branch(s, !flag(s.p, FLAG_ZERO)),
        0x10 => spec_branch(s, !flag(s.p, FLAG_NEGATIVE)),
        0x50 => spec_branch(s, !flag(s.p, FLAG_OVERFLOW)),
        0x70 => spec_branch(s, flag(s.p, FLAG_OVERFLOW)),
        // BIT
        0x24 | 0x2C => spec_bit(s, mode),
        // Flag instructions
        0x18 => CpuState { p: s.p & !FLAG_CARRY, ..s },
        0xD8 => CpuState { p: s.p & !FLAG_DECIMAL, ..s },
        0x58 => CpuState { p: s.p & !FLAG_INTERRUPT, ..s },
        0xB8 => CpuState { p: s.p & !FLAG_OVERFLOW, ..s },
        0x38 => CpuState { p: s.p | FLAG_CARRY, ..s },
        0xF8 => CpuState { p: s.p | FLAG_DECIMAL, ..s },
        0x78 => CpuState { p: s.p | FLAG_INTERRUPT, ..s },
        // Compares
        0xC9 | 0xC5 | 0xD5 | 0xCD | 0xDD | 0xD9 | 0xC1 | 0xD1 => spec_compare(s, mode, s.a),
        0xE0 | 0xE4 | 0xEC => spec_compare(s, mode, s.x),
        0xC0 | 0xC4 | 0xCC => spec_compare(s, mode, s.y),
        // DEC / DEX / DEY
        0xC6 | 0xD6 | 0xCE | 0xDE => spec_dec(s, mode),
        0xCA => spec_set_x(s, s.x.wrapping_sub(1)),
        0x88 => spec_set_y(s, s.y.wrapping_sub(1)),
        // EOR
        0x49 | 0x45 | 0x55 | 0x4D | 0x5D | 0x59 | 0x41 | 0x51 => spec_eor(s, mode),
        // INC / INX / INY
        0xE6 | 0xF6 | 0xEE | 0xFE => spec_inc(s, mode),
        0xE8 => spec_set_x(s, s.x.wrapping_add(1)),
        0xC8 => spec_set_y(s, s.y.wrapping_add(1)),
        // Jumps
        0x4C => spec_jmp_abs(s),
        0x6C => spec_jmp_ind(s),
        0x20 => spec_jsr(s),
        // Loads
        0xA9 | 0xA5 | 0xB5 | 0xAD | 0xBD | 0xB9 | 0xA1 | 0xB1 => spec_lda(s, mode),
        0xA2 | 0xA6 | 0xB6 | 0xAE | 0xBE => spec_ldx(s, mode),
        0xA0 | 0xA4 | 0xB4 | 0xAC | 0xBC => spec_ldy(s, mode),
        // LSR
        0x4A => spec_lsr_acc(s),
        0x46 | 0x56 | 0x4E | 0x5E => spec_lsr(s, mode),
        // NOP
        0xEA => s,
        // ORA
        0x09 | 0x05 | 0x15 | 0x0D | 0x1D | 0x19 | 0x01 | 0x11 => spec_ora(s, mode),
        // Stack instructions
        0x48 => spec_pha(s),
        0x08 => spec_php(s),
        0x68 => spec_pla(s),
        0x28 => spec_plp(s),
        // ROL / ROR
        0x2A => spec_rol_acc(s),
        0x26 | 0x36 | 0x2E | 0x3E => spec_rol(s, mode),
        0x6A => spec_ror_acc(s),
        0x66 | 0x76 | 0x6E | 0x7E => spec_ror(s, mode),
        // Returns
        0x40 => spec_rti(s),
        0x60 => spec_rts(s),
        // SBC
        0xE9 | 0xE5 | 0xF5 | 0xED | 0xFD | 0xF9 | 0xE1 | 0xF1 => spec_sbc(s, mode),
        // Stores
        0x85 | 0x95 | 0x8D | 0x9D | 0x99 | 0x81 | 0x91 => spec_sta(s, mode),
        0x86 | 0x96 | 0x8E => spec_stx(s, mode),
        0x84 | 0x94 | 0x8C => spec_sty(s, mode),
        // Transfers
        0xAA => spec_set_x(s, s.a),
        0xA8 => spec_set_y(s, s.a),
        0xBA => spec_set_x(s, s.sp),
        0x8A => spec_set_a(s, s.x),
        0x9A => CpuState { sp: s.x, ..s },
        0x98 => spec_set_a(s, s.y),
        _ => s,
    }
}

/// One full machine step for a recognized, non-BRK opcode: fetch, advance the
/// program counter, execute, and advance past the remaining operand bytes
/// unless the instruction itself moved the program counter.
pub open spec fn spec_step(s: CpuState) -> CpuState {
    let code = spec_fetch(s);
    let s1 = CpuState { pc: s.pc.wrapping_add(1), ..s };
    let s2 = spec_exec_insn(s1, code);
    if s2.pc == s1.pc {
        CpuState { pc: s2.pc.wrapping_add((opcode_len(code) - 1) as u16), ..s2 }
    } else {
        s2
    }
}

/// The state after `n` machine steps.
pub open spec fn spec_steps(s: CpuState, n: nat) -> CpuState
    decreases n,
{
    if n == 0 {
        s
    } else {
        spec_step(spec_steps(s, (n - 1) as nat))
    }
}

/// The first `n` steps from `s` each fetch a recognized opcode other than
/// BRK.
pub open spec fn spec_runs_for(s: CpuState, n: nat) -> bool {
    forall|m: nat|
        m < n ==> recognized(spec_fetch(#[trigger] spec_steps(s, m))) && !spec_halted(
            spec_steps(s, m),
        )
}

/// Execution from `s` fetches only recognized opcodes and eventually fetches
/// BRK.
pub open spec fn spec_halts(s: CpuState) -> bool {
    exists|n: nat| #[trigger] spec_runs_for(s, n) && spec_halted(spec_steps(s, n))
}

// Machine control.

/// The state of a freshly constructed machine: registers zeroed, I and U set
/// in the status byte, the stack pointer at its reset value, memory zeroed.
pub open spec fn spec_new() -> CpuState {
    CpuState {
        a: 0,
        x: 0,
        y: 0,
        p: FLAG_INTERRUPT | FLAG_BREAK2,
        sp: STACK_RESET,
        pc: 0,
        mem: Seq::new(MEMORY_SIZE as nat, |i: int| 0u8),
    }
}

/// Reset: registers cleared, status and stack pointer reinitialized, and the
/// program counter seeded from the reset vector.
pub open spec fn spec_reset(s: CpuState) -> CpuState {
    CpuState {
        a: 0,
        x: 0,
        y: 0,
        p: FLAG_INTERRUPT | FLAG_BREAK2,
        sp: STACK_RESET,
        pc: word_at(s.mem, RESET_VECTOR),
        ..s
    }
}

/// Load: the program image lands at [`LOAD_ADDR`] and the reset vector is
/// pointed at it.
pub open spec fn spec_load(s: CpuState, program: Seq<u8>) -> CpuState {
    CpuState {
        mem: word_put(store_range(s.mem, LOAD_ADDR as int, program), RESET_VECTOR, LOAD_ADDR),
        ..s
    }
}

} // verus!
