//! The executable 6502 core, verified against [`crate::semantics`].
//!
//! [`CPU`] owns the register file and the flat 64 KiB memory.  Every
//! instruction handler carries a contract equating its effect with the
//! corresponding specification function, and [`CPU::step`] is proved to
//! perform exactly one transition of [`spec_step`].  [`CPU::run`] drives
//! steps until a BRK opcode is fetched.

use vstd::prelude::*;

use crate::opcodes::{opcode_lookup, recognized};
use crate::semantics::{
    flag, operand, operand_addr, spec_add_to_a, spec_adc, spec_and, spec_asl, spec_asl_acc, spec_bit,
    spec_branch, spec_brk, spec_compare, spec_dec, spec_eor, spec_exec_insn, spec_fetch,
    spec_halted, spec_halts, spec_inc, spec_jsr, spec_lda, spec_ldx, spec_ldy, spec_load,
    spec_lsr, spec_lsr_acc, spec_new, spec_ora, spec_pha, spec_php, spec_pla, spec_plp,
    spec_pop16_val, spec_pop_val, spec_popped, spec_popped16, spec_push, spec_push16, spec_reset,
    spec_rol, spec_rol_acc, spec_ror, spec_ror_acc, spec_rti, spec_rts, spec_runs_for, spec_sbc,
    spec_set_a, spec_set_x, spec_set_y, spec_sta, spec_step, spec_steps, spec_stx, spec_sty,
    spec_update_nz, wf_state, CpuState, FLAG_BREAK, FLAG_BREAK2, FLAG_CARRY, FLAG_DECIMAL,
    FLAG_INTERRUPT, FLAG_NEGATIVE, FLAG_OVERFLOW, FLAG_ZERO, LOAD_ADDR, MEMORY_SIZE, RESET_VECTOR,
    STACK_BASE, STACK_RESET,
};

verus! {

/// The rule by which an instruction's operand address is derived from its
/// operand bytes and the register file.
#[derive(Debug, Clone, Copy, PartialEq, Eq, Structural)]
#[allow(non_camel_case_types)]
pub enum AddressingMode {
    Immediate,
    ZeroPage,
    ZeroPage_X,
    ZeroPage_Y,
    Absolute,
    Absolute_X,
    Absolute_Y,
    Indirect_X,
    Indirect_Y,
    NoneAddressing,
}

/// What one call of [`CPU::step`] did.
#[derive(Debug, Clone, Copy, PartialEq, Eq, Structural)]
pub enum StepResult {
    /// One instruction was executed.
    Ran,
    /// A BRK opcode was fetched; execution stops.
    Halted,
    /// The byte at the program counter is not an official opcode; the
    /// machine state is untouched.
    Unrecognized,
}

/// A byte-addressable 16-bit bus with 8-bit reads and writes, plus the
/// little-endian 16-bit helpers derived from them.
pub trait Mem {
    /// The bus is ready to serve the full address space.
    spec fn mem_wf(&self) -> bool;

    /// The bus contents as a sequence of bytes.
    spec fn mem_seq(&self) -> Seq<u8>;

    /// Read the byte at `addr`.
    fn mem_read(&self, addr: u16) -> (data: u8)
        requires
            self.mem_wf(),
        ensures
            data == self.mem_seq()[addr as int],
    ;

    /// Write one byte at `addr`.
    fn mem_write(&mut self, addr: u16, data: u8)
        requires
            old(self).mem_wf(),
        ensures
            final(self).mem_wf(),
            final(self).mem_seq() == old(self).mem_seq().update(addr as int, data),
    ;

    /// Read the little-endian 16-bit word at `pos`; the high byte comes from
    /// `pos + 1`, wrapping at the end of the address space.
    fn mem_read_u16(&self, pos: u16) -> (data: u16)
        requires
            self.mem_wf(),
        ensures
            data == crate::semantics::word_at(self.mem_seq(), pos),
    {
        let lo = self.mem_read(pos) as u16;
        let hi = self.mem_read(pos.wrapping_add(1)) as u16;
        (hi << 8) | lo
    }

    /// Store a little-endian 16-bit word at `pos`, low byte first.
    fn mem_write_u16(&mut self, pos: u16, data: u16)
        requires
            old(self).mem_wf(),
        ensures
            final(self).mem_wf(),
            final(self).mem_seq() == crate::semantics::word_put(old(self).mem_seq(), pos, data),
    {
        let hi = (data >> 8) as u8;
        let lo = (data & 0xff) as u8;
        self.mem_write(pos, lo);
        self.mem_write(pos.wrapping_add(1), hi);
    }
}

/// The 6502 core: the register file plus the memory it owns.
pub struct CPU {
    /// Accumulator.
    pub register_a: u8,
    /// X index register.
    pub register_x: u8,
    /// Y index register.
    pub register_y: u8,
    /// Status flags.
    pub status: u8,
    /// Program counter.
    pub program_counter: u16,
    /// Stack pointer (offset into page one).
    pub stack_pointer: u8,
    memory: Vec<u8>,
}

impl View for CPU {
    type V = CpuState;

    closed spec fn view(&self) -> CpuState {
        CpuState {
            a: self.register_a,
            x: self.register_x,
            y: self.register_y,
            p: self.status,
            sp: self.stack_pointer,
            pc: self.program_counter,
            mem: self.memory@,
        }
    }
}

impl Mem for CPU {
    open spec fn mem_wf(&self) -> bool {
        self.wf()
    }

    open spec fn mem_seq(&self) -> Seq<u8> {
        self@.mem
    }

    fn mem_read(&self, addr: u16) -> (data: u8) {
        self.read8(addr)
    }

    fn mem_write(&mut self, addr: u16, data: u8) {
        self.write8(addr, data);
    }
}

impl CPU {
    /// The memory bank spans the full 16-bit address space.
    pub open spec fn wf(&self) -> bool {
        wf_state(self@)
    }

    /// A fresh machine: registers zeroed, I and U set in the status byte,
    /// the stack pointer at its reset value, memory zeroed.
    pub fn new() -> (cpu: CPU)
        ensures
            cpu.wf(),
            cpu@ == spec_new(),
    {
        let cpu = CPU {
            register_a: 0,
            register_x: 0,
            register_y: 0,
            status: FLAG_INTERRUPT | FLAG_BREAK2,
            program_counter: 0,
            stack_pointer: STACK_RESET,
            memory: vec![0u8; MEMORY_SIZE],
        };
        proof {
            assert(cpu@.mem =~= spec_new().mem);
            assert(cpu@ =~= spec_new());
        }
        cpu
    }

    /// Runtime check for [`CPU::wf`], for callers outside the proof.
    pub fn is_well_formed(&self) -> (r: bool)
        ensures
            r == self.wf(),
    {
        self.memory.len() == MEMORY_SIZE
    }

    /// Read the byte at `addr`.
    fn read8(&self, addr: u16) -> (data: u8)
        requires
            self.wf(),
        ensures
            data == self@.mem[addr as int],
    {
        self.memory[addr as usize]
    }

    /// Write one byte at `addr`; nothing but that byte changes.
    fn write8(&mut self, addr: u16, data: u8)
        requires
            old(self).wf(),
        ensures
            final(self).wf(),
            final(self)@ == (CpuState {
                mem: old(self)@.mem.update(addr as int, data),
                ..old(self)@
            }),
    {
        self.memory[addr as usize] = data;
    }

    /// Read the little-endian word at `pos`, the high byte wrapping at the
    /// end of the address space.
    fn read16(&self, pos: u16) -> (data: u16)
        requires
            self.wf(),
        ensures
            data == crate::semantics::word_at(self@.mem, pos),
    {
        let lo = self.read8(pos) as u16;
        let hi = self.read8(pos.wrapping_add(1)) as u16;
        (hi << 8) | lo
    }

    /// Store a little-endian word at `pos`, low byte first.
    fn write16(&mut self, pos: u16, data: u16)
        requires
            old(self).wf(),
        ensures
            final(self).wf(),
            final(self)@ == (CpuState {
                mem: crate::semantics::word_put(old(self)@.mem, pos, data),
                ..old(self)@
            }),
    {
        let lo = (data & 0xff) as u8;
        let hi = (data >> 8) as u8;
        self.write8(pos, lo);
        self.write8(pos.wrapping_add(1), hi);
    }

    // Stack discipline: push writes at `STACK_BASE + sp` then decrements;
    // pop increments then reads, both wrapping within the page.

    fn stack_push(&mut self, data: u8)
        requires
            old(self).wf(),
        ensures
            final(self).wf(),
            final(self)@ == spec_push(old(self)@, data),
    {
        self.write8(STACK_BASE + self.stack_pointer as u16, data);
        self.stack_pointer = self.stack_pointer.wrapping_sub(1);
    }

    fn stack_pop(&mut self) -> (data: u8)
        requires
            old(self).wf(),
        ensures
            final(self).wf(),
            final(self)@ == spec_popped(old(self)@),
            data == spec_pop_val(old(self)@),
    {
        self.stack_pointer = self.stack_pointer.wrapping_add(1);
        self.read8(STACK_BASE + self.stack_pointer as u16)
    }

    fn stack_push_u16(&mut self, data: u16)
        requires
            old(self).wf(),
        ensures
            final(self).wf(),
            final(self)@ == spec_push16(old(self)@, data),
    {
        let hi = (data >> 8) as u8;
        let lo = (data & 0xff) as u8;
        self.stack_push(hi);
        self.stack_push(lo);
    }

    fn stack_pop_u16(&mut self) -> (data: u16)
        requires
            old(self).wf(),
        ensures
            final(self).wf(),
            final(self)@ == spec_popped16(old(self)@),
            data == spec_pop16_val(old(self)@),
    {
        let lo = self.stack_pop() as u16;
        let hi = self.stack_pop() as u16;
        (hi << 8) | lo
    }

    /// The effective operand address for the current instruction.  The
    /// resolver is never invoked for implied or accumulator forms.
    fn get_operand_address(&self, mode: &AddressingMode) -> (addr: u16)
        requires
            self.wf(),
            *mode != AddressingMode::NoneAddressing,
        ensures
            addr == operand_addr(self@, *mode),
    {
        match mode {
            AddressingMode::Immediate => self.program_counter,
            AddressingMode::ZeroPage => self.read8(self.program_counter) as u16,
            AddressingMode::ZeroPage_X => {
                let pos = self.read8(self.program_counter);
                pos.wrapping_add(self.register_x) as u16
            },
            AddressingMode::ZeroPage_Y => {
                let pos = self.read8(self.program_counter);
                pos.wrapping_add(self.register_y) as u16
            },
            AddressingMode::Absolute => self.read16(self.program_counter),
            AddressingMode::Absolute_X => {
                let base = self.read16(self.program_counter);
                base.wrapping_add(self.register_x as u16)
            },
            AddressingMode::Absolute_Y => {
                let base = self.read16(self.program_counter);
                base.wrapping_add(self.register_y as u16)
            },
            AddressingMode::Indirect_X => {
                let base = self.read8(self.program_counter);
                let ptr: u8 = base.wrapping_add(self.register_x);
                let lo = self.read8(ptr as u16);
                let hi = self.read8(ptr.wrapping_add(1) as u16);
                ((hi as u16) << 8) | (lo as u16)
            },
            AddressingMode::Indirect_Y => {
                let base = self.read8(self.program_counter);
                let lo = self.read8(base as u16);
                let hi = self.read8(base.wrapping_add(1) as u16);
                let deref_base = ((hi as u16) << 8) | (lo as u16);
                deref_base.wrapping_add(self.register_y as u16)
            },
            AddressingMode::NoneAddressing => 0,
        }
    }

    /// Set Z iff the result is zero and N iff its bit 7 is set; no other
    /// status bits change.
    fn update_zero_and_negative_flags(&mut self, result: u8)
        ensures
            final(self)@ == (CpuState {
                p: spec_update_nz(old(self)@.p, result),
                ..old(self)@
            }),
    {
        if result == 0 {
            self.status = self.status | FLAG_ZERO;
        } else {
            self.status = self.status & !FLAG_ZERO;
        }
        if result & 0x80 != 0 {
            self.status = self.status | FLAG_NEGATIVE;
        } else {
            self.status = self.status & !FLAG_NEGATIVE;
        }
    }

    /// Store into A and update Z and N.
    fn set_register_a(&mut self, data: u8)
        ensures
            final(self)@ == spec_set_a(old(self)@, data),
    {
        self.register_a = data;
        self.update_zero_and_negative_flags(self.register_a);
    }

    /// Store into X and update Z and N.
    fn set_register_x(&mut self, data: u8)
        ensures
            final(self)@ == spec_set_x(old(self)@, data),
    {
        self.register_x = data;
        self.update_zero_and_negative_flags(self.register_x);
    }

    /// Store into Y and update Z and N.
    fn set_register_y(&mut self, data: u8)
        ensures
            final(self)@ == spec_set_y(old(self)@, data),
    {
        self.register_y = data;
        self.update_zero_and_negative_flags(self.register_y);
    }

    /// Carry-aware addition into the accumulator; decimal mode is ignored,
    /// as on the NES variant of the chip.
    fn add_to_register_a(&mut self, data: u8)
        ensures
            final(self)@ == spec_add_to_a(old(self)@, data),
    {
        let carry_in: u16 = if self.status & FLAG_CARRY != 0 {
            1
        } else {
            0
        };
        let sum: u16 = self.register_a as u16 + data as u16 + carry_in;
        if sum > 0xff {
            self.sec();
        } else {
            self.clc();
        }
        let result: u8 = (sum % 0x100) as u8;
        if (data ^ result) & (result ^ self.register_a) & 0x80 != 0 {
            self.status = self.status | FLAG_OVERFLOW;
        } else {
            self.clv();
        }
        self.set_register_a(result);
    }

    // Instruction implementations.

    /// ADC: add the operand and the carry into A.
    fn adc(&mut self, mode: &AddressingMode)
        requires
            old(self).wf(),
            *mode != AddressingMode::NoneAddressing,
        ensures
            final(self).wf(),
            final(self)@ == spec_adc(old(self)@, *mode),
    {
        let addr = self.get_operand_address(mode);
        let data = self.read8(addr);
        self.add_to_register_a(data);
    }

    /// SBC: add the operand's bitwise complement, the two's-complement
    /// subtraction identity `A - m - (1 - C)`.
    fn sbc(&mut self, mode: &AddressingMode)
        requires
            old(self).wf(),
            *mode != AddressingMode::NoneAddressing,
        ensures
            final(self).wf(),
            final(self)@ == spec_sbc(old(self)@, *mode),
    {
        let addr = self.get_operand_address(mode);
        let data = self.read8(addr);
        self.add_to_register_a(!data);
    }

    /// AND: bitwise conjunction into A.
    fn and(&mut self, mode: &AddressingMode)
        requires
            old(self).wf(),
            *mode != AddressingMode::NoneAddressing,
        ensures
            final(self).wf(),
            final(self)@ == spec_and(old(self)@, *mode),
    {
        let addr = self.get_operand_address(mode);
        let data = self.read8(addr);
        self.set_register_a(data & self.register_a);
    }

    /// ORA: bitwise disjunction into A.
    fn ora(&mut self, mode: &AddressingMode)
        requires
            old(self).wf(),
            *mode != AddressingMode::NoneAddressing,
        ensures
            final(self).wf(),
            final(self)@ == spec_ora(old(self)@, *mode),
    {
        let addr = self.get_operand_address(mode);
        let data = self.read8(addr);
        self.set_register_a(data | self.register_a);
    }

    /// EOR: bitwise exclusive or into A.
    fn eor(&mut self, mode: &AddressingMode)
        requires
            old(self).wf(),
            *mode != AddressingMode::NoneAddressing,
        ensures
            final(self).wf(),
            final(self)@ == spec_eor(old(self)@, *mode),
    {
        let addr = self.get_operand_address(mode);
        let data = self.read8(addr);
        self.set_register_a(data ^ self.register_a);
    }

    /// ASL on the accumulator: C takes bit 7.
    fn asl_accumulator(&mut self)
        ensures
            final(self)@ == spec_asl_acc(old(self)@),
    {
        let data = self.register_a;
        if data >> 7 == 1 {
            self.sec();
        } else {
            self.clc();
        }
        self.set_register_a(data << 1);
    }

    /// ASL on memory: C takes bit 7 and the shifted byte is written back.
    fn asl(&mut self, mode: &AddressingMode) -> (r: u8)
        requires
            old(self).wf(),
            *mode != AddressingMode::NoneAddressing,
        ensures
            final(self).wf(),
            final(self)@ == spec_asl(old(self)@, *mode),
            r == operand(old(self)@, *mode) << 1,
    {
        let addr = self.get_operand_address(mode);
        let data = self.read8(addr);
        if data >> 7 == 1 {
            self.sec();
        } else {
            self.clc();
        }
        let v = data << 1;
        self.write8(addr, v);
        self.update_zero_and_negative_flags(v);
        v
    }

    /// LSR on the accumulator: C takes bit 0.
    fn lsr_accumulator(&mut self)
        ensures
            final(self)@ == spec_lsr_acc(old(self)@),
    {
        let data = self.register_a;
        if data & 1 == 1 {
            self.sec();
        } else {
            self.clc();
        }
        self.set_register_a(data >> 1);
    }

    /// LSR on memory: C takes bit 0 and the shifted byte is written back.
    fn lsr(&mut self, mode: &AddressingMode) -> (r: u8)
        requires
            old(self).wf(),
            *mode != AddressingMode::NoneAddressing,
        ensures
            final(self).wf(),
            final(self)@ == spec_lsr(old(self)@, *mode),
            r == operand(old(self)@, *mode) >> 1,
    {
        let addr = self.get_operand_address(mode);
        let data = self.read8(addr);
        if data & 1 == 1 {
            self.sec();
        } else {
            self.clc();
        }
        let v = data >> 1;
        self.write8(addr, v);
        self.update_zero_and_negative_flags(v);
        v
    }

    /// ROL on the accumulator: the old carry enters at bit 0.
    fn rol_accumulator(&mut self)
        ensures
            final(self)@ == spec_rol_acc(old(self)@),
    {
        let data = self.register_a;
        let old_carry = self.status & FLAG_CARRY != 0;
        if data >> 7 == 1 {
            self.sec();
        } else {
            self.clc();
        }
        let v = if old_carry {
            (data << 1) | 1
        } else {
            data << 1
        };
        self.set_register_a(v);
    }

    /// ROL on memory.
    fn rol(&mut self, mode: &AddressingMode) -> (r: u8)
        requires
            old(self).wf(),
            *mode != AddressingMode::NoneAddressing,
        ensures
            final(self).wf(),
            final(self)@ == spec_rol(old(self)@, *mode),
            r == ({
                let data = operand(old(self)@, *mode);
                if flag(old(self)@.p, FLAG_CARRY) {
                    (data << 1) | 1
                } else {
                    data << 1
                }
            }),
    {
        let addr = self.get_operand_address(mode);
        let data = self.read8(addr);
        let old_carry = self.status & FLAG_CARRY != 0;
        if data >> 7 == 1 {
            self.sec();
        } else {
            self.clc();
        }
        let v = if old_carry {
            (data << 1) | 1
        } else {
            data << 1
        };
        self.write8(addr, v);
        self.update_zero_and_negative_flags(v);
        v
    }

    /// ROR on the accumulator: the old carry enters at bit 7.
    fn ror_accumulator(&mut self)
        ensures
            final(self)@ == spec_ror_acc(old(self)@),
    {
        let data = self.register_a;
        let old_carry = self.status & FLAG_CARRY != 0;
        if data & 1 == 1 {
            self.sec();
        } else {
            self.clc();
        }
        let v = if old_carry {
            (data >> 1) | 0x80
        } else {
            data >> 1
        };
        self.set_register_a(v);
    }

    /// ROR on memory.
    fn ror(&mut self, mode: &AddressingMode) -> (r: u8)
        requires
            old(self).wf(),
            *mode != AddressingMode::NoneAddressing,
        ensures
            final(self).wf(),
            final(self)@ == spec_ror(old(self)@, *mode),
            r == ({
                let data = operand(old(self)@, *mode);
                if flag(old(self)@.p, FLAG_CARRY) {
                    (data >> 1) | 0x80
                } else {
                    data >> 1
                }
            }),
    {
        let addr = self.get_operand_address(mode);
        let data = self.read8(addr);
        let old_carry = self.status & FLAG_CARRY != 0;
        if data & 1 == 1 {
            self.sec();
        } else {
            self.clc();
        }
        let v = if old_carry {
            (data >> 1) | 0x80
        } else {
            data >> 1
        };
        self.write8(addr, v);
        self.update_zero_and_negative_flags(v);
        v
    }

    /// INC: add one to a memory byte, wrapping.
    fn inc(&mut self, mode: &AddressingMode) -> (r: u8)
        requires
            old(self).wf(),
            *mode != AddressingMode::NoneAddressing,
        ensures
            final(self).wf(),
            final(self)@ == spec_inc(old(self)@, *mode),
            r == operand(old(self)@, *mode).wrapping_add(1),
    {
        let addr = self.get_operand_address(mode);
        let data = self.read8(addr);
        let v = data.wrapping_add(1);
        self.write8(addr, v);
        self.update_zero_and_negative_flags(v);
        v
    }

    /// DEC: subtract one from a memory byte, wrapping.
    fn dec(&mut self, mode: &AddressingMode) -> (r: u8)
        requires
            old(self).wf(),
            *mode != AddressingMode::NoneAddressing,
        ensures
            final(self).wf(),
            final(self)@ == spec_dec(old(self)@, *mode),
            r == operand(old(self)@, *mode).wrapping_sub(1),
    {
        let addr = self.get_operand_address(mode);
        let data = self.read8(addr);
        let v = data.wrapping_sub(1);
        self.write8(addr, v);
        self.update_zero_and_negative_flags(v);
        v
    }

    /// INX: increment X, wrapping.
    fn inx(&mut self)
        ensures
            final(self)@ == spec_set_x(old(self)@, old(self)@.x.wrapping_add(1)),
    {
        let v = self.register_x.wrapping_add(1);
        self.set_register_x(v);
    }

    /// INY: increment Y, wrapping.
    fn iny(&mut self)
        ensures
            final(self)@ == spec_set_y(old(self)@, old(self)@.y.wrapping_add(1)),
    {
        let v = self.register_y.wrapping_add(1);
        self.set_register_y(v);
    }

    /// DEX: decrement X, wrapping.
    fn dex(&mut self)
        ensures
            final(self)@ == spec_set_x(old(self)@, old(self)@.x.wrapping_sub(1)),
    {
        let v = self.register_x.wrapping_sub(1);
        self.set_register_x(v);
    }

    /// DEY: decrement Y, wrapping.
    fn dey(&mut self)
        ensures
            final(self)@ == spec_set_y(old(self)@, old(self)@.y.wrapping_sub(1)),
    {
        let v = self.register_y.wrapping_sub(1);
        self.set_register_y(v);
    }

    /// LDA: load the operand into A.
    fn lda(&mut self, mode: &AddressingMode)
        requires
            old(self).wf(),
            *mode != AddressingMode::NoneAddressing,
        ensures
            final(self).wf(),
            final(self)@ == spec_lda(old(self)@, *mode),
    {
        let addr = self.get_operand_address(mode);
        let data = self.read8(addr);
        self.set_register_a(data);
    }

    /// LDX: load the operand into X.
    fn ldx(&mut self, mode: &AddressingMode)
        requires
            old(self).wf(),
            *mode != AddressingMode::NoneAddressing,
        ensures
            final(self).wf(),
            final(self)@ == spec_ldx(old(self)@, *mode),
    {
        let addr = self.get_operand_address(mode);
        let data = self.read8(addr);
        self.set_register_x(data);
    }

    /// LDY: load the operand into Y.
    fn ldy(&mut self, mode: &AddressingMode)
        requires
            old(self).wf(),
            *mode != AddressingMode::NoneAddressing,
        ensures
            final(self).wf(),
            final(self)@ == spec_ldy(old(self)@, *mode),
    {
        let addr = self.get_operand_address(mode);
        let data = self.read8(addr);
        self.set_register_y(data);
    }

    /// STA: store A; no flag effects.
    fn sta(&mut self, mode: &AddressingMode)
        requires
            old(self).wf(),
            *mode != AddressingMode::NoneAddressing,
        ensures
            final(self).wf(),
            final(self)@ == spec_sta(old(self)@, *mode),
    {
        let addr = self.get_operand_address(mode);
        self.write8(addr, self.register_a);
    }

    /// STX: store X; no flag effects.
    fn stx(&mut self, mode: &AddressingMode)
        requires
            old(self).wf(),
            *mode != AddressingMode::NoneAddressing,
        ensures
            final(self).wf(),
            final(self)@ == spec_stx(old(self)@, *mode),
    {
        let addr = self.get_operand_address(mode);
        self.write8(addr, self.register_x);
    }

    /// STY: store Y; no flag effects.
    fn sty(&mut self, mode: &AddressingMode)
        requires
            old(self).wf(),
            *mode != AddressingMode::NoneAddressing,
        ensures
            final(self).wf(),
            final(self)@ == spec_sty(old(self)@, *mode),
    {
        let addr = self.get_operand_address(mode);
        self.write8(addr, self.register_y);
    }

    /// TAX: copy A into X, updating Z and N.
    fn tax(&mut self)
        ensures
            final(self)@ == spec_set_x(old(self)@, old(self)@.a),
    {
        let v = self.register_a;
        self.set_register_x(v);
    }

    /// TAY: copy A into Y, updating Z and N.
    fn tay(&mut self)
        ensures
            final(self)@ == spec_set_y(old(self)@, old(self)@.a),
    {
        let v = self.register_a;
        self.set_register_y(v);
    }

    /// TSX: copy the stack pointer into X, updating Z and N.
    fn tsx(&mut self)
        ensures
            final(self)@ == spec_set_x(old(self)@, old(self)@.sp),
    {
        let v = self.stack_pointer;
        self.set_register_x(v);
    }

    /// TXA: copy X into A, updating Z and N.
    fn txa(&mut self)
        ensures
            final(self)@ == spec_set_a(old(self)@, old(self)@.x),
    {
        let v = self.register_x;
        self.set_register_a(v);
    }

    /// TXS: copy X into the stack pointer; no flag effects.
    fn txs(&mut self)
        ensures
            final(self)@ == (CpuState { sp: old(self)@.x, ..old(self)@ }),
    {
        self.stack_pointer = self.register_x;
    }

    /// TYA: copy Y into A, updating Z and N.
    fn tya(&mut self)
        ensures
            final(self)@ == spec_set_a(old(self)@, old(self)@.y),
    {
        let v = self.register_y;
        self.set_register_a(v);
    }

    /// CMP/CPX/CPY: compare a register value with the operand.
    fn compare(&mut self, mode: &AddressingMode, compare_with: u8)
        requires
            old(self).wf(),
            *mode != AddressingMode::NoneAddressing,
        ensures
            final(self).wf(),
            final(self)@ == spec_compare(old(self)@, *mode, compare_with),
    {
        let addr = self.get_operand_address(mode);
        let data = self.read8(addr);
        if data <= compare_with {
            self.sec();
        } else {
            self.clc();
        }
        self.update_zero_and_negative_flags(compare_with.wrapping_sub(data));
    }

    /// BIT: Z from `A & m`, N from bit 7 of the operand, V from bit 6.
    fn bit(&mut self, mode: &AddressingMode)
        requires
            old(self).wf(),
            *mode != AddressingMode::NoneAddressing,
        ensures
            final(self).wf(),
            final(self)@ == spec_bit(old(self)@, *mode),
    {
        let addr = self.get_operand_address(mode);
        let data = self.read8(addr);
        if self.register_a & data == 0 {
            self.status = self.status | FLAG_ZERO;
        } else {
            self.status = self.status & !FLAG_ZERO;
        }
        if data & 0x80 != 0 {
            self.status = self.status | FLAG_NEGATIVE;
        } else {
            self.status = self.status & !FLAG_NEGATIVE;
        }
        if data & 0x40 != 0 {
            self.status = self.status | FLAG_OVERFLOW;
        } else {
            self.status = self.status & !FLAG_OVERFLOW;
        }
    }

    /// A conditional branch: when taken, add the signed displacement past
    /// the displacement byte, wrapping at 16 bits.
    fn branch(&mut self, condition: bool)
        requires
            old(self).wf(),
        ensures
            final(self).wf(),
            final(self)@ == spec_branch(old(self)@, condition),
    {
        if condition {
            let jump = self.read8(self.program_counter);
            let rel: u16 = if jump < 0x80 {
                jump as u16
            } else {
                jump as u16 + 0xFF00
            };
            self.program_counter = self.program_counter.wrapping_add(1).wrapping_add(rel);
        }
    }

    /// JSR: push the address of this instruction's last byte, then jump to
    /// the absolute operand (read after the push lands).
    fn jsr(&mut self)
        requires
            old(self).wf(),
        ensures
            final(self).wf(),
            final(self)@ == spec_jsr(old(self)@),
    {
        let ret = self.program_counter.wrapping_add(1);
        self.stack_push_u16(ret);
        let target = self.read16(self.program_counter);
        self.program_counter = target;
    }

    /// RTS: pop the return address and resume one byte past it.
    fn rts(&mut self)
        requires
            old(self).wf(),
        ensures
            final(self).wf(),
            final(self)@ == spec_rts(old(self)@),
    {
        let addr = self.stack_pop_u16();
        self.program_counter = addr.wrapping_add(1);
    }

    /// RTI: pop the status byte (B cleared, U set), then the program
    /// counter, with no adjustment.
    fn rti(&mut self)
        requires
            old(self).wf(),
        ensures
            final(self).wf(),
            final(self)@ == spec_rti(old(self)@),
    {
        let v = self.stack_pop();
        self.status = (v & !FLAG_BREAK) | FLAG_BREAK2;
        let pc = self.stack_pop_u16();
        self.program_counter = pc;
    }

    /// PHA: push the accumulator.
    fn pha(&mut self)
        requires
            old(self).wf(),
        ensures
            final(self).wf(),
            final(self)@ == spec_pha(old(self)@),
    {
        self.stack_push(self.register_a);
    }

    /// PHP: push the status byte with B and U set in the pushed copy only.
    fn php(&mut self)
        requires
            old(self).wf(),
        ensures
            final(self).wf(),
            final(self)@ == spec_php(old(self)@),
    {
        self.stack_push(self.status | FLAG_BREAK | FLAG_BREAK2);
    }

    /// PLA: pop into the accumulator, updating Z and N.
    fn pla(&mut self)
        requires
            old(self).wf(),
        ensures
            final(self).wf(),
            final(self)@ == spec_pla(old(self)@),
    {
        let data = self.stack_pop();
        self.set_register_a(data);
    }

    /// PLP: pop into the status register, with B forced clear and U forced
    /// set.
    fn plp(&mut self)
        requires
            old(self).wf(),
        ensures
            final(self).wf(),
            final(self)@ == spec_plp(old(self)@),
    {
        let v = self.stack_pop();
        self.status = (v & !FLAG_BREAK) | FLAG_BREAK2;
    }

    /// CLC: clear the carry flag.
    fn clc(&mut self)
        ensures
            final(self)@ == (CpuState { p: old(self)@.p & !FLAG_CARRY, ..old(self)@ }),
    {
        self.status = self.status & !FLAG_CARRY;
    }

    /// CLD: clear the decimal-mode flag.
    fn cld(&mut self)
        ensures
            final(self)@ == (CpuState { p: old(self)@.p & !FLAG_DECIMAL, ..old(self)@ }),
    {
        self.status = self.status & !FLAG_DECIMAL;
    }

    /// CLI: clear the interrupt-disable flag.
    fn cli(&mut self)
        ensures
            final(self)@ == (CpuState { p: old(self)@.p & !FLAG_INTERRUPT, ..old(self)@ }),
    {
        self.status = self.status & !FLAG_INTERRUPT;
    }

    /// CLV: clear the overflow flag.
    fn clv(&mut self)
        ensures
            final(self)@ == (CpuState { p: old(self)@.p & !FLAG_OVERFLOW, ..old(self)@ }),
    {
        self.status = self.status & !FLAG_OVERFLOW;
    }

    /// SEC: set the carry flag.
    fn sec(&mut self)
        ensures
            final(self)@ == (CpuState { p: old(self)@.p | FLAG_CARRY, ..old(self)@ }),
    {
        self.status = self.status | FLAG_CARRY;
    }

    /// SED: set the decimal-mode flag.
    fn sed(&mut self)
        ensures
            final(self)@ == (CpuState { p: old(self)@.p | FLAG_DECIMAL, ..old(self)@ }),
    {
        self.status = self.status | FLAG_DECIMAL;
    }

    /// SEI: set the interrupt-disable flag.
    fn sei(&mut self)
        ensures
            final(self)@ == (CpuState { p: old(self)@.p | FLAG_INTERRUPT, ..old(self)@ }),
    {
        self.status = self.status | FLAG_INTERRUPT;
    }

    /// Dispatch one decoded, non-BRK instruction to its handler.
    fn execute(&mut self, code: u8, mode: &AddressingMode)
        requires
            old(self).wf(),
            recognized(code),
            code != 0x00,
            *mode == crate::opcodes::opcode_mode(code),
        ensures
            final(self).wf(),
            final(self)@ == spec_exec_insn(old(self)@, code),
    {
        match code {
            // ADC, SBC, CMP, CPX, CPY, INC/DEC and the register steps.
            0x69 | 0x65 | 0x75 | 0x6D | 0x7D | 0x79 | 0x61 | 0x71 | 0xE9 | 0xE5 | 0xF5 | 0xED
                | 0xFD | 0xF9 | 0xE1 | 0xF1 | 0xC9 | 0xC5 | 0xD5 | 0xCD | 0xDD | 0xD9 | 0xC1
                | 0xD1 | 0xE0 | 0xE4 | 0xEC | 0xC0 | 0xC4 | 0xCC | 0xC6 | 0xD6 | 0xCE | 0xDE
                | 0xCA | 0x88 | 0xE6 | 0xF6 | 0xEE | 0xFE | 0xE8 | 0xC8 => {
                self.execute_arithmetic(code, mode);
            },
            // AND, ORA, EOR, BIT and the shifts and rotates.
            0x29 | 0x25 | 0x35 | 0x2D | 0x3D | 0x39 | 0x21 | 0x31 | 0x09 | 0x05 | 0x15 | 0x0D
                | 0x1D | 0x19 | 0x01 | 0x11 | 0x49 | 0x45 | 0x55 | 0x4D | 0x5D | 0x59 | 0x41
                | 0x51 | 0x24 | 0x2C | 0x0A | 0x06 | 0x16 | 0x0E | 0x1E | 0x4A | 0x46 | 0x56
                | 0x4E | 0x5E | 0x2A | 0x26 | 0x36 | 0x2E | 0x3E | 0x6A | 0x66 | 0x76 | 0x6E
                | 0x7E => {
                self.execute_logic(code, mode);
            },
            // Branches, jumps, returns, NOP.
            0x90 | 0xB0 | 0xF0 | 0x30 | 0xD0 | 0x10 | 0x50 | 0x70 | 0x4C | 0x6C | 0x20 | 0x60
                | 0x40 | 0xEA => {
                self.execute_control(code);
            },
            // Loads, stores and register transfers.
            0xA9 | 0xA5 | 0xB5 | 0xAD | 0xBD | 0xB9 | 0xA1 | 0xB1 | 0xA2 | 0xA6 | 0xB6 | 0xAE
                | 0xBE | 0xA0 | 0xA4 | 0xB4 | 0xAC | 0xBC | 0x85 | 0x95 | 0x8D | 0x9D | 0x99
                | 0x81 | 0x91 | 0x86 | 0x96 | 0x8E | 0x84 | 0x94 | 0x8C | 0xAA | 0xA8 | 0xBA
                | 0x8A | 0x9A | 0x98 => {
                self.execute_data(code, mode);
            },
            // Stack pushes and pulls, flag instructions.
            0x48 | 0x08 | 0x68 | 0x28 | 0x18 | 0xD8 | 0x58 | 0xB8 | 0x38 | 0xF8 | 0x78 => {
                self.execute_status(code);
            },
            _ => {
                proof {
                    assert(false);
                }
            },
        }
    }

    /// ADC, SBC, the compares, and the increment and decrement family.
    #[verifier::rlimit(100)]
    #[verifier::spinoff_prover]
    fn execute_arithmetic(&mut self, code: u8, mode: &AddressingMode)
        requires
            old(self).wf(),
            code == 0x69 || code == 0x65 || code == 0x75 || code == 0x6D || code == 0x7D || code
                == 0x79 || code == 0x61 || code == 0x71 || code == 0xE9 || code == 0xE5 || code
                == 0xF5 || code == 0xED || code == 0xFD || code == 0xF9 || code == 0xE1 || code
                == 0xF1 || code == 0xC9 || code == 0xC5 || code == 0xD5 || code == 0xCD || code
                == 0xDD || code == 0xD9 || code == 0xC1 || code == 0xD1 || code == 0xE0 || code
                == 0xE4 || code == 0xEC || code == 0xC0 || code == 0xC4 || code == 0xCC || code
                == 0xC6 || code == 0xD6 || code == 0xCE || code == 0xDE || code == 0xCA || code
                == 0x88 || code == 0xE6 || code == 0xF6 || code == 0xEE || code == 0xFE || code
                == 0xE8 || code == 0xC8,
            *mode == crate::opcodes::opcode_mode(code),
        ensures
            final(self).wf(),
            final(self)@ == spec_exec_insn(old(self)@, code),
    {
        let ghost s1 = self@;
        match code {
            // ADC
            0x69 | 0x65 | 0x75 | 0x6D | 0x7D | 0x79 | 0x61 | 0x71 => {
                self.adc(mode);
                proof {
                    assert(self@ == spec_exec_insn(s1, code));
                }
            },
            // SBC
            0xE9 | 0xE5 | 0xF5 | 0xED | 0xFD | 0xF9 | 0xE1 | 0xF1 => {
                self.sbc(mode);
                proof {
                    assert(self@ == spec_exec_insn(s1, code));
                }
            },
            // CMP
            0xC9 | 0xC5 | 0xD5 | 0xCD | 0xDD | 0xD9 | 0xC1 | 0xD1 => {
                let reg = self.register_a;
                self.compare(mode, reg);
                proof {
                    assert(self@ == spec_exec_insn(s1, code));
                }
            },
            // CPX
            0xE0 | 0xE4 | 0xEC => {
                let reg = self.register_x;
                self.compare(mode, reg);
                proof {
                    assert(self@ == spec_exec_insn(s1, code));
                }
            },
            // CPY
            0xC0 | 0xC4 | 0xCC => {
                let reg = self.register_y;
                self.compare(mode, reg);
                proof {
                    assert(self@ == spec_exec_insn(s1, code));
                }
            },
            // DEC
            0xC6 | 0xD6 | 0xCE | 0xDE => {
                self.dec(mode);
                proof {
                    assert(self@ == spec_exec_insn(s1, code));
                }
            },
            // DEX
            0xCA => {
                self.dex();
                proof {
                    assert(self@ == spec_exec_insn(s1, code));
                }
            },
            // DEY
            0x88 => {
                self.dey();
                proof {
                    assert(self@ == spec_exec_insn(s1, code));
                }
            },
            // INC
            0xE6 | 0xF6 | 0xEE | 0xFE => {
                self.inc(mode);
                proof {
                    assert(self@ == spec_exec_insn(s1, code));
                }
            },
            // INX
            0xE8 => {
                self.inx();
                proof {
                    assert(self@ == spec_exec_insn(s1, code));
                }
            },
            // INY
            0xC8 => {
                self.iny();
                proof {
                    assert(self@ == spec_exec_insn(s1, code));
                }
            },
            _ => {
                proof {
                    assert(false);
                }
            },
        }
    }

    /// AND, ORA, EOR, BIT, and the shift and rotate family.
    #[verifier::rlimit(100)]
    #[verifier::spinoff_prover]
    fn execute_logic(&mut self, code: u8, mode: &AddressingMode)
        requires
            old(self).wf(),
            code == 0x29 || code == 0x25 || code == 0x35 || code == 0x2D || code == 0x3D || code
                == 0x39 || code == 0x21 || code == 0x31 || code == 0x09 || code == 0x05 || code
                == 0x15 || code == 0x0D || code == 0x1D || code == 0x19 || code == 0x01 || code
                == 0x11 || code == 0x49 || code == 0x45 || code == 0x55 || code == 0x4D || code
                == 0x5D || code == 0x59 || code == 0x41 || code == 0x51 || code == 0x24 || code
                == 0x2C || code == 0x0A || code == 0x06 || code == 0x16 || code == 0x0E || code
                == 0x1E || code == 0x4A || code == 0x46 || code == 0x56 || code == 0x4E || code
                == 0x5E || code == 0x2A || code == 0x26 || code == 0x36 || code == 0x2E || code
                == 0x3E || code == 0x6A || code == 0x66 || code == 0x76 || code == 0x6E || code
                == 0x7E,
            *mode == crate::opcodes::opcode_mode(code),
        ensures
            final(self).wf(),
            final(self)@ == spec_exec_insn(old(self)@, code),
    {
        let ghost s1 = self@;
        match code {
            // AND
            0x29 | 0x25 | 0x35 | 0x2D | 0x3D | 0x39 | 0x21 | 0x31 => {
                self.and(mode);
                proof {
                    assert(self@ == spec_exec_insn(s1, code));
                }
            },
            // ORA
            0x09 | 0x05 | 0x15 | 0x0D | 0x1D | 0x19 | 0x01 | 0x11 => {
                self.ora(mode);
                proof {
                    assert(self@ == spec_exec_insn(s1, code));
                }
            },
            // EOR
            0x49 | 0x45 | 0x55 | 0x4D | 0x5D | 0x59 | 0x41 | 0x51 => {
                self.eor(mode);
                proof {
                    assert(self@ == spec_exec_insn(s1, code));
                }
            },
            // BIT
            0x24 | 0x2C => {
                self.bit(mode);
                proof {
                    assert(self@ == spec_exec_insn(s1, code));
                }
            },
            // ASL
            0x0A => {
                self.asl_accumulator();
                proof {
                    assert(self@ == spec_exec_insn(s1, code));
                }
            },
            0x06 | 0x16 | 0x0E | 0x1E => {
                self.asl(mode);
                proof {
                    assert(self@ == spec_exec_insn(s1, code));
                }
            },
            // LSR
            0x4A => {
                self.lsr_accumulator();
                proof {
                    assert(self@ == spec_exec_insn(s1, code));
                }
            },
            0x46 | 0x56 | 0x4E | 0x5E => {
                self.lsr(mode);
                proof {
                    assert(self@ == spec_exec_insn(s1, code));
                }
            },
            // ROL
            0x2A => {
                self.rol_accumulator();
                proof {
                    assert(self@ == spec_exec_insn(s1, code));
                }
            },
            0x26 | 0x36 | 0x2E | 0x3E => {
                self.rol(mode);
                proof {
                    assert(self@ == spec_exec_insn(s1, code));
                }
            },
            // ROR
            0x6A => {
                self.ror_accumulator();
                proof {
                    assert(self@ == spec_exec_insn(s1, code));
                }
            },
            0x66 | 0x76 | 0x6E | 0x7E => {
                self.ror(mode);
                proof {
                    assert(self@ == spec_exec_insn(s1, code));
                }
            },
            _ => {
                proof {
                    assert(false);
                }
            },
        }
    }

    /// The branches, jumps, returns and NOP.
    #[verifier::rlimit(100)]
    #[verifier::spinoff_prover]
    fn execute_control(&mut self, code: u8)
        requires
            old(self).wf(),
            code == 0x90 || code == 0xB0 || code == 0xF0 || code == 0x30 || code == 0xD0 || code
                == 0x10 || code == 0x50 || code == 0x70 || code == 0x4C || code == 0x6C || code
                == 0x20 || code == 0x60 || code == 0x40 || code == 0xEA,
        ensures
            final(self).wf(),
            final(self)@ == spec_exec_insn(old(self)@, code),
    {
        let ghost s1 = self@;
        match code {
            // BCC
            0x90 => {
                let cond = self.status & FLAG_CARRY == 0;
                self.branch(cond);
                proof {
                    assert(self@ == spec_exec_insn(s1, code));
                }
            },
            // BCS
            0xB0 => {
                let cond = self.status & FLAG_CARRY != 0;
                self.branch(cond);
                proof {
                    assert(self@ == spec_exec_insn(s1, code));
                }
            },
            // BEQ
            0xF0 => {
                let cond = self.status & FLAG_ZERO != 0;
                self.branch(cond);
                proof {
                    assert(self@ == spec_exec_insn(s1, code));
                }
            },
            // BMI
            0x30 => {
                let cond = self.status & FLAG_NEGATIVE != 0;
                self.branch(cond);
                proof {
                    assert(self@ == spec_exec_insn(s1, code));
                }
            },
            // BNE
            0xD0 => {
                let cond = self.status & FLAG_ZERO == 0;
                self.branch(cond);
                proof {
                    assert(self@ == spec_exec_insn(s1, code));
                }
            },
            // BPL
            0x10 => {
                let cond = self.status & FLAG_NEGATIVE == 0;
                self.branch(cond);
                proof {
                    assert(self@ == spec_exec_insn(s1, code));
                }
            },
            // BVC
            0x50 => {
                let cond = self.status & FLAG_OVERFLOW == 0;
                self.branch(cond);
                proof {
                    assert(self@ == spec_exec_insn(s1, code));
                }
            },
            // BVS
            0x70 => {
                let cond = self.status & FLAG_OVERFLOW != 0;
                self.branch(cond);
                proof {
                    assert(self@ == spec_exec_insn(s1, code));
                }
            },
            // JMP absolute
            0x4C => {
                let target = self.read16(self.program_counter);
                self.program_counter = target;
                proof {
                    assert(self@ == spec_exec_insn(s1, code));
                }
            },
            // JMP indirect, with the page-boundary defect
            0x6C => {
                let ptr = self.read16(self.program_counter);
                let target = if ptr & 0x00FF == 0x00FF {
                    let lo = self.read8(ptr);
                    let hi = self.read8(ptr & 0xFF00);
                    ((hi as u16) << 8) | (lo as u16)
                } else {
                    self.read16(ptr)
                };
                self.program_counter = target;
                proof {
                    assert(self@ == spec_exec_insn(s1, code));
                }
            },
            // JSR
            0x20 => {
                self.jsr();
                proof {
                    assert(self@ == spec_exec_insn(s1, code));
                }
            },
            // RTS
            0x60 => {
                self.rts();
                proof {
                    assert(self@ == spec_exec_insn(s1, code));
                }
            },
            // RTI
            0x40 => {
                self.rti();
                proof {
                    assert(self@ == spec_exec_insn(s1, code));
                }
            },
            // NOP
            0xEA => {
                proof {
                    assert(self@ == spec_exec_insn(s1, code));
                }
            },
            _ => {
                proof {
                    assert(false);
                }
            },
        }
    }

    /// The loads, stores and register transfers.
    #[verifier::rlimit(100)]
    #[verifier::spinoff_prover]
    fn execute_data(&mut self, code: u8, mode: &AddressingMode)
        requires
            old(self).wf(),
            code == 0xA9 || code == 0xA5 || code == 0xB5 || code == 0xAD || code == 0xBD || code
                == 0xB9 || code == 0xA1 || code == 0xB1 || code == 0xA2 || code == 0xA6 || code
                == 0xB6 || code == 0xAE || code == 0xBE || code == 0xA0 || code == 0xA4 || code
                == 0xB4 || code == 0xAC || code == 0xBC || code == 0x85 || code == 0x95 || code
                == 0x8D || code == 0x9D || code == 0x99 || code == 0x81 || code == 0x91 || code
                == 0x86 || code == 0x96 || code == 0x8E || code == 0x84 || code == 0x94 || code
                == 0x8C || code == 0xAA || code == 0xA8 || code == 0xBA || code == 0x8A || code
                == 0x9A || code == 0x98,
            *mode == crate::opcodes::opcode_mode(code),
        ensures
            final(self).wf(),
            final(self)@ == spec_exec_insn(old(self)@, code),
    {
        let ghost s1 = self@;
        match code {
            // LDA
            0xA9 | 0xA5 | 0xB5 | 0xAD | 0xBD | 0xB9 | 0xA1 | 0xB1 => {
                self.lda(mode);
                proof {
                    assert(self@ == spec_exec_insn(s1, code));
                }
            },
            // LDX
            0xA2 | 0xA6 | 0xB6 | 0xAE | 0xBE => {
                self.ldx(mode);
                proof {
                    assert(self@ == spec_exec_insn(s1, code));
                }
            },
            // LDY
            0xA0 | 0xA4 | 0xB4 | 0xAC | 0xBC => {
                self.ldy(mode);
                proof {
                    assert(self@ == spec_exec_insn(s1, code));
                }
            },
            // STA
            0x85 | 0x95 | 0x8D | 0x9D | 0x99 | 0x81 | 0x91 => {
                self.sta(mode);
                proof {
                    assert(self@ == spec_exec_insn(s1, code));
                }
            },
            // STX
            0x86 | 0x96 | 0x8E => {
                self.stx(mode);
                proof {
                    assert(self@ == spec_exec_insn(s1, code));
                }
            },
            // STY
            0x84 | 0x94 | 0x8C => {
                self.sty(mode);
                proof {
                    assert(self@ == spec_exec_insn(s1, code));
                }
            },
            // TAX
            0xAA => {
                self.tax();
                proof {
                    assert(self@ == spec_exec_insn(s1, code));
                }
            },
            // TAY
            0xA8 => {
                self.tay();
                proof {
                    assert(self@ == spec_exec_insn(s1, code));
                }
            },
            // TSX
            0xBA => {
                self.tsx();
                proof {
                    assert(self@ == spec_exec_insn(s1, code));
                }
            },
            // TXA
            0x8A => {
                self.txa();
                proof {
                    assert(self@ == spec_exec_insn(s1, code));
                }
            },
            // TXS
            0x9A => {
                self.txs();
                proof {
                    assert(self@ == spec_exec_insn(s1, code));
                }
            },
            // TYA
            0x98 => {
                self.tya();
                proof {
                    assert(self@ == spec_exec_insn(s1, code));
                }
            },
            _ => {
                proof {
                    assert(false);
                }
            },
        }
    }

    /// The stack pushes and pulls and the flag instructions.
    #[verifier::rlimit(100)]
    #[verifier::spinoff_prover]
    fn execute_status(&mut self, code: u8)
        requires
            old(self).wf(),
            code == 0x48 || code == 0x08 || code == 0x68 || code == 0x28 || code == 0x18 || code
                == 0xD8 || code == 0x58 || code == 0xB8 || code == 0x38 || code == 0xF8 || code
                == 0x78,
        ensures
            final(self).wf(),
            final(self)@ == spec_exec_insn(old(self)@, code),
    {
        let ghost s1 = self@;
        match code {
            // PHA
            0x48 => {
                self.pha();
                proof {
                    assert(self@ == spec_exec_insn(s1, code));
                }
            },
            // PHP
            0x08 => {
                self.php();
                proof {
                    assert(self@ == spec_exec_insn(s1, code));
                }
            },
            // PLA
            0x68 => {
                self.pla();
                proof {
                    assert(self@ == spec_exec_insn(s1, code));
                }
            },
            // PLP
            0x28 => {
                self.plp();
                proof {
                    assert(self@ == spec_exec_insn(s1, code));
                }
            },
            // CLC
            0x18 => {
                self.clc();
                proof {
                    assert(self@ == spec_exec_insn(s1, code));
                }
            },
            // CLD
            0xD8 => {
                self.cld();
                proof {
                    assert(self@ == spec_exec_insn(s1, code));
                }
            },
            // CLI
            0x58 => {
                self.cli();
                proof {
                    assert(self@ == spec_exec_insn(s1, code));
                }
            },
            // CLV
            0xB8 => {
                self.clv();
                proof {
                    assert(self@ == spec_exec_insn(s1, code));
                }
            },
            // SEC
            0x38 => {
                self.sec();
                proof {
                    assert(self@ == spec_exec_insn(s1, code));
                }
            },
            // SED
            0xF8 => {
                self.sed();
                proof {
                    assert(self@ == spec_exec_insn(s1, code));
                }
            },
            // SEI
            0x78 => {
                self.sei();
                proof {
                    assert(self@ == spec_exec_insn(s1, code));
                }
            },
            _ => {
                proof {
                    assert(false);
                }
            },
        }
    }

    /// Fetch, decode and execute one instruction.
    ///
    /// Fetching BRK halts; fetching a byte outside the official set leaves
    /// the machine untouched and reports it; otherwise the machine performs
    /// exactly one [`spec_step`] transition.
    #[verifier::rlimit(100)]
    #[verifier::spinoff_prover]
    pub fn step(&mut self) -> (r: StepResult)
        requires
            old(self).wf(),
        ensures
            final(self).wf(),
            spec_fetch(old(self)@) == 0x00 ==> r == StepResult::Halted && final(self)@ == spec_brk(
                old(self)@,
            ),
            spec_fetch(old(self)@) != 0x00 && recognized(spec_fetch(old(self)@)) ==> r
                == StepResult::Ran && final(self)@ == spec_step(old(self)@),
            !recognized(spec_fetch(old(self)@)) ==> r == StepResult::Unrecognized && final(self)@
                == old(self)@,
    {
        let ghost s0 = self@;
        let code = self.read8(self.program_counter);
        let op = match opcode_lookup(code) {
            Some(op) => op,
            None => {
                return StepResult::Unrecognized;
            },
        };
        self.program_counter = self.program_counter.wrapping_add(1);
        if code == 0x00 {
            return StepResult::Halted;
        }
        let ghost s1 = self@;
        let pc_before = self.program_counter;
        self.execute(code, &op.mode);
        if pc_before == self.program_counter {
            self.program_counter = self.program_counter.wrapping_add((op.len - 1) as u16);
        }
        proof {
            assert(self@ =~= spec_step(s0));
        }
        StepResult::Ran
    }

    /// Run until a BRK opcode is fetched.
    ///
    /// The machine must be on a path that fetches only official opcodes and
    /// eventually reaches BRK; the final state is the first halted state of
    /// that path, with the program counter advanced past the BRK byte.
    pub fn run(&mut self)
        requires
            old(self).wf(),
            spec_halts(old(self)@),
        ensures
            final(self).wf(),
            exists|n: nat|
                #[trigger] spec_runs_for(old(self)@, n) && spec_halted(spec_steps(old(self)@, n))
                    && final(self)@ == spec_brk(spec_steps(old(self)@, n)),
    {
        let ghost s0 = self@;
        let ghost nh = choose|n: nat|
            #[trigger] spec_runs_for(s0, n) && spec_halted(spec_steps(s0, n));
        let ghost mut i: nat = 0;
        loop
            invariant_except_break
                self.wf(),
                self@ == spec_steps(s0, i),
                spec_runs_for(s0, i),
                i <= nh,
                spec_runs_for(s0, nh),
                spec_halted(spec_steps(s0, nh)),
            ensures
                self.wf(),
                exists|n: nat|
                    #[trigger] spec_runs_for(s0, n) && spec_halted(spec_steps(s0, n)) && self@
                        == spec_brk(spec_steps(s0, n)),
            decreases nh - i,
        {
            let ghost prev = self@;
            let r = self.step();
            match r {
                StepResult::Halted => {
                    proof {
                        assert(spec_runs_for(s0, i) && spec_halted(spec_steps(s0, i)) && self@
                            == spec_brk(spec_steps(s0, i)));
                    }
                    break;
                },
                StepResult::Ran => {
                    proof {
                        assert(spec_steps(s0, i + 1) == spec_step(spec_steps(s0, i)));
                        assert forall|m: nat| m < i + 1 implies recognized(
                            spec_fetch(#[trigger] spec_steps(s0, m)),
                        ) && !spec_halted(spec_steps(s0, m)) by {
                            if m == i {
                                assert(spec_fetch(prev) != 0x00);
                                assert(recognized(spec_fetch(prev)));
                            }
                        }
                        assert(spec_runs_for(s0, i + 1));
                        assert(i < nh) by {
                            if i == nh {
                                assert(spec_halted(spec_steps(s0, i)));
                                assert(false);
                            }
                        }
                        i = i + 1;
                    }
                },
                StepResult::Unrecognized => {
                    proof {
                        if i < nh {
                            assert(recognized(spec_fetch(spec_steps(s0, i))));
                        } else {
                            assert(spec_halted(spec_steps(s0, i)));
                        }
                        assert(false);
                    }
                    break;
                },
            }
        }
    }

    /// Reset: clear the registers, reinitialize the status byte and stack
    /// pointer, and load the program counter from the reset vector.
    pub fn reset(&mut self)
        requires
            old(self).wf(),
        ensures
            final(self).wf(),
            final(self)@ == spec_reset(old(self)@),
    {
        self.register_a = 0;
        self.register_x = 0;
        self.register_y = 0;
        self.status = FLAG_INTERRUPT | FLAG_BREAK2;
        self.stack_pointer = STACK_RESET;
        self.program_counter = self.read16(RESET_VECTOR);
    }

    /// Copy a program image into memory at [`LOAD_ADDR`] and point the reset
    /// vector at it.  The image must fit below the end of the address space.
    pub fn load(&mut self, program: Vec<u8>)
        requires
            old(self).wf(),
            LOAD_ADDR + program@.len() <= MEMORY_SIZE,
        ensures
            final(self).wf(),
            final(self)@ == spec_load(old(self)@, program@),
    {
        let ghost s0 = self@;
        let n = program.len();
        let mut i: usize = 0;
        while i < n
            invariant
                self.wf(),
                n == program@.len(),
                LOAD_ADDR + n <= MEMORY_SIZE,
                i <= n,
                self@.a == s0.a,
                self@.x == s0.x,
                self@.y == s0.y,
                self@.p == s0.p,
                self@.sp == s0.sp,
                self@.pc == s0.pc,
                self@.mem.len() == s0.mem.len(),
                s0.mem.len() == MEMORY_SIZE,
                forall|j: int| 0 <= j < i ==> self@.mem[LOAD_ADDR + j] == program@[j],
                forall|j: int|
                    0 <= j < MEMORY_SIZE && !(LOAD_ADDR <= j < LOAD_ADDR + i) ==> self@.mem[j]
                        == s0.mem[j],
            decreases n - i,
        {
            self.write8(LOAD_ADDR + (i as u16), program[i]);
            i = i + 1;
        }
        self.write16(RESET_VECTOR, LOAD_ADDR);
        proof {
            let t = spec_load(s0, program@);
            assert forall|j: int| 0 <= j < MEMORY_SIZE implies self@.mem[j] == t.mem[j] by {
                assert(crate::semantics::store_range(s0.mem, LOAD_ADDR as int, program@)[j] == (
                if LOAD_ADDR <= j < LOAD_ADDR + program@.len() {
                    program@[j - LOAD_ADDR]
                } else {
                    s0.mem[j]
                }));
            }
            assert(self@.mem =~= t.mem);
            assert(self@ =~= t);
        }
    }

    /// Load a program, reset, and run it to its BRK.
    pub fn load_and_run(&mut self, program: Vec<u8>)
        requires
            old(self).wf(),
            LOAD_ADDR + program@.len() <= MEMORY_SIZE,
            spec_halts(spec_reset(spec_load(old(self)@, program@))),
        ensures
            final(self).wf(),
            ({
                let s0 = spec_reset(spec_load(old(self)@, program@));
                exists|n: nat|
                    #[trigger] spec_runs_for(s0, n) && spec_halted(spec_steps(s0, n))
                        && final(self)@ == spec_brk(spec_steps(s0, n))
            }),
    {
        self.load(program);
        self.reset();
        self.run();
    }
}

} // verus!
