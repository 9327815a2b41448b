use mos6502::cpu::{AddressingMode, Mem, StepResult, CPU};
use mos6502::opcodes::opcode_lookup;

#[test]
fn test_0xa9_lda_immediate_load_data() {
    let mut cpu = CPU::new();
    cpu.load_and_run(vec![0xa9, 0x05, 0x00]);
    assert_eq!(cpu.register_a, 5);
    assert!(cpu.status & 0b0000_0010 == 0b00);
    assert!(cpu.status & 0b1000_0000 == 0);
}

#[test]
fn test_0xa9_lda_zero_flag() {
    let mut cpu = CPU::new();
    cpu.load_and_run(vec![0xa9, 0x00, 0x00]);
    assert!(cpu.status & 0b0000_0010 == 0b10);
}

#[test]
fn test_0xa9_lda_negative_flag() {
    let mut cpu = CPU::new();
    cpu.load_and_run(vec![0xa9, 0xff, 0x00]);
    assert!(cpu.status & 0b1000_0000 == 0b1000_0000);
}

#[test]
fn test_lda_from_memory() {
    let mut cpu = CPU::new();
    cpu.mem_write(0x10, 0x55);
    cpu.load_and_run(vec![0xa5, 0x10, 0x00]);
    assert_eq!(cpu.register_a, 0x55);
}

#[test]
fn test_0xaa_tax_move_a_to_x() {
    let mut cpu = CPU::new();
    cpu.load(vec![0xaa, 0x00]);
    cpu.reset();
    cpu.register_a = 10;
    cpu.run();
    assert_eq!(cpu.register_x, 10)
}

#[test]
fn test_5_ops_working_together() {
    let mut cpu = CPU::new();
    cpu.load_and_run(vec![0xa9, 0xc0, 0xaa, 0xe8, 0x00]);
    assert_eq!(cpu.register_x, 0xc1)
}

#[test]
fn test_inx_overflow() {
    let mut cpu = CPU::new();
    cpu.load(vec![0xe8, 0xe8, 0x00]);
    cpu.reset();
    cpu.register_x = 0xff;
    cpu.run();
    assert_eq!(cpu.register_x, 1)
}

// SEC; LDA #$50; ADC #$50: signed overflow with no carry out.
#[test]
fn test_adc_signed_overflow() {
    let mut cpu = CPU::new();
    cpu.load_and_run(vec![0x38, 0xa9, 0x50, 0x69, 0x50, 0x00]);
    assert_eq!(cpu.register_a, 0xa1);
    assert!(cpu.status & 0b0100_0000 != 0, "V must be set");
    assert!(cpu.status & 0b0000_0001 == 0, "C must be clear");
    assert!(cpu.status & 0b1000_0000 != 0, "N must be set");
}

// SEC; LDA #$FF; ADC #$FF: 255 + 255 + 1 = 255 + one carry of 256.
#[test]
fn test_adc_carry_out_books_balance() {
    let mut cpu = CPU::new();
    cpu.load_and_run(vec![0x38, 0xa9, 0xff, 0x69, 0xff, 0x00]);
    assert_eq!(cpu.register_a, 0xff);
    assert!(cpu.status & 0b0000_0001 != 0, "C must carry the ninth bit");
}

// LDA #$30; CLC; ADC #$20; SEC; SBC #$20: the subtraction undoes the addition.
#[test]
fn test_adc_sbc_round_trip() {
    let mut cpu = CPU::new();
    cpu.load_and_run(vec![0xa9, 0x30, 0x18, 0x69, 0x20, 0x38, 0xe9, 0x20, 0x00]);
    assert_eq!(cpu.register_a, 0x30);
}

// JSR to $0605 (INX; RTS), then BRK at $0603.
#[test]
fn test_jsr_rts_balanced_stack() {
    let mut cpu = CPU::new();
    cpu.load(vec![0x20, 0x05, 0x06, 0x00, 0x00, 0xe8, 0x60]);
    cpu.reset();
    let sp_before = cpu.stack_pointer;
    cpu.run();
    assert_eq!(cpu.register_x, 1);
    assert_eq!(cpu.stack_pointer, sp_before);
}

// PHA then PLA hands the pushed byte back and rebalances the stack pointer.
#[test]
fn test_pha_pla_balanced() {
    let mut cpu = CPU::new();
    cpu.load(vec![0xa9, 0x42, 0x48, 0xa9, 0x00, 0x68, 0x00]);
    cpu.reset();
    let sp_before = cpu.stack_pointer;
    cpu.run();
    assert_eq!(cpu.register_a, 0x42);
    assert_eq!(cpu.stack_pointer, sp_before);
}

// CMP with an equal operand: C and Z set, N clear.
#[test]
fn test_cmp_equal() {
    let mut cpu = CPU::new();
    cpu.load_and_run(vec![0xa9, 0x10, 0xc9, 0x10, 0x00]);
    assert!(cpu.status & 0b0000_0001 != 0, "C: operand <= register");
    assert!(cpu.status & 0b0000_0010 != 0, "Z: operands equal");
    assert!(cpu.status & 0b1000_0000 == 0, "N: difference is zero");
}

// CMP with a larger operand: C clear, N from the wrapped difference $F0.
#[test]
fn test_cmp_greater_operand() {
    let mut cpu = CPU::new();
    cpu.load_and_run(vec![0xa9, 0x10, 0xc9, 0x20, 0x00]);
    assert!(cpu.status & 0b0000_0001 == 0, "C: operand > register");
    assert!(cpu.status & 0b0000_0010 == 0, "Z: operands differ");
    assert!(cpu.status & 0b1000_0000 != 0, "N: bit 7 of $F0");
}

// PHP pushes the status with B and U set in the copy; the live P keeps its
// reset value.
#[test]
fn test_php_forces_b_and_u_in_pushed_copy() {
    let mut cpu = CPU::new();
    cpu.load_and_run(vec![0x08, 0x00]);
    // Reset leaves P = $24 and S = $FD, so the copy lands at $01FD.
    assert_eq!(cpu.mem_read(0x01fd), 0x24 | 0x30);
    assert_eq!(cpu.status, 0x24);
    assert_eq!(cpu.stack_pointer, 0xfc);
}

// PLP of a pushed $FF restores every bit but B (cleared) and U (set).
#[test]
fn test_plp_masks_b_and_forces_u() {
    let mut cpu = CPU::new();
    cpu.load_and_run(vec![0xa9, 0xff, 0x48, 0x28, 0x00]);
    assert_eq!(cpu.status, 0xef);
}

// JMP ($10FF) reads its high byte from $1000, not $1100.
#[test]
fn test_jmp_indirect_page_boundary_bug() {
    let mut cpu = CPU::new();
    cpu.mem_write(0x10ff, 0x34); // low byte of the target
    cpu.mem_write(0x1000, 0x12); // high byte the bugged fetch uses
    cpu.mem_write(0x1100, 0x56); // high byte a correct fetch would use
    cpu.load_and_run(vec![0x6c, 0xff, 0x10]);
    // The BRK fetched at $1234 leaves the counter one past it.
    assert_eq!(cpu.program_counter, 0x1235);
}

// SEC; LDA #$81; ROL A: the old carry enters at bit 0, bit 7 leaves into C.
#[test]
fn test_rol_accumulator_through_carry() {
    let mut cpu = CPU::new();
    cpu.load_and_run(vec![0x38, 0xa9, 0x81, 0x2a, 0x00]);
    assert_eq!(cpu.register_a, 0x03);
    assert!(cpu.status & 0b0000_0001 != 0, "C takes the old bit 7");
}

// LSR A halves the value and catches bit 0 in the carry.
#[test]
fn test_lsr_accumulator_carry_out() {
    let mut cpu = CPU::new();
    cpu.load_and_run(vec![0xa9, 0x05, 0x4a, 0x00]);
    assert_eq!(cpu.register_a, 0x02);
    assert!(cpu.status & 0b0000_0001 != 0);
}

// INC $10 wraps $FF to zero and raises Z.
#[test]
fn test_inc_memory_wraps_to_zero() {
    let mut cpu = CPU::new();
    cpu.mem_write(0x10, 0xff);
    cpu.load_and_run(vec![0xe6, 0x10, 0x00]);
    assert_eq!(cpu.mem_read(0x10), 0x00);
    assert!(cpu.status & 0b0000_0010 != 0);
}

// LDX #3; DEX; BNE back to the DEX: the loop runs X down to zero.
#[test]
fn test_bne_backward_loop() {
    let mut cpu = CPU::new();
    cpu.load_and_run(vec![0xa2, 0x03, 0xca, 0xd0, 0xfd, 0x00]);
    assert_eq!(cpu.register_x, 0);
    assert!(cpu.status & 0b0000_0010 != 0);
}

// STA to the zero page and LDX back from it.
#[test]
fn test_sta_then_ldx_zero_page() {
    let mut cpu = CPU::new();
    cpu.load_and_run(vec![0xa9, 0x42, 0x85, 0x20, 0xa6, 0x20, 0x00]);
    assert_eq!(cpu.register_x, 0x42);
    assert_eq!(cpu.mem_read(0x20), 0x42);
}

// BIT copies bits 7 and 6 of the operand into N and V and tests A against it.
#[test]
fn test_bit_sets_n_v_and_z() {
    let mut cpu = CPU::new();
    cpu.mem_write(0x10, 0xc0);
    cpu.load_and_run(vec![0xa9, 0x0f, 0x24, 0x10, 0x00]);
    assert!(cpu.status & 0b0000_0010 != 0, "Z: $0F & $C0 == 0");
    assert!(cpu.status & 0b1000_0000 != 0, "N from bit 7 of the operand");
    assert!(cpu.status & 0b0100_0000 != 0, "V from bit 6 of the operand");
}

// The 16-bit bus helpers are little-endian.
#[test]
fn test_mem_read_write_u16_little_endian() {
    let mut cpu = CPU::new();
    cpu.mem_write_u16(0x0200, 0x1234);
    assert_eq!(cpu.mem_read(0x0200), 0x34);
    assert_eq!(cpu.mem_read(0x0201), 0x12);
    assert_eq!(cpu.mem_read_u16(0x0200), 0x1234);
}

// Stepping one instruction at a time: a run instruction, then the BRK.
#[test]
fn test_step_reports_halt() {
    let mut cpu = CPU::new();
    cpu.load(vec![0xe8, 0x00]);
    cpu.reset();
    assert!(cpu.is_well_formed());
    assert_eq!(cpu.step(), StepResult::Ran);
    assert_eq!(cpu.register_x, 1);
    assert_eq!(cpu.step(), StepResult::Halted);
}

// A byte outside the official set is reported and the machine is untouched.
#[test]
fn test_step_unrecognized_opcode_leaves_state() {
    let mut cpu = CPU::new();
    cpu.load(vec![0xff]);
    cpu.reset();
    let pc = cpu.program_counter;
    assert_eq!(cpu.step(), StepResult::Unrecognized);
    assert_eq!(cpu.program_counter, pc);
    assert_eq!(cpu.register_a, 0);
}

// A fresh machine carries the documented initial register file.
#[test]
fn test_new_initial_state() {
    let cpu = CPU::new();
    assert_eq!(cpu.register_a, 0);
    assert_eq!(cpu.register_x, 0);
    assert_eq!(cpu.register_y, 0);
    assert_eq!(cpu.status, 0b0010_0100);
    assert_eq!(cpu.stack_pointer, 0xfd);
    assert_eq!(cpu.mem_read(0x0000), 0);
}

// Load writes the image at $0600 and points the reset vector at it.
#[test]
fn test_load_writes_reset_vector() {
    let mut cpu = CPU::new();
    cpu.load(vec![0xea, 0x00]);
    assert_eq!(cpu.mem_read(0x0600), 0xea);
    assert_eq!(cpu.mem_read(0x0601), 0x00);
    assert_eq!(cpu.mem_read_u16(0xfffc), 0x0600);
    cpu.reset();
    assert_eq!(cpu.program_counter, 0x0600);
}

// The descriptor table knows each official encoding and nothing else.
#[test]
fn test_opcode_table_entries() {
    let adc = opcode_lookup(0x69).unwrap();
    assert_eq!(adc.code, 0x69);
    assert_eq!(adc.mnemonic, "ADC");
    assert_eq!(adc.len, 2);
    assert_eq!(adc.cycles, 2);
    assert!(adc.mode == AddressingMode::Immediate);
    let sta = opcode_lookup(0x91).unwrap();
    assert_eq!(sta.mnemonic, "STA");
    assert_eq!(sta.len, 2);
    assert_eq!(sta.cycles, 6);
    assert!(sta.mode == AddressingMode::Indirect_Y);
    let brk = opcode_lookup(0x00).unwrap();
    assert_eq!(brk.mnemonic, "BRK");
    assert_eq!(brk.len, 1);
    assert_eq!(brk.cycles, 7);
    assert!(opcode_lookup(0xff).is_none());
    assert!(opcode_lookup(0x02).is_none());
}
