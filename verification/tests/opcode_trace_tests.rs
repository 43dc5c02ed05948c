//! One reference trace per official mnemonic: a single-step execution from
//! a known register/memory state, checked against the published register,
//! flag and cycle behavior of the instruction.

use nes_core::bus::Bus;
use nes_core::cartridge::Rom;
use nes_core::cpu::Cpu;
use nes_core::cpu::StepOutcome;

fn cpu_with_program(prog: &[u8]) -> Cpu {
    let mut prg = vec![0u8; 0x4000];
    prg[..prog.len()].copy_from_slice(prog);
    prg[0x3ffc] = 0x00;
    prg[0x3ffd] = 0x80;
    let mut raw = vec![0x4e, 0x45, 0x53, 0x1a, 1, 0, 0, 0];
    raw.extend(vec![0u8; 8]);
    raw.extend(prg);
    let rom = Rom::new(&raw).unwrap();
    let mut cpu = Cpu::new(Bus::new(rom));
    cpu.reset();
    cpu
}

fn step_running(cpu: &mut Cpu) {
    assert_eq!(cpu.step(), Ok(StepOutcome::Running));
}

#[test]
fn trace_adc_immediate() {
    let mut cpu = cpu_with_program(&[0x69, 0x10]);
    cpu.a = 0x05;
    step_running(&mut cpu);
    assert_eq!(cpu.a, 0x15);
    assert!(!cpu.flags.carry && !cpu.flags.zero && !cpu.flags.negative && !cpu.flags.overflow);
    assert_eq!(cpu.pc, 0x8002);
    assert_eq!(cpu.cycles, 2);
}

#[test]
fn trace_adc_carry_and_zero() {
    let mut cpu = cpu_with_program(&[0x69, 0x01]);
    cpu.a = 0xff;
    step_running(&mut cpu);
    assert_eq!(cpu.a, 0x00);
    assert!(cpu.flags.carry && cpu.flags.zero && !cpu.flags.overflow);
}

#[test]
fn trace_adc_signed_overflow() {
    let mut cpu = cpu_with_program(&[0x69, 0x01]);
    cpu.a = 0x7f;
    step_running(&mut cpu);
    assert_eq!(cpu.a, 0x80);
    assert!(cpu.flags.overflow && cpu.flags.negative && !cpu.flags.carry);
}

#[test]
fn trace_and_immediate() {
    let mut cpu = cpu_with_program(&[0x29, 0x0f]);
    cpu.a = 0x3c;
    step_running(&mut cpu);
    assert_eq!(cpu.a, 0x0c);
    assert_eq!(cpu.cycles, 2);
    assert_eq!(cpu.pc, 0x8002);
}

#[test]
fn trace_asl_accumulator() {
    let mut cpu = cpu_with_program(&[0x0a]);
    cpu.a = 0x81;
    step_running(&mut cpu);
    assert_eq!(cpu.a, 0x02);
    assert!(cpu.flags.carry && !cpu.flags.zero && !cpu.flags.negative);
    assert_eq!(cpu.pc, 0x8001);
    assert_eq!(cpu.cycles, 2);
}

#[test]
fn trace_asl_zero_page() {
    let mut cpu = cpu_with_program(&[0x06, 0x10]);
    cpu.mem_write(0x0010, 0x40);
    step_running(&mut cpu);
    assert_eq!(cpu.mem_read(0x0010), 0x80);
    assert!(!cpu.flags.carry && cpu.flags.negative);
    assert_eq!(cpu.cycles, 5);
}

#[test]
fn trace_bcc_taken() {
    let mut cpu = cpu_with_program(&[0x90, 0x02]);
    step_running(&mut cpu);
    assert_eq!(cpu.pc, 0x8004);
    assert_eq!(cpu.cycles, 3); // base 2 plus 1 for the taken branch
}

#[test]
fn trace_bcs_not_taken() {
    let mut cpu = cpu_with_program(&[0xb0, 0x02]);
    step_running(&mut cpu);
    assert_eq!(cpu.pc, 0x8002);
    assert_eq!(cpu.cycles, 2);
}

#[test]
fn trace_bcs_taken() {
    let mut cpu = cpu_with_program(&[0xb0, 0x02]);
    cpu.flags.carry = true;
    step_running(&mut cpu);
    assert_eq!(cpu.pc, 0x8004);
    assert_eq!(cpu.cycles, 3);
}

#[test]
fn trace_beq_taken_page_cross() {
    let mut cpu = cpu_with_program(&[0xf0, 0xfa]); // offset -6
    cpu.flags.zero = true;
    step_running(&mut cpu);
    assert_eq!(cpu.pc, 0x7ffc);
    assert_eq!(cpu.cycles, 4); // base 2, taken 1, page crossed 1
}

#[test]
fn trace_branch_to_own_operand_byte_is_not_advanced() {
    // offset -1 targets the operand byte itself; a taken branch sets the
    // program counter directly and is not advanced by the instruction
    // length afterwards
    let mut cpu = cpu_with_program(&[0xd0, 0xff]); // BNE -1
    step_running(&mut cpu);
    assert_eq!(cpu.pc, 0x8001);
    assert_eq!(cpu.cycles, 3);
}

#[test]
fn trace_bit_zero_page() {
    let mut cpu = cpu_with_program(&[0x24, 0x10]);
    cpu.a = 0x0f;
    cpu.mem_write(0x0010, 0xc0);
    step_running(&mut cpu);
    assert!(cpu.flags.zero); // 0x0F & 0xC0 == 0
    assert!(cpu.flags.negative); // bit 7 of the operand
    assert!(cpu.flags.overflow); // bit 6 of the operand
    assert_eq!(cpu.a, 0x0f); // accumulator untouched
    assert_eq!(cpu.cycles, 3);
}

#[test]
fn trace_bmi_taken() {
    let mut cpu = cpu_with_program(&[0x30, 0x10]);
    cpu.flags.negative = true;
    step_running(&mut cpu);
    assert_eq!(cpu.pc, 0x8012);
}

#[test]
fn trace_bne_taken() {
    let mut cpu = cpu_with_program(&[0xd0, 0x10]);
    step_running(&mut cpu);
    assert_eq!(cpu.pc, 0x8012);
}

#[test]
fn trace_bpl_taken() {
    let mut cpu = cpu_with_program(&[0x10, 0x10]);
    step_running(&mut cpu);
    assert_eq!(cpu.pc, 0x8012);
}

#[test]
fn trace_brk_halts() {
    let mut cpu = cpu_with_program(&[0x00]);
    assert_eq!(cpu.step(), Ok(StepOutcome::Halted));
    assert_eq!(cpu.pc, 0x8001);
    assert_eq!(cpu.cycles, 7);
}

#[test]
fn trace_bvc_taken() {
    let mut cpu = cpu_with_program(&[0x50, 0x10]);
    step_running(&mut cpu);
    assert_eq!(cpu.pc, 0x8012);
}

#[test]
fn trace_bvs_taken() {
    let mut cpu = cpu_with_program(&[0x70, 0x10]);
    cpu.flags.overflow = true;
    step_running(&mut cpu);
    assert_eq!(cpu.pc, 0x8012);
}

#[test]
fn trace_clc() {
    let mut cpu = cpu_with_program(&[0x18]);
    cpu.flags.carry = true;
    step_running(&mut cpu);
    assert!(!cpu.flags.carry);
    assert_eq!(cpu.cycles, 2);
}

#[test]
fn trace_cld() {
    let mut cpu = cpu_with_program(&[0xd8]);
    cpu.flags.decimal = true;
    step_running(&mut cpu);
    assert!(!cpu.flags.decimal);
}

#[test]
fn trace_cli() {
    let mut cpu = cpu_with_program(&[0x58]);
    step_running(&mut cpu);
    assert!(!cpu.flags.interrupt_disable);
}

#[test]
fn trace_clv() {
    let mut cpu = cpu_with_program(&[0xb8]);
    cpu.flags.overflow = true;
    step_running(&mut cpu);
    assert!(!cpu.flags.overflow);
}

#[test]
fn trace_cmp_greater() {
    let mut cpu = cpu_with_program(&[0xc9, 0x10]);
    cpu.a = 0x20;
    step_running(&mut cpu);
    assert!(cpu.flags.carry && !cpu.flags.zero && !cpu.flags.negative);
    assert_eq!(cpu.a, 0x20);
    assert_eq!(cpu.cycles, 2);
}

#[test]
fn trace_cmp_equal() {
    let mut cpu = cpu_with_program(&[0xc9, 0x20]);
    cpu.a = 0x20;
    step_running(&mut cpu);
    assert!(cpu.flags.carry && cpu.flags.zero);
}

#[test]
fn trace_cpx_less() {
    let mut cpu = cpu_with_program(&[0xe0, 0x10]);
    cpu.x = 0x0f;
    step_running(&mut cpu);
    assert!(!cpu.flags.carry && !cpu.flags.zero && cpu.flags.negative);
}

#[test]
fn trace_cpy_equal() {
    let mut cpu = cpu_with_program(&[0xc0, 0x33]);
    cpu.y = 0x33;
    step_running(&mut cpu);
    assert!(cpu.flags.carry && cpu.flags.zero);
}

#[test]
fn trace_dec_to_zero() {
    let mut cpu = cpu_with_program(&[0xc6, 0x10]);
    cpu.mem_write(0x0010, 0x01);
    step_running(&mut cpu);
    assert_eq!(cpu.mem_read(0x0010), 0x00);
    assert!(cpu.flags.zero);
    assert_eq!(cpu.cycles, 5);
}

#[test]
fn trace_dex_wraps() {
    let mut cpu = cpu_with_program(&[0xca]);
    step_running(&mut cpu);
    assert_eq!(cpu.x, 0xff);
    assert!(cpu.flags.negative);
}

#[test]
fn trace_dey() {
    let mut cpu = cpu_with_program(&[0x88]);
    cpu.y = 5;
    step_running(&mut cpu);
    assert_eq!(cpu.y, 4);
}

#[test]
fn trace_eor_immediate() {
    let mut cpu = cpu_with_program(&[0x49, 0xff]);
    cpu.a = 0x0f;
    step_running(&mut cpu);
    assert_eq!(cpu.a, 0xf0);
    assert!(cpu.flags.negative);
}

#[test]
fn trace_inc_wraps_to_zero() {
    let mut cpu = cpu_with_program(&[0xe6, 0x10]);
    cpu.mem_write(0x0010, 0xff);
    step_running(&mut cpu);
    assert_eq!(cpu.mem_read(0x0010), 0x00);
    assert!(cpu.flags.zero);
}

#[test]
fn trace_inx() {
    let mut cpu = cpu_with_program(&[0xe8]);
    cpu.x = 0x7f;
    step_running(&mut cpu);
    assert_eq!(cpu.x, 0x80);
    assert!(cpu.flags.negative);
}

#[test]
fn trace_iny_wraps() {
    let mut cpu = cpu_with_program(&[0xc8]);
    cpu.y = 0xff;
    step_running(&mut cpu);
    assert_eq!(cpu.y, 0x00);
    assert!(cpu.flags.zero);
}

#[test]
fn trace_jmp_absolute() {
    let mut cpu = cpu_with_program(&[0x4c, 0x05, 0x80]);
    step_running(&mut cpu);
    assert_eq!(cpu.pc, 0x8005);
    assert_eq!(cpu.cycles, 3);
}

#[test]
fn trace_jmp_indirect_page_boundary_quirk() {
    let mut cpu = cpu_with_program(&[0x6c, 0xff, 0x02]);
    cpu.mem_write(0x02ff, 0x34);
    cpu.mem_write(0x0300, 0x99); // must NOT be used as the high byte
    cpu.mem_write(0x0200, 0x12); // the quirk fetches it from here
    step_running(&mut cpu);
    assert_eq!(cpu.pc, 0x1234);
    assert_eq!(cpu.cycles, 5);
}

#[test]
fn trace_jsr() {
    let mut cpu = cpu_with_program(&[0x20, 0x34, 0x12]);
    step_running(&mut cpu);
    assert_eq!(cpu.pc, 0x1234);
    assert_eq!(cpu.sp, 0xfb);
    // the address of the instruction's last byte was pushed, high first
    assert_eq!(cpu.mem_read(0x01fd), 0x80);
    assert_eq!(cpu.mem_read(0x01fc), 0x02);
    assert_eq!(cpu.cycles, 6);
}

#[test]
fn trace_lda_immediate() {
    let mut cpu = cpu_with_program(&[0xa9, 0x42]);
    step_running(&mut cpu);
    assert_eq!(cpu.a, 0x42);
    assert!(!cpu.flags.zero && !cpu.flags.negative);
    assert_eq!(cpu.cycles, 2);
}

#[test]
fn trace_lda_zero_sets_zero_flag() {
    let mut cpu = cpu_with_program(&[0xa9, 0x00]);
    step_running(&mut cpu);
    assert!(cpu.flags.zero && !cpu.flags.negative);
}

#[test]
fn trace_lda_absolute_x_page_cross_costs_extra() {
    let mut cpu = cpu_with_program(&[0xbd, 0xff, 0x00]);
    cpu.x = 0x01;
    cpu.mem_write(0x0100, 0x77);
    step_running(&mut cpu);
    assert_eq!(cpu.a, 0x77);
    assert_eq!(cpu.cycles, 5); // base 4 plus the page-cross penalty
}

#[test]
fn trace_lda_absolute_y_no_cross() {
    let mut cpu = cpu_with_program(&[0xb9, 0x10, 0x00]);
    cpu.y = 0x02;
    cpu.mem_write(0x0012, 0x55);
    step_running(&mut cpu);
    assert_eq!(cpu.a, 0x55);
    assert_eq!(cpu.cycles, 4);
}

#[test]
fn trace_lda_indexed_indirect() {
    let mut cpu = cpu_with_program(&[0xa1, 0xfe]);
    cpu.x = 0x03; // pointer cell 0x01, wrapping in the zero page
    cpu.mem_write(0x0001, 0x34);
    cpu.mem_write(0x0002, 0x02);
    cpu.mem_write(0x0234, 0x99);
    step_running(&mut cpu);
    assert_eq!(cpu.a, 0x99);
    assert_eq!(cpu.cycles, 6);
}

#[test]
fn trace_lda_indirect_indexed() {
    let mut cpu = cpu_with_program(&[0xb1, 0x10]);
    cpu.y = 0x04;
    cpu.mem_write(0x0010, 0x30);
    cpu.mem_write(0x0011, 0x02); // pointer 0x0230
    cpu.mem_write(0x0234, 0x66);
    step_running(&mut cpu);
    assert_eq!(cpu.a, 0x66);
    assert_eq!(cpu.cycles, 5);
}

#[test]
fn trace_ldx_immediate() {
    let mut cpu = cpu_with_program(&[0xa2, 0x80]);
    step_running(&mut cpu);
    assert_eq!(cpu.x, 0x80);
    assert!(cpu.flags.negative);
}

#[test]
fn trace_ldy_immediate() {
    let mut cpu = cpu_with_program(&[0xa0, 0x01]);
    step_running(&mut cpu);
    assert_eq!(cpu.y, 0x01);
}

#[test]
fn trace_lsr_accumulator() {
    let mut cpu = cpu_with_program(&[0x4a]);
    cpu.a = 0x01;
    step_running(&mut cpu);
    assert_eq!(cpu.a, 0x00);
    assert!(cpu.flags.carry && cpu.flags.zero && !cpu.flags.negative);
}

#[test]
fn trace_nop() {
    let mut cpu = cpu_with_program(&[0xea]);
    step_running(&mut cpu);
    assert_eq!(cpu.pc, 0x8001);
    assert_eq!(cpu.cycles, 2);
}

#[test]
fn trace_ora_immediate() {
    let mut cpu = cpu_with_program(&[0x09, 0xf0]);
    cpu.a = 0x0f;
    step_running(&mut cpu);
    assert_eq!(cpu.a, 0xff);
    assert!(cpu.flags.negative);
}

#[test]
fn trace_pha() {
    let mut cpu = cpu_with_program(&[0x48]);
    cpu.a = 0x42;
    step_running(&mut cpu);
    assert_eq!(cpu.mem_read(0x01fd), 0x42);
    assert_eq!(cpu.sp, 0xfc);
    assert_eq!(cpu.cycles, 3);
}

#[test]
fn trace_php_pushes_break_and_reserved() {
    let mut cpu = cpu_with_program(&[0x08]);
    step_running(&mut cpu);
    // after reset only interrupt-disable is set; the pushed image adds the
    // reserved bit and the break bit
    assert_eq!(cpu.mem_read(0x01fd), 0x04 | 0x20 | 0x10);
    assert_eq!(cpu.sp, 0xfc);
    assert!(!cpu.flags.break_flag); // the live flag is untouched
}

#[test]
fn trace_pla() {
    let mut cpu = cpu_with_program(&[0x68]);
    cpu.mem_write(0x01fe, 0x80);
    step_running(&mut cpu);
    assert_eq!(cpu.a, 0x80);
    assert!(cpu.flags.negative);
    assert_eq!(cpu.sp, 0xfe);
    assert_eq!(cpu.cycles, 4);
}

#[test]
fn trace_plp() {
    let mut cpu = cpu_with_program(&[0x28]);
    cpu.mem_write(0x01fe, 0xc3); // carry, zero, overflow, negative
    step_running(&mut cpu);
    assert!(cpu.flags.carry && cpu.flags.zero && cpu.flags.overflow && cpu.flags.negative);
    assert!(!cpu.flags.break_flag);
    assert_eq!(cpu.sp, 0xfe);
}

#[test]
fn trace_rol_accumulator() {
    let mut cpu = cpu_with_program(&[0x2a]);
    cpu.a = 0x80;
    cpu.flags.carry = true;
    step_running(&mut cpu);
    assert_eq!(cpu.a, 0x01);
    assert!(cpu.flags.carry);
}

#[test]
fn trace_ror_accumulator() {
    let mut cpu = cpu_with_program(&[0x6a]);
    cpu.a = 0x01;
    cpu.flags.carry = true;
    step_running(&mut cpu);
    assert_eq!(cpu.a, 0x80);
    assert!(cpu.flags.carry && cpu.flags.negative);
}

#[test]
fn trace_rti() {
    let mut cpu = cpu_with_program(&[0x40]);
    cpu.sp = 0xfa;
    cpu.mem_write(0x01fb, 0x01); // flags image: carry only
    cpu.mem_write(0x01fc, 0x34);
    cpu.mem_write(0x01fd, 0x12);
    step_running(&mut cpu);
    assert_eq!(cpu.pc, 0x1234);
    assert_eq!(cpu.sp, 0xfd);
    assert!(cpu.flags.carry && !cpu.flags.interrupt_disable);
    assert_eq!(cpu.cycles, 6);
}

#[test]
fn trace_rts() {
    let mut cpu = cpu_with_program(&[0x60]);
    cpu.sp = 0xfb;
    cpu.mem_write(0x01fc, 0x02);
    cpu.mem_write(0x01fd, 0x80);
    step_running(&mut cpu);
    assert_eq!(cpu.pc, 0x8003);
    assert_eq!(cpu.sp, 0xfd);
    assert_eq!(cpu.cycles, 6);
}

#[test]
fn trace_sbc_with_carry_set() {
    let mut cpu = cpu_with_program(&[0xe9, 0x01]);
    cpu.a = 0x03;
    cpu.flags.carry = true; // no borrow pending
    step_running(&mut cpu);
    assert_eq!(cpu.a, 0x02);
    assert!(cpu.flags.carry && !cpu.flags.zero && !cpu.flags.overflow);
}

#[test]
fn trace_sbc_borrow() {
    let mut cpu = cpu_with_program(&[0xe9, 0x05]);
    cpu.a = 0x03;
    cpu.flags.carry = true;
    step_running(&mut cpu);
    assert_eq!(cpu.a, 0xfe);
    assert!(!cpu.flags.carry && cpu.flags.negative);
}

#[test]
fn trace_sec() {
    let mut cpu = cpu_with_program(&[0x38]);
    step_running(&mut cpu);
    assert!(cpu.flags.carry);
}

#[test]
fn trace_sed() {
    let mut cpu = cpu_with_program(&[0xf8]);
    step_running(&mut cpu);
    assert!(cpu.flags.decimal);
}

#[test]
fn trace_sei() {
    let mut cpu = cpu_with_program(&[0x78]);
    step_running(&mut cpu);
    assert!(cpu.flags.interrupt_disable);
}

#[test]
fn trace_sta_zero_page() {
    let mut cpu = cpu_with_program(&[0x85, 0x10]);
    cpu.a = 0x42;
    step_running(&mut cpu);
    assert_eq!(cpu.mem_read(0x0010), 0x42);
    assert_eq!(cpu.cycles, 3);
}

#[test]
fn trace_sta_absolute_x_no_page_penalty() {
    let mut cpu = cpu_with_program(&[0x9d, 0xff, 0x00]);
    cpu.x = 0x01;
    cpu.a = 0x21;
    step_running(&mut cpu);
    assert_eq!(cpu.mem_read(0x0100), 0x21);
    assert_eq!(cpu.cycles, 5); // stores always pay the fixed cost
}

#[test]
fn trace_stx() {
    let mut cpu = cpu_with_program(&[0x86, 0x11]);
    cpu.x = 0x33;
    step_running(&mut cpu);
    assert_eq!(cpu.mem_read(0x0011), 0x33);
}

#[test]
fn trace_sty() {
    let mut cpu = cpu_with_program(&[0x84, 0x12]);
    cpu.y = 0x44;
    step_running(&mut cpu);
    assert_eq!(cpu.mem_read(0x0012), 0x44);
}

#[test]
fn trace_tax() {
    let mut cpu = cpu_with_program(&[0xaa]);
    cpu.a = 0x42;
    step_running(&mut cpu);
    assert_eq!(cpu.x, 0x42);
    assert_eq!(cpu.cycles, 2);
}

#[test]
fn trace_tay() {
    let mut cpu = cpu_with_program(&[0xa8]);
    cpu.a = 0x00;
    step_running(&mut cpu);
    assert_eq!(cpu.y, 0x00);
    assert!(cpu.flags.zero);
}

#[test]
fn trace_tsx() {
    let mut cpu = cpu_with_program(&[0xba]);
    step_running(&mut cpu);
    assert_eq!(cpu.x, 0xfd);
    assert!(cpu.flags.negative);
}

#[test]
fn trace_txa() {
    let mut cpu = cpu_with_program(&[0x8a]);
    cpu.x = 0x7f;
    step_running(&mut cpu);
    assert_eq!(cpu.a, 0x7f);
}

#[test]
fn trace_txs_sets_no_flags() {
    let mut cpu = cpu_with_program(&[0x9a]);
    cpu.x = 0x00;
    step_running(&mut cpu);
    assert_eq!(cpu.sp, 0x00);
    assert!(!cpu.flags.zero); // TXS never touches the flags
}

#[test]
fn trace_tya() {
    let mut cpu = cpu_with_program(&[0x98]);
    cpu.y = 0x91;
    step_running(&mut cpu);
    assert_eq!(cpu.a, 0x91);
    assert!(cpu.flags.negative);
}
