//! End-to-end tests of the interpreter: each builds a container image whose
//! program bank holds a few instructions, boots a processor, and checks the
//! registers, flags and memory afterwards.

use mpu_core::cpu::Cpu;
use mpu_core::rom::Rom;

/// A container with one 16 KiB program bank holding `program` at its start,
/// booted into a freshly reset processor.
fn boot(program: &[u8]) -> Cpu {
    let mut data: Vec<u8> = vec![0u8; 16 + 16384];
    data[0] = 0x4e;
    data[1] = 0x45;
    data[2] = 0x53;
    data[3] = 0x1a;
    data[4] = 1;
    data[5] = 0;
    for (k, byte) in program.iter().enumerate() {
        data[16 + k] = *byte;
    }
    let rom = Rom::new(data).expect("well-formed container");
    Cpu::new(rom)
}

#[test]
fn lda_immediate_sets_accumulator() {
    let mut cpu = boot(&[0xa9, 0x42, 0x00]);
    cpu.run(100_000);
    assert_eq!(cpu.a, 0x42);
    assert_eq!(cpu.get_zero_flag(), 0);
    assert_eq!(cpu.get_negative_flag(), 0);
    assert_eq!(cpu.pc, 0xffff);
}

#[test]
fn lda_zero_sets_zero_flag() {
    let mut cpu = boot(&[0xa9, 0x00, 0x00]);
    cpu.run(100_000);
    assert_eq!(cpu.a, 0x00);
    assert_eq!(cpu.get_zero_flag(), 1);
    assert_eq!(cpu.get_negative_flag(), 0);
}

#[test]
fn lda_negative_sets_negative_flag() {
    let mut cpu = boot(&[0xa9, 0x80, 0x00]);
    cpu.run(100_000);
    assert_eq!(cpu.a, 0x80);
    assert_eq!(cpu.get_zero_flag(), 0);
    assert_eq!(cpu.get_negative_flag(), 1);
}

#[test]
fn adc_without_carry_or_overflow() {
    let mut cpu = boot(&[0x18, 0xa9, 0x10, 0x69, 0x20]);
    cpu.run(100_000);
    assert_eq!(cpu.a, 0x30);
    assert_eq!(cpu.get_carry_flag(), 0);
    assert_eq!(cpu.get_overflow_flag(), 0);
    assert_eq!(cpu.get_zero_flag(), 0);
    assert_eq!(cpu.get_negative_flag(), 0);
}

#[test]
fn adc_carry_out() {
    let mut cpu = boot(&[0xa9, 0xff, 0x69, 0x01]);
    cpu.run(100_000);
    assert_eq!(cpu.a, 0x00);
    assert_eq!(cpu.get_carry_flag(), 1);
    assert_eq!(cpu.get_zero_flag(), 1);
}

#[test]
fn adc_signed_overflow() {
    // 0x50 + 0x50 = 0xa0: two positives giving a negative result.
    let mut cpu = boot(&[0x18, 0xa9, 0x50, 0x69, 0x50]);
    cpu.run(100_000);
    assert_eq!(cpu.a, 0xa0);
    assert_eq!(cpu.get_overflow_flag(), 1);
    assert_eq!(cpu.get_carry_flag(), 0);
    assert_eq!(cpu.get_negative_flag(), 1);
}

#[test]
fn beq_backward_loops_on_itself() {
    let mut cpu = boot(&[0xa9, 0x00, 0xf0, 0xfe]);
    let steps = cpu.run(1000);
    assert_eq!(steps, 1000);
    assert_eq!(cpu.pc, 0x4022);
}

#[test]
fn jsr_and_rts_return_past_the_call() {
    let mut cpu = boot(&[]);
    let program: [u8; 9] = [0x20, 0x06, 0x00, 0x00, 0x00, 0x00, 0xa9, 0x07, 0x60];
    for (k, byte) in program.iter().enumerate() {
        cpu.memory.write(*byte, k as u16);
    }
    cpu.pc = 0;
    cpu.step();
    assert_eq!(cpu.pc, 0x0006);
    cpu.step();
    assert_eq!(cpu.a, 0x07);
    cpu.step();
    assert_eq!(cpu.pc, 0x0003);
    assert_eq!(cpu.sp, 0xfd);
}

#[test]
fn asl_then_ror_carry_plumbing() {
    let mut cpu = boot(&[0xa9, 0xb4, 0x0a, 0x6a]);
    cpu.step();
    assert_eq!(cpu.a, 0xb4);
    cpu.step();
    // The shift drops bit 7 into the carry.
    assert_eq!(cpu.a, 0x68);
    assert_eq!(cpu.get_carry_flag(), 1);
    cpu.step();
    // The rotate brings that carry back in at the top, restoring the byte;
    // the carry takes bit 0 of the shifted value.
    assert_eq!(cpu.a, 0xb4);
    assert_eq!(cpu.get_carry_flag(), 0);
    assert_eq!(cpu.get_negative_flag(), 1);
}

#[test]
fn pha_pla_round_trip_restores_accumulator() {
    let mut cpu = boot(&[0xa9, 0x37, 0x48, 0xa9, 0x00, 0x68]);
    cpu.step();
    cpu.step();
    cpu.step();
    assert_eq!(cpu.a, 0x00);
    assert_eq!(cpu.get_zero_flag(), 1);
    cpu.step();
    assert_eq!(cpu.a, 0x37);
    assert_eq!(cpu.get_zero_flag(), 0);
    assert_eq!(cpu.get_negative_flag(), 0);
    assert_eq!(cpu.sp, 0xfd);
}

#[test]
fn stack_push_then_pull_yields_pushed_byte() {
    let mut cpu = boot(&[]);
    cpu.stack_push(0xab);
    assert_eq!(cpu.sp, 0xfc);
    let pulled = cpu.stack_pull();
    assert_eq!(pulled, 0xab);
    assert_eq!(cpu.sp, 0xfd);
}

#[test]
fn stack_pointer_wraps_modulo_256() {
    let mut cpu = boot(&[]);
    cpu.sp = 0;
    cpu.stack_push(0x5c);
    assert_eq!(cpu.sp, 0xff);
    let pulled = cpu.stack_pull();
    assert_eq!(pulled, 0x5c);
    assert_eq!(cpu.sp, 0);
}

#[test]
fn cmp_carry_zero_and_negative() {
    let mut cpu = boot(&[0xa9, 0x50, 0xc9, 0x30]);
    cpu.step();
    cpu.step();
    assert_eq!(cpu.get_carry_flag(), 1);
    assert_eq!(cpu.get_zero_flag(), 0);
    assert_eq!(cpu.get_negative_flag(), 0);

    let mut equal = boot(&[0xa9, 0x50, 0xc9, 0x50]);
    equal.step();
    equal.step();
    assert_eq!(equal.get_carry_flag(), 1);
    assert_eq!(equal.get_zero_flag(), 1);

    let mut below = boot(&[0xa9, 0x30, 0xc9, 0x50]);
    below.step();
    below.step();
    assert_eq!(below.get_carry_flag(), 0);
    assert_eq!(below.get_zero_flag(), 0);
    assert_eq!(below.get_negative_flag(), 1);
}

#[test]
fn cpx_and_cpy_compare_index_registers() {
    let mut cpu = boot(&[0xa2, 0x10, 0xe0, 0x10, 0xa0, 0x20, 0xc0, 0x30]);
    cpu.step();
    cpu.step();
    assert_eq!(cpu.get_carry_flag(), 1);
    assert_eq!(cpu.get_zero_flag(), 1);
    cpu.step();
    cpu.step();
    assert_eq!(cpu.get_carry_flag(), 0);
    assert_eq!(cpu.get_zero_flag(), 0);
}

#[test]
fn sta_then_lda_yields_stored_byte() {
    let mut cpu = boot(&[0xa9, 0x55, 0x85, 0x10, 0xa9, 0x00, 0xa5, 0x10]);
    cpu.step();
    cpu.step();
    assert_eq!(cpu.memory.read(0x10), 0x55);
    cpu.step();
    assert_eq!(cpu.a, 0x00);
    cpu.step();
    assert_eq!(cpu.a, 0x55);
}

#[test]
fn rol_then_ror_restores_byte_and_carry() {
    let mut cpu = boot(&[0x38, 0xa9, 0x4d, 0x2a, 0x6a]);
    cpu.step();
    cpu.step();
    cpu.step();
    assert_eq!(cpu.a, 0x9b);
    assert_eq!(cpu.get_carry_flag(), 0);
    cpu.step();
    assert_eq!(cpu.a, 0x4d);
    assert_eq!(cpu.get_carry_flag(), 1);
}

#[test]
fn sbc_with_and_without_borrow() {
    let mut cpu = boot(&[0xa9, 0x50, 0x38, 0xe9, 0x10]);
    cpu.run(100_000);
    assert_eq!(cpu.a, 0x40);
    assert_eq!(cpu.get_carry_flag(), 1);

    let mut borrow = boot(&[0xa9, 0x10, 0x38, 0xe9, 0x50]);
    borrow.run(100_000);
    assert_eq!(borrow.a, 0xc0);
    assert_eq!(borrow.get_carry_flag(), 0);
    assert_eq!(borrow.get_negative_flag(), 1);
}

#[test]
fn bit_test_reads_operand_bits() {
    let mut cpu = boot(&[0xa9, 0x0f, 0x24, 0x10]);
    cpu.memory.write(0xc0, 0x10);
    cpu.step();
    cpu.step();
    assert_eq!(cpu.get_zero_flag(), 1);
    assert_eq!(cpu.get_negative_flag(), 1);
    assert_eq!(cpu.get_overflow_flag(), 1);
}

#[test]
fn inc_and_dec_wrap_in_memory() {
    let mut cpu = boot(&[0xe6, 0x10, 0xc6, 0x11]);
    cpu.memory.write(0xff, 0x10);
    cpu.memory.write(0x00, 0x11);
    cpu.step();
    assert_eq!(cpu.memory.read(0x10), 0x00);
    assert_eq!(cpu.get_zero_flag(), 1);
    cpu.step();
    assert_eq!(cpu.memory.read(0x11), 0xff);
    assert_eq!(cpu.get_negative_flag(), 1);
}

#[test]
fn inx_iny_dex_dey_touch_their_own_registers() {
    let mut cpu = boot(&[0xa2, 0x05, 0xe8, 0xca, 0xca, 0xa0, 0x01, 0xc8, 0x88, 0x88]);
    for _ in 0..10 {
        cpu.step();
    }
    assert_eq!(cpu.x, 0x04);
    assert_eq!(cpu.y, 0x00);
    assert_eq!(cpu.get_zero_flag(), 1);
}

#[test]
fn transfers_copy_between_registers() {
    let mut cpu = boot(&[0xa9, 0x21, 0xaa, 0xa8, 0x9a, 0xba]);
    for _ in 0..6 {
        cpu.step();
    }
    assert_eq!(cpu.x, 0x21);
    assert_eq!(cpu.y, 0x21);
    assert_eq!(cpu.sp, 0x21);
}

#[test]
fn and_ora_eor_combine_with_accumulator() {
    let mut cpu = boot(&[0xa9, 0xf0, 0x29, 0x3c, 0x09, 0x01, 0x49, 0xff]);
    for _ in 0..4 {
        cpu.step();
    }
    assert_eq!(cpu.a, 0xce);
    assert_eq!(cpu.get_negative_flag(), 1);
}

#[test]
fn jmp_absolute_sets_pc() {
    let mut cpu = boot(&[0x4c, 0x25, 0x40]);
    cpu.step();
    assert_eq!(cpu.pc, 0x4025);
}

#[test]
fn jmp_indirect_dereferences_pointer() {
    let mut cpu = boot(&[0x6c, 0x10, 0x00]);
    cpu.memory.write(0x34, 0x0010);
    cpu.memory.write(0x12, 0x0011);
    cpu.step();
    assert_eq!(cpu.pc, 0x1234);
}

#[test]
fn lda_absolute_x_indexes_from_base() {
    let mut cpu = boot(&[0xa2, 0x03, 0xbd, 0x00, 0x10]);
    cpu.memory.write(0x7e, 0x1003);
    cpu.step();
    cpu.step();
    assert_eq!(cpu.a, 0x7e);
}

#[test]
fn lda_indirect_y_adds_after_dereferencing() {
    let mut cpu = boot(&[0xa0, 0x04, 0xb1, 0x10]);
    cpu.memory.write(0x00, 0x0010);
    cpu.memory.write(0x20, 0x0011);
    cpu.memory.write(0x99, 0x2004);
    cpu.step();
    cpu.step();
    assert_eq!(cpu.a, 0x99);
}

#[test]
fn lda_indirect_x_adds_before_dereferencing() {
    let mut cpu = boot(&[0xa2, 0x04, 0xa1, 0x10]);
    cpu.memory.write(0x00, 0x0014);
    cpu.memory.write(0x30, 0x0015);
    cpu.memory.write(0x5a, 0x3000);
    cpu.step();
    cpu.step();
    assert_eq!(cpu.a, 0x5a);
}

#[test]
fn zero_page_x_wraps_inside_page_zero() {
    let mut cpu = boot(&[0xa2, 0x10, 0xb5, 0xf8]);
    cpu.memory.write(0x77, 0x0008);
    cpu.step();
    cpu.step();
    assert_eq!(cpu.a, 0x77);
}

#[test]
fn php_plp_round_trip_restores_flags() {
    let mut cpu = boot(&[0x38, 0x08, 0x18, 0x28]);
    for _ in 0..4 {
        cpu.step();
    }
    assert_eq!(cpu.get_carry_flag(), 1);
    assert_eq!(cpu.get_overflow_flag(), 1);
    assert!(cpu.i);
    assert!(cpu.d);
}

#[test]
fn flag_instructions_set_and_clear() {
    let mut cpu = boot(&[0x38, 0xf8, 0x78, 0xb8]);
    for _ in 0..4 {
        cpu.step();
    }
    assert_eq!(cpu.get_carry_flag(), 1);
    assert!(cpu.d);
    assert!(cpu.i);
    assert_eq!(cpu.get_overflow_flag(), 0);

    let mut clear = boot(&[0x18, 0xd8, 0x58]);
    for _ in 0..3 {
        clear.step();
    }
    assert_eq!(clear.get_carry_flag(), 0);
    assert!(!clear.d);
    assert!(!clear.i);
}

#[test]
fn unknown_opcode_is_a_silent_nop() {
    let mut cpu = boot(&[0x02]);
    cpu.step();
    assert_eq!(cpu.pc, 0x4021);
    assert_eq!(cpu.a, 0x00);
    assert_eq!(cpu.sp, 0xfd);
    assert_eq!(cpu.get_zero_flag(), 0);
}

#[test]
fn pc_wraps_at_top_of_address_space() {
    let mut cpu = boot(&[]);
    cpu.memory.write(0xa9, 0xfffe);
    cpu.memory.write(0x99, 0xffff);
    cpu.pc = 0xfffe;
    cpu.step();
    assert_eq!(cpu.a, 0x99);
    assert_eq!(cpu.pc, 0x0000);
}

#[test]
fn store_variants_hit_their_addresses() {
    let mut cpu = boot(
        &[0xa9, 0x11, 0x85, 0x20, 0xa2, 0x22, 0x86, 0x21, 0xa0, 0x33, 0x84, 0x22, 0x8d, 0x00,
            0x21],
    );
    for _ in 0..7 {
        cpu.step();
    }
    assert_eq!(cpu.memory.read(0x0020), 0x11);
    assert_eq!(cpu.memory.read(0x0021), 0x22);
    assert_eq!(cpu.memory.read(0x0022), 0x33);
    assert_eq!(cpu.memory.read(0x2100), 0x11);
}

#[test]
fn rti_restores_flags_and_pc_from_stack() {
    let mut cpu = boot(&[0x40]);
    cpu.sp = 0xfa;
    cpu.memory.write(0x80, 0x01fb);
    cpu.memory.write(0x34, 0x01fc);
    cpu.memory.write(0x12, 0x01fd);
    cpu.step();
    assert_eq!(cpu.pc, 0x1234);
    assert_eq!(cpu.get_carry_flag(), 1);
    assert_eq!(cpu.sp, 0xfd);
}

#[test]
fn lsr_moves_bit_zero_into_carry() {
    let mut cpu = boot(&[0xa9, 0x03, 0x4a]);
    cpu.step();
    cpu.step();
    assert_eq!(cpu.a, 0x01);
    assert_eq!(cpu.get_carry_flag(), 1);

    let mut to_zero = boot(&[0xa9, 0x01, 0x4a]);
    to_zero.step();
    to_zero.step();
    assert_eq!(to_zero.a, 0x00);
    assert_eq!(to_zero.get_zero_flag(), 1);
    assert_eq!(to_zero.get_carry_flag(), 1);
}

#[test]
fn asl_on_memory_writes_back() {
    let mut cpu = boot(&[0x06, 0x10]);
    cpu.memory.write(0xc0, 0x0010);
    cpu.step();
    assert_eq!(cpu.memory.read(0x0010), 0x80);
    assert_eq!(cpu.get_carry_flag(), 1);
    assert_eq!(cpu.get_negative_flag(), 1);
}

#[test]
fn sta_indirect_y_stores_through_pointer() {
    let mut cpu = boot(&[0xa0, 0x02, 0xa9, 0x6b, 0x91, 0x10]);
    cpu.memory.write(0x00, 0x0010);
    cpu.memory.write(0x25, 0x0011);
    cpu.step();
    cpu.step();
    cpu.step();
    assert_eq!(cpu.memory.read(0x2502), 0x6b);
}

#[test]
fn sta_absolute_y_indexes_the_target() {
    let mut cpu = boot(&[0xa0, 0x05, 0xa9, 0x3d, 0x99, 0x00, 0x22]);
    cpu.step();
    cpu.step();
    cpu.step();
    assert_eq!(cpu.memory.read(0x2205), 0x3d);
}

#[test]
fn ldx_zero_page_y_indexes_inside_page_zero() {
    let mut cpu = boot(&[0xa0, 0x03, 0xb6, 0x40]);
    cpu.memory.write(0x66, 0x0043);
    cpu.step();
    cpu.step();
    assert_eq!(cpu.x, 0x66);
}

#[test]
fn branch_not_taken_falls_through() {
    let mut cpu = boot(&[0xa9, 0x01, 0xf0, 0x10]);
    cpu.step();
    cpu.step();
    assert_eq!(cpu.pc, 0x4024);
}

#[test]
fn bcc_taken_forward() {
    let mut cpu = boot(&[0x18, 0x90, 0x02]);
    cpu.step();
    cpu.step();
    assert_eq!(cpu.pc, 0x4025);
}
