//! Single-instruction behavior: flags, cycles and round trips.

use emu8080::i8080::{RegisterSymbols, State};

fn blank_state() -> State {
    State::new(vec![0u8; 0x10000], false)
}

#[test]
fn add_sets_sign_zero_parity_from_result() {
    let mut s = blank_state();
    s.reg_a = 0x40;
    s.reg_b = 0x40;
    let cycles = s.add_register_add(RegisterSymbols::B);
    assert_eq!(s.reg_a, 0x80);
    assert!(s.flags.sign);
    assert!(!s.flags.zero);
    // 0x80 has one set bit: odd, so parity-even is false
    assert!(!s.flags.parity);
    assert_eq!(cycles, 4);
}

#[test]
fn add_memory_costs_seven() {
    let mut s = blank_state();
    s.reg_h = 0x20;
    s.reg_l = 0x00;
    s.memory[0x2000] = 0x03;
    s.reg_a = 0x04;
    let cycles = s.add_register_add(RegisterSymbols::MEMORY);
    assert_eq!(s.reg_a, 0x07);
    assert_eq!(cycles, 7);
}

#[test]
fn add_carry_out_of_bit_three_sets_aux() {
    let mut s = blank_state();
    s.reg_a = 0x0f;
    s.reg_b = 0x01;
    s.add_register_add(RegisterSymbols::B);
    assert_eq!(s.reg_a, 0x10);
    assert!(s.flags.auxiliary_carry);
    assert!(!s.flags.carry);
}

#[test]
fn logical_ops_clear_carry_and_aux() {
    let mut s = blank_state();
    s.flags.carry = true;
    s.flags.auxiliary_carry = true;
    s.reg_a = 0xff;
    s.reg_b = 0x0f;
    let cycles = s.ana_and_register(RegisterSymbols::B);
    assert_eq!(s.reg_a, 0x0f);
    assert!(!s.flags.carry);
    assert!(!s.flags.auxiliary_carry);
    assert_eq!(cycles, 4);

    s.flags.carry = true;
    s.flags.auxiliary_carry = true;
    s.reg_c = 0x03;
    s.ora_inclusive_or_accumulator(RegisterSymbols::C);
    assert_eq!(s.reg_a, 0x0f);
    assert!(!s.flags.carry);
    assert!(!s.flags.auxiliary_carry);
    // 0x0f has four set bits: parity even
    assert!(s.flags.parity);

    s.flags.carry = true;
    s.xra_exclusive_or_accumulator(RegisterSymbols::A);
    assert_eq!(s.reg_a, 0);
    assert!(s.flags.zero);
    assert!(!s.flags.carry);
    assert!(!s.flags.auxiliary_carry);
}

#[test]
fn push_then_pop_restores_pair() {
    let mut s = blank_state();
    s.stack_pointer = 0x2000;
    s.reg_b = 0x12;
    s.reg_c = 0x34;
    let c1 = s.push_add_to_stack(RegisterSymbols::B);
    s.reg_b = 0;
    s.reg_c = 0;
    let c2 = s.pop_remove_from_stack(RegisterSymbols::B);
    assert_eq!(s.reg_b, 0x12);
    assert_eq!(s.reg_c, 0x34);
    assert_eq!(s.stack_pointer, 0x2000);
    assert_eq!(c1, 11);
    assert_eq!(c2, 10);
}

#[test]
fn push_then_pop_restores_psw() {
    let mut s = blank_state();
    s.stack_pointer = 0x2000;
    s.reg_a = 0x5a;
    s.flags.sign = true;
    s.flags.zero = false;
    s.flags.auxiliary_carry = true;
    s.flags.parity = false;
    s.flags.carry = true;
    s.push_add_to_stack(RegisterSymbols::PSW);
    s.reg_a = 0;
    s.flags.sign = false;
    s.flags.auxiliary_carry = false;
    s.flags.carry = false;
    s.pop_remove_from_stack(RegisterSymbols::PSW);
    assert_eq!(s.reg_a, 0x5a);
    assert!(s.flags.sign);
    assert!(!s.flags.zero);
    assert!(s.flags.auxiliary_carry);
    assert!(!s.flags.parity);
    assert!(s.flags.carry);
}

#[test]
fn call_then_ret_restores_pc_and_sp() {
    let mut s = blank_state();
    s.program_counter = 0x1000;
    s.stack_pointer = 0x2000;
    s.memory[0x1001] = 0x00;
    s.memory[0x1002] = 0x30;
    let c1 = s.call_function_call();
    assert_eq!(s.program_counter, 0x3000);
    let c2 = s.ret_function_return();
    assert_eq!(s.program_counter, 0x1003);
    assert_eq!(s.stack_pointer, 0x2000);
    assert_eq!(c1, 17);
    assert_eq!(c2, 10);
}

#[test]
fn interrupt_ignored_after_di_taken_after_ei() {
    let mut s = blank_state();
    s.program_counter = 0x1234;
    s.stack_pointer = 0x2000;
    s.di_disable_interrupts();
    let pc = s.program_counter;
    s.call_interrupt(2);
    assert_eq!(s.program_counter, pc);

    s.ei_enable_interrupts();
    let pc = s.program_counter;
    s.call_interrupt(2);
    assert_eq!(s.program_counter, 0x10);
    // the interrupted PC is on the stack, low byte first
    assert_eq!(s.memory[s.stack_pointer as usize], (pc & 0xff) as u8);
    assert_eq!(s.memory[s.stack_pointer as usize + 1], (pc >> 8) as u8);
    // a second injection is ignored until EI runs again
    s.call_interrupt(1);
    assert_eq!(s.program_counter, 0x10);
}

#[test]
fn cycle_costs_register_versus_memory() {
    let mut s = blank_state();
    s.reg_h = 0x20;
    s.reg_l = 0x00;
    assert_eq!(s.mov_register_move(RegisterSymbols::B, RegisterSymbols::C), 5);
    assert_eq!(s.mov_register_move(RegisterSymbols::B, RegisterSymbols::MEMORY), 7);
    assert_eq!(s.mov_register_move(RegisterSymbols::MEMORY, RegisterSymbols::C), 7);
    assert_eq!(s.mvi_immediate_move(RegisterSymbols::B), 7);
    assert_eq!(s.mvi_immediate_move(RegisterSymbols::MEMORY), 10);
    assert_eq!(s.ana_and_register(RegisterSymbols::B), 4);
    assert_eq!(s.ana_and_register(RegisterSymbols::MEMORY), 7);
    assert_eq!(s.ora_inclusive_or_accumulator(RegisterSymbols::B), 4);
    assert_eq!(s.xra_exclusive_or_accumulator(RegisterSymbols::B), 4);
    assert_eq!(s.cmp_compare_register_to_accumulator(RegisterSymbols::B), 4);
    assert_eq!(s.cmp_compare_register_to_accumulator(RegisterSymbols::MEMORY), 7);
    assert_eq!(s.adc_add_with_carry_register(RegisterSymbols::B), 4);
    assert_eq!(s.sbb_subtract_with_carry_register(RegisterSymbols::B), 4);
    assert_eq!(s.add_register_add(RegisterSymbols::B), 4);
    assert_eq!(s.sub_register_subtract(RegisterSymbols::B), 4);
    assert_eq!(s.inr_increment_register(RegisterSymbols::B), 5);
    assert_eq!(s.inr_increment_register(RegisterSymbols::MEMORY), 10);
    assert_eq!(s.dcr_decrement_register(RegisterSymbols::B), 5);
    assert_eq!(s.dcr_decrement_register(RegisterSymbols::MEMORY), 10);
}

#[test]
fn psw_byte_has_fixed_bits() {
    let mut s = blank_state();
    assert_eq!(s.flags_to_u8(), 0x02);
    s.flags.sign = true;
    s.flags.zero = true;
    s.flags.auxiliary_carry = true;
    s.flags.parity = true;
    s.flags.carry = true;
    assert_eq!(s.flags_to_u8(), 0xd7);
    // bit 1 set, bits 3 and 5 clear, in both extremes
    assert_eq!(s.flags_to_u8() & 0x2a, 0x02);
}

#[test]
fn xchg_twice_is_identity() {
    let mut s = blank_state();
    s.reg_h = 0x11;
    s.reg_l = 0x22;
    s.reg_d = 0x33;
    s.reg_e = 0x44;
    let c = s.xchg_exchange_registers();
    assert_eq!(c, 5);
    assert_eq!((s.reg_h, s.reg_l, s.reg_d, s.reg_e), (0x33, 0x44, 0x11, 0x22));
    s.xchg_exchange_registers();
    assert_eq!((s.reg_h, s.reg_l, s.reg_d, s.reg_e), (0x11, 0x22, 0x33, 0x44));
}

#[test]
fn xthl_twice_is_identity() {
    let mut s = blank_state();
    s.stack_pointer = 0x2000;
    s.memory[0x2000] = 0xaa;
    s.memory[0x2001] = 0xbb;
    s.reg_h = 0x11;
    s.reg_l = 0x22;
    let c = s.xthl_exchange_top_stack_with_hl();
    assert_eq!(c, 18);
    assert_eq!((s.reg_h, s.reg_l), (0xbb, 0xaa));
    assert_eq!((s.memory[0x2000], s.memory[0x2001]), (0x22, 0x11));
    s.xthl_exchange_top_stack_with_hl();
    assert_eq!((s.reg_h, s.reg_l), (0x11, 0x22));
    assert_eq!((s.memory[0x2000], s.memory[0x2001]), (0xaa, 0xbb));
}

#[test]
fn pop_then_push_restores_stack_word() {
    let mut s = blank_state();
    s.stack_pointer = 0x2000;
    s.memory[0x2000] = 0x34;
    s.memory[0x2001] = 0x12;
    s.pop_remove_from_stack(RegisterSymbols::H);
    assert_eq!((s.reg_h, s.reg_l), (0x12, 0x34));
    s.program_counter = 0;
    s.push_add_to_stack(RegisterSymbols::H);
    assert_eq!(s.stack_pointer, 0x2000);
    assert_eq!((s.memory[0x2000], s.memory[0x2001]), (0x34, 0x12));
    assert_eq!((s.reg_h, s.reg_l), (0x12, 0x34));
}

#[test]
fn flag_byte_normalizes_through_psw_round_trip() {
    for b in 0..=255u8 {
        let mut s = blank_state();
        s.stack_pointer = 0x2000;
        s.memory[0x2000] = b;
        s.memory[0x2001] = 0x77;
        s.pop_remove_from_stack(RegisterSymbols::PSW);
        s.push_add_to_stack(RegisterSymbols::PSW);
        assert_eq!(s.memory[0x2000], (b & 0xd5) | 0x02);
        assert_eq!(s.memory[0x2001], 0x77);
    }
}

#[test]
fn add_a_to_a_overflow_case() {
    let mut s = blank_state();
    s.reg_a = 0x80;
    s.add_register_add(RegisterSymbols::A);
    assert_eq!(s.reg_a, 0x00);
    assert!(s.flags.zero);
    assert!(s.flags.carry);
    assert!(!s.flags.sign);
    assert!(s.flags.parity);
}

#[test]
fn sub_a_from_a_always_zero() {
    for a in [0u8, 1, 0x3c, 0x80, 0xff] {
        let mut s = blank_state();
        s.reg_a = a;
        s.flags.carry = true;
        s.sub_register_subtract(RegisterSymbols::A);
        assert_eq!(s.reg_a, 0);
        assert!(s.flags.zero);
        assert!(!s.flags.carry);
        assert!(s.flags.parity);
        assert!(!s.flags.sign);
    }
}

#[test]
fn inr_wraps_and_leaves_carry() {
    for carry in [false, true] {
        let mut s = blank_state();
        s.reg_b = 0xff;
        s.flags.carry = carry;
        s.inr_increment_register(RegisterSymbols::B);
        assert_eq!(s.reg_b, 0x00);
        assert!(s.flags.zero);
        assert!(s.flags.auxiliary_carry);
        assert_eq!(s.flags.carry, carry);
    }
}

#[test]
fn dcr_borrow_sets_aux() {
    let mut s = blank_state();
    s.reg_b = 0x10;
    s.dcr_decrement_register(RegisterSymbols::B);
    assert_eq!(s.reg_b, 0x0f);
    assert!(s.flags.auxiliary_carry);
    assert!(!s.flags.zero);
}

#[test]
fn dad_carries_out_of_bit_sixteen() {
    let mut s = blank_state();
    s.reg_h = 0xff;
    s.reg_l = 0xff;
    s.reg_b = 0x00;
    s.reg_c = 0x01;
    let c = s.dad_double_add(RegisterSymbols::B);
    assert_eq!((s.reg_h, s.reg_l), (0x00, 0x00));
    assert!(s.flags.carry);
    assert_eq!(c, 10);
}

#[test]
fn rotates_move_the_wrapped_bit_into_carry() {
    let mut s = blank_state();
    s.reg_a = 0x01;
    s.rrc_rotate_right();
    assert_eq!(s.reg_a, 0x80);
    assert!(s.flags.carry);

    let mut s = blank_state();
    s.reg_a = 0x80;
    s.rlc_rotate_left();
    assert_eq!(s.reg_a, 0x01);
    assert!(s.flags.carry);
}

#[test]
fn nine_bit_rotates_go_through_carry() {
    let mut s = blank_state();
    s.reg_a = 0x80;
    s.flags.carry = false;
    s.ral_rotate_left_though_carry();
    assert_eq!(s.reg_a, 0x00);
    assert!(s.flags.carry);
    s.ral_rotate_left_though_carry();
    assert_eq!(s.reg_a, 0x01);
    assert!(!s.flags.carry);

    let mut s = blank_state();
    s.reg_a = 0x01;
    s.flags.carry = true;
    s.rar_rotate_right_through_carry();
    assert_eq!(s.reg_a, 0x80);
    assert!(s.flags.carry);
}

#[test]
fn daa_adjusts_both_nibbles() {
    let mut s = blank_state();
    s.reg_a = 0x9b;
    let c = s.daa_decimal_adjust_accumulator();
    assert_eq!(s.reg_a, 0x01);
    assert!(s.flags.carry);
    assert_eq!(c, 4);
}

#[test]
fn complements_and_carry_controls() {
    let mut s = blank_state();
    s.reg_a = 0x55;
    s.cma_compliment_accumulator();
    assert_eq!(s.reg_a, 0xaa);

    s.stc_set_carry_flag();
    assert!(s.flags.carry);
    s.cmc_compliment_carry();
    assert!(!s.flags.carry);
}

#[test]
fn compare_sets_flags_and_keeps_a() {
    let mut s = blank_state();
    s.reg_a = 0x05;
    s.reg_b = 0x0a;
    s.cmp_compare_register_to_accumulator(RegisterSymbols::B);
    assert_eq!(s.reg_a, 0x05);
    assert!(s.flags.carry);
    assert!(!s.flags.zero);
}

#[test]
fn carry_feeds_adc_and_sbb() {
    let mut s = blank_state();
    s.reg_a = 0x01;
    s.reg_b = 0x01;
    s.flags.carry = true;
    s.adc_add_with_carry_register(RegisterSymbols::B);
    assert_eq!(s.reg_a, 0x03);

    let mut s = blank_state();
    s.reg_a = 0x05;
    s.reg_b = 0x01;
    s.flags.carry = true;
    s.sbb_subtract_with_carry_register(RegisterSymbols::B);
    assert_eq!(s.reg_a, 0x03);
}

#[test]
fn inx_and_dcx_wrap_at_the_ends() {
    let mut s = blank_state();
    s.reg_b = 0xff;
    s.reg_c = 0xff;
    s.inx_increment_register_pair(RegisterSymbols::B);
    assert_eq!((s.reg_b, s.reg_c), (0, 0));
    s.dcx_decrement_register_pair(RegisterSymbols::B);
    assert_eq!((s.reg_b, s.reg_c), (0xff, 0xff));

    s.stack_pointer = 0;
    s.dcx_decrement_register_pair(RegisterSymbols::SP);
    assert_eq!(s.stack_pointer, 0xffff);
}

#[test]
fn loads_and_stores_move_bytes() {
    let mut s = blank_state();
    s.memory[0x1000] = 0x77;
    s.memory[0x0001] = 0x00;
    s.memory[0x0002] = 0x10;
    let c = s.lda_load_accumulator_direct();
    assert_eq!(s.reg_a, 0x77);
    assert_eq!(c, 13);

    s.reg_a = 0x99;
    s.program_counter = 0;
    let c = s.sta_store_accumulator();
    assert_eq!(s.memory[0x1000], 0x99);
    assert_eq!(c, 13);

    s.reg_b = 0x20;
    s.reg_c = 0x05;
    s.memory[0x2005] = 0x42;
    s.ldax_load_accumulator_indirect(RegisterSymbols::B);
    assert_eq!(s.reg_a, 0x42);

    s.reg_d = 0x20;
    s.reg_e = 0x06;
    s.stax_store_accumulator_indirect(RegisterSymbols::D);
    assert_eq!(s.memory[0x2006], 0x42);

    s.program_counter = 0;
    s.memory[0x1000] = 0xcd;
    s.memory[0x1001] = 0xab;
    let c = s.lhld_load_hl_direct();
    assert_eq!((s.reg_h, s.reg_l), (0xab, 0xcd));
    assert_eq!(c, 16);
}

#[test]
fn conditional_jumps_and_returns_report_costs() {
    let mut s = blank_state();
    s.flags.zero = false;
    s.program_counter = 0x100;
    s.memory[0x101] = 0x00;
    s.memory[0x102] = 0x20;
    assert_eq!(s.jnz_jump_if_not_zero(), 10);
    assert_eq!(s.program_counter, 0x2000);
    assert_eq!(s.jz_jump_if_zero(), 10);
    assert_eq!(s.program_counter, 0x2003);

    let mut s = blank_state();
    s.stack_pointer = 0x2000;
    s.memory[0x2000] = 0x00;
    s.memory[0x2001] = 0x30;
    s.flags.carry = true;
    assert_eq!(s.rc_return_if_carry(), 11);
    assert_eq!(s.program_counter, 0x3000);
    s.flags.carry = false;
    assert_eq!(s.rc_return_if_carry(), 5);
    assert_eq!(s.program_counter, 0x3001);

    let mut s = blank_state();
    s.stack_pointer = 0x2000;
    s.program_counter = 0x100;
    s.memory[0x101] = 0x00;
    s.memory[0x102] = 0x40;
    s.flags.sign = true;
    assert_eq!(s.cm_call_if_minus(), 17);
    assert_eq!(s.program_counter, 0x4000);
    s.flags.sign = false;
    assert_eq!(s.cm_call_if_minus(), 11);
    assert_eq!(s.program_counter, 0x4003);
}

#[test]
fn rst_pushes_and_vectors() {
    let mut s = blank_state();
    s.program_counter = 0x1234;
    s.stack_pointer = 0x2000;
    let c = s.rst_reset(3);
    assert_eq!(s.program_counter, 0x18);
    assert_eq!(s.memory[0x1ffe], 0x35);
    assert_eq!(s.memory[0x1fff], 0x12);
    assert_eq!(c, 11);
}

#[test]
fn out_ports_drive_the_shift_hardware() {
    let mut s = blank_state();
    // OUT 2 with A=0x0a: shift offset becomes 2
    s.reg_a = 0x0a;
    s.memory[1] = 0x02;
    let c = s.out_send_output();
    assert_eq!(c, 10);
    assert_eq!(s.shift_amount, 0x02);
    // OUT 4 with A=0x01: input port 3 latches 1 << 2
    s.reg_a = 0x01;
    s.program_counter = 0;
    s.memory[1] = 0x04;
    s.out_send_output();
    assert_eq!(s.in_ports[3], 0x04);
    assert_eq!(s.out_ports[4], 0x01);
    // IN 3 reads the latched byte
    s.program_counter = 0;
    s.memory[1] = 0x03;
    let c = s.in_update_input();
    assert_eq!(s.reg_a, 0x04);
    assert_eq!(c, 10);
}

#[test]
fn shift_window_drops_high_bits() {
    let mut s = blank_state();
    s.reg_a = 0x07;
    s.memory[1] = 0x02;
    s.out_send_output();
    assert_eq!(s.shift_amount, 7);
    s.reg_a = 0xff;
    s.program_counter = 0;
    s.memory[1] = 0x04;
    s.out_send_output();
    // 0xff shifted left by 7, kept to 8 bits
    assert_eq!(s.in_ports[3], 0x80);
}

#[test]
fn sphl_and_pchl_copy_hl() {
    let mut s = blank_state();
    s.reg_h = 0x12;
    s.reg_l = 0x34;
    assert_eq!(s.sphl_load_sp_from_hl(), 5);
    assert_eq!(s.stack_pointer, 0x1234);
    assert_eq!(s.pchl_load_pc_from_hl(), 5);
    assert_eq!(s.program_counter, 0x1234);
}

#[test]
fn immediate_arithmetic_uses_the_operand_byte() {
    let mut s = blank_state();
    s.reg_a = 0x10;
    s.memory[1] = 0x22;
    assert_eq!(s.adi_immediate_add(), 7);
    assert_eq!(s.reg_a, 0x32);

    let mut s = blank_state();
    s.reg_a = 0x10;
    s.memory[1] = 0x01;
    s.flags.carry = true;
    assert_eq!(s.aci_add_with_carry_immediate(), 7);
    assert_eq!(s.reg_a, 0x12);

    let mut s = blank_state();
    s.reg_a = 0x10;
    s.memory[1] = 0x01;
    assert_eq!(s.sui_immediate_subtract(), 7);
    assert_eq!(s.reg_a, 0x0f);

    let mut s = blank_state();
    s.reg_a = 0x10;
    s.memory[1] = 0x01;
    s.flags.carry = true;
    assert_eq!(s.sbi_subtract_with_carry_immediate(), 7);
    assert_eq!(s.reg_a, 0x0e);

    let mut s = blank_state();
    s.reg_a = 0x0f;
    s.memory[1] = 0xf0;
    assert_eq!(s.ori_inclusive_or_immediate(), 7);
    assert_eq!(s.reg_a, 0xff);

    let mut s = blank_state();
    s.reg_a = 0xff;
    s.memory[1] = 0x0f;
    assert_eq!(s.ani_and_immediate(), 7);
    assert_eq!(s.reg_a, 0x0f);

    let mut s = blank_state();
    s.reg_a = 0xff;
    s.memory[1] = 0xff;
    assert_eq!(s.xri_exclusive_or_immediate(), 7);
    assert_eq!(s.reg_a, 0x00);
    assert!(s.flags.zero);
}
