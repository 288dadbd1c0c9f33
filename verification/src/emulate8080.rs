//! The interpreter: one dispatch over the 256-entry opcode table.
//!
//! `spec_step` is the machine's transition function; `emulate8080_op` is
//! proved to compute exactly that transition and its cycle cost. The table
//! is split into eight slices to keep each proof small; a slice is named by
//! the opcode range it decodes.

use crate::i8080::{wrap_add16, RegisterSymbols, State};
use crate::model::{
    spec_aci, spec_adc_register, spec_add_register, spec_adi, spec_ana_register, spec_ani,
    spec_call, spec_call_if, spec_cma, spec_cmc, spec_cmp_register, spec_cpi, spec_daa, spec_dad,
    spec_dcr, spec_dcx, spec_di, spec_ei, spec_hlt, spec_in, spec_inr, spec_inx, spec_jmp,
    spec_jump_if, spec_lda, spec_ldax, spec_lhld, spec_lxi, spec_mov, spec_mvi, spec_nop,
    spec_ora_register, spec_ori, spec_out, spec_pchl, spec_pop, spec_push, spec_ral, spec_rar,
    spec_ret, spec_ret_if, spec_rlc, spec_rrc, spec_rst, spec_sbb_register, spec_sbi, spec_shld,
    spec_sphl, spec_sta, spec_stax, spec_stc, spec_sub_register, spec_sui, spec_xchg,
    spec_xra_register, spec_xri, spec_xthl, step_ok, CpuView,
};
use vstd::prelude::*;

verus! {

/// The transition of one instruction with an opcode in 0x00..=0x1f.
pub open spec fn spec_step_00_1f(s: CpuView) -> (CpuView, u32) {
    match s.rd(s.pc) {
        0x00u8 | 0x08u8 | 0x10u8 | 0x18u8 | 0x20u8 | 0x28u8 | 0x30u8 | 0x38u8 | 0xcbu8 | 0xd9u8 | 0xddu8 | 0xedu8 | 0xfdu8 => (spec_nop(s), 1),
        0x01u8 => (spec_lxi(s, RegisterSymbols::B), 10),
        0x02u8 => (spec_stax(s, RegisterSymbols::B), 7),
        0x03u8 => (spec_inx(s, RegisterSymbols::B), 5),
        0x04u8 => (spec_inr(s, RegisterSymbols::B), 5),
        0x05u8 => (spec_dcr(s, RegisterSymbols::B), 5),
        0x06u8 => (spec_mvi(s, RegisterSymbols::B), 7),
        0x07u8 => (spec_rlc(s), 4),
        0x09u8 => (spec_dad(s, RegisterSymbols::B), 10),
        0x0au8 => (spec_ldax(s, RegisterSymbols::B), 7),
        0x0bu8 => (spec_dcx(s, RegisterSymbols::B), 5),
        0x0cu8 => (spec_inr(s, RegisterSymbols::C), 5),
        0x0du8 => (spec_dcr(s, RegisterSymbols::C), 5),
        0x0eu8 => (spec_mvi(s, RegisterSymbols::C), 7),
        0x0fu8 => (spec_rrc(s), 4),
        0x11u8 => (spec_lxi(s, RegisterSymbols::D), 10),
        0x12u8 => (spec_stax(s, RegisterSymbols::D), 7),
        0x13u8 => (spec_inx(s, RegisterSymbols::D), 5),
        0x14u8 => (spec_inr(s, RegisterSymbols::D), 5),
        0x15u8 => (spec_dcr(s, RegisterSymbols::D), 5),
        0x16u8 => (spec_mvi(s, RegisterSymbols::D), 7),
        0x17u8 => (spec_ral(s), 4),
        0x19u8 => (spec_dad(s, RegisterSymbols::D), 10),
        0x1au8 => (spec_ldax(s, RegisterSymbols::D), 7),
        0x1bu8 => (spec_dcx(s, RegisterSymbols::D), 5),
        0x1cu8 => (spec_inr(s, RegisterSymbols::E), 5),
        0x1du8 => (spec_dcr(s, RegisterSymbols::E), 5),
        0x1eu8 => (spec_mvi(s, RegisterSymbols::E), 7),
        0x1fu8 => (spec_rar(s), 4),
        _ => (s, 0),
    }
}

/// The transition of one instruction with an opcode in 0x20..=0x3f.
pub open spec fn spec_step_20_3f(s: CpuView) -> (CpuView, u32) {
    match s.rd(s.pc) {
        0x00u8 | 0x08u8 | 0x10u8 | 0x18u8 | 0x20u8 | 0x28u8 | 0x30u8 | 0x38u8 | 0xcbu8 | 0xd9u8 | 0xddu8 | 0xedu8 | 0xfdu8 => (spec_nop(s), 1),
        0x21u8 => (spec_lxi(s, RegisterSymbols::H), 10),
        0x22u8 => (spec_shld(s), 16),
        0x23u8 => (spec_inx(s, RegisterSymbols::H), 5),
        0x24u8 => (spec_inr(s, RegisterSymbols::H), 5),
        0x25u8 => (spec_dcr(s, RegisterSymbols::H), 5),
        0x26u8 => (spec_mvi(s, RegisterSymbols::H), 7),
        0x27u8 => (spec_daa(s), 4),
        0x29u8 => (spec_dad(s, RegisterSymbols::H), 10),
        0x2au8 => (spec_lhld(s), 16),
        0x2bu8 => (spec_dcx(s, RegisterSymbols::H), 5),
        0x2cu8 => (spec_inr(s, RegisterSymbols::L), 5),
        0x2du8 => (spec_dcr(s, RegisterSymbols::L), 5),
        0x2eu8 => (spec_mvi(s, RegisterSymbols::L), 7),
        0x2fu8 => (spec_cma(s), 4),
        0x31u8 => (spec_lxi(s, RegisterSymbols::SP), 10),
        0x32u8 => (spec_sta(s), 13),
        0x33u8 => (spec_inx(s, RegisterSymbols::SP), 5),
        0x34u8 => (spec_inr(s, RegisterSymbols::MEMORY), 10),
        0x35u8 => (spec_dcr(s, RegisterSymbols::MEMORY), 10),
        0x36u8 => (spec_mvi(s, RegisterSymbols::MEMORY), 10),
        0x37u8 => (spec_stc(s), 4),
        0x39u8 => (spec_dad(s, RegisterSymbols::SP), 10),
        0x3au8 => (spec_lda(s), 13),
        0x3bu8 => (spec_dcx(s, RegisterSymbols::SP), 5),
        0x3cu8 => (spec_inr(s, RegisterSymbols::A), 5),
        0x3du8 => (spec_dcr(s, RegisterSymbols::A), 5),
        0x3eu8 => (spec_mvi(s, RegisterSymbols::A), 7),
        0x3fu8 => (spec_cmc(s), 4),
        _ => (s, 0),
    }
}

/// The transition of one instruction with an opcode in 0x40..=0x5f.
pub open spec fn spec_step_40_5f(s: CpuView) -> (CpuView, u32) {
    match s.rd(s.pc) {
        0x40u8 => (spec_mov(s, RegisterSymbols::B, RegisterSymbols::B), 5),
        0x41u8 => (spec_mov(s, RegisterSymbols::B, RegisterSymbols::C), 5),
        0x42u8 => (spec_mov(s, RegisterSymbols::B, RegisterSymbols::D), 5),
        0x43u8 => (spec_mov(s, RegisterSymbols::B, RegisterSymbols::E), 5),
        0x44u8 => (spec_mov(s, RegisterSymbols::B, RegisterSymbols::H), 5),
        0x45u8 => (spec_mov(s, RegisterSymbols::B, RegisterSymbols::L), 5),
        0x46u8 => (spec_mov(s, RegisterSymbols::B, RegisterSymbols::MEMORY), 7),
        0x47u8 => (spec_mov(s, RegisterSymbols::B, RegisterSymbols::A), 5),
        0x48u8 => (spec_mov(s, RegisterSymbols::C, RegisterSymbols::B), 5),
        0x49u8 => (spec_mov(s, RegisterSymbols::C, RegisterSymbols::C), 5),
        0x4au8 => (spec_mov(s, RegisterSymbols::C, RegisterSymbols::D), 5),
        0x4bu8 => (spec_mov(s, RegisterSymbols::C, RegisterSymbols::E), 5),
        0x4cu8 => (spec_mov(s, RegisterSymbols::C, RegisterSymbols::H), 5),
        0x4du8 => (spec_mov(s, RegisterSymbols::C, RegisterSymbols::L), 5),
        0x4eu8 => (spec_mov(s, RegisterSymbols::C, RegisterSymbols::MEMORY), 7),
        0x4fu8 => (spec_mov(s, RegisterSymbols::C, RegisterSymbols::A), 5),
        0x50u8 => (spec_mov(s, RegisterSymbols::D, RegisterSymbols::B), 5),
        0x51u8 => (spec_mov(s, RegisterSymbols::D, RegisterSymbols::C), 5),
        0x52u8 => (spec_mov(s, RegisterSymbols::D, RegisterSymbols::D), 5),
        0x53u8 => (spec_mov(s, RegisterSymbols::D, RegisterSymbols::E), 5),
        0x54u8 => (spec_mov(s, RegisterSymbols::D, RegisterSymbols::H), 5),
        0x55u8 => (spec_mov(s, RegisterSymbols::D, RegisterSymbols::L), 5),
        0x56u8 => (spec_mov(s, RegisterSymbols::D, RegisterSymbols::MEMORY), 7),
        0x57u8 => (spec_mov(s, RegisterSymbols::D, RegisterSymbols::A), 5),
        0x58u8 => (spec_mov(s, RegisterSymbols::E, RegisterSymbols::B), 5),
        0x59u8 => (spec_mov(s, RegisterSymbols::E, RegisterSymbols::C), 5),
        0x5au8 => (spec_mov(s, RegisterSymbols::E, RegisterSymbols::D), 5),
        0x5bu8 => (spec_mov(s, RegisterSymbols::E, RegisterSymbols::E), 5),
        0x5cu8 => (spec_mov(s, RegisterSymbols::E, RegisterSymbols::H), 5),
        0x5du8 => (spec_mov(s, RegisterSymbols::E, RegisterSymbols::L), 5),
        0x5eu8 => (spec_mov(s, RegisterSymbols::E, RegisterSymbols::MEMORY), 7),
        0x5fu8 => (spec_mov(s, RegisterSymbols::E, RegisterSymbols::A), 5),
        _ => (s, 0),
    }
}

/// The transition of one instruction with an opcode in 0x60..=0x7f.
pub open spec fn spec_step_60_7f(s: CpuView) -> (CpuView, u32) {
    match s.rd(s.pc) {
        0x60u8 => (spec_mov(s, RegisterSymbols::H, RegisterSymbols::B), 5),
        0x61u8 => (spec_mov(s, RegisterSymbols::H, RegisterSymbols::C), 5),
        0x62u8 => (spec_mov(s, RegisterSymbols::H, RegisterSymbols::D), 5),
        0x63u8 => (spec_mov(s, RegisterSymbols::H, RegisterSymbols::E), 5),
        0x64u8 => (spec_mov(s, RegisterSymbols::H, RegisterSymbols::H), 5),
        0x65u8 => (spec_mov(s, RegisterSymbols::H, RegisterSymbols::L), 5),
        0x66u8 => (spec_mov(s, RegisterSymbols::H, RegisterSymbols::MEMORY), 7),
        0x67u8 => (spec_mov(s, RegisterSymbols::H, RegisterSymbols::A), 5),
        0x68u8 => (spec_mov(s, RegisterSymbols::L, RegisterSymbols::B), 5),
        0x69u8 => (spec_mov(s, RegisterSymbols::L, RegisterSymbols::C), 5),
        0x6au8 => (spec_mov(s, RegisterSymbols::L, RegisterSymbols::D), 5),
        0x6bu8 => (spec_mov(s, RegisterSymbols::L, RegisterSymbols::E), 5),
        0x6cu8 => (spec_mov(s, RegisterSymbols::L, RegisterSymbols::H), 5),
        0x6du8 => (spec_mov(s, RegisterSymbols::L, RegisterSymbols::L), 5),
        0x6eu8 => (spec_mov(s, RegisterSymbols::L, RegisterSymbols::MEMORY), 7),
        0x6fu8 => (spec_mov(s, RegisterSymbols::L, RegisterSymbols::A), 5),
        0x70u8 => (spec_mov(s, RegisterSymbols::MEMORY, RegisterSymbols::B), 7),
        0x71u8 => (spec_mov(s, RegisterSymbols::MEMORY, RegisterSymbols::C), 7),
        0x72u8 => (spec_mov(s, RegisterSymbols::MEMORY, RegisterSymbols::D), 7),
        0x73u8 => (spec_mov(s, RegisterSymbols::MEMORY, RegisterSymbols::E), 7),
        0x74u8 => (spec_mov(s, RegisterSymbols::MEMORY, RegisterSymbols::H), 7),
        0x75u8 => (spec_mov(s, RegisterSymbols::MEMORY, RegisterSymbols::L), 7),
        0x76u8 => (spec_hlt(s), 7),
        0x77u8 => (spec_mov(s, RegisterSymbols::MEMORY, RegisterSymbols::A), 7),
        0x78u8 => (spec_mov(s, RegisterSymbols::A, RegisterSymbols::B), 5),
        0x79u8 => (spec_mov(s, RegisterSymbols::A, RegisterSymbols::C), 5),
        0x7au8 => (spec_mov(s, RegisterSymbols::A, RegisterSymbols::D), 5),
        0x7bu8 => (spec_mov(s, RegisterSymbols::A, RegisterSymbols::E), 5),
        0x7cu8 => (spec_mov(s, RegisterSymbols::A, RegisterSymbols::H), 5),
        0x7du8 => (spec_mov(s, RegisterSymbols::A, RegisterSymbols::L), 5),
        0x7eu8 => (spec_mov(s, RegisterSymbols::A, RegisterSymbols::MEMORY), 7),
        0x7fu8 => (spec_mov(s, RegisterSymbols::A, RegisterSymbols::A), 5),
        _ => (s, 0),
    }
}

/// The transition of one instruction with an opcode in 0x80..=0x9f.
pub open spec fn spec_step_80_9f(s: CpuView) -> (CpuView, u32) {
    match s.rd(s.pc) {
        0x80u8 => (spec_add_register(s, RegisterSymbols::B), 4),
        0x81u8 => (spec_add_register(s, RegisterSymbols::C), 4),
        0x82u8 => (spec_add_register(s, RegisterSymbols::D), 4),
        0x83u8 => (spec_add_register(s, RegisterSymbols::E), 4),
        0x84u8 => (spec_add_register(s, RegisterSymbols::H), 4),
        0x85u8 => (spec_add_register(s, RegisterSymbols::L), 4),
        0x86u8 => (spec_add_register(s, RegisterSymbols::MEMORY), 7),
        0x87u8 => (spec_add_register(s, RegisterSymbols::A), 4),
        0x88u8 => (spec_adc_register(s, RegisterSymbols::B), 4),
        0x89u8 => (spec_adc_register(s, RegisterSymbols::C), 4),
        0x8au8 => (spec_adc_register(s, RegisterSymbols::D), 4),
        0x8bu8 => (spec_adc_register(s, RegisterSymbols::E), 4),
        0x8cu8 => (spec_adc_register(s, RegisterSymbols::H), 4),
        0x8du8 => (spec_adc_register(s, RegisterSymbols::L), 4),
        0x8eu8 => (spec_adc_register(s, RegisterSymbols::MEMORY), 7),
        0x8fu8 => (spec_adc_register(s, RegisterSymbols::A), 4),
        0x90u8 => (spec_sub_register(s, RegisterSymbols::B), 4),
        0x91u8 => (spec_sub_register(s, RegisterSymbols::C), 4),
        0x92u8 => (spec_sub_register(s, RegisterSymbols::D), 4),
        0x93u8 => (spec_sub_register(s, RegisterSymbols::E), 4),
        0x94u8 => (spec_sub_register(s, RegisterSymbols::H), 4),
        0x95u8 => (spec_sub_register(s, RegisterSymbols::L), 4),
        0x96u8 => (spec_sub_register(s, RegisterSymbols::MEMORY), 7),
        0x97u8 => (spec_sub_register(s, RegisterSymbols::A), 4),
        0x98u8 => (spec_sbb_register(s, RegisterSymbols::B), 4),
        0x99u8 => (spec_sbb_register(s, RegisterSymbols::C), 4),
        0x9au8 => (spec_sbb_register(s, RegisterSymbols::D), 4),
        0x9bu8 => (spec_sbb_register(s, RegisterSymbols::E), 4),
        0x9cu8 => (spec_sbb_register(s, RegisterSymbols::H), 4),
        0x9du8 => (spec_sbb_register(s, RegisterSymbols::L), 4),
        0x9eu8 => (spec_sbb_register(s, RegisterSymbols::MEMORY), 7),
        0x9fu8 => (spec_sbb_register(s, RegisterSymbols::A), 4),
        _ => (s, 0),
    }
}

/// The transition of one instruction with an opcode in 0xa0..=0xbf.
pub open spec fn spec_step_a0_bf(s: CpuView) -> (CpuView, u32) {
    match s.rd(s.pc) {
        0xa0u8 => (spec_ana_register(s, RegisterSymbols::B), 4),
        0xa1u8 => (spec_ana_register(s, RegisterSymbols::C), 4),
        0xa2u8 => (spec_ana_register(s, RegisterSymbols::D), 4),
        0xa3u8 => (spec_ana_register(s, RegisterSymbols::E), 4),
        0xa4u8 => (spec_ana_register(s, RegisterSymbols::H), 4),
        0xa5u8 => (spec_ana_register(s, RegisterSymbols::L), 4),
        0xa6u8 => (spec_ana_register(s, RegisterSymbols::MEMORY), 7),
        0xa7u8 => (spec_ana_register(s, RegisterSymbols::A), 4),
        0xa8u8 => (spec_xra_register(s, RegisterSymbols::B), 4),
        0xa9u8 => (spec_xra_register(s, RegisterSymbols::C), 4),
        0xaau8 => (spec_xra_register(s, RegisterSymbols::D), 4),
        0xabu8 => (spec_xra_register(s, RegisterSymbols::E), 4),
        0xacu8 => (spec_xra_register(s, RegisterSymbols::H), 4),
        0xadu8 => (spec_xra_register(s, RegisterSymbols::L), 4),
        0xaeu8 => (spec_xra_register(s, RegisterSymbols::MEMORY), 7),
        0xafu8 => (spec_xra_register(s, RegisterSymbols::A), 4),
        0xb0u8 => (spec_ora_register(s, RegisterSymbols::B), 4),
        0xb1u8 => (spec_ora_register(s, RegisterSymbols::C), 4),
        0xb2u8 => (spec_ora_register(s, RegisterSymbols::D), 4),
        0xb3u8 => (spec_ora_register(s, RegisterSymbols::E), 4),
        0xb4u8 => (spec_ora_register(s, RegisterSymbols::H), 4),
        0xb5u8 => (spec_ora_register(s, RegisterSymbols::L), 4),
        0xb6u8 => (spec_ora_register(s, RegisterSymbols::MEMORY), 7),
        0xb7u8 => (spec_ora_register(s, RegisterSymbols::A), 4),
        0xb8u8 => (spec_cmp_register(s, RegisterSymbols::B), 4),
        0xb9u8 => (spec_cmp_register(s, RegisterSymbols::C), 4),
        0xbau8 => (spec_cmp_register(s, RegisterSymbols::D), 4),
        0xbbu8 => (spec_cmp_register(s, RegisterSymbols::E), 4),
        0xbcu8 => (spec_cmp_register(s, RegisterSymbols::H), 4),
        0xbdu8 => (spec_cmp_register(s, RegisterSymbols::L), 4),
        0xbeu8 => (spec_cmp_register(s, RegisterSymbols::MEMORY), 7),
        0xbfu8 => (spec_cmp_register(s, RegisterSymbols::A), 4),
        _ => (s, 0),
    }
}

/// The transition of one instruction with an opcode in 0xc0..=0xdf.
pub open spec fn spec_step_c0_df(s: CpuView) -> (CpuView, u32) {
    match s.rd(s.pc) {
        0x00u8 | 0x08u8 | 0x10u8 | 0x18u8 | 0x20u8 | 0x28u8 | 0x30u8 | 0x38u8 | 0xcbu8 | 0xd9u8 | 0xddu8 | 0xedu8 | 0xfdu8 => (spec_nop(s), 1),
        0xc0u8 => (spec_ret_if(s, !s.zero), if !s.zero { 11 } else { 5 }),
        0xc1u8 => (spec_pop(s, RegisterSymbols::B), 10),
        0xc2u8 => (spec_jump_if(s, !s.zero), 10),
        0xc3u8 => (spec_jmp(s), 10),
        0xc4u8 => (spec_call_if(s, !s.zero), if !s.zero { 17 } else { 11 }),
        0xc5u8 => (spec_push(s, RegisterSymbols::B), 11),
        0xc6u8 => (spec_adi(s), 7),
        0xc7u8 => (spec_rst(s, 0), 11),
        0xc8u8 => (spec_ret_if(s, s.zero), if s.zero { 11 } else { 5 }),
        0xc9u8 => (spec_ret(s), 10),
        0xcau8 => (spec_jump_if(s, s.zero), 10),
        0xcdu8 => (spec_call(s), 17),
        0xccu8 => (spec_call_if(s, s.zero), if s.zero { 17 } else { 11 }),
        0xceu8 => (spec_aci(s), 7),
        0xcfu8 => (spec_rst(s, 1), 11),
        0xd0u8 => (spec_ret_if(s, !s.carry), if !s.carry { 11 } else { 5 }),
        0xd1u8 => (spec_pop(s, RegisterSymbols::D), 10),
        0xd2u8 => (spec_jump_if(s, !s.carry), 10),
        0xd3u8 => (spec_out(s), 10),
        0xd4u8 => (spec_call_if(s, !s.carry), if !s.carry { 17 } else { 11 }),
        0xd5u8 => (spec_push(s, RegisterSymbols::D), 11),
        0xd6u8 => (spec_sui(s), 7),
        0xd7u8 => (spec_rst(s, 2), 11),
        0xd8u8 => (spec_ret_if(s, s.carry), if s.carry { 11 } else { 5 }),
        0xdau8 => (spec_jump_if(s, s.carry), 10),
        0xdbu8 => (spec_in(s), 10),
        0xdcu8 => (spec_call_if(s, s.carry), if s.carry { 17 } else { 11 }),
        0xdeu8 => (spec_sbi(s), 7),
        0xdfu8 => (spec_rst(s, 3), 11),
        _ => (s, 0),
    }
}

/// The transition of one instruction with an opcode in 0xe0..=0xff.
pub open spec fn spec_step_e0_ff(s: CpuView) -> (CpuView, u32) {
    match s.rd(s.pc) {
        0x00u8 | 0x08u8 | 0x10u8 | 0x18u8 | 0x20u8 | 0x28u8 | 0x30u8 | 0x38u8 | 0xcbu8 | 0xd9u8 | 0xddu8 | 0xedu8 | 0xfdu8 => (spec_nop(s), 1),
        0xe0u8 => (spec_ret_if(s, !s.parity), if !s.parity { 11 } else { 5 }),
        0xe1u8 => (spec_pop(s, RegisterSymbols::H), 10),
        0xe2u8 => (spec_jump_if(s, !s.parity), 10),
        0xe3u8 => (spec_xthl(s), 18),
        0xe4u8 => (spec_call_if(s, !s.parity), if !s.parity { 17 } else { 11 }),
        0xe5u8 => (spec_push(s, RegisterSymbols::H), 11),
        0xe6u8 => (spec_ani(s), 7),
        0xe7u8 => (spec_rst(s, 4), 11),
        0xe8u8 => (spec_ret_if(s, s.parity), if s.parity { 11 } else { 5 }),
        0xe9u8 => (spec_pchl(s), 5),
        0xeau8 => (spec_jump_if(s, s.parity), 10),
        0xebu8 => (spec_xchg(s), 5),
        0xecu8 => (spec_call_if(s, s.parity), if s.parity { 17 } else { 11 }),
        0xeeu8 => (spec_xri(s), 7),
        0xefu8 => (spec_rst(s, 5), 11),
        0xf0u8 => (spec_ret_if(s, !s.sign), if !s.sign { 11 } else { 5 }),
        0xf1u8 => (spec_pop(s, RegisterSymbols::PSW), 10),
        0xf2u8 => (spec_jump_if(s, !s.sign), 10),
        0xf3u8 => (spec_di(s), 4),
        0xf4u8 => (spec_call_if(s, !s.sign), if !s.sign { 17 } else { 11 }),
        0xf5u8 => (spec_push(s, RegisterSymbols::PSW), 11),
        0xf6u8 => (spec_ori(s), 7),
        0xf7u8 => (spec_rst(s, 6), 11),
        0xf8u8 => (spec_ret_if(s, s.sign), if s.sign { 11 } else { 5 }),
        0xf9u8 => (spec_sphl(s), 5),
        0xfau8 => (spec_jump_if(s, s.sign), 10),
        0xfbu8 => (spec_ei(s), 4),
        0xfcu8 => (spec_call_if(s, s.sign), if s.sign { 17 } else { 11 }),
        0xfeu8 => (spec_cpi(s), 7),
        0xffu8 => (spec_rst(s, 7), 11),
        _ => (s, 0),
    }
}

/// The transition one fetched instruction makes, with its cycle cost.
/// Opaque so that callers reason with the slice functions instead of the
/// whole table at once.
#[verifier::opaque]
pub open spec fn spec_step(s: CpuView) -> (CpuView, u32) {
    let op = s.rd(s.pc);
    if op < 0x20 {
        spec_step_00_1f(s)
    } else if op < 0x40 {
        spec_step_20_3f(s)
    } else if op < 0x60 {
        spec_step_40_5f(s)
    } else if op < 0x80 {
        spec_step_60_7f(s)
    } else if op < 0xa0 {
        spec_step_80_9f(s)
    } else if op < 0xc0 {
        spec_step_a0_bf(s)
    } else if op < 0xe0 {
        spec_step_c0_df(s)
    } else {
        spec_step_e0_ff(s)
    }
}

/// Whether the instruction at PC can be stepped: OUT must name a port of
/// the Space Invaders map and IN one of the eight input ports.
pub fn step_supported(state: &State) -> (r: bool)
    requires
        state@.wf(),
    ensures
        r == step_ok(state@),
{
    let opcode = state.memory[state.program_counter as usize];
    if opcode == 0xd3 {
        let port = state.get_next(1);
        2 <= port && port <= 6
    } else if opcode == 0xdb {
        let port = state.get_next(1);
        port < 8
    } else {
        true
    }
}

/// Execute one instruction with an opcode in 0x00..=0x1f.
#[verifier::rlimit(100)]
fn step_00_1f(state: &mut State) -> (cycles: u32)
    requires
        old(state)@.wf(),
        step_ok(old(state)@),
        0x00 <= old(state)@.rd(old(state)@.pc) < 0x20,
    ensures
        final(state)@ == spec_step_00_1f(old(state)@).0,
        cycles == spec_step_00_1f(old(state)@).1,
        final(state)@.wf(),
{
    match state.memory[state.program_counter as usize] {
        0x00 | 0x08 | 0x10 | 0x18 | 0x20 | 0x28 | 0x30 | 0x38 | 0xcb | 0xd9 | 0xdd | 0xed | 0xfd => {
            state.program_counter = wrap_add16(state.program_counter, 1);
            1
        }
        0x01 => state.lxi_load_register_pair_immediate(RegisterSymbols::B),
        0x02 => state.stax_store_accumulator_indirect(RegisterSymbols::B),
        0x03 => state.inx_increment_register_pair(RegisterSymbols::B),
        0x04 => state.inr_increment_register(RegisterSymbols::B),
        0x05 => state.dcr_decrement_register(RegisterSymbols::B),
        0x06 => state.mvi_immediate_move(RegisterSymbols::B),
        0x07 => state.rlc_rotate_left(),
        0x09 => state.dad_double_add(RegisterSymbols::B),
        0x0a => state.ldax_load_accumulator_indirect(RegisterSymbols::B),
        0x0b => state.dcx_decrement_register_pair(RegisterSymbols::B),
        0x0c => state.inr_increment_register(RegisterSymbols::C),
        0x0d => state.dcr_decrement_register(RegisterSymbols::C),
        0x0e => state.mvi_immediate_move(RegisterSymbols::C),
        0x0f => state.rrc_rotate_right(),
        0x11 => state.lxi_load_register_pair_immediate(RegisterSymbols::D),
        0x12 => state.stax_store_accumulator_indirect(RegisterSymbols::D),
        0x13 => state.inx_increment_register_pair(RegisterSymbols::D),
        0x14 => state.inr_increment_register(RegisterSymbols::D),
        0x15 => state.dcr_decrement_register(RegisterSymbols::D),
        0x16 => state.mvi_immediate_move(RegisterSymbols::D),
        0x17 => state.ral_rotate_left_though_carry(),
        0x19 => state.dad_double_add(RegisterSymbols::D),
        0x1a => state.ldax_load_accumulator_indirect(RegisterSymbols::D),
        0x1b => state.dcx_decrement_register_pair(RegisterSymbols::D),
        0x1c => state.inr_increment_register(RegisterSymbols::E),
        0x1d => state.dcr_decrement_register(RegisterSymbols::E),
        0x1e => state.mvi_immediate_move(RegisterSymbols::E),
        0x1f => state.rar_rotate_right_through_carry(),
        _ => 0,
    }
}

/// Execute one instruction with an opcode in 0x20..=0x3f.
#[verifier::rlimit(100)]
fn step_20_3f(state: &mut State) -> (cycles: u32)
    requires
        old(state)@.wf(),
        step_ok(old(state)@),
        0x20 <= old(state)@.rd(old(state)@.pc) < 0x40,
    ensures
        final(state)@ == spec_step_20_3f(old(state)@).0,
        cycles == spec_step_20_3f(old(state)@).1,
        final(state)@.wf(),
{
    match state.memory[state.program_counter as usize] {
        0x00 | 0x08 | 0x10 | 0x18 | 0x20 | 0x28 | 0x30 | 0x38 | 0xcb | 0xd9 | 0xdd | 0xed | 0xfd => {
            state.program_counter = wrap_add16(state.program_counter, 1);
            1
        }
        0x21 => state.lxi_load_register_pair_immediate(RegisterSymbols::H),
        0x22 => state.shld_store_hl_direct(),
        0x23 => state.inx_increment_register_pair(RegisterSymbols::H),
        0x24 => state.inr_increment_register(RegisterSymbols::H),
        0x25 => state.dcr_decrement_register(RegisterSymbols::H),
        0x26 => state.mvi_immediate_move(RegisterSymbols::H),
        0x27 => state.daa_decimal_adjust_accumulator(),
        0x29 => state.dad_double_add(RegisterSymbols::H),
        0x2a => state.lhld_load_hl_direct(),
        0x2b => state.dcx_decrement_register_pair(RegisterSymbols::H),
        0x2c => state.inr_increment_register(RegisterSymbols::L),
        0x2d => state.dcr_decrement_register(RegisterSymbols::L),
        0x2e => state.mvi_immediate_move(RegisterSymbols::L),
        0x2f => state.cma_compliment_accumulator(),
        0x31 => state.lxi_load_register_pair_immediate(RegisterSymbols::SP),
        0x32 => state.sta_store_accumulator(),
        0x33 => state.inx_increment_register_pair(RegisterSymbols::SP),
        0x34 => state.inr_increment_register(RegisterSymbols::MEMORY),
        0x35 => state.dcr_decrement_register(RegisterSymbols::MEMORY),
        0x36 => state.mvi_immediate_move(RegisterSymbols::MEMORY),
        0x37 => state.stc_set_carry_flag(),
        0x39 => state.dad_double_add(RegisterSymbols::SP),
        0x3a => state.lda_load_accumulator_direct(),
        0x3b => state.dcx_decrement_register_pair(RegisterSymbols::SP),
        0x3c => state.inr_increment_register(RegisterSymbols::A),
        0x3d => state.dcr_decrement_register(RegisterSymbols::A),
        0x3e => state.mvi_immediate_move(RegisterSymbols::A),
        0x3f => state.cmc_compliment_carry(),
        _ => 0,
    }
}

/// Execute one instruction with an opcode in 0x40..=0x5f.
#[verifier::rlimit(100)]
fn step_40_5f(state: &mut State) -> (cycles: u32)
    requires
        old(state)@.wf(),
        step_ok(old(state)@),
        0x40 <= old(state)@.rd(old(state)@.pc) < 0x60,
    ensures
        final(state)@ == spec_step_40_5f(old(state)@).0,
        cycles == spec_step_40_5f(old(state)@).1,
        final(state)@.wf(),
{
    match state.memory[state.program_counter as usize] {
        0x40 => state.mov_register_move(RegisterSymbols::B, RegisterSymbols::B),
        0x41 => state.mov_register_move(RegisterSymbols::B, RegisterSymbols::C),
        0x42 => state.mov_register_move(RegisterSymbols::B, RegisterSymbols::D),
        0x43 => state.mov_register_move(RegisterSymbols::B, RegisterSymbols::E),
        0x44 => state.mov_register_move(RegisterSymbols::B, RegisterSymbols::H),
        0x45 => state.mov_register_move(RegisterSymbols::B, RegisterSymbols::L),
        0x46 => state.mov_register_move(RegisterSymbols::B, RegisterSymbols::MEMORY),
        0x47 => state.mov_register_move(RegisterSymbols::B, RegisterSymbols::A),
        0x48 => state.mov_register_move(RegisterSymbols::C, RegisterSymbols::B),
        0x49 => state.mov_register_move(RegisterSymbols::C, RegisterSymbols::C),
        0x4a => state.mov_register_move(RegisterSymbols::C, RegisterSymbols::D),
        0x4b => state.mov_register_move(RegisterSymbols::C, RegisterSymbols::E),
        0x4c => state.mov_register_move(RegisterSymbols::C, RegisterSymbols::H),
        0x4d => state.mov_register_move(RegisterSymbols::C, RegisterSymbols::L),
        0x4e => state.mov_register_move(RegisterSymbols::C, RegisterSymbols::MEMORY),
        0x4f => state.mov_register_move(RegisterSymbols::C, RegisterSymbols::A),
        0x50 => state.mov_register_move(RegisterSymbols::D, RegisterSymbols::B),
        0x51 => state.mov_register_move(RegisterSymbols::D, RegisterSymbols::C),
        0x52 => state.mov_register_move(RegisterSymbols::D, RegisterSymbols::D),
        0x53 => state.mov_register_move(RegisterSymbols::D, RegisterSymbols::E),
        0x54 => state.mov_register_move(RegisterSymbols::D, RegisterSymbols::H),
        0x55 => state.mov_register_move(RegisterSymbols::D, RegisterSymbols::L),
        0x56 => state.mov_register_move(RegisterSymbols::D, RegisterSymbols::MEMORY),
        0x57 => state.mov_register_move(RegisterSymbols::D, RegisterSymbols::A),
        0x58 => state.mov_register_move(RegisterSymbols::E, RegisterSymbols::B),
        0x59 => state.mov_register_move(RegisterSymbols::E, RegisterSymbols::C),
        0x5a => state.mov_register_move(RegisterSymbols::E, RegisterSymbols::D),
        0x5b => state.mov_register_move(RegisterSymbols::E, RegisterSymbols::E),
        0x5c => state.mov_register_move(RegisterSymbols::E, RegisterSymbols::H),
        0x5d => state.mov_register_move(RegisterSymbols::E, RegisterSymbols::L),
        0x5e => state.mov_register_move(RegisterSymbols::E, RegisterSymbols::MEMORY),
        0x5f => state.mov_register_move(RegisterSymbols::E, RegisterSymbols::A),
        _ => 0,
    }
}

/// Execute one instruction with an opcode in 0x60..=0x7f.
#[verifier::rlimit(100)]
fn step_60_7f(state: &mut State) -> (cycles: u32)
    requires
        old(state)@.wf(),
        step_ok(old(state)@),
        0x60 <= old(state)@.rd(old(state)@.pc) < 0x80,
    ensures
        final(state)@ == spec_step_60_7f(old(state)@).0,
        cycles == spec_step_60_7f(old(state)@).1,
        final(state)@.wf(),
{
    match state.memory[state.program_counter as usize] {
        0x60 => state.mov_register_move(RegisterSymbols::H, RegisterSymbols::B),
        0x61 => state.mov_register_move(RegisterSymbols::H, RegisterSymbols::C),
        0x62 => state.mov_register_move(RegisterSymbols::H, RegisterSymbols::D),
        0x63 => state.mov_register_move(RegisterSymbols::H, RegisterSymbols::E),
        0x64 => state.mov_register_move(RegisterSymbols::H, RegisterSymbols::H),
        0x65 => state.mov_register_move(RegisterSymbols::H, RegisterSymbols::L),
        0x66 => state.mov_register_move(RegisterSymbols::H, RegisterSymbols::MEMORY),
        0x67 => state.mov_register_move(RegisterSymbols::H, RegisterSymbols::A),
        0x68 => state.mov_register_move(RegisterSymbols::L, RegisterSymbols::B),
        0x69 => state.mov_register_move(RegisterSymbols::L, RegisterSymbols::C),
        0x6a => state.mov_register_move(RegisterSymbols::L, RegisterSymbols::D),
        0x6b => state.mov_register_move(RegisterSymbols::L, RegisterSymbols::E),
        0x6c => state.mov_register_move(RegisterSymbols::L, RegisterSymbols::H),
        0x6d => state.mov_register_move(RegisterSymbols::L, RegisterSymbols::L),
        0x6e => state.mov_register_move(RegisterSymbols::L, RegisterSymbols::MEMORY),
        0x6f => state.mov_register_move(RegisterSymbols::L, RegisterSymbols::A),
        0x70 => state.mov_register_move(RegisterSymbols::MEMORY, RegisterSymbols::B),
        0x71 => state.mov_register_move(RegisterSymbols::MEMORY, RegisterSymbols::C),
        0x72 => state.mov_register_move(RegisterSymbols::MEMORY, RegisterSymbols::D),
        0x73 => state.mov_register_move(RegisterSymbols::MEMORY, RegisterSymbols::E),
        0x74 => state.mov_register_move(RegisterSymbols::MEMORY, RegisterSymbols::H),
        0x75 => state.mov_register_move(RegisterSymbols::MEMORY, RegisterSymbols::L),
        0x76 => state.hlt_halt(),
        0x77 => state.mov_register_move(RegisterSymbols::MEMORY, RegisterSymbols::A),
        0x78 => state.mov_register_move(RegisterSymbols::A, RegisterSymbols::B),
        0x79 => state.mov_register_move(RegisterSymbols::A, RegisterSymbols::C),
        0x7a => state.mov_register_move(RegisterSymbols::A, RegisterSymbols::D),
        0x7b => state.mov_register_move(RegisterSymbols::A, RegisterSymbols::E),
        0x7c => state.mov_register_move(RegisterSymbols::A, RegisterSymbols::H),
        0x7d => state.mov_register_move(RegisterSymbols::A, RegisterSymbols::L),
        0x7e => state.mov_register_move(RegisterSymbols::A, RegisterSymbols::MEMORY),
        0x7f => state.mov_register_move(RegisterSymbols::A, RegisterSymbols::A),
        _ => 0,
    }
}

/// Execute one instruction with an opcode in 0x80..=0x9f.
#[verifier::rlimit(100)]
fn step_80_9f(state: &mut State) -> (cycles: u32)
    requires
        old(state)@.wf(),
        step_ok(old(state)@),
        0x80 <= old(state)@.rd(old(state)@.pc) < 0xa0,
    ensures
        final(state)@ == spec_step_80_9f(old(state)@).0,
        cycles == spec_step_80_9f(old(state)@).1,
        final(state)@.wf(),
{
    match state.memory[state.program_counter as usize] {
        0x80 => state.add_register_add(RegisterSymbols::B),
        0x81 => state.add_register_add(RegisterSymbols::C),
        0x82 => state.add_register_add(RegisterSymbols::D),
        0x83 => state.add_register_add(RegisterSymbols::E),
        0x84 => state.add_register_add(RegisterSymbols::H),
        0x85 => state.add_register_add(RegisterSymbols::L),
        0x86 => state.add_register_add(RegisterSymbols::MEMORY),
        0x87 => state.add_register_add(RegisterSymbols::A),
        0x88 => state.adc_add_with_carry_register(RegisterSymbols::B),
        0x89 => state.adc_add_with_carry_register(RegisterSymbols::C),
        0x8a => state.adc_add_with_carry_register(RegisterSymbols::D),
        0x8b => state.adc_add_with_carry_register(RegisterSymbols::E),
        0x8c => state.adc_add_with_carry_register(RegisterSymbols::H),
        0x8d => state.adc_add_with_carry_register(RegisterSymbols::L),
        0x8e => state.adc_add_with_carry_register(RegisterSymbols::MEMORY),
        0x8f => state.adc_add_with_carry_register(RegisterSymbols::A),
        0x90 => state.sub_register_subtract(RegisterSymbols::B),
        0x91 => state.sub_register_subtract(RegisterSymbols::C),
        0x92 => state.sub_register_subtract(RegisterSymbols::D),
        0x93 => state.sub_register_subtract(RegisterSymbols::E),
        0x94 => state.sub_register_subtract(RegisterSymbols::H),
        0x95 => state.sub_register_subtract(RegisterSymbols::L),
        0x96 => state.sub_register_subtract(RegisterSymbols::MEMORY),
        0x97 => state.sub_register_subtract(RegisterSymbols::A),
        0x98 => state.sbb_subtract_with_carry_register(RegisterSymbols::B),
        0x99 => state.sbb_subtract_with_carry_register(RegisterSymbols::C),
        0x9a => state.sbb_subtract_with_carry_register(RegisterSymbols::D),
        0x9b => state.sbb_subtract_with_carry_register(RegisterSymbols::E),
        0x9c => state.sbb_subtract_with_carry_register(RegisterSymbols::H),
        0x9d => state.sbb_subtract_with_carry_register(RegisterSymbols::L),
        0x9e => state.sbb_subtract_with_carry_register(RegisterSymbols::MEMORY),
        0x9f => state.sbb_subtract_with_carry_register(RegisterSymbols::A),
        _ => 0,
    }
}

/// Execute one instruction with an opcode in 0xa0..=0xbf.
#[verifier::rlimit(100)]
fn step_a0_bf(state: &mut State) -> (cycles: u32)
    requires
        old(state)@.wf(),
        step_ok(old(state)@),
        0xa0 <= old(state)@.rd(old(state)@.pc) < 0xc0,
    ensures
        final(state)@ == spec_step_a0_bf(old(state)@).0,
        cycles == spec_step_a0_bf(old(state)@).1,
        final(state)@.wf(),
{
    match state.memory[state.program_counter as usize] {
        0xa0 => state.ana_and_register(RegisterSymbols::B),
        0xa1 => state.ana_and_register(RegisterSymbols::C),
        0xa2 => state.ana_and_register(RegisterSymbols::D),
        0xa3 => state.ana_and_register(RegisterSymbols::E),
        0xa4 => state.ana_and_register(RegisterSymbols::H),
        0xa5 => state.ana_and_register(RegisterSymbols::L),
        0xa6 => state.ana_and_register(RegisterSymbols::MEMORY),
        0xa7 => state.ana_and_register(RegisterSymbols::A),
        0xa8 => state.xra_exclusive_or_accumulator(RegisterSymbols::B),
        0xa9 => state.xra_exclusive_or_accumulator(RegisterSymbols::C),
        0xaa => state.xra_exclusive_or_accumulator(RegisterSymbols::D),
        0xab => state.xra_exclusive_or_accumulator(RegisterSymbols::E),
        0xac => state.xra_exclusive_or_accumulator(RegisterSymbols::H),
        0xad => state.xra_exclusive_or_accumulator(RegisterSymbols::L),
        0xae => state.xra_exclusive_or_accumulator(RegisterSymbols::MEMORY),
        0xaf => state.xra_exclusive_or_accumulator(RegisterSymbols::A),
        0xb0 => state.ora_inclusive_or_accumulator(RegisterSymbols::B),
        0xb1 => state.ora_inclusive_or_accumulator(RegisterSymbols::C),
        0xb2 => state.ora_inclusive_or_accumulator(RegisterSymbols::D),
        0xb3 => state.ora_inclusive_or_accumulator(RegisterSymbols::E),
        0xb4 => state.ora_inclusive_or_accumulator(RegisterSymbols::H),
        0xb5 => state.ora_inclusive_or_accumulator(RegisterSymbols::L),
        0xb6 => state.ora_inclusive_or_accumulator(RegisterSymbols::MEMORY),
        0xb7 => state.ora_inclusive_or_accumulator(RegisterSymbols::A),
        0xb8 => state.cmp_compare_register_to_accumulator(RegisterSymbols::B),
        0xb9 => state.cmp_compare_register_to_accumulator(RegisterSymbols::C),
        0xba => state.cmp_compare_register_to_accumulator(RegisterSymbols::D),
        0xbb => state.cmp_compare_register_to_accumulator(RegisterSymbols::E),
        0xbc => state.cmp_compare_register_to_accumulator(RegisterSymbols::H),
        0xbd => state.cmp_compare_register_to_accumulator(RegisterSymbols::L),
        0xbe => state.cmp_compare_register_to_accumulator(RegisterSymbols::MEMORY),
        0xbf => state.cmp_compare_register_to_accumulator(RegisterSymbols::A),
        _ => 0,
    }
}

/// Execute one instruction with an opcode in 0xc0..=0xdf.
#[verifier::rlimit(100)]
fn step_c0_df(state: &mut State) -> (cycles: u32)
    requires
        old(state)@.wf(),
        step_ok(old(state)@),
        0xc0 <= old(state)@.rd(old(state)@.pc) < 0xe0,
    ensures
        final(state)@ == spec_step_c0_df(old(state)@).0,
        cycles == spec_step_c0_df(old(state)@).1,
        final(state)@.wf(),
{
    match state.memory[state.program_counter as usize] {
        0x00 | 0x08 | 0x10 | 0x18 | 0x20 | 0x28 | 0x30 | 0x38 | 0xcb | 0xd9 | 0xdd | 0xed | 0xfd => {
            state.program_counter = wrap_add16(state.program_counter, 1);
            1
        }
        0xc0 => state.rnz_return_if_not_zero(),
        0xc1 => state.pop_remove_from_stack(RegisterSymbols::B),
        0xc2 => state.jnz_jump_if_not_zero(),
        0xc3 => state.jmp_jump(),
        0xc4 => state.cnz_call_if_not_zero(),
        0xc5 => state.push_add_to_stack(RegisterSymbols::B),
        0xc6 => state.adi_immediate_add(),
        0xc7 => state.rst_reset(0),
        0xc8 => state.rz_return_if_zero(),
        0xc9 => state.ret_function_return(),
        0xca => state.jz_jump_if_zero(),
        0xcd => state.call_function_call(),
        0xcc => state.cz_call_if_zero(),
        0xce => state.aci_add_with_carry_immediate(),
        0xcf => state.rst_reset(1),
        0xd0 => state.rnc_return_if_no_carry(),
        0xd1 => state.pop_remove_from_stack(RegisterSymbols::D),
        0xd2 => state.jnc_jump_if_no_carry(),
        0xd3 => state.out_send_output(),
        0xd4 => state.cnc_call_if_no_carry(),
        0xd5 => state.push_add_to_stack(RegisterSymbols::D),
        0xd6 => state.sui_immediate_subtract(),
        0xd7 => state.rst_reset(2),
        0xd8 => state.rc_return_if_carry(),
        0xda => state.jc_jump_if_carry(),
        0xdb => state.in_update_input(),
        0xdc => state.cc_call_if_carry(),
        0xde => state.sbi_subtract_with_carry_immediate(),
        0xdf => state.rst_reset(3),
        _ => 0,
    }
}

/// Execute one instruction with an opcode in 0xe0..=0xff.
#[verifier::rlimit(100)]
fn step_e0_ff(state: &mut State) -> (cycles: u32)
    requires
        old(state)@.wf(),
        step_ok(old(state)@),
        0xe0 <= old(state)@.rd(old(state)@.pc) < 0x100,
    ensures
        final(state)@ == spec_step_e0_ff(old(state)@).0,
        cycles == spec_step_e0_ff(old(state)@).1,
        final(state)@.wf(),
{
    match state.memory[state.program_counter as usize] {
        0x00 | 0x08 | 0x10 | 0x18 | 0x20 | 0x28 | 0x30 | 0x38 | 0xcb | 0xd9 | 0xdd | 0xed | 0xfd => {
            state.program_counter = wrap_add16(state.program_counter, 1);
            1
        }
        0xe0 => state.rpo_return_if_parity_odd(),
        0xe1 => state.pop_remove_from_stack(RegisterSymbols::H),
        0xe2 => state.jpo_jump_if_parity_odd(),
        0xe3 => state.xthl_exchange_top_stack_with_hl(),
        0xe4 => state.cpo_call_if_parity_odd(),
        0xe5 => state.push_add_to_stack(RegisterSymbols::H),
        0xe6 => state.ani_and_immediate(),
        0xe7 => state.rst_reset(4),
        0xe8 => state.rpe_return_if_parity_even(),
        0xe9 => state.pchl_load_pc_from_hl(),
        0xea => state.jpe_jump_if_parity_even(),
        0xeb => state.xchg_exchange_registers(),
        0xec => state.cpe_call_if_parity_even(),
        0xee => state.xri_exclusive_or_immediate(),
        0xef => state.rst_reset(5),
        0xf0 => state.rp_return_if_plus(),
        0xf1 => state.pop_remove_from_stack(RegisterSymbols::PSW),
        0xf2 => state.jp_jump_if_plus(),
        0xf3 => state.di_disable_interrupts(),
        0xf4 => state.cp_call_if_plus(),
        0xf5 => state.push_add_to_stack(RegisterSymbols::PSW),
        0xf6 => state.ori_inclusive_or_immediate(),
        0xf7 => state.rst_reset(6),
        0xf8 => state.rm_return_if_minus(),
        0xf9 => state.sphl_load_sp_from_hl(),
        0xfa => state.jm_jump_if_minus(),
        0xfb => state.ei_enable_interrupts(),
        0xfc => state.cm_call_if_minus(),
        0xfe => state.cpi_compare_immediate_to_accumulator(),
        0xff => state.rst_reset(7),
        _ => 0,
    }
}

/// Fetch, decode and execute one instruction; the result is the cycle cost.
pub fn emulate8080_op(state: &mut State) -> (cycles: u32)
    requires
        old(state)@.wf(),
        step_ok(old(state)@),
    ensures
        final(state)@ == spec_step(old(state)@).0,
        cycles == spec_step(old(state)@).1,
        final(state)@.wf(),
{
    proof {
        reveal(spec_step);
    }
    let opcode = state.memory[state.program_counter as usize];
    if opcode < 0x20 {
        step_00_1f(state)
    } else if opcode < 0x40 {
        step_20_3f(state)
    } else if opcode < 0x60 {
        step_40_5f(state)
    } else if opcode < 0x80 {
        step_60_7f(state)
    } else if opcode < 0xa0 {
        step_80_9f(state)
    } else if opcode < 0xc0 {
        step_a0_bf(state)
    } else if opcode < 0xe0 {
        step_c0_df(state)
    } else {
        step_e0_ff(state)
    }
}

} // verus!

// ---------------------------------------------------------------------------
// The timing driver's decisions and the framebuffer view. The host thread
// owns the clock; everything it decides with is here, verified.
// ---------------------------------------------------------------------------

verus! {

/// Cycles in one displayed frame: a 2 MHz CPU at 60 frames per second.
pub const CYCLES_PER_FRAME: u32 = 2000000 / 60;

/// The interrupt cadence: cycles since the last injection, and which
/// half-screen vector comes next (false: mid-screen, true: end-of-frame).
pub struct FrameTimer {
    pub cycles_since_interrupt: u32,
    pub end_of_frame_next: bool,
}

impl FrameTimer {
    /// A fresh cadence: no cycles counted, mid-screen vector first.
    pub fn new() -> (t: FrameTimer)
        ensures
            t.cycles_since_interrupt == 0,
            !t.end_of_frame_next,
    {
        FrameTimer { cycles_since_interrupt: 0, end_of_frame_next: false }
    }
}

/// Inject the half-screen interrupt once more than half a frame's cycles
/// have accumulated: the mid-screen and end-of-frame vectors alternate,
/// and the count restarts even when interrupts are off.
pub fn poll_interrupt(state: &mut State, timer: &mut FrameTimer)
    requires
        old(state)@.wf(),
    ensures
        final(state)@.wf(),
        old(timer).cycles_since_interrupt > CYCLES_PER_FRAME / 2 ==> {
            &&& final(state)@ == crate::model::spec_call_interrupt(
                old(state)@,
                if old(timer).end_of_frame_next { 2 } else { 1 },
            )
            &&& final(timer).cycles_since_interrupt == 0
            &&& final(timer).end_of_frame_next == !old(timer).end_of_frame_next
        },
        old(timer).cycles_since_interrupt <= CYCLES_PER_FRAME / 2 ==> {
            &&& final(state)@ == old(state)@
            &&& final(timer).cycles_since_interrupt == old(timer).cycles_since_interrupt
            &&& final(timer).end_of_frame_next == old(timer).end_of_frame_next
        },
{
    if timer.cycles_since_interrupt > CYCLES_PER_FRAME / 2 {
        if timer.end_of_frame_next {
            state.call_interrupt(2);
        } else {
            state.call_interrupt(1);
        }
        timer.end_of_frame_next = !timer.end_of_frame_next;
        timer.cycles_since_interrupt = 0;
    }
}

/// Run one instruction and add its cost to the cadence — unless
/// single-stepping is on with no steps granted, in which case nothing
/// happens. A granted step is consumed. The cycle count saturates rather
/// than wrap, and the caller's pacing resets it each frame.
#[verifier::rlimit(100)]
pub fn step_once(state: &mut State, timer: &mut FrameTimer) -> (cycles: u32)
    requires
        old(state)@.wf(),
        crate::model::step_ok(old(state)@),
    ensures
        final(state)@.wf(),
        final(timer).end_of_frame_next == old(timer).end_of_frame_next,
        old(state)@.enable_stepping && old(state)@.step_count == 0 ==> {
            &&& final(state)@ == old(state)@
            &&& final(timer).cycles_since_interrupt == old(timer).cycles_since_interrupt
            &&& cycles == 0
        },
        !(old(state)@.enable_stepping && old(state)@.step_count == 0) ==> {
            let stepped = spec_step(old(state)@);
            &&& cycles == stepped.1
            &&& final(state)@ == (if old(state)@.enable_stepping {
                CpuView { step_count: (old(state)@.step_count - 1) as u16, ..stepped.0 }
            } else {
                stepped.0
            })
            &&& final(timer).cycles_since_interrupt == (
            if old(timer).cycles_since_interrupt + stepped.1 > u32::MAX {
                u32::MAX as int
            } else {
                old(timer).cycles_since_interrupt + stepped.1
            })
        },
{
    if self_stepping_idle(state) {
        return 0;
    }
    let was_stepping = state.enable_stepping;
    let granted = state.step_count;
    let cycles = emulate8080_op(state);
    if was_stepping {
        state.step_count = granted - 1;
    }
    if timer.cycles_since_interrupt > u32::MAX - cycles {
        timer.cycles_since_interrupt = u32::MAX;
    } else {
        timer.cycles_since_interrupt = timer.cycles_since_interrupt + cycles;
    }
    cycles
}

/// Whether single-stepping is on with no steps granted.
fn self_stepping_idle(state: &State) -> (r: bool)
    ensures
        r == (state@.enable_stepping && state@.step_count == 0),
{
    state.enable_stepping && state.step_count == 0
}

/// One RGBA byte of the expanded framebuffer: pixels come from the 1-bpp
/// region at 0x2400, each bit giving white or black in the three colour
/// channels, with alpha opaque.
pub open spec fn fb_byte(mem: Seq<u8>, j: int) -> u8 {
    let ind = j / 32;
    let bit = j % 32 / 4;
    let ch = j % 4;
    if ch == 3 {
        0xff
    } else if bit_at(mem[0x2400 + ind], bit) {
        0xff
    } else {
        0
    }
}

/// Bit `k` of a byte, written with divisions.
pub open spec fn bit_at(v: u8, k: int) -> bool {
    if k == 0 {
        v % 2 == 1
    } else if k == 1 {
        v / 2 % 2 == 1
    } else if k == 2 {
        v / 4 % 2 == 1
    } else if k == 3 {
        v / 8 % 2 == 1
    } else if k == 4 {
        v / 16 % 2 == 1
    } else if k == 5 {
        v / 32 % 2 == 1
    } else if k == 6 {
        v / 64 % 2 == 1
    } else {
        v / 128 % 2 == 1
    }
}

/// One channel byte of a pixel: opaque alpha, else white where the bit
/// is set.
fn fb_value(byte: u8, bit: usize, ch: usize) -> (r: u8)
    requires
        bit < 8,
        ch < 4,
    ensures
        r == (if ch == 3 {
            0xffu8
        } else if bit_at(byte, bit as int) {
            0xffu8
        } else {
            0u8
        }),
{
    let px = match bit {
        0usize => byte % 2,
        1usize => byte / 2 % 2,
        2usize => byte / 4 % 2,
        3usize => byte / 8 % 2,
        4usize => byte / 16 % 2,
        5usize => byte / 32 % 2,
        6usize => byte / 64 % 2,
        _ => byte / 128 % 2,
    };
    if ch == 3 {
        0xff
    } else if px == 1 {
        0xff
    } else {
        0
    }
}

/// The framebuffer expanded to 256 x 224 RGBA bytes, for a display to
/// copy straight out.
pub fn screen_rgba(state: &State) -> (v: Vec<u8>)
    requires
        state@.wf(),
    ensures
        v@.len() == 0x38000,
        forall|j: int| 0 <= j < 0x38000 ==> v@[j] == fb_byte(state@.mem, j),
{
    let mut v: Vec<u8> = Vec::new();
    let mut j: usize = 0;
    while j < 0x38000
        invariant
            state@.wf(),
            j <= 0x38000,
            v@.len() == j,
            forall|k: int| 0 <= k < j ==> v@[k] == fb_byte(state@.mem, k),
        decreases 0x38000 - j,
    {
        let ind = j / 32;
        let bit = j % 32 / 4;
        let ch = j % 4;
        let byte = state.memory[0x2400 + ind];
        let value = fb_value(byte, bit, ch);
        v.push(value);
        proof {
            assert(v@[j as int] == fb_byte(state@.mem, j as int));
        }
        j = j + 1;
    }
    v
}

} // verus!
