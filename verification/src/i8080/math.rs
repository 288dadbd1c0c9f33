//! Arithmetic instructions: additions, subtractions, decimal adjust and the
//! 16-bit increment, decrement and add.

use crate::i8080::{wrap_add16, wrap_sub16, RegisterSymbols, State};
use crate::model::{
    add_core, spec_aci, spec_adc_register, spec_add_register, spec_adi, spec_daa, spec_dad,
    spec_dcr, spec_dcx, spec_inr, spec_inx, spec_sbb_register, spec_sbi, spec_sub_register,
    spec_sui, sub_core,
};
use vstd::prelude::*;

verus! {

impl State {
    /// Read a 16-bit pair, with SP as the fourth choice.
    pub(crate) fn get_pair_sp_register(&self, register: RegisterSymbols) -> (r: u16)
        requires
            self@.wf(),
            register.is_pair_sp(),
        ensures
            r == self@.read_pair(register),
    {
        match register {
            RegisterSymbols::B => Self::u8_pair_to_u16(self.reg_c, self.reg_b),
            RegisterSymbols::D => Self::u8_pair_to_u16(self.reg_e, self.reg_d),
            RegisterSymbols::H => Self::u8_pair_to_u16(self.reg_l, self.reg_h),
            RegisterSymbols::SP => self.stack_pointer,
            _ => 0,
        }
    }

    /// Add `op` plus a carry-in to A and set all five flags.
    fn add_and_set_flags(&mut self, op: u8, cin: u8)
        requires
            cin <= 1,
        ensures
            final(self)@ == add_core(old(self)@, op, cin),
    {
        let total: u16 = self.reg_a as u16 + op as u16 + cin as u16;
        let result = (total % 256) as u8;
        let aux = self.reg_a % 16 + op % 16 + cin > 15;
        self.set_szp(result);
        self.flags.carry = total > 255;
        self.flags.auxiliary_carry = aux;
        self.reg_a = result;
    }

    /// Subtract `op` plus a borrow-in from A and set all five flags.
    fn sub_and_set_flags(&mut self, op: u8, bin: u8)
        requires
            bin <= 1,
        ensures
            final(self)@ == sub_core(old(self)@, op, bin),
    {
        let total: u16 = 256 + self.reg_a as u16 - op as u16 - bin as u16;
        let result = (total % 256) as u8;
        let carry = (self.reg_a as u16) < op as u16 + bin as u16;
        let aux = self.reg_a % 16 < op % 16 + bin;
        self.set_szp(result);
        self.flags.carry = carry;
        self.flags.auxiliary_carry = aux;
        self.reg_a = result;
    }

    /// ADD reg
    pub fn add_register_add(&mut self, register: RegisterSymbols) -> (cycles: u32)
        requires
            old(self)@.wf(),
            register.is_single(),
        ensures
            final(self)@ == spec_add_register(old(self)@, register),
            final(self)@.wf(),
            cycles == (if register is MEMORY { 7u32 } else { 4u32 }),
    {
        let answer = self.get_single_register(register);
        self.add_and_set_flags(answer, 0);

        self.program_counter = wrap_add16(self.program_counter, 1);

        Self::get_cycles(register, 4, 7)
    }

    /// SUB reg
    pub fn sub_register_subtract(&mut self, register: RegisterSymbols) -> (cycles: u32)
        requires
            old(self)@.wf(),
            register.is_single(),
        ensures
            final(self)@ == spec_sub_register(old(self)@, register),
            final(self)@.wf(),
            cycles == (if register is MEMORY { 7u32 } else { 4u32 }),
    {
        let answer = self.get_single_register(register);
        self.sub_and_set_flags(answer, 0);

        self.program_counter = wrap_add16(self.program_counter, 1);

        Self::get_cycles(register, 4, 7)
    }

    /// ADI d8
    pub fn adi_immediate_add(&mut self) -> (cycles: u32)
        requires
            old(self)@.wf(),
        ensures
            final(self)@ == spec_adi(old(self)@),
            final(self)@.wf(),
            cycles == 7,
    {
        let answer = self.get_next(1);
        self.add_and_set_flags(answer, 0);

        self.program_counter = wrap_add16(self.program_counter, 2);

        7
    }

    /// SUI d8
    pub fn sui_immediate_subtract(&mut self) -> (cycles: u32)
        requires
            old(self)@.wf(),
        ensures
            final(self)@ == spec_sui(old(self)@),
            final(self)@.wf(),
            cycles == 7,
    {
        let answer = self.get_next(1);
        self.sub_and_set_flags(answer, 0);

        self.program_counter = wrap_add16(self.program_counter, 2);

        7
    }

    /// ACI d8
    pub fn aci_add_with_carry_immediate(&mut self) -> (cycles: u32)
        requires
            old(self)@.wf(),
        ensures
            final(self)@ == spec_aci(old(self)@),
            final(self)@.wf(),
            cycles == 7,
    {
        let carry: u8 = if self.flags.carry {
            1
        } else {
            0
        };
        let answer = self.get_next(1);
        self.add_and_set_flags(answer, carry);

        self.program_counter = wrap_add16(self.program_counter, 2);

        7
    }

    /// ADC reg
    pub fn adc_add_with_carry_register(&mut self, register: RegisterSymbols) -> (cycles: u32)
        requires
            old(self)@.wf(),
            register.is_single(),
        ensures
            final(self)@ == spec_adc_register(old(self)@, register),
            final(self)@.wf(),
            cycles == (if register is MEMORY { 7u32 } else { 4u32 }),
    {
        let carry: u8 = if self.flags.carry {
            1
        } else {
            0
        };
        let answer = self.get_single_register(register);
        self.add_and_set_flags(answer, carry);

        self.program_counter = wrap_add16(self.program_counter, 1);

        Self::get_cycles(register, 4, 7)
    }

    /// SBI d8
    pub fn sbi_subtract_with_carry_immediate(&mut self) -> (cycles: u32)
        requires
            old(self)@.wf(),
        ensures
            final(self)@ == spec_sbi(old(self)@),
            final(self)@.wf(),
            cycles == 7,
    {
        let borrow: u8 = if self.flags.carry {
            1
        } else {
            0
        };
        let answer = self.get_next(1);
        self.sub_and_set_flags(answer, borrow);

        self.program_counter = wrap_add16(self.program_counter, 2);

        7
    }

    /// SBB reg
    pub fn sbb_subtract_with_carry_register(&mut self, register: RegisterSymbols) -> (cycles: u32)
        requires
            old(self)@.wf(),
            register.is_single(),
        ensures
            final(self)@ == spec_sbb_register(old(self)@, register),
            final(self)@.wf(),
            cycles == (if register is MEMORY { 7u32 } else { 4u32 }),
    {
        let borrow: u8 = if self.flags.carry {
            1
        } else {
            0
        };
        let answer = self.get_single_register(register);
        self.sub_and_set_flags(answer, borrow);

        self.program_counter = wrap_add16(self.program_counter, 1);

        Self::get_cycles(register, 4, 7)
    }

    /// DAD reg: HL gains a 16-bit pair; CY alone changes, from bit 16.
    pub fn dad_double_add(&mut self, register: RegisterSymbols) -> (cycles: u32)
        requires
            old(self)@.wf(),
            register.is_pair_sp(),
        ensures
            final(self)@ == spec_dad(old(self)@, register),
            final(self)@.wf(),
            cycles == 10,
    {
        let hl_val = self.hl_to_address() as u32;
        let rp_val = self.get_pair_sp_register(register) as u32;

        let result = hl_val + rp_val;
        let wrapped = (result % 0x10000) as u16;
        self.set_hl_pair(wrapped);

        self.flags.carry = result > 0xffff;

        self.program_counter = wrap_add16(self.program_counter, 1);

        10
    }

    /// DAA
    #[verifier::rlimit(30)]
    pub fn daa_decimal_adjust_accumulator(&mut self) -> (cycles: u32)
        requires
            old(self)@.wf(),
        ensures
            final(self)@ == spec_daa(old(self)@),
            final(self)@.wf(),
            cycles == 4,
    {
        let mut result = self.reg_a;
        let mut should_carry = false;
        if result % 16 > 9 || self.flags.auxiliary_carry {
            result = ((result as u16 + 6) % 256) as u8;
            should_carry = true;
        }
        if result / 16 > 9 || self.flags.carry {
            result = ((result as u16 + 0x60) % 256) as u8;
        }
        self.set_szp(result);
        self.flags.carry = should_carry;
        self.reg_a = result;

        self.program_counter = wrap_add16(self.program_counter, 1);

        4
    }

    /// INR reg: CY is untouched.
    #[verifier::rlimit(30)]
    pub fn inr_increment_register(&mut self, register: RegisterSymbols) -> (cycles: u32)
        requires
            old(self)@.wf(),
            register.is_single(),
        ensures
            final(self)@ == spec_inr(old(self)@, register),
            final(self)@.wf(),
            cycles == (if register is MEMORY { 10u32 } else { 5u32 }),
    {
        let value = self.get_single_register(register);
        let result = ((value as u16 + 1) % 256) as u8;
        self.set_szp(result);
        self.flags.auxiliary_carry = value % 16 == 15;
        self.set_single_register(register, result);

        self.program_counter = wrap_add16(self.program_counter, 1);

        Self::get_cycles(register, 5, 10)
    }

    /// INX reg
    pub fn inx_increment_register_pair(&mut self, register: RegisterSymbols) -> (cycles: u32)
        requires
            old(self)@.wf(),
            register.is_pair_sp(),
        ensures
            final(self)@ == spec_inx(old(self)@, register),
            final(self)@.wf(),
            cycles == 5,
    {
        let value = wrap_add16(self.get_pair_sp_register(register), 1);
        self.set_pair_sp_register(register, value);

        self.program_counter = wrap_add16(self.program_counter, 1);

        5
    }

    /// DCR reg: CY is untouched.
    #[verifier::rlimit(50)]
    pub fn dcr_decrement_register(&mut self, register: RegisterSymbols) -> (cycles: u32)
        requires
            old(self)@.wf(),
            register.is_single(),
        ensures
            final(self)@ == spec_dcr(old(self)@, register),
            final(self)@.wf(),
            cycles == (if register is MEMORY { 10u32 } else { 5u32 }),
    {
        let value = self.get_single_register(register);
        let result = ((value as u16 + 255) % 256) as u8;
        self.set_szp(result);
        self.flags.auxiliary_carry = value % 16 == 0;
        self.set_single_register(register, result);

        self.program_counter = wrap_add16(self.program_counter, 1);

        Self::get_cycles(register, 5, 10)
    }

    /// DCX reg
    pub fn dcx_decrement_register_pair(&mut self, register: RegisterSymbols) -> (cycles: u32)
        requires
            old(self)@.wf(),
            register.is_pair_sp(),
        ensures
            final(self)@ == spec_dcx(old(self)@, register),
            final(self)@.wf(),
            cycles == 5,
    {
        let value = wrap_sub16(self.get_pair_sp_register(register), 1);
        self.set_pair_sp_register(register, value);

        self.program_counter = wrap_add16(self.program_counter, 1);

        5
    }
}

} // verus!
