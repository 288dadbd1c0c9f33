//! Rotates, complements, logical operations and comparisons.

use crate::i8080::{wrap_add16, RegisterSymbols, State};
use crate::model::{
    cmp_core, spec_ana_register, spec_ani, spec_cma, spec_cmc, spec_cmp_register, spec_cpi,
    spec_ora_register, spec_ori, spec_ral, spec_rar, spec_rlc, spec_rrc, spec_stc,
    spec_xra_register, spec_xri, CpuView,
};
use vstd::prelude::*;

verus! {

impl State {
    /// RLC: circular rotate left; CY takes the bit that wrapped.
    pub fn rlc_rotate_left(&mut self) -> (cycles: u32)
        requires
            old(self)@.wf(),
        ensures
            final(self)@ == spec_rlc(old(self)@),
            final(self)@.wf(),
            cycles == 4,
    {
        self.flags.carry = self.reg_a >= 0x80;
        let carry: u8 = if self.flags.carry {
            1
        } else {
            0
        };
        self.reg_a = (self.reg_a % 128) * 2 + carry;
        self.program_counter = wrap_add16(self.program_counter, 1);

        4
    }

    /// RRC: circular rotate right; CY takes the bit that wrapped.
    pub fn rrc_rotate_right(&mut self) -> (cycles: u32)
        requires
            old(self)@.wf(),
        ensures
            final(self)@ == spec_rrc(old(self)@),
            final(self)@.wf(),
            cycles == 4,
    {
        self.flags.carry = self.reg_a % 2 == 1;
        let carry: u8 = if self.flags.carry {
            0x80
        } else {
            0
        };
        self.reg_a = self.reg_a / 2 + carry;
        self.program_counter = wrap_add16(self.program_counter, 1);

        4
    }

    /// RAL: 9-bit rotate left through CY.
    pub fn ral_rotate_left_though_carry(&mut self) -> (cycles: u32)
        requires
            old(self)@.wf(),
        ensures
            final(self)@ == spec_ral(old(self)@),
            final(self)@.wf(),
            cycles == 4,
    {
        let carry: u8 = if self.flags.carry {
            1
        } else {
            0
        };
        self.flags.carry = self.reg_a >= 0x80;
        self.reg_a = (self.reg_a % 128) * 2 + carry;
        self.program_counter = wrap_add16(self.program_counter, 1);

        4
    }

    /// RAR: 9-bit rotate right through CY.
    pub fn rar_rotate_right_through_carry(&mut self) -> (cycles: u32)
        requires
            old(self)@.wf(),
        ensures
            final(self)@ == spec_rar(old(self)@),
            final(self)@.wf(),
            cycles == 4,
    {
        let carry: u8 = if self.flags.carry {
            0x80
        } else {
            0
        };
        self.flags.carry = self.reg_a % 2 == 1;
        self.reg_a = self.reg_a / 2 + carry;
        self.program_counter = wrap_add16(self.program_counter, 1);

        4
    }

    /// CMA: complement A; no flags change.
    pub fn cma_compliment_accumulator(&mut self) -> (cycles: u32)
        requires
            old(self)@.wf(),
        ensures
            final(self)@ == spec_cma(old(self)@),
            final(self)@.wf(),
            cycles == 4,
    {
        self.reg_a = 255 - self.reg_a;
        self.program_counter = wrap_add16(self.program_counter, 1);

        4
    }

    /// CMC: complement CY.
    pub fn cmc_compliment_carry(&mut self) -> (cycles: u32)
        requires
            old(self)@.wf(),
        ensures
            final(self)@ == spec_cmc(old(self)@),
            final(self)@.wf(),
            cycles == 4,
    {
        self.flags.carry = !self.flags.carry;
        self.program_counter = wrap_add16(self.program_counter, 1);

        4
    }

    /// STC: set CY.
    pub fn stc_set_carry_flag(&mut self) -> (cycles: u32)
        requires
            old(self)@.wf(),
        ensures
            final(self)@ == spec_stc(old(self)@),
            final(self)@.wf(),
            cycles == 4,
    {
        self.flags.carry = true;
        self.program_counter = wrap_add16(self.program_counter, 1);

        4
    }

    /// Set the flags a logical instruction leaves: S, Z, P from A, CY and
    /// AC cleared.
    pub fn flags_on_accumulator(&mut self)
        ensures
            final(self)@ == (CpuView {
                carry: false,
                aux: false,
                ..old(self)@.with_szp(old(self)@.a)
            }),
    {
        let a = self.reg_a;
        self.set_szp(a);
        self.flags.carry = false;
        self.flags.auxiliary_carry = false;
    }

    /// Set the flags a comparison leaves, from A and the compared byte.
    fn flags_for_compare(&mut self, op: u8)
        ensures
            final(self)@ == cmp_core(old(self)@, op),
    {
        let total: u16 = 256 + self.reg_a as u16 - op as u16;
        let result = (total % 256) as u8;
        let carry = self.reg_a < op;
        let aux = self.reg_a % 16 < op % 16;
        self.set_szp(result);
        self.flags.carry = carry;
        self.flags.auxiliary_carry = aux;
    }

    /// CMP reg: the flags of A minus the register; A is untouched.
    pub fn cmp_compare_register_to_accumulator(&mut self, register: RegisterSymbols) -> (cycles:
        u32)
        requires
            old(self)@.wf(),
            register.is_single(),
        ensures
            final(self)@ == spec_cmp_register(old(self)@, register),
            final(self)@.wf(),
            cycles == (if register is MEMORY { 7u32 } else { 4u32 }),
    {
        let cmp = self.get_single_register(register);
        self.flags_for_compare(cmp);

        self.program_counter = wrap_add16(self.program_counter, 1);

        Self::get_cycles(register, 4, 7)
    }

    /// CPI d8: the flags of A minus the immediate; A is untouched.
    pub fn cpi_compare_immediate_to_accumulator(&mut self) -> (cycles: u32)
        requires
            old(self)@.wf(),
        ensures
            final(self)@ == spec_cpi(old(self)@),
            final(self)@.wf(),
            cycles == 7,
    {
        let immediate = self.get_next(1);
        self.flags_for_compare(immediate);

        self.program_counter = wrap_add16(self.program_counter, 2);

        7
    }

    /// ANA reg
    pub fn ana_and_register(&mut self, register: RegisterSymbols) -> (cycles: u32)
        requires
            old(self)@.wf(),
            register.is_single(),
        ensures
            final(self)@ == spec_ana_register(old(self)@, register),
            final(self)@.wf(),
            cycles == (if register is MEMORY { 7u32 } else { 4u32 }),
    {
        let value = self.get_single_register(register);
        self.reg_a = self.reg_a & value;
        self.flags_on_accumulator();

        self.program_counter = wrap_add16(self.program_counter, 1);

        Self::get_cycles(register, 4, 7)
    }

    /// ANI d8
    pub fn ani_and_immediate(&mut self) -> (cycles: u32)
        requires
            old(self)@.wf(),
        ensures
            final(self)@ == spec_ani(old(self)@),
            final(self)@.wf(),
            cycles == 7,
    {
        let immediate = self.get_next(1);
        self.reg_a = self.reg_a & immediate;
        self.flags_on_accumulator();

        self.program_counter = wrap_add16(self.program_counter, 2);

        7
    }

    /// XRA reg
    pub fn xra_exclusive_or_accumulator(&mut self, register: RegisterSymbols) -> (cycles: u32)
        requires
            old(self)@.wf(),
            register.is_single(),
        ensures
            final(self)@ == spec_xra_register(old(self)@, register),
            final(self)@.wf(),
            cycles == (if register is MEMORY { 7u32 } else { 4u32 }),
    {
        let value = self.get_single_register(register);
        self.reg_a = self.reg_a ^ value;
        self.flags_on_accumulator();

        self.program_counter = wrap_add16(self.program_counter, 1);

        Self::get_cycles(register, 4, 7)
    }

    /// XRI d8
    pub fn xri_exclusive_or_immediate(&mut self) -> (cycles: u32)
        requires
            old(self)@.wf(),
        ensures
            final(self)@ == spec_xri(old(self)@),
            final(self)@.wf(),
            cycles == 7,
    {
        let immediate = self.get_next(1);
        self.reg_a = self.reg_a ^ immediate;
        self.flags_on_accumulator();

        self.program_counter = wrap_add16(self.program_counter, 2);

        7
    }

    /// ORA reg
    pub fn ora_inclusive_or_accumulator(&mut self, register: RegisterSymbols) -> (cycles: u32)
        requires
            old(self)@.wf(),
            register.is_single(),
        ensures
            final(self)@ == spec_ora_register(old(self)@, register),
            final(self)@.wf(),
            cycles == (if register is MEMORY { 7u32 } else { 4u32 }),
    {
        let value = self.get_single_register(register);
        self.reg_a = self.reg_a | value;
        self.flags_on_accumulator();

        self.program_counter = wrap_add16(self.program_counter, 1);

        Self::get_cycles(register, 4, 7)
    }

    /// ORI d8
    pub fn ori_inclusive_or_immediate(&mut self) -> (cycles: u32)
        requires
            old(self)@.wf(),
        ensures
            final(self)@ == spec_ori(old(self)@),
            final(self)@.wf(),
            cycles == 7,
    {
        let immediate = self.get_next(1);
        self.reg_a = self.reg_a | immediate;
        self.flags_on_accumulator();

        self.program_counter = wrap_add16(self.program_counter, 2);

        7
    }
}

} // verus!
