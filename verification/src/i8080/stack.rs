//! Stack and exchange instructions.

use crate::i8080::{wrap_add16, RegisterSymbols, State};
use crate::model::{
    high8, low8, spec_pchl, spec_pop, spec_push, spec_sphl, spec_xchg, spec_xthl, CpuView,
};
use vstd::prelude::*;

verus! {

impl State {
    /// A from the high byte, flags from the low byte of a popped PSW.
    fn set_psw_pair(&mut self, value: u16)
        ensures
            final(self)@ == (CpuView {
                a: high8(value),
                ..old(self)@.unpack_flags(low8(value))
            }),
    {
        self.u8_to_flags((value % 256) as u8);
        self.reg_a = (value / 256) as u8;
    }

    /// XCHG: HL and DE trade places.
    pub fn xchg_exchange_registers(&mut self) -> (cycles: u32)
        requires
            old(self)@.wf(),
        ensures
            final(self)@ == spec_xchg(old(self)@),
            final(self)@.wf(),
            cycles == 5,
    {
        let tmp_d = self.reg_d;
        let tmp_e = self.reg_e;
        self.reg_d = self.reg_h;
        self.reg_e = self.reg_l;
        self.reg_h = tmp_d;
        self.reg_l = tmp_e;

        self.program_counter = wrap_add16(self.program_counter, 1);

        5
    }

    /// SPHL: SP from HL.
    pub fn sphl_load_sp_from_hl(&mut self) -> (cycles: u32)
        requires
            old(self)@.wf(),
        ensures
            final(self)@ == spec_sphl(old(self)@),
            final(self)@.wf(),
            cycles == 5,
    {
        self.stack_pointer = self.hl_to_address();
        self.program_counter = wrap_add16(self.program_counter, 1);

        5
    }

    /// XTHL: HL and the word at the top of the stack trade places.
    pub fn xthl_exchange_top_stack_with_hl(&mut self) -> (cycles: u32)
        requires
            old(self)@.wf(),
        ensures
            final(self)@ == spec_xthl(old(self)@),
            final(self)@.wf(),
            cycles == 18,
    {
        let high_addr = wrap_add16(self.stack_pointer, 1);
        let new_h = self.memory[high_addr as usize];
        let new_l = self.memory[self.stack_pointer as usize];
        self.memory[high_addr as usize] = self.reg_h;
        self.memory[self.stack_pointer as usize] = self.reg_l;
        self.reg_h = new_h;
        self.reg_l = new_l;

        self.program_counter = wrap_add16(self.program_counter, 1);

        18
    }

    /// PCHL: PC from HL, with no increment.
    pub fn pchl_load_pc_from_hl(&mut self) -> (cycles: u32)
        requires
            old(self)@.wf(),
        ensures
            final(self)@ == spec_pchl(old(self)@),
            final(self)@.wf(),
            cycles == 5,
    {
        self.program_counter = self.hl_to_address();

        5
    }

    /// PUSH reg: a pair on the stack; for PSW, A over the packed flags.
    pub fn push_add_to_stack(&mut self, register: RegisterSymbols) -> (cycles: u32)
        requires
            old(self)@.wf(),
            register.is_pair_psw(),
        ensures
            final(self)@ == spec_push(old(self)@, register),
            final(self)@.wf(),
            cycles == 11,
    {
        let value = match register {
            RegisterSymbols::B => Self::u8_pair_to_u16(self.reg_c, self.reg_b),
            RegisterSymbols::D => Self::u8_pair_to_u16(self.reg_e, self.reg_d),
            RegisterSymbols::H => Self::u8_pair_to_u16(self.reg_l, self.reg_h),
            RegisterSymbols::PSW => {
                let u8flags = self.flags_to_u8();
                Self::u8_pair_to_u16(u8flags, self.reg_a)
            }
            _ => 0,
        };
        self.push_stack(value);

        self.program_counter = wrap_add16(self.program_counter, 1);

        11
    }

    /// POP reg: a pair off the stack; for PSW, A and the flags, fixed bits
    /// ignored.
    pub fn pop_remove_from_stack(&mut self, register: RegisterSymbols) -> (cycles: u32)
        requires
            old(self)@.wf(),
            register.is_pair_psw(),
        ensures
            final(self)@ == spec_pop(old(self)@, register),
            final(self)@.wf(),
            cycles == 10,
    {
        let result = self.pop_stack();
        match register {
            RegisterSymbols::B => self.set_bc_pair(result),
            RegisterSymbols::D => self.set_de_pair(result),
            RegisterSymbols::H => self.set_hl_pair(result),
            RegisterSymbols::PSW => self.set_psw_pair(result),
            _ => (),
        }

        self.program_counter = wrap_add16(self.program_counter, 1);

        10
    }
}

} // verus!
