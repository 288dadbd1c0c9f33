//! Moves, loads and stores.

use crate::i8080::{wrap_add16, RegisterSymbols, State};
use crate::model::{
    spec_lda, spec_ldax, spec_lhld, spec_lxi, spec_mov, spec_mvi, spec_shld, spec_sta, spec_stax,
};
use vstd::prelude::*;

verus! {

impl State {
    /// Read BC or DE as an indirect address.
    pub(crate) fn get_pair_b_d_register(&self, register: RegisterSymbols) -> (r: u16)
        requires
            register.is_b_d(),
        ensures
            r == self@.read_pair(register),
    {
        match register {
            RegisterSymbols::B => Self::u8_pair_to_u16(self.reg_c, self.reg_b),
            RegisterSymbols::D => Self::u8_pair_to_u16(self.reg_e, self.reg_d),
            _ => 0,
        }
    }

    /// MOV reg,reg: copy a register, with M through HL; cost rises when
    /// memory is touched.
    pub fn mov_register_move(
        &mut self,
        register_to: RegisterSymbols,
        register_from: RegisterSymbols,
    ) -> (cycles: u32)
        requires
            old(self)@.wf(),
            register_to.is_single(),
            register_from.is_single(),
        ensures
            final(self)@ == spec_mov(old(self)@, register_to, register_from),
            final(self)@.wf(),
            cycles == (if register_to is MEMORY || register_from is MEMORY {
                7u32
            } else {
                5u32
            }),
    {
        let value = self.get_single_register(register_from);
        self.set_single_register(register_to, value);

        self.program_counter = wrap_add16(self.program_counter, 1);
        let mut cycles: u32 = 5;
        if matches!(register_to, RegisterSymbols::MEMORY)
            || matches!(register_from, RegisterSymbols::MEMORY) {
            cycles += 2;
        }

        cycles
    }

    /// MVI reg,d8: write the immediate to a register or M.
    pub fn mvi_immediate_move(&mut self, register: RegisterSymbols) -> (cycles: u32)
        requires
            old(self)@.wf(),
            register.is_single(),
        ensures
            final(self)@ == spec_mvi(old(self)@, register),
            final(self)@.wf(),
            cycles == (if register is MEMORY { 10u32 } else { 7u32 }),
    {
        let value = self.get_next(1);
        self.set_single_register(register, value);

        self.program_counter = wrap_add16(self.program_counter, 2);

        Self::get_cycles(register, 7, 10)
    }

    /// LDA adr: A from the addressed byte.
    pub fn lda_load_accumulator_direct(&mut self) -> (cycles: u32)
        requires
            old(self)@.wf(),
        ensures
            final(self)@ == spec_lda(old(self)@),
            final(self)@.wf(),
            cycles == 13,
    {
        let address = self.get_next_word();
        self.reg_a = self.memory[address as usize];

        self.program_counter = wrap_add16(self.program_counter, 3);

        13
    }

    /// LDAX reg: A from the byte addressed by BC or DE.
    pub fn ldax_load_accumulator_indirect(&mut self, register: RegisterSymbols) -> (cycles: u32)
        requires
            old(self)@.wf(),
            register.is_b_d(),
        ensures
            final(self)@ == spec_ldax(old(self)@, register),
            final(self)@.wf(),
            cycles == 7,
    {
        let address = self.get_pair_b_d_register(register);
        self.reg_a = self.memory[address as usize];

        self.program_counter = wrap_add16(self.program_counter, 1);

        7
    }

    /// LXI register,d16: little-endian load into a pair or SP.
    pub fn lxi_load_register_pair_immediate(&mut self, register: RegisterSymbols) -> (cycles: u32)
        requires
            old(self)@.wf(),
            register.is_pair_sp(),
        ensures
            final(self)@ == spec_lxi(old(self)@, register),
            final(self)@.wf(),
            cycles == 10,
    {
        let value = self.get_next_word();
        self.set_pair_sp_register(register, value);

        self.program_counter = wrap_add16(self.program_counter, 3);

        10
    }

    /// LHLD adr: L from the addressed byte, H from its successor.
    pub fn lhld_load_hl_direct(&mut self) -> (cycles: u32)
        requires
            old(self)@.wf(),
        ensures
            final(self)@ == spec_lhld(old(self)@),
            final(self)@.wf(),
            cycles == 16,
    {
        let address = self.get_next_word();
        let high_addr = wrap_add16(address, 1);

        self.reg_h = self.memory[high_addr as usize];
        self.reg_l = self.memory[address as usize];

        self.program_counter = wrap_add16(self.program_counter, 3);

        16
    }

    /// STA adr: A to the addressed byte.
    pub fn sta_store_accumulator(&mut self) -> (cycles: u32)
        requires
            old(self)@.wf(),
        ensures
            final(self)@ == spec_sta(old(self)@),
            final(self)@.wf(),
            cycles == 13,
    {
        let address = self.get_next_word();
        self.memory[address as usize] = self.reg_a;

        self.program_counter = wrap_add16(self.program_counter, 3);

        13
    }

    /// STAX reg: A to the byte addressed by BC or DE.
    pub fn stax_store_accumulator_indirect(&mut self, register: RegisterSymbols) -> (cycles: u32)
        requires
            old(self)@.wf(),
            register.is_b_d(),
        ensures
            final(self)@ == spec_stax(old(self)@, register),
            final(self)@.wf(),
            cycles == 7,
    {
        let address = self.get_pair_b_d_register(register);
        self.memory[address as usize] = self.reg_a;

        self.program_counter = wrap_add16(self.program_counter, 1);

        7
    }

    /// SHLD adr: L to the addressed byte, H to its successor.
    pub fn shld_store_hl_direct(&mut self) -> (cycles: u32)
        requires
            old(self)@.wf(),
        ensures
            final(self)@ == spec_shld(old(self)@),
            final(self)@.wf(),
            cycles == 16,
    {
        let address = self.get_next_word();
        let high_addr = wrap_add16(address, 1);

        self.memory[high_addr as usize] = self.reg_h;
        self.memory[address as usize] = self.reg_l;

        self.program_counter = wrap_add16(self.program_counter, 3);

        16
    }
}

} // verus!
