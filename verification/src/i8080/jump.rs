//! Control flow: jumps, calls and returns, plain and conditional.

use crate::i8080::{wrap_add16, State};
use crate::model::{spec_call, spec_call_if, spec_jmp, spec_jump_if, spec_ret, spec_ret_if};
use vstd::prelude::*;

verus! {

impl State {
    /// JMP adr
    pub fn jmp_jump(&mut self) -> (cycles: u32)
        requires
            old(self)@.wf(),
        ensures
            final(self)@ == spec_jmp(old(self)@),
            final(self)@.wf(),
            cycles == 10,
    {
        let address = self.get_next_word();
        self.program_counter = address;

        10
    }

    /// Take the jump when the condition holds, else skip the operand; the
    /// cost is the same either way.
    fn jump_if(&mut self, should: bool) -> (cycles: u32)
        requires
            old(self)@.wf(),
        ensures
            final(self)@ == spec_jump_if(old(self)@, should),
            final(self)@.wf(),
            cycles == 10,
    {
        if should {
            self.jmp_jump()
        } else {
            self.program_counter = wrap_add16(self.program_counter, 3);
            10
        }
    }

    /// JC adr
    pub fn jc_jump_if_carry(&mut self) -> (cycles: u32)
        requires
            old(self)@.wf(),
        ensures
            final(self)@ == spec_jump_if(old(self)@, old(self)@.carry),
            final(self)@.wf(),
            cycles == 10,
    {
        let cond = self.flags.carry;
        self.jump_if(cond)
    }

    /// JNC adr
    pub fn jnc_jump_if_no_carry(&mut self) -> (cycles: u32)
        requires
            old(self)@.wf(),
        ensures
            final(self)@ == spec_jump_if(old(self)@, !old(self)@.carry),
            final(self)@.wf(),
            cycles == 10,
    {
        let cond = !self.flags.carry;
        self.jump_if(cond)
    }

    /// JP adr
    pub fn jp_jump_if_plus(&mut self) -> (cycles: u32)
        requires
            old(self)@.wf(),
        ensures
            final(self)@ == spec_jump_if(old(self)@, !old(self)@.sign),
            final(self)@.wf(),
            cycles == 10,
    {
        let cond = !self.flags.sign;
        self.jump_if(cond)
    }

    /// JM adr
    pub fn jm_jump_if_minus(&mut self) -> (cycles: u32)
        requires
            old(self)@.wf(),
        ensures
            final(self)@ == spec_jump_if(old(self)@, old(self)@.sign),
            final(self)@.wf(),
            cycles == 10,
    {
        let cond = self.flags.sign;
        self.jump_if(cond)
    }

    /// JZ adr
    pub fn jz_jump_if_zero(&mut self) -> (cycles: u32)
        requires
            old(self)@.wf(),
        ensures
            final(self)@ == spec_jump_if(old(self)@, old(self)@.zero),
            final(self)@.wf(),
            cycles == 10,
    {
        let cond = self.flags.zero;
        self.jump_if(cond)
    }

    /// JNZ adr
    pub fn jnz_jump_if_not_zero(&mut self) -> (cycles: u32)
        requires
            old(self)@.wf(),
        ensures
            final(self)@ == spec_jump_if(old(self)@, !old(self)@.zero),
            final(self)@.wf(),
            cycles == 10,
    {
        let cond = !self.flags.zero;
        self.jump_if(cond)
    }

    /// JPE adr
    pub fn jpe_jump_if_parity_even(&mut self) -> (cycles: u32)
        requires
            old(self)@.wf(),
        ensures
            final(self)@ == spec_jump_if(old(self)@, old(self)@.parity),
            final(self)@.wf(),
            cycles == 10,
    {
        let cond = self.flags.parity;
        self.jump_if(cond)
    }

    /// JPO adr
    pub fn jpo_jump_if_parity_odd(&mut self) -> (cycles: u32)
        requires
            old(self)@.wf(),
        ensures
            final(self)@ == spec_jump_if(old(self)@, !old(self)@.parity),
            final(self)@.wf(),
            cycles == 10,
    {
        let cond = !self.flags.parity;
        self.jump_if(cond)
    }

    /// CALL adr: push the return address, jump to the operand.
    pub fn call_function_call(&mut self) -> (cycles: u32)
        requires
            old(self)@.wf(),
        ensures
            final(self)@ == spec_call(old(self)@),
            final(self)@.wf(),
            cycles == 17,
    {
        let call_to = self.get_next_word();
        let ret = wrap_add16(self.program_counter, 3);

        self.push_stack(ret);

        self.program_counter = call_to;

        17
    }

    /// Call when the condition holds (full CALL cost), else skip the
    /// operand at the lower cost.
    fn call_if(&mut self, should: bool) -> (cycles: u32)
        requires
            old(self)@.wf(),
        ensures
            final(self)@ == spec_call_if(old(self)@, should),
            final(self)@.wf(),
            cycles == (if should { 17u32 } else { 11u32 }),
    {
        if should {
            self.call_function_call()
        } else {
            self.program_counter = wrap_add16(self.program_counter, 3);
            11
        }
    }

    /// CC adr
    pub fn cc_call_if_carry(&mut self) -> (cycles: u32)
        requires
            old(self)@.wf(),
        ensures
            final(self)@ == spec_call_if(old(self)@, old(self)@.carry),
            final(self)@.wf(),
            cycles == (if old(self)@.carry { 17u32 } else { 11u32 }),
    {
        let cond = self.flags.carry;
        self.call_if(cond)
    }

    /// CNC adr
    pub fn cnc_call_if_no_carry(&mut self) -> (cycles: u32)
        requires
            old(self)@.wf(),
        ensures
            final(self)@ == spec_call_if(old(self)@, !old(self)@.carry),
            final(self)@.wf(),
            cycles == (if !old(self)@.carry { 17u32 } else { 11u32 }),
    {
        let cond = !self.flags.carry;
        self.call_if(cond)
    }

    /// CP adr
    pub fn cp_call_if_plus(&mut self) -> (cycles: u32)
        requires
            old(self)@.wf(),
        ensures
            final(self)@ == spec_call_if(old(self)@, !old(self)@.sign),
            final(self)@.wf(),
            cycles == (if !old(self)@.sign { 17u32 } else { 11u32 }),
    {
        let cond = !self.flags.sign;
        self.call_if(cond)
    }

    /// CM adr
    pub fn cm_call_if_minus(&mut self) -> (cycles: u32)
        requires
            old(self)@.wf(),
        ensures
            final(self)@ == spec_call_if(old(self)@, old(self)@.sign),
            final(self)@.wf(),
            cycles == (if old(self)@.sign { 17u32 } else { 11u32 }),
    {
        let cond = self.flags.sign;
        self.call_if(cond)
    }

    /// CZ adr
    pub fn cz_call_if_zero(&mut self) -> (cycles: u32)
        requires
            old(self)@.wf(),
        ensures
            final(self)@ == spec_call_if(old(self)@, old(self)@.zero),
            final(self)@.wf(),
            cycles == (if old(self)@.zero { 17u32 } else { 11u32 }),
    {
        let cond = self.flags.zero;
        self.call_if(cond)
    }

    /// CNZ adr
    pub fn cnz_call_if_not_zero(&mut self) -> (cycles: u32)
        requires
            old(self)@.wf(),
        ensures
            final(self)@ == spec_call_if(old(self)@, !old(self)@.zero),
            final(self)@.wf(),
            cycles == (if !old(self)@.zero { 17u32 } else { 11u32 }),
    {
        let cond = !self.flags.zero;
        self.call_if(cond)
    }

    /// CPE adr
    pub fn cpe_call_if_parity_even(&mut self) -> (cycles: u32)
        requires
            old(self)@.wf(),
        ensures
            final(self)@ == spec_call_if(old(self)@, old(self)@.parity),
            final(self)@.wf(),
            cycles == (if old(self)@.parity { 17u32 } else { 11u32 }),
    {
        let cond = self.flags.parity;
        self.call_if(cond)
    }

    /// CPO adr
    pub fn cpo_call_if_parity_odd(&mut self) -> (cycles: u32)
        requires
            old(self)@.wf(),
        ensures
            final(self)@ == spec_call_if(old(self)@, !old(self)@.parity),
            final(self)@.wf(),
            cycles == (if !old(self)@.parity { 17u32 } else { 11u32 }),
    {
        let cond = !self.flags.parity;
        self.call_if(cond)
    }

    /// RET: PC from the top of the stack.
    pub fn ret_function_return(&mut self) -> (cycles: u32)
        requires
            old(self)@.wf(),
        ensures
            final(self)@ == spec_ret(old(self)@),
            final(self)@.wf(),
            cycles == 10,
    {
        self.program_counter = self.pop_stack();

        10
    }

    /// Return when the condition holds (one cycle over RET), else fall
    /// through at the lower cost.
    fn return_if(&mut self, should: bool) -> (cycles: u32)
        requires
            old(self)@.wf(),
        ensures
            final(self)@ == spec_ret_if(old(self)@, should),
            final(self)@.wf(),
            cycles == (if should { 11u32 } else { 5u32 }),
    {
        if should {
            self.ret_function_return() + 1
        } else {
            self.program_counter = wrap_add16(self.program_counter, 1);
            5
        }
    }

    /// RC
    pub fn rc_return_if_carry(&mut self) -> (cycles: u32)
        requires
            old(self)@.wf(),
        ensures
            final(self)@ == spec_ret_if(old(self)@, old(self)@.carry),
            final(self)@.wf(),
            cycles == (if old(self)@.carry { 11u32 } else { 5u32 }),
    {
        let cond = self.flags.carry;
        self.return_if(cond)
    }

    /// RNC
    pub fn rnc_return_if_no_carry(&mut self) -> (cycles: u32)
        requires
            old(self)@.wf(),
        ensures
            final(self)@ == spec_ret_if(old(self)@, !old(self)@.carry),
            final(self)@.wf(),
            cycles == (if !old(self)@.carry { 11u32 } else { 5u32 }),
    {
        let cond = !self.flags.carry;
        self.return_if(cond)
    }

    /// RP
    pub fn rp_return_if_plus(&mut self) -> (cycles: u32)
        requires
            old(self)@.wf(),
        ensures
            final(self)@ == spec_ret_if(old(self)@, !old(self)@.sign),
            final(self)@.wf(),
            cycles == (if !old(self)@.sign { 11u32 } else { 5u32 }),
    {
        let cond = !self.flags.sign;
        self.return_if(cond)
    }

    /// RM
    pub fn rm_return_if_minus(&mut self) -> (cycles: u32)
        requires
            old(self)@.wf(),
        ensures
            final(self)@ == spec_ret_if(old(self)@, old(self)@.sign),
            final(self)@.wf(),
            cycles == (if old(self)@.sign { 11u32 } else { 5u32 }),
    {
        let cond = self.flags.sign;
        self.return_if(cond)
    }

    /// RZ
    pub fn rz_return_if_zero(&mut self) -> (cycles: u32)
        requires
            old(self)@.wf(),
        ensures
            final(self)@ == spec_ret_if(old(self)@, old(self)@.zero),
            final(self)@.wf(),
            cycles == (if old(self)@.zero { 11u32 } else { 5u32 }),
    {
        let cond = self.flags.zero;
        self.return_if(cond)
    }

    /// RNZ
    pub fn rnz_return_if_not_zero(&mut self) -> (cycles: u32)
        requires
            old(self)@.wf(),
        ensures
            final(self)@ == spec_ret_if(old(self)@, !old(self)@.zero),
            final(self)@.wf(),
            cycles == (if !old(self)@.zero { 11u32 } else { 5u32 }),
    {
        let cond = !self.flags.zero;
        self.return_if(cond)
    }

    /// RPE
    pub fn rpe_return_if_parity_even(&mut self) -> (cycles: u32)
        requires
            old(self)@.wf(),
        ensures
            final(self)@ == spec_ret_if(old(self)@, old(self)@.parity),
            final(self)@.wf(),
            cycles == (if old(self)@.parity { 11u32 } else { 5u32 }),
    {
        let cond = self.flags.parity;
        self.return_if(cond)
    }

    /// RPO
    pub fn rpo_return_if_parity_odd(&mut self) -> (cycles: u32)
        requires
            old(self)@.wf(),
        ensures
            final(self)@ == spec_ret_if(old(self)@, !old(self)@.parity),
            final(self)@.wf(),
            cycles == (if !old(self)@.parity { 11u32 } else { 5u32 }),
    {
        let cond = !self.flags.parity;
        self.return_if(cond)
    }
}

} // verus!
