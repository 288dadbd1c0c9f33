//! Port instructions, RST and interrupt injection.

use crate::i8080::{wrap_add16, State};
use crate::model::{pw2, spec_call_interrupt, spec_in, spec_out, spec_rst, CpuView};
use vstd::prelude::*;

verus! {

impl State {
    /// The power of two matching a shift offset.
    fn power_of_two(sh: u8) -> (r: u8)
        requires
            sh < 8,
        ensures
            r == pw2(sh),
            r <= 128,
    {
        match sh {
            0u8 => 1,
            1u8 => 2,
            2u8 => 4,
            3u8 => 8,
            4u8 => 16,
            5u8 => 32,
            6u8 => 64,
            _ => 128,
        }
    }

    /// OUT d8: dispatch A to the Space Invaders output map. Port 2 sets
    /// the shift offset, port 4 latches the shifted byte into input
    /// port 3, ports 3 and 5 (sound) and 6 (watchdog) are only recorded.
    /// Any other port is fatal on this hardware, so it is ruled out here.
    pub fn out_send_output(&mut self) -> (cycles: u32)
        requires
            old(self)@.wf(),
            2 <= old(self)@.imm8() <= 6,
        ensures
            final(self)@ == spec_out(old(self)@),
            final(self)@.wf(),
            cycles == 10,
    {
        let port = self.get_next(1);
        self.out_ports[port as usize] = self.reg_a;

        if port == 2 {
            self.shift_amount = self.reg_a % 8;
        } else if port == 4 {
            let power = Self::power_of_two(self.shift_amount);
            proof {
                vstd::arithmetic::mul::lemma_mul_upper_bound(
                    self.reg_a as int, 255, power as int, 128);
            }
            let shifted = ((self.reg_a as u16 * power as u16) % 256) as u8;
            self.in_ports[3] = shifted;
        }

        self.program_counter = wrap_add16(self.program_counter, 2);

        10
    }

    /// IN d8: A from the port's shadow byte.
    pub fn in_update_input(&mut self) -> (cycles: u32)
        requires
            old(self)@.wf(),
            old(self)@.imm8() < 8,
        ensures
            final(self)@ == spec_in(old(self)@),
            final(self)@.wf(),
            cycles == 10,
    {
        let port = self.get_next(1);

        self.reg_a = self.in_ports[port as usize];
        self.program_counter = wrap_add16(self.program_counter, 2);

        10
    }

    /// RST n: push the address after the instruction, jump to the vector.
    pub fn rst_reset(&mut self, code: u8) -> (cycles: u32)
        requires
            old(self)@.wf(),
            code <= 7,
        ensures
            final(self)@ == spec_rst(old(self)@, code),
            final(self)@.wf(),
            cycles == 11,
    {
        let rst_loc = (code as u16) * 8;

        let ret = wrap_add16(self.program_counter, 1);
        self.push_stack(ret);
        self.program_counter = rst_loc;

        11
    }

    /// Inject an interrupt between instructions: a no-op while interrupts
    /// are off; otherwise they turn off, the current PC is pushed as it
    /// stands (it already addresses the next opcode), and PC jumps to the
    /// vector.
    pub fn call_interrupt(&mut self, code: u8)
        requires
            old(self)@.wf(),
            code <= 7,
        ensures
            final(self)@ == spec_call_interrupt(old(self)@, code),
            final(self)@.wf(),
    {
        if self.flags.interrupts_enabled {
            self.flags.interrupts_enabled = false;
            let ret = self.program_counter;
            self.push_stack(ret);
            self.program_counter = (code as u16) * 8;
        }
    }

    /// Turn single-stepping on, with one step granted.
    pub fn start_debug_stepping(&mut self)
        ensures
            final(self)@ == (CpuView { enable_stepping: true, step_count: 1, ..old(self)@ }),
    {
        self.enable_stepping = true;
        self.step_count = 1;
    }

    /// Turn single-stepping off.
    pub fn stop_debug_stepping(&mut self)
        ensures
            final(self)@ == (CpuView { enable_stepping: false, ..old(self)@ }),
    {
        self.enable_stepping = false;
    }
}

} // verus!
