//! The architectural CPU state and its small helpers.
//!
//! Instruction implementations live in the submodules; each one is proved
//! equal to its transition function from `crate::model`.

pub mod bitwise;
pub mod io_ops;
pub mod jump;
pub mod load;
pub mod math;
pub mod stack;

use crate::model::{
    high8, low8, pair16, parity_even, spec_di, spec_ei, spec_hlt, w16, CpuView,
};
use vstd::prelude::*;

verus! {

/// The closed set of register selectors, with M for the byte at HL.
#[derive(Clone, Copy)]
pub enum RegisterSymbols {
    A,
    B,
    C,
    D,
    E,
    H,
    L,
    SP,
    PSW,
    MEMORY,
}

impl RegisterSymbols {
    /// Selectors valid for 8-bit operations (M reads or writes through HL).
    pub open spec fn is_single(self) -> bool {
        match self {
            RegisterSymbols::SP | RegisterSymbols::PSW => false,
            _ => true,
        }
    }

    /// Selectors valid for 16-bit pair operations with SP.
    pub open spec fn is_pair_sp(self) -> bool {
        match self {
            RegisterSymbols::B | RegisterSymbols::D | RegisterSymbols::H
                | RegisterSymbols::SP => true,
            _ => false,
        }
    }

    /// Selectors valid for PUSH and POP.
    pub open spec fn is_pair_psw(self) -> bool {
        match self {
            RegisterSymbols::B | RegisterSymbols::D | RegisterSymbols::H
                | RegisterSymbols::PSW => true,
            _ => false,
        }
    }

    /// Selectors valid for LDAX and STAX.
    pub open spec fn is_b_d(self) -> bool {
        match self {
            RegisterSymbols::B | RegisterSymbols::D => true,
            _ => false,
        }
    }
}

/// The five architectural flags plus the interrupt-enable bit.
pub struct Flags {
    pub zero: bool,
    pub sign: bool,
    pub parity: bool,
    pub carry: bool,
    pub auxiliary_carry: bool,
    pub interrupts_enabled: bool,
}

/// The whole machine: registers, flags, 64 KiB of memory and the
/// Space Invaders port hardware.
pub struct State {
    pub reg_a: u8,
    pub reg_b: u8,
    pub reg_c: u8,
    pub reg_d: u8,
    pub reg_e: u8,
    pub reg_h: u8,
    pub reg_l: u8,
    pub stack_pointer: u16,
    pub program_counter: u16,
    pub flags: Flags,
    pub memory: Vec<u8>,
    pub testing: bool,
    pub should_exit: bool,
    pub step_count: u16,
    pub enable_stepping: bool,
    pub in_ports: [u8; 8],
    pub out_ports: [u8; 8],
    pub shift_amount: u8,
}

impl View for State {
    type V = CpuView;

    open spec fn view(&self) -> CpuView {
        CpuView {
            a: self.reg_a,
            b: self.reg_b,
            c: self.reg_c,
            d: self.reg_d,
            e: self.reg_e,
            h: self.reg_h,
            l: self.reg_l,
            sp: self.stack_pointer,
            pc: self.program_counter,
            zero: self.flags.zero,
            sign: self.flags.sign,
            parity: self.flags.parity,
            carry: self.flags.carry,
            aux: self.flags.auxiliary_carry,
            ie: self.flags.interrupts_enabled,
            mem: self.memory@,
            testing: self.testing,
            should_exit: self.should_exit,
            step_count: self.step_count,
            enable_stepping: self.enable_stepping,
            in_ports: self.in_ports@,
            out_ports: self.out_ports@,
            shift_amount: self.shift_amount,
        }
    }
}

/// Add two 16-bit values modulo the address space.
pub(crate) fn wrap_add16(x: u16, y: u16) -> (r: u16)
    ensures
        r == w16(x + y),
{
    proof {
        if x + y >= 0x10000 {
            vstd::arithmetic::div_mod::lemma_mod_sub_multiples_vanish(x + y, 0x10000);
            vstd::arithmetic::div_mod::lemma_small_mod((x + y - 0x10000) as nat, 0x10000nat);
        } else {
            vstd::arithmetic::div_mod::lemma_small_mod((x + y) as nat, 0x10000nat);
        }
    }
    x.wrapping_add(y)
}

/// Subtract two 16-bit values modulo the address space.
pub(crate) fn wrap_sub16(x: u16, y: u16) -> (r: u16)
    ensures
        r == w16(x - y),
{
    proof {
        if x - y < 0 {
            vstd::arithmetic::div_mod::lemma_mod_add_multiples_vanish(x - y, 0x10000);
            vstd::arithmetic::div_mod::lemma_small_mod((x - y + 0x10000) as nat, 0x10000nat);
        } else {
            vstd::arithmetic::div_mod::lemma_small_mod((x - y) as nat, 0x10000nat);
        }
    }
    x.wrapping_sub(y)
}

impl State {
    /// A machine at power-on: everything zeroed, interrupts off, the given
    /// image as memory, and the input ports at their dip-switch defaults.
    pub fn new(mem: Vec<u8>, test: bool) -> (s: State)
        requires
            mem@.len() == 0x10000,
        ensures
            s@.wf(),
            s@.mem == mem@,
            s@.testing == test,
            s@.a == 0 && s@.b == 0 && s@.c == 0 && s@.d == 0 && s@.e == 0 && s@.h == 0
                && s@.l == 0,
            s@.sp == 0 && s@.pc == 0,
            !s@.zero && !s@.sign && !s@.parity && !s@.carry && !s@.aux && !s@.ie,
            !s@.should_exit,
            !s@.enable_stepping,
            s@.step_count == 1,
            s@.shift_amount == 0,
            s@.in_ports =~= seq![0b00001110u8, 0b00001000u8, 0u8, 0u8, 0u8, 0u8, 0u8, 0u8],
            s@.out_ports =~= seq![0u8, 0u8, 0u8, 0u8, 0u8, 0u8, 0u8, 0u8],
    {
        State {
            reg_a: 0,
            reg_b: 0,
            reg_c: 0,
            reg_d: 0,
            reg_e: 0,
            reg_h: 0,
            reg_l: 0,
            stack_pointer: 0,
            program_counter: 0,
            flags: Flags {
                zero: false,
                sign: false,
                parity: false,
                carry: false,
                auxiliary_carry: false,
                interrupts_enabled: false,
            },
            memory: mem,
            testing: test,
            should_exit: false,
            step_count: 1,
            enable_stepping: false,
            in_ports: [0b00001110, 0b00001000, 0, 0, 0, 0, 0, 0],
            out_ports: [0, 0, 0, 0, 0, 0, 0, 0],
            shift_amount: 0,
        }
    }

    /// The byte `offset` past the program counter, wrapping.
    pub(crate) fn get_next(&self, offset: u16) -> (r: u8)
        requires
            self@.wf(),
        ensures
            r == self@.rd(w16(self@.pc + offset)),
    {
        let addr = wrap_add16(self.program_counter, offset);
        self.memory[addr as usize]
    }

    /// The little-endian word after the opcode byte.
    pub(crate) fn get_next_word(&self) -> (r: u16)
        requires
            self@.wf(),
        ensures
            r == self@.imm16(),
    {
        let lo = self.get_next(1);
        let hi = self.get_next(2);
        Self::u8_pair_to_u16(lo, hi)
    }

    /// Pack the flags into the PSW byte: S Z 0 AC 0 P 1 CY.
    pub fn flags_to_u8(&self) -> (r: u8)
        ensures
            r == self@.pack_flags(),
    {
        let mut result: u8 = 0x02;
        if self.flags.sign {
            result += 0x80;
        }
        if self.flags.zero {
            result += 0x40;
        }
        if self.flags.auxiliary_carry {
            result += 0x10;
        }
        if self.flags.parity {
            result += 0x04;
        }
        if self.flags.carry {
            result += 0x01;
        }
        result
    }

    /// Load the flags from a PSW byte, ignoring the fixed bits.
    pub(crate) fn u8_to_flags(&mut self, value: u8)
        ensures
            final(self)@ == old(self)@.unpack_flags(value),
    {
        self.flags.sign = value / 0x80 % 2 == 1;
        self.flags.zero = value / 0x40 % 2 == 1;
        self.flags.auxiliary_carry = value / 0x10 % 2 == 1;
        self.flags.parity = value / 0x04 % 2 == 1;
        self.flags.carry = value % 2 == 1;
    }

    /// Whether the byte has an even number of one-bits.
    pub(crate) fn check_parity(value: u8) -> (r: bool)
        ensures
            r == parity_even(value),
    {
        let count: u8 = value % 2 + value / 2 % 2 + value / 4 % 2 + value / 8 % 2 + value / 16 % 2
            + value / 32 % 2 + value / 64 % 2 + value / 128 % 2;
        count % 2 == 0
    }

    /// Set zero, sign and parity from a result byte.
    pub(crate) fn set_szp(&mut self, r: u8)
        ensures
            final(self)@ == old(self)@.with_szp(r),
    {
        self.flags.zero = r == 0;
        self.flags.sign = r >= 0x80;
        self.flags.parity = Self::check_parity(r);
    }

    /// The address held in HL.
    pub(crate) fn hl_to_address(&self) -> (r: u16)
        ensures
            r == self@.hl(),
    {
        Self::u8_pair_to_u16(self.reg_l, self.reg_h)
    }

    /// Join a low and a high byte into a word.
    pub(crate) fn u8_pair_to_u16(low: u8, high: u8) -> (r: u16)
        ensures
            r == pair16(high, low),
    {
        (high as u16) * 256 + (low as u16)
    }

    pub(crate) fn set_bc_pair(&mut self, value: u16)
        ensures
            final(self)@ == (CpuView { b: high8(value), c: low8(value), ..old(self)@ }),
    {
        self.reg_b = (value / 256) as u8;
        self.reg_c = (value % 256) as u8;
    }

    pub(crate) fn set_de_pair(&mut self, value: u16)
        ensures
            final(self)@ == (CpuView { d: high8(value), e: low8(value), ..old(self)@ }),
    {
        self.reg_d = (value / 256) as u8;
        self.reg_e = (value % 256) as u8;
    }

    /// Read an 8-bit register, with M read from the byte at HL.
    pub(crate) fn get_single_register(&self, register: RegisterSymbols) -> (r: u8)
        requires
            self@.wf(),
            register.is_single(),
        ensures
            r == self@.read_reg(register),
    {
        match register {
            RegisterSymbols::B => self.reg_b,
            RegisterSymbols::C => self.reg_c,
            RegisterSymbols::D => self.reg_d,
            RegisterSymbols::E => self.reg_e,
            RegisterSymbols::H => self.reg_h,
            RegisterSymbols::L => self.reg_l,
            RegisterSymbols::A => self.reg_a,
            RegisterSymbols::MEMORY => {
                let address = self.hl_to_address();
                self.memory[address as usize]
            }
            _ => 0,
        }
    }

    /// Write an 8-bit register, with M written to the byte at HL.
    pub(crate) fn set_single_register(&mut self, register: RegisterSymbols, value: u8)
        requires
            old(self)@.wf(),
            register.is_single(),
        ensures
            final(self)@ == old(self)@.write_reg(register, value),
            final(self)@.wf(),
    {
        match register {
            RegisterSymbols::B => self.reg_b = value,
            RegisterSymbols::C => self.reg_c = value,
            RegisterSymbols::D => self.reg_d = value,
            RegisterSymbols::E => self.reg_e = value,
            RegisterSymbols::H => self.reg_h = value,
            RegisterSymbols::L => self.reg_l = value,
            RegisterSymbols::A => self.reg_a = value,
            RegisterSymbols::MEMORY => {
                let address = self.hl_to_address();
                self.memory[address as usize] = value;
            }
            _ => (),
        }
    }

    /// Pop a word: low byte at SP, high byte at SP+1, then SP moves up by 2.
    pub(crate) fn pop_stack(&mut self) -> (r: u16)
        requires
            old(self)@.wf(),
        ensures
            r == old(self)@.stack_top(),
            final(self)@ == old(self)@.dropped(),
            final(self)@.wf(),
    {
        let lo = self.memory[self.stack_pointer as usize];
        let hi_addr = wrap_add16(self.stack_pointer, 1);
        let hi = self.memory[hi_addr as usize];
        self.stack_pointer = wrap_add16(self.stack_pointer, 2);
        Self::u8_pair_to_u16(lo, hi)
    }

    /// Push a word: high byte at SP-1, low byte at SP-2, then SP moves down by 2.
    pub(crate) fn push_stack(&mut self, value: u16)
        requires
            old(self)@.wf(),
        ensures
            final(self)@ == old(self)@.push16(value),
            final(self)@.wf(),
    {
        let hi_addr = wrap_sub16(self.stack_pointer, 1);
        let lo_addr = wrap_sub16(self.stack_pointer, 2);
        self.memory[hi_addr as usize] = (value / 256) as u8;
        self.memory[lo_addr as usize] = (value % 256) as u8;
        self.stack_pointer = lo_addr;
    }

    /// Write a 16-bit pair, with SP as the fourth choice.
    pub(crate) fn set_pair_sp_register(&mut self, register: RegisterSymbols, value: u16)
        requires
            old(self)@.wf(),
            register.is_pair_sp(),
        ensures
            final(self)@ == old(self)@.write_pair(register, value),
            final(self)@.wf(),
    {
        match register {
            RegisterSymbols::B => self.set_bc_pair(value),
            RegisterSymbols::D => self.set_de_pair(value),
            RegisterSymbols::H => self.set_hl_pair(value),
            RegisterSymbols::SP => self.stack_pointer = value,
            _ => (),
        }
    }

    /// The cycle count of an instruction: `high` when the operand is M,
    /// `low` otherwise.
    pub(crate) fn get_cycles(register: RegisterSymbols, low: u32, high: u32) -> (r: u32)
        ensures
            r == (if register is MEMORY { high } else { low }),
    {
        match register {
            RegisterSymbols::MEMORY => high,
            _ => low,
        }
    }

    /// HLT: request exit and stop fetching; PC stays put.
    pub fn hlt_halt(&mut self) -> (cycles: u32)
        ensures
            final(self)@ == spec_hlt(old(self)@),
            cycles == 7,
    {
        self.should_exit = true;

        7
    }

    /// DI: interrupts off.
    pub fn di_disable_interrupts(&mut self) -> (cycles: u32)
        requires
            old(self)@.wf(),
        ensures
            final(self)@ == spec_di(old(self)@),
            final(self)@.wf(),
            cycles == 4,
    {
        self.flags.interrupts_enabled = false;
        self.program_counter = wrap_add16(self.program_counter, 1);

        4
    }

    /// EI: interrupts on.
    pub fn ei_enable_interrupts(&mut self) -> (cycles: u32)
        requires
            old(self)@.wf(),
        ensures
            final(self)@ == spec_ei(old(self)@),
            final(self)@.wf(),
            cycles == 4,
    {
        self.flags.interrupts_enabled = true;
        self.program_counter = wrap_add16(self.program_counter, 1);

        4
    }

    /// The bytes a CP/M-style BDOS print call at PC=5 would emit: for
    /// C=9 the text at DE up to (not holding) the first `$`, for C=2 the
    /// single character in E; nothing otherwise. Printing them is the
    /// host's business.
    pub fn test_print_output(&self) -> (r: Option<Vec<u8>>)
        requires
            self@.wf(),
        ensures
            !(self@.pc == 5 && (self@.c == 9 || self@.c == 2)) ==> r is None,
            self@.pc == 5 && self@.c == 2 ==> (r matches Some(v) && v@ =~= seq![self@.e]),
            self@.pc == 5 && self@.c == 9 ==> (r matches Some(v) && {
                &&& v@.len() <= 0x10000
                &&& forall|i: int|
                    0 <= i < v@.len() ==> v@[i] == self@.rd(w16(self@.de() + i)) && v@[i] != 0x24
                &&& (v@.len() < 0x10000 ==> self@.rd(w16(self@.de() + v@.len())) == 0x24)
            }),
    {
        if self.program_counter == 5 {
            if self.reg_c == 9 {
                let address = Self::u8_pair_to_u16(self.reg_e, self.reg_d);
                let mut out: Vec<u8> = Vec::new();
                let mut ind: usize = 0;
                while ind < 0x10000 && self.memory[wrap_add16(address, ind as u16) as usize]
                    != 0x24
                    invariant
                        self@.wf(),
                        address == self@.de(),
                        ind <= 0x10000,
                        out@.len() == ind,
                        forall|i: int|
                            0 <= i < ind ==> out@[i] == self@.rd(w16(self@.de() + i)) && out@[i]
                                != 0x24,
                    decreases 0x10000 - ind,
                {
                    let byte = self.memory[wrap_add16(address, ind as u16) as usize];
                    out.push(byte);
                    ind += 1;
                }
                Some(out)
            } else if self.reg_c == 2 {
                let mut out: Vec<u8> = Vec::new();
                out.push(self.reg_e);
                Some(out)
            } else {
                None
            }
        } else {
            None
        }
    }

    /// Lay memory out for a CP/M-style diagnostic image: the image slides
    /// up to 0x100, a jump to it lands at 0x0000, the BDOS hook at 0x0005
    /// becomes RET, and the byte the image keeps its stack page in is set
    /// to match the move.
    pub fn prepare_test_boot(&mut self)
        requires
            old(self)@.wf(),
        ensures
            final(self)@.wf(),
            (CpuView { mem: old(self)@.mem, ..final(self)@ }) == old(self)@,
            final(self)@.rd(0) == 0xc3,
            final(self)@.rd(1) == 0,
            final(self)@.rd(2) == 1,
            final(self)@.rd(5) == 0xc9,
            final(self)@.rd(0x170) == 7,
            forall|a: u16|
                !(a == 0 || a == 1 || a == 2 || a == 5 || a == 0x170) ==> final(self)@.rd(a)
                    == old(self)@.rd(w16(a - 0x100)),
    {
        let mut rotated: Vec<u8> = Vec::new();
        let mut i: usize = 0;
        while i < 0x10000
            invariant
                self@.wf(),
                i <= 0x10000,
                rotated@.len() == i,
                forall|k: int| 0 <= k < i ==> rotated@[k] == self@.mem[(k + 0xff00) % 0x10000],
            decreases 0x10000 - i,
        {
            let src = (i + 0xff00) % 0x10000;
            rotated.push(self.memory[src]);
            i += 1;
        }
        self.memory = rotated;

        self.memory[0x00] = 0xc3;
        self.memory[0x01] = 0x00;
        self.memory[0x02] = 0x01;

        self.memory[0x170] = 0x07;

        self.memory[0x05] = 0xc9;

        proof {
            assert forall|a: u16| !(a == 0 || a == 1 || a == 2 || a == 5 || a == 0x170)
                implies self@.rd(a) == old(self)@.rd(w16(a - 0x100)) by {
                vstd::arithmetic::div_mod::lemma_mod_multiples_vanish(1, a - 0x100, 0x10000);
            }
        }
    }

    pub(crate) fn set_hl_pair(&mut self, value: u16)
        ensures
            final(self)@ == (CpuView { h: high8(value), l: low8(value), ..old(self)@ }),
    {
        self.reg_h = (value / 256) as u8;
        self.reg_l = (value % 256) as u8;
    }
}

} // verus!
