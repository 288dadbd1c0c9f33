//! The mathematical model of the 8080: a ghost record of the architectural
//! state and one spec-level transition function per instruction.
//!
//! Addresses wrap at 16 bits, the accumulator and the registers at 8 bits.
//! All arithmetic is stated over `int` with `%`, so the flag definitions can
//! be read off directly: sign is bit 7 of the result, zero tests the low
//! 8 bits, parity counts one-bits, carry is the bit beyond the result width.

use crate::i8080::RegisterSymbols;
use vstd::prelude::*;

verus! {

/// Ghost image of the whole CPU: registers, flags, memory and ports.
pub ghost struct CpuView {
    pub a: u8,
    pub b: u8,
    pub c: u8,
    pub d: u8,
    pub e: u8,
    pub h: u8,
    pub l: u8,
    pub sp: u16,
    pub pc: u16,
    pub zero: bool,
    pub sign: bool,
    pub parity: bool,
    pub carry: bool,
    pub aux: bool,
    pub ie: bool,
    pub mem: Seq<u8>,
    pub testing: bool,
    pub should_exit: bool,
    pub step_count: u16,
    pub enable_stepping: bool,
    pub in_ports: Seq<u8>,
    pub out_ports: Seq<u8>,
    pub shift_amount: u8,
}

/// Reduce an integer to the 16-bit address space.
pub open spec fn w16(x: int) -> u16 {
    (x % 0x10000) as u16
}

/// Join a high and a low byte into a 16-bit word.
pub open spec fn pair16(hi: u8, lo: u8) -> u16 {
    (hi * 256 + lo) as u16
}

/// High byte of a 16-bit word.
pub open spec fn high8(v: u16) -> u8 {
    (v / 256) as u8
}

/// Low byte of a 16-bit word.
pub open spec fn low8(v: u16) -> u8 {
    (v % 256) as u8
}

/// Number of one-bits in a byte.
pub open spec fn bit_count(v: u8) -> int {
    (v as int) % 2 + (v as int) / 2 % 2 + (v as int) / 4 % 2 + (v as int) / 8 % 2
        + (v as int) / 16 % 2 + (v as int) / 32 % 2 + (v as int) / 64 % 2 + (v as int) / 128 % 2
}

/// The 8080 parity flag: set when the byte has an even number of one-bits.
pub open spec fn parity_even(v: u8) -> bool {
    bit_count(v) % 2 == 0
}

impl CpuView {
    /// Well-formedness: full 64 KiB memory, eight ports each way, and a
    /// shift offset that a byte can be shifted by.
    pub open spec fn wf(self) -> bool {
        &&& self.mem.len() == 0x10000
        &&& self.in_ports.len() == 8
        &&& self.out_ports.len() == 8
        &&& self.shift_amount < 8
    }

    /// The byte of memory at a 16-bit address.
    pub open spec fn rd(self, addr: u16) -> u8 {
        self.mem[addr as int]
    }

    /// Memory with one byte replaced.
    pub open spec fn wr(self, addr: u16, v: u8) -> CpuView {
        CpuView { mem: self.mem.update(addr as int, v), ..self }
    }

    pub open spec fn bc(self) -> u16 {
        pair16(self.b, self.c)
    }

    pub open spec fn de(self) -> u16 {
        pair16(self.d, self.e)
    }

    pub open spec fn hl(self) -> u16 {
        pair16(self.h, self.l)
    }

    /// The byte behind the pseudo-register M.
    pub open spec fn at_hl(self) -> u8 {
        self.rd(self.hl())
    }

    /// The immediate byte after the opcode.
    pub open spec fn imm8(self) -> u8 {
        self.rd(w16(self.pc + 1))
    }

    /// The little-endian immediate word after the opcode.
    pub open spec fn imm16(self) -> u16 {
        pair16(self.rd(w16(self.pc + 2)), self.rd(w16(self.pc + 1)))
    }

    /// Program counter advanced by `n` bytes, wrapping.
    pub open spec fn step_pc(self, n: int) -> CpuView {
        CpuView { pc: w16(self.pc + n), ..self }
    }

    /// Value of an 8-bit register, with M read through HL.
    pub open spec fn read_reg(self, r: RegisterSymbols) -> u8 {
        match r {
            RegisterSymbols::B => self.b,
            RegisterSymbols::C => self.c,
            RegisterSymbols::D => self.d,
            RegisterSymbols::E => self.e,
            RegisterSymbols::H => self.h,
            RegisterSymbols::L => self.l,
            RegisterSymbols::A => self.a,
            RegisterSymbols::MEMORY => self.at_hl(),
            _ => 0,
        }
    }

    /// Write an 8-bit register, with M written through HL.
    pub open spec fn write_reg(self, r: RegisterSymbols, v: u8) -> CpuView {
        match r {
            RegisterSymbols::B => CpuView { b: v, ..self },
            RegisterSymbols::C => CpuView { c: v, ..self },
            RegisterSymbols::D => CpuView { d: v, ..self },
            RegisterSymbols::E => CpuView { e: v, ..self },
            RegisterSymbols::H => CpuView { h: v, ..self },
            RegisterSymbols::L => CpuView { l: v, ..self },
            RegisterSymbols::A => CpuView { a: v, ..self },
            RegisterSymbols::MEMORY => self.wr(self.hl(), v),
            _ => self,
        }
    }

    /// Value of a 16-bit pair, with SP as the fourth choice.
    pub open spec fn read_pair(self, r: RegisterSymbols) -> u16 {
        match r {
            RegisterSymbols::B => self.bc(),
            RegisterSymbols::D => self.de(),
            RegisterSymbols::H => self.hl(),
            RegisterSymbols::SP => self.sp,
            _ => 0,
        }
    }

    /// Write a 16-bit pair, with SP as the fourth choice.
    pub open spec fn write_pair(self, r: RegisterSymbols, v: u16) -> CpuView {
        match r {
            RegisterSymbols::B => CpuView { b: high8(v), c: low8(v), ..self },
            RegisterSymbols::D => CpuView { d: high8(v), e: low8(v), ..self },
            RegisterSymbols::H => CpuView { h: high8(v), l: low8(v), ..self },
            RegisterSymbols::SP => CpuView { sp: v, ..self },
            _ => self,
        }
    }

    /// Push a word: high byte at SP-1, low byte at SP-2, SP moves down by 2.
    pub open spec fn push16(self, v: u16) -> CpuView {
        let pushed = self.wr(w16(self.sp - 1), high8(v)).wr(w16(self.sp - 2), low8(v));
        CpuView { sp: w16(self.sp - 2), ..pushed }
    }

    /// The word at the top of the stack: low byte at SP, high byte at SP+1.
    pub open spec fn stack_top(self) -> u16 {
        pair16(self.rd(w16(self.sp + 1)), self.rd(self.sp))
    }

    /// Drop the top word of the stack: SP moves up by 2.
    pub open spec fn dropped(self) -> CpuView {
        CpuView { sp: w16(self.sp + 2), ..self }
    }

    /// Flags packed into the PSW byte: S Z 0 AC 0 P 1 CY.
    pub open spec fn pack_flags(self) -> u8 {
        ((if self.sign { 0x80int } else { 0int }) + (if self.zero { 0x40int } else { 0int })
            + (if self.aux { 0x10int } else { 0int }) + (if self.parity { 0x04int } else { 0int })
            + 0x02int + (if self.carry { 0x01int } else { 0int })) as u8
    }

    /// Flags taken from a PSW byte; the fixed bits are ignored, and the
    /// interrupt-enable bit is not part of the PSW.
    pub open spec fn unpack_flags(self, v: u8) -> CpuView {
        CpuView {
            sign: v / 0x80 % 2 == 1,
            zero: v / 0x40 % 2 == 1,
            aux: v / 0x10 % 2 == 1,
            parity: v / 0x04 % 2 == 1,
            carry: v % 2 == 1,
            ..self
        }
    }

    /// Zero, sign and parity taken from a result byte.
    pub open spec fn with_szp(self, r: u8) -> CpuView {
        CpuView { zero: r == 0, sign: r >= 0x80, parity: parity_even(r), ..self }
    }
}

} // verus!

// ---------------------------------------------------------------------------
// Transition functions: arithmetic, logic, rotates and flag instructions.
// ---------------------------------------------------------------------------

verus! {

/// A carry bit as a number.
pub open spec fn cbit(b: bool) -> u8 {
    if b {
        1
    } else {
        0
    }
}

/// Accumulator addition with carry-in: result, S, Z, P from the low byte,
/// CY from bit 8, AC from the carry out of bit 3.
pub open spec fn add_core(s: CpuView, op: u8, cin: u8) -> CpuView {
    let total = s.a + op + cin;
    let r = (total % 256) as u8;
    CpuView {
        a: r,
        carry: total > 255,
        aux: s.a % 16 + op % 16 + cin > 15,
        ..s.with_szp(r)
    }
}

/// Accumulator subtraction with borrow-in: CY is the borrow out of bit 8,
/// AC the borrow into bit 4.
pub open spec fn sub_core(s: CpuView, op: u8, bin: u8) -> CpuView {
    let total = 256 + s.a - op - bin;
    let r = (total % 256) as u8;
    CpuView {
        a: r,
        carry: s.a < op + bin,
        aux: s.a % 16 < op % 16 + bin,
        ..s.with_szp(r)
    }
}

/// Comparison: the flags of a subtraction, with A untouched.
pub open spec fn cmp_core(s: CpuView, op: u8) -> CpuView {
    let total = 256 + s.a - op;
    let r = (total % 256) as u8;
    CpuView {
        carry: s.a < op,
        aux: s.a % 16 < op % 16,
        ..s.with_szp(r)
    }
}

/// A logical result: S, Z, P from the byte, CY and AC cleared.
pub open spec fn logic_core(s: CpuView, r: u8) -> CpuView {
    CpuView { a: r, carry: false, aux: false, ..s.with_szp(r) }
}

pub open spec fn spec_add_register(s: CpuView, r: RegisterSymbols) -> CpuView {
    add_core(s, s.read_reg(r), 0).step_pc(1)
}

pub open spec fn spec_adi(s: CpuView) -> CpuView {
    add_core(s, s.imm8(), 0).step_pc(2)
}

pub open spec fn spec_adc_register(s: CpuView, r: RegisterSymbols) -> CpuView {
    add_core(s, s.read_reg(r), cbit(s.carry)).step_pc(1)
}

pub open spec fn spec_aci(s: CpuView) -> CpuView {
    add_core(s, s.imm8(), cbit(s.carry)).step_pc(2)
}

pub open spec fn spec_sub_register(s: CpuView, r: RegisterSymbols) -> CpuView {
    sub_core(s, s.read_reg(r), 0).step_pc(1)
}

pub open spec fn spec_sui(s: CpuView) -> CpuView {
    sub_core(s, s.imm8(), 0).step_pc(2)
}

pub open spec fn spec_sbb_register(s: CpuView, r: RegisterSymbols) -> CpuView {
    sub_core(s, s.read_reg(r), cbit(s.carry)).step_pc(1)
}

pub open spec fn spec_sbi(s: CpuView) -> CpuView {
    sub_core(s, s.imm8(), cbit(s.carry)).step_pc(2)
}

pub open spec fn spec_cmp_register(s: CpuView, r: RegisterSymbols) -> CpuView {
    cmp_core(s, s.read_reg(r)).step_pc(1)
}

pub open spec fn spec_cpi(s: CpuView) -> CpuView {
    cmp_core(s, s.imm8()).step_pc(2)
}

pub open spec fn spec_ana_register(s: CpuView, r: RegisterSymbols) -> CpuView {
    logic_core(s, s.a & s.read_reg(r)).step_pc(1)
}

pub open spec fn spec_ani(s: CpuView) -> CpuView {
    logic_core(s, s.a & s.imm8()).step_pc(2)
}

pub open spec fn spec_ora_register(s: CpuView, r: RegisterSymbols) -> CpuView {
    logic_core(s, s.a | s.read_reg(r)).step_pc(1)
}

pub open spec fn spec_ori(s: CpuView) -> CpuView {
    logic_core(s, s.a | s.imm8()).step_pc(2)
}

pub open spec fn spec_xra_register(s: CpuView, r: RegisterSymbols) -> CpuView {
    logic_core(s, s.a ^ s.read_reg(r)).step_pc(1)
}

pub open spec fn spec_xri(s: CpuView) -> CpuView {
    logic_core(s, s.a ^ s.imm8()).step_pc(2)
}

/// 16-bit addition into HL; only CY changes, from bit 16.
pub open spec fn spec_dad(s: CpuView, rp: RegisterSymbols) -> CpuView {
    let total = s.hl() + s.read_pair(rp);
    CpuView {
        h: high8(w16(total)),
        l: low8(w16(total)),
        carry: total > 0xffff,
        ..s
    }.step_pc(1)
}

/// Decimal adjust: a conditional 0x06 then 0x60 correction. CY reports the
/// low-nibble correction; AC is left alone; S, Z, P follow the final byte.
pub open spec fn spec_daa(s: CpuView) -> CpuView {
    let low_adjust = s.a % 16 > 9 || s.aux;
    let a1 = if low_adjust {
        ((s.a + 6) % 256) as u8
    } else {
        s.a
    };
    let high_adjust = a1 / 16 > 9 || s.carry;
    let a2 = if high_adjust {
        ((a1 + 0x60) % 256) as u8
    } else {
        a1
    };
    CpuView { a: a2, carry: low_adjust, ..s.with_szp(a2) }.step_pc(1)
}

/// Increment a register or M: S, Z, P, AC from the result, CY untouched.
pub open spec fn spec_inr(s: CpuView, r: RegisterSymbols) -> CpuView {
    let v = s.read_reg(r);
    let nv = ((v + 1) % 256) as u8;
    CpuView { aux: v % 16 == 15, ..s.with_szp(nv) }.write_reg(r, nv).step_pc(1)
}

/// Decrement a register or M: S, Z, P, AC from the result, CY untouched.
pub open spec fn spec_dcr(s: CpuView, r: RegisterSymbols) -> CpuView {
    let v = s.read_reg(r);
    let nv = ((v + 255) % 256) as u8;
    CpuView { aux: v % 16 == 0, ..s.with_szp(nv) }.write_reg(r, nv).step_pc(1)
}

/// Increment a 16-bit pair; no flags change.
pub open spec fn spec_inx(s: CpuView, rp: RegisterSymbols) -> CpuView {
    s.write_pair(rp, w16(s.read_pair(rp) + 1)).step_pc(1)
}

/// Decrement a 16-bit pair; no flags change.
pub open spec fn spec_dcx(s: CpuView, rp: RegisterSymbols) -> CpuView {
    s.write_pair(rp, w16(s.read_pair(rp) - 1)).step_pc(1)
}

/// Rotate A left; CY takes the bit that wrapped.
pub open spec fn spec_rlc(s: CpuView) -> CpuView {
    let r = ((s.a * 2) % 256 + s.a / 128) as u8;
    CpuView { a: r, carry: s.a >= 128, ..s }.step_pc(1)
}

/// Rotate A right; CY takes the bit that wrapped.
pub open spec fn spec_rrc(s: CpuView) -> CpuView {
    let r = (s.a / 2 + (s.a % 2) * 128) as u8;
    CpuView { a: r, carry: s.a % 2 == 1, ..s }.step_pc(1)
}

/// 9-bit rotate of A left through CY.
pub open spec fn spec_ral(s: CpuView) -> CpuView {
    let r = ((s.a * 2) % 256 + cbit(s.carry)) as u8;
    CpuView { a: r, carry: s.a >= 128, ..s }.step_pc(1)
}

/// 9-bit rotate of A right through CY.
pub open spec fn spec_rar(s: CpuView) -> CpuView {
    let r = (s.a / 2 + cbit(s.carry) * 128) as u8;
    CpuView { a: r, carry: s.a % 2 == 1, ..s }.step_pc(1)
}

/// Complement A; no flags change.
pub open spec fn spec_cma(s: CpuView) -> CpuView {
    CpuView { a: (255 - s.a) as u8, ..s }.step_pc(1)
}

/// Complement CY.
pub open spec fn spec_cmc(s: CpuView) -> CpuView {
    CpuView { carry: !s.carry, ..s }.step_pc(1)
}

/// Set CY.
pub open spec fn spec_stc(s: CpuView) -> CpuView {
    CpuView { carry: true, ..s }.step_pc(1)
}

} // verus!

// ---------------------------------------------------------------------------
// Transition functions: moves, loads, jumps, stack and port instructions.
// ---------------------------------------------------------------------------

verus! {

/// A small power of two, for 8-bit shifts written as arithmetic.
pub open spec fn pw2(sh: u8) -> u8 {
    match sh {
        0u8 => 1,
        1u8 => 2,
        2u8 => 4,
        3u8 => 8,
        4u8 => 16,
        5u8 => 32,
        6u8 => 64,
        7u8 => 128,
        _ => 0,
    }
}

/// A byte shifted left, keeping the low 8 bits.
pub open spec fn shl8(v: u8, sh: u8) -> u8 {
    ((v * pw2(sh)) % 256) as u8
}

pub open spec fn spec_mov(s: CpuView, to: RegisterSymbols, from: RegisterSymbols) -> CpuView {
    s.write_reg(to, s.read_reg(from)).step_pc(1)
}

pub open spec fn spec_mvi(s: CpuView, r: RegisterSymbols) -> CpuView {
    s.write_reg(r, s.imm8()).step_pc(2)
}

pub open spec fn spec_lda(s: CpuView) -> CpuView {
    CpuView { a: s.rd(s.imm16()), ..s }.step_pc(3)
}

pub open spec fn spec_ldax(s: CpuView, rp: RegisterSymbols) -> CpuView {
    CpuView { a: s.rd(s.read_pair(rp)), ..s }.step_pc(1)
}

pub open spec fn spec_lxi(s: CpuView, rp: RegisterSymbols) -> CpuView {
    s.write_pair(rp, s.imm16()).step_pc(3)
}

/// LHLD: L from the addressed byte, H from its successor.
pub open spec fn spec_lhld(s: CpuView) -> CpuView {
    CpuView { h: s.rd(w16(s.imm16() + 1)), l: s.rd(s.imm16()), ..s }.step_pc(3)
}

pub open spec fn spec_sta(s: CpuView) -> CpuView {
    s.wr(s.imm16(), s.a).step_pc(3)
}

pub open spec fn spec_stax(s: CpuView, rp: RegisterSymbols) -> CpuView {
    s.wr(s.read_pair(rp), s.a).step_pc(1)
}

/// SHLD: L to the addressed byte, H to its successor.
pub open spec fn spec_shld(s: CpuView) -> CpuView {
    s.wr(w16(s.imm16() + 1), s.h).wr(s.imm16(), s.l).step_pc(3)
}

pub open spec fn spec_jmp(s: CpuView) -> CpuView {
    CpuView { pc: s.imm16(), ..s }
}

/// A conditional jump costs the same either way; on a miss PC skips the
/// address operand.
pub open spec fn spec_jump_if(s: CpuView, cond: bool) -> CpuView {
    if cond {
        spec_jmp(s)
    } else {
        s.step_pc(3)
    }
}

/// CALL: the return address (past the 3-byte instruction) goes on the stack.
pub open spec fn spec_call(s: CpuView) -> CpuView {
    CpuView { pc: s.imm16(), ..s.push16(w16(s.pc + 3)) }
}

pub open spec fn spec_call_if(s: CpuView, cond: bool) -> CpuView {
    if cond {
        spec_call(s)
    } else {
        s.step_pc(3)
    }
}

/// RET: PC from the top of the stack.
pub open spec fn spec_ret(s: CpuView) -> CpuView {
    CpuView { pc: s.stack_top(), ..s.dropped() }
}

pub open spec fn spec_ret_if(s: CpuView, cond: bool) -> CpuView {
    if cond {
        spec_ret(s)
    } else {
        s.step_pc(1)
    }
}

/// XCHG: HL and DE trade places.
pub open spec fn spec_xchg(s: CpuView) -> CpuView {
    CpuView { d: s.h, e: s.l, h: s.d, l: s.e, ..s }.step_pc(1)
}

pub open spec fn spec_sphl(s: CpuView) -> CpuView {
    CpuView { sp: s.hl(), ..s }.step_pc(1)
}

/// XTHL: HL and the word at the top of the stack trade places.
pub open spec fn spec_xthl(s: CpuView) -> CpuView {
    CpuView {
        h: s.rd(w16(s.sp + 1)),
        l: s.rd(s.sp),
        ..s.wr(w16(s.sp + 1), s.h).wr(s.sp, s.l)
    }.step_pc(1)
}

/// PCHL: PC from HL, with no increment.
pub open spec fn spec_pchl(s: CpuView) -> CpuView {
    CpuView { pc: s.hl(), ..s }
}

/// The word PUSH puts on the stack; for PSW the high byte is A and the low
/// byte the packed flags.
pub open spec fn push_source(s: CpuView, rp: RegisterSymbols) -> u16 {
    match rp {
        RegisterSymbols::PSW => pair16(s.a, s.pack_flags()),
        _ => s.read_pair(rp),
    }
}

pub open spec fn spec_push(s: CpuView, rp: RegisterSymbols) -> CpuView {
    s.push16(push_source(s, rp)).step_pc(1)
}

/// POP: for PSW the high byte lands in A and the low byte in the flags,
/// fixed bits ignored.
pub open spec fn spec_pop(s: CpuView, rp: RegisterSymbols) -> CpuView {
    let v = s.stack_top();
    let s1 = s.dropped();
    (match rp {
        RegisterSymbols::PSW => CpuView { a: high8(v), ..s1.unpack_flags(low8(v)) },
        _ => s1.write_pair(rp, v),
    }).step_pc(1)
}

/// OUT: the Space Invaders port map. Port 2 latches the shift offset,
/// port 4 feeds the shift register and latches its window into input
/// port 3; ports 3 and 5 (sound) and 6 (watchdog) are recorded and
/// otherwise ignored. Every accepted write is recorded in `out_ports`.
pub open spec fn spec_out(s: CpuView) -> CpuView {
    let port = s.imm8();
    let recorded = CpuView { out_ports: s.out_ports.update(port as int, s.a), ..s };
    (if port == 2 {
        CpuView { shift_amount: (s.a % 8) as u8, ..recorded }
    } else if port == 4 {
        CpuView { in_ports: s.in_ports.update(3, shl8(s.a, s.shift_amount)), ..recorded }
    } else {
        recorded
    }).step_pc(2)
}

/// IN: A takes the port's shadow byte.
pub open spec fn spec_in(s: CpuView) -> CpuView {
    CpuView { a: s.in_ports[s.imm8() as int], ..s }.step_pc(2)
}

/// RST: the address after the 1-byte instruction goes on the stack and PC
/// jumps to the vector.
pub open spec fn spec_rst(s: CpuView, code: u8) -> CpuView {
    CpuView { pc: (code * 8) as u16, ..s.push16(w16(s.pc + 1)) }
}

/// An injected interrupt: nothing when interrupts are off; otherwise they
/// are turned off, the current PC (already at the next opcode) is pushed,
/// and PC jumps to the vector.
pub open spec fn spec_call_interrupt(s: CpuView, code: u8) -> CpuView {
    if s.ie {
        CpuView { pc: (code * 8) as u16, ie: false, ..s.push16(s.pc) }
    } else {
        s
    }
}

pub open spec fn spec_ei(s: CpuView) -> CpuView {
    CpuView { ie: true, ..s }.step_pc(1)
}

pub open spec fn spec_di(s: CpuView) -> CpuView {
    CpuView { ie: false, ..s }.step_pc(1)
}

/// HLT: request exit and stop fetching; PC stays on the instruction.
pub open spec fn spec_hlt(s: CpuView) -> CpuView {
    CpuView { should_exit: true, ..s }
}

/// The NOP opcode and its aliases: only PC moves.
pub open spec fn spec_nop(s: CpuView) -> CpuView {
    s.step_pc(1)
}

/// The operand conditions under which one instruction can be stepped:
/// OUT must name a port of the Space Invaders map and IN one of the eight
/// input ports; everything else is total.
pub open spec fn step_ok(s: CpuView) -> bool {
    let op = s.rd(s.pc);
    &&& (op == 0xd3 ==> 2 <= s.imm8() <= 6)
    &&& (op == 0xdb ==> s.imm8() < 8)
}

} // verus!
