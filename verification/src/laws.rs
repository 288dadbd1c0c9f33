//! Laws of the machine model: round trips of the stack and exchange
//! instructions, the interrupt gate, and the shape of the PSW byte.

use crate::i8080::RegisterSymbols;
use crate::model::{
    add_core, cmp_core, high8, logic_core, low8, pair16, parity_even, spec_call,
    spec_call_interrupt, spec_dcr, spec_di, spec_ei, spec_inr, spec_pop, spec_push, spec_ret,
    spec_xchg, spec_xthl, sub_core, w16, CpuView,
};
use vstd::arithmetic::div_mod::{
    lemma_fundamental_div_mod, lemma_fundamental_div_mod_converse, lemma_mod_multiples_vanish,
    lemma_small_mod,
};
use vstd::prelude::*;

verus! {

/// Wrapping an already-wrapped value shifts cleanly: the inner reduction
/// can be dropped.
pub proof fn lemma_w16_shift(x: int, d: int)
    ensures
        w16(w16(x) + d) == w16(x + d),
{
    lemma_fundamental_div_mod(x, 0x10000);
    lemma_mod_multiples_vanish(x / 0x10000, x % 0x10000 + d, 0x10000);
}

/// The wrapped successor of an address differs from it; it is the plain
/// successor short of the top of the address space, where it wraps to 0.
pub proof fn lemma_w16_next(x: u16)
    ensures
        w16(x + 1) != x,
        x < 0xffff ==> w16(x + 1) == x + 1,
        x == 0xffff ==> w16(x + 1) == 0,
{
    if x < 0xffff {
        lemma_small_mod((x + 1) as nat, 0x10000nat);
    } else {
        lemma_mod_multiples_vanish(1, 0, 0x10000);
        lemma_small_mod(0nat, 0x10000nat);
    }
}

/// Splitting the word joined from two bytes gives the bytes back.
pub proof fn lemma_pair_split(hi: u8, lo: u8)
    ensures
        high8(pair16(hi, lo)) == hi,
        low8(pair16(hi, lo)) == lo,
{
    lemma_fundamental_div_mod_converse(hi * 256 + lo, 256, hi as int, lo as int);
}

/// Joining the two bytes of a word gives the word back.
pub proof fn lemma_pair_join(v: u16)
    ensures
        pair16(high8(v), low8(v)) == v,
{
    lemma_fundamental_div_mod(v as int, 256);
}

/// What a push leaves on the stack: the pushed word on top, SP two lower,
/// and every byte outside the two written cells untouched.
pub proof fn lemma_push16(s: CpuView, v: u16)
    requires
        s.wf(),
    ensures
        s.push16(v).wf(),
        s.push16(v).stack_top() == v,
        s.push16(v).sp == w16(s.sp - 2),
        s.push16(v).dropped().sp == s.sp,
        forall|addr: u16|
            addr != w16(s.sp - 1) && addr != w16(s.sp - 2) ==> s.push16(v).rd(addr) == s.rd(addr),
{
    lemma_w16_shift(s.sp - 2, 1);
    lemma_w16_shift(s.sp - 2, 2);
    lemma_small_mod(s.sp as nat, 0x10000nat);
    lemma_w16_next(w16(s.sp - 2));
    assert(w16(s.sp - 1) == w16(w16(s.sp - 2) + 1));
    lemma_pair_split(high8(v), low8(v));
    lemma_pair_join(v);
}

/// PUSH then POP restores the pushed pair exactly; for PSW both A and all
/// five flags come back, the fixed bits of the stacked byte notwithstanding.
pub proof fn lemma_push_then_pop(s: CpuView, rp: RegisterSymbols)
    requires
        s.wf(),
        rp.is_pair_psw(),
    ensures
        !(rp is PSW) ==> spec_pop(spec_push(s, rp), rp).read_pair(rp) == s.read_pair(rp),
        rp is PSW ==> {
            let t = spec_pop(spec_push(s, rp), rp);
            &&& t.a == s.a
            &&& t.sign == s.sign
            &&& t.zero == s.zero
            &&& t.aux == s.aux
            &&& t.parity == s.parity
            &&& t.carry == s.carry
        },
{
    let v = crate::model::push_source(s, rp);
    lemma_push16(s, v);
    match rp {
        RegisterSymbols::B => lemma_pair_split(s.b, s.c),
        RegisterSymbols::D => lemma_pair_split(s.d, s.e),
        RegisterSymbols::H => lemma_pair_split(s.h, s.l),
        RegisterSymbols::PSW => {
            lemma_pair_split(s.a, s.pack_flags());
            lemma_unpack_of_pack(s);
        }
        _ => (),
    }
}

/// Unpacking a freshly packed PSW byte recovers the five flags.
pub proof fn lemma_unpack_of_pack(s: CpuView)
    ensures
        s.unpack_flags(s.pack_flags()).sign == s.sign,
        s.unpack_flags(s.pack_flags()).zero == s.zero,
        s.unpack_flags(s.pack_flags()).aux == s.aux,
        s.unpack_flags(s.pack_flags()).parity == s.parity,
        s.unpack_flags(s.pack_flags()).carry == s.carry,
{
    let a: u8 = if s.sign { 1 } else { 0 };
    let b: u8 = if s.zero { 1 } else { 0 };
    let c: u8 = if s.aux { 1 } else { 0 };
    let d: u8 = if s.parity { 1 } else { 0 };
    let e: u8 = if s.carry { 1 } else { 0 };
    assert(s.pack_flags() == 128 * a + 64 * b + 16 * c + 4 * d + 2 + e);
    assert((128 * a + 64 * b + 16 * c + 4 * d + 2 + e) / 0x80 % 2 == a) by (bit_vector)
        requires a <= 1 && b <= 1 && c <= 1 && d <= 1 && e <= 1;
    assert((128 * a + 64 * b + 16 * c + 4 * d + 2 + e) / 0x40 % 2 == b) by (bit_vector)
        requires a <= 1 && b <= 1 && c <= 1 && d <= 1 && e <= 1;
    assert((128 * a + 64 * b + 16 * c + 4 * d + 2 + e) / 0x10 % 2 == c) by (bit_vector)
        requires a <= 1 && b <= 1 && c <= 1 && d <= 1 && e <= 1;
    assert((128 * a + 64 * b + 16 * c + 4 * d + 2 + e) / 0x04 % 2 == d) by (bit_vector)
        requires a <= 1 && b <= 1 && c <= 1 && d <= 1 && e <= 1;
    assert((128 * a + 64 * b + 16 * c + 4 * d + 2 + e) % 2 == e) by (bit_vector)
        requires a <= 1 && b <= 1 && c <= 1 && d <= 1 && e <= 1;
}

/// POP then PUSH leaves the popped pair where the pop put it, restores SP,
/// and restores the two stack bytes — except that for PSW the low stack
/// byte is normalized to the real flag bits with the fixed pattern.
pub proof fn lemma_pop_then_push(s: CpuView, rp: RegisterSymbols)
    requires
        s.wf(),
        rp.is_pair_psw(),
    ensures
        ({
            let t = spec_push(spec_pop(s, rp), rp);
            &&& t.sp == s.sp
            &&& t.rd(w16(s.sp + 1)) == s.rd(w16(s.sp + 1))
            &&& (!(rp is PSW) ==> t.read_pair(rp) == s.stack_top())
            &&& (!(rp is PSW) ==> t.rd(s.sp) == s.rd(s.sp))
            &&& (rp is PSW ==> t.rd(s.sp) == s.unpack_flags(low8(s.stack_top())).pack_flags())
        }),
{
    let v = s.stack_top();
    let p = spec_pop(s, rp);
    lemma_w16_shift(s.sp + 2, -1);
    lemma_w16_shift(s.sp + 2, -2);
    lemma_small_mod(s.sp as nat, 0x10000nat);
    lemma_w16_next(s.sp);
    match rp {
        RegisterSymbols::B => {
            lemma_pair_split(high8(v), low8(v));
            lemma_pair_join(v);
        }
        RegisterSymbols::D => {
            lemma_pair_split(high8(v), low8(v));
            lemma_pair_join(v);
        }
        RegisterSymbols::H => {
            lemma_pair_split(high8(v), low8(v));
            lemma_pair_join(v);
        }
        _ => (),
    }
}

/// CALL then RET comes back to the instruction after the call, with SP as
/// it was.
pub proof fn lemma_call_then_ret(s: CpuView)
    requires
        s.wf(),
    ensures
        spec_ret(spec_call(s)).pc == w16(s.pc + 3),
        spec_ret(spec_call(s)).sp == s.sp,
{
    lemma_push16(s, w16(s.pc + 3));
}

/// While interrupts are off an injected interrupt is a no-op; DI turns
/// them off.
pub proof fn lemma_interrupt_disabled(s: CpuView, code: u8)
    requires
        !s.ie,
    ensures
        spec_call_interrupt(s, code) == s,
        !spec_di(s).ie,
        spec_call_interrupt(spec_di(s), code) == spec_di(s),
{
}

/// After EI an injected interrupt pushes the current PC and jumps to the
/// vector, turning interrupts off again.
pub proof fn lemma_interrupt_taken(s: CpuView, code: u8)
    requires
        s.wf(),
        code <= 7,
    ensures
        ({
            let t = spec_call_interrupt(spec_ei(s), code);
            &&& t.pc == code * 8
            &&& !t.ie
            &&& t.stack_top() == spec_ei(s).pc
            &&& t.sp == w16(s.sp - 2)
        }),
{
    lemma_push16(spec_ei(s), spec_ei(s).pc);
}

/// The packed PSW byte always has bit 1 set and bits 3 and 5 clear.
pub proof fn lemma_psw_fixed_bits(s: CpuView)
    ensures
        s.pack_flags() & 0x02 == 0x02,
        s.pack_flags() & 0x28 == 0,
{
    let a: u8 = if s.sign { 1 } else { 0 };
    let b: u8 = if s.zero { 1 } else { 0 };
    let c: u8 = if s.aux { 1 } else { 0 };
    let d: u8 = if s.parity { 1 } else { 0 };
    let e: u8 = if s.carry { 1 } else { 0 };
    assert(s.pack_flags() == 128 * a + 64 * b + 16 * c + 4 * d + 2 + e);
    assert(((128 * a + 64 * b + 16 * c + 4 * d + 2 + e) as u8) & 0x02 == 0x02) by (bit_vector)
        requires a <= 1 && b <= 1 && c <= 1 && d <= 1 && e <= 1;
    assert(((128 * a + 64 * b + 16 * c + 4 * d + 2 + e) as u8) & 0x28 == 0) by (bit_vector)
        requires a <= 1 && b <= 1 && c <= 1 && d <= 1 && e <= 1;
}

/// Packing the flags unpacked from any byte keeps exactly the real flag
/// bits and forces the fixed pattern.
pub proof fn lemma_pack_of_unpack(s: CpuView, v: u8)
    ensures
        s.unpack_flags(v).pack_flags() == (v & 0xd5) | 0x02,
{
    let t = s.unpack_flags(v);
    let a: u8 = if t.sign { 1 } else { 0 };
    let b: u8 = if t.zero { 1 } else { 0 };
    let c: u8 = if t.aux { 1 } else { 0 };
    let d: u8 = if t.parity { 1 } else { 0 };
    let e: u8 = if t.carry { 1 } else { 0 };
    assert(t.pack_flags() == 128 * a + 64 * b + 16 * c + 4 * d + 2 + e);
    assert(a == v / 0x80 % 2 && b == v / 0x40 % 2 && c == v / 0x10 % 2 && d == v / 0x04 % 2
        && e == v % 2);
    assert((128 * (v / 0x80 % 2) + 64 * (v / 0x40 % 2) + 16 * (v / 0x10 % 2) + 4 * (v / 0x04 % 2)
        + 2 + (v % 2)) as u8 == (v & 0xd5) | 0x02) by (bit_vector);
}

/// XCHG twice is the identity on HL and DE.
pub proof fn lemma_xchg_twice(s: CpuView)
    ensures
        spec_xchg(spec_xchg(s)).h == s.h,
        spec_xchg(spec_xchg(s)).l == s.l,
        spec_xchg(spec_xchg(s)).d == s.d,
        spec_xchg(spec_xchg(s)).e == s.e,
{
}

/// XTHL twice is the identity on HL and the two bytes at the stack top.
pub proof fn lemma_xthl_twice(s: CpuView)
    requires
        s.wf(),
    ensures
        spec_xthl(spec_xthl(s)).h == s.h,
        spec_xthl(spec_xthl(s)).l == s.l,
        spec_xthl(spec_xthl(s)).rd(s.sp) == s.rd(s.sp),
        spec_xthl(spec_xthl(s)).rd(w16(s.sp + 1)) == s.rd(w16(s.sp + 1)),
{
    lemma_w16_next(s.sp);
}

/// Every addition, subtraction, comparison, increment and decrement sets
/// S to bit 7 of its result, Z to "low byte is zero", and P to the parity
/// of the low byte.
pub proof fn lemma_arith_result_flags(s: CpuView, op: u8, cin: u8, r: RegisterSymbols)
    ensures
        ({
            let t = add_core(s, op, cin);
            t.sign == (t.a >= 0x80) && t.zero == (t.a == 0) && t.parity == parity_even(t.a)
        }),
        ({
            let t = sub_core(s, op, cin);
            t.sign == (t.a >= 0x80) && t.zero == (t.a == 0) && t.parity == parity_even(t.a)
        }),
        ({
            let t = cmp_core(s, op);
            let v = ((256 + s.a - op) % 256) as u8;
            t.sign == (v >= 0x80) && t.zero == (v == 0) && t.parity == parity_even(v)
        }),
        ({
            let t = spec_inr(s, r);
            let v = ((s.read_reg(r) + 1) % 256) as u8;
            t.sign == (v >= 0x80) && t.zero == (v == 0) && t.parity == parity_even(v)
        }),
        ({
            let t = spec_dcr(s, r);
            let v = ((s.read_reg(r) + 255) % 256) as u8;
            t.sign == (v >= 0x80) && t.zero == (v == 0) && t.parity == parity_even(v)
        }),
{
}

/// Every logical instruction clears CY and AC.
pub proof fn lemma_logic_clears_carries(s: CpuView, r: u8)
    ensures
        !logic_core(s, r).carry,
        !logic_core(s, r).aux,
        logic_core(s, r).sign == (r >= 0x80),
        logic_core(s, r).zero == (r == 0),
        logic_core(s, r).parity == parity_even(r),
{
}

} // verus!
