//! Laws of the machine: properties that hold of every execution, proved
//! once and for all over the model in [`crate::model`]. Because
//! [`crate::cpu::Cpu::step`] is verified to perform exactly [`step_state`],
//! each law carries over to the executable interpreter.

use vstd::prelude::*;
use crate::model::{
    affected_result, asl_val, bit6, bit7, bit_state, cmp_state, decode, exec_op,
    lemma_wrap16_add, pull_state, pull_value, push_state, rd, rol_val, ror_val, run_state,
    shift_carry, stack_addr, step_state, wf_state, with_zn, wrap16, wrap8, CpuState, Mode, Op,
};

verus! {

/// The registers can never leave their ranges: the accumulator, the index
/// registers and the stack pointer are bytes, the program counter is a
/// 16-bit word. This holds of every machine state by construction.
pub proof fn law_register_ranges(s: CpuState)
    ensures
        0 <= s.a <= 0xff,
        0 <= s.x <= 0xff,
        0 <= s.y <= 0xff,
        0 <= s.sp <= 0xff,
        0 <= s.pc <= 0xffff,
{
}

/// The basic flag rule is exact: whenever a result byte passes through it,
/// the zero flag says the byte is zero and the negative flag is its bit 7.
pub proof fn law_basic_flags(s: CpuState, r: u8)
    ensures
        with_zn(s, r).z == (r == 0),
        with_zn(s, r).n == bit7(r),
        with_zn(s, r).n == (r as int / 0x80 == 1),
{
}

/// After any instruction with an affected result, the zero flag says the
/// result is zero and the negative flag is its bit 7. The bit test is the
/// stated exception for the negative flag and keeps the zero rule through
/// its own law below.
#[verifier::spinoff_prover]
#[verifier::rlimit(100)]
pub proof fn law_flags_follow_result(s: CpuState, op: Op, m: Mode)
    ensures
        affected_result(s, op, m) matches Some(r) ==> exec_op(s, op, m).z == (r == 0),
        affected_result(s, op, m) matches Some(r) ==> exec_op(s, op, m).n == bit7(r),
{
}

/// The bit test: the zero flag from the masked accumulator (its affected
/// result), the negative and overflow flags from bits 7 and 6 of the
/// operand itself.
pub proof fn law_bit_test_flags(s: CpuState, v: u8)
    ensures
        bit_state(s, v).z == ((s.a & v) == 0),
        bit_state(s, v).n == bit7(v),
        bit_state(s, v).v == bit6(v),
{
}

/// Comparison sets the carry exactly when the register is not below the
/// operand (unsigned), the zero flag exactly on equality, and the negative
/// flag from bit 7 of the wrapped difference.
pub proof fn law_compare_flags(s: CpuState, reg: u8, v: u8)
    ensures
        cmp_state(s, reg, v).c == (reg >= v),
        cmp_state(s, reg, v).z == (reg == v),
        cmp_state(s, reg, v).n == bit7(wrap8(reg - v)),
{
}

/// One instruction step keeps the machine well formed: memory always spans
/// the whole address space, whatever the instruction writes.
pub proof fn law_step_preserves_wf(s: CpuState)
    requires
        wf_state(s),
    ensures
        wf_state(step_state(s)),
{
}

/// A whole run keeps the machine well formed: by induction over
/// [`law_step_preserves_wf`], the memory spans the whole address space at
/// every instruction boundary.
pub proof fn law_run_preserves_wf(s: CpuState, fuel: nat)
    requires
        wf_state(s),
    ensures
        wf_state(run_state(s, fuel)),
    decreases fuel,
{
    if fuel == 0 || s.pc >= 0xffff {
    } else {
        law_step_preserves_wf(s);
        law_run_preserves_wf(step_state(s), (fuel - 1) as nat);
    }
}

/// A stack push followed by a pull, with no stack traffic in between,
/// yields the pushed byte and restores the stack pointer.
pub proof fn law_push_then_pull(s: CpuState, val: u8)
    requires
        wf_state(s),
    ensures
        pull_value(push_state(s, val)) == val,
        pull_state(push_state(s, val)).sp == s.sp,
{
    assert(wrap8(wrap8(s.sp - 1) + 1) == s.sp);
}

/// A rotate left followed by a rotate right, each through the carry,
/// returns the original byte and the original carry.
pub proof fn law_rol_then_ror(v: u8, cin: bool)
    ensures
        ror_val(rol_val(v, cin), bit7(v)) == v,
        shift_carry(Op::Ror, rol_val(v, cin)) == cin,
{
}

/// A rotate right followed by a rotate left, each through the carry,
/// returns the original byte and the original carry.
pub proof fn law_ror_then_rol(v: u8, cin: bool)
    ensures
        rol_val(ror_val(v, cin), shift_carry(Op::Ror, v)) == v,
        bit7(ror_val(v, cin)) == cin,
{
}

/// An arithmetic shift left followed by a rotate right through the carry
/// restores the byte: the bit that the shift drops into the carry is the
/// bit the rotate brings back in at the top.
pub proof fn law_asl_then_ror(v: u8)
    ensures
        ror_val(asl_val(v), bit7(v)) == v,
{
}

/// Pushing the accumulator and pulling it back leaves the accumulator
/// unchanged and sets the zero and negative flags from it, provided the
/// stack slot does not overlap the second opcode byte.
pub proof fn law_pha_then_pla(s: CpuState)
    requires
        wf_state(s),
        rd(s, s.pc) == 0x48,
        rd(s, wrap16(s.pc + 1)) == 0x68,
        stack_addr(s.sp) != wrap16(s.pc + 1),
    ensures
        step_state(step_state(s)).a == s.a,
        step_state(step_state(s)).sp == s.sp,
        step_state(step_state(s)).z == (s.a == 0),
        step_state(step_state(s)).n == bit7(s.a),
        step_state(step_state(s)).pc == wrap16(s.pc + 2),
{
    reveal(decode);
    let s1 = step_state(s);
    assert(s1 == push_state((CpuState { pc: wrap16(s.pc + 1), ..s }), s.a));
    assert(rd(s1, s1.pc) == 0x68);
    assert(wrap8(wrap8(s.sp - 1) + 1) == s.sp);
    assert(pull_value(s1) == s.a);
    lemma_wrap16_add(s.pc + 1, 1);
}

/// Loading a byte, storing it to a zero-page address, and loading it back
/// from that address yields the same byte, provided the store target does
/// not overlap the bytes of the final load instruction.
pub proof fn law_load_store_load(s: CpuState, v: u8, tgt: u8)
    requires
        wf_state(s),
        rd(s, s.pc) == 0xa9,
        rd(s, wrap16(s.pc + 1)) == v,
        rd(s, wrap16(s.pc + 2)) == 0x85,
        rd(s, wrap16(s.pc + 3)) == tgt,
        rd(s, wrap16(s.pc + 4)) == 0xa5,
        rd(s, wrap16(s.pc + 5)) == tgt,
        tgt as u16 != wrap16(s.pc + 4),
        tgt as u16 != wrap16(s.pc + 5),
    ensures
        step_state(step_state(step_state(s))).a == v,
        step_state(step_state(step_state(s))).mem[tgt as int] == v,
        step_state(step_state(step_state(s))).pc == wrap16(s.pc + 6),
{
    reveal(decode);
    let s1 = step_state(s);
    lemma_wrap16_add(s.pc + 1, 1);
    lemma_wrap16_add(s.pc + 2, 1);
    lemma_wrap16_add(s.pc + 3, 1);
    lemma_wrap16_add(s.pc + 4, 1);
    lemma_wrap16_add(s.pc + 5, 1);
    assert(s1.a == v);
    assert(s1.pc == wrap16(s.pc + 2));
    assert(rd(s1, s1.pc) == 0x85);
    let s2 = step_state(s1);
    assert(s2.mem == s1.mem.update(tgt as int, v));
    assert(s2.pc == wrap16(s.pc + 4));
    assert(rd(s2, s2.pc) == 0xa5);
    assert(rd(s2, wrap16(s.pc + 5)) == tgt);
    let s3 = step_state(s2);
    assert(s3.a == s2.mem[tgt as int]);
}

} // verus!
