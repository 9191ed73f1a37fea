//! The mathematical model of the machine.
//!
//! [`CpuState`] is the machine as contracts see it: the registers, the seven
//! status flags, and the whole address space as a sequence of bytes.
//! [`step_state`] gives the meaning of one instruction; [`run_state`] iterates
//! it until the program counter reaches the top of the address space or a
//! fuel budget runs out. The executable interpreter is verified to agree with
//! these functions exactly.

use vstd::prelude::*;
use vstd::arithmetic::div_mod::{lemma_add_mod_noop, lemma_add_mod_noop_right};

verus! {

/// Wrapping a wrapped sum again is the same as wrapping the whole sum.
pub proof fn lemma_wrap16_add(a: int, off: int)
    ensures
        wrap16(wrap16(a) + off) == wrap16(a + off),
{
    lemma_add_mod_noop(a, off, 0x10000);
    lemma_add_mod_noop_right(a % 0x10000, off, 0x10000);
}

/// The machine as specifications see it.
#[verifier::ext_equal]
pub struct CpuState {
    pub a: u8,
    pub x: u8,
    pub y: u8,
    pub pc: u16,
    pub sp: u8,
    /// Carry flag.
    pub c: bool,
    /// Zero flag.
    pub z: bool,
    /// Interrupt-disable flag.
    pub i: bool,
    /// Decimal flag (kept, never consulted: the target part has no decimal mode).
    pub d: bool,
    /// Break flag.
    pub b: bool,
    /// Overflow flag.
    pub v: bool,
    /// Negative flag.
    pub n: bool,
    /// The flat 64 KiB address space.
    pub mem: Seq<u8>,
}

/// A state is well formed when its memory spans the whole address space.
pub open spec fn wf_state(s: CpuState) -> bool {
    s.mem.len() == 0x10000
}

/// Address arithmetic wraps modulo 65536.
pub open spec fn wrap16(n: int) -> u16 {
    (n % 0x10000) as u16
}

/// Register arithmetic wraps modulo 256.
pub open spec fn wrap8(n: int) -> u8 {
    (n % 0x100) as u8
}

/// The byte at an address.
pub open spec fn rd(s: CpuState, addr: u16) -> u8 {
    s.mem[addr as int]
}

/// A 16-bit little-endian word read from two consecutive addresses.
pub open spec fn rd16(s: CpuState, addr: u16) -> u16 {
    (rd(s, addr) + rd(s, wrap16(addr + 1)) * 0x100) as u16
}

/// Whether bit 7 of a byte is set; the sign bit of the two's-complement reading.
pub open spec fn bit7(v: u8) -> bool {
    v >= 0x80
}

/// Whether bit 6 of a byte is set.
pub open spec fn bit6(v: u8) -> bool {
    (v as int / 0x40) % 2 == 1
}

/// The operations of the instruction set.
#[derive(Clone, Copy, Debug)]
pub enum Op {
    Lda,
    Ldx,
    Ldy,
    Sta,
    Stx,
    Sty,
    Tax,
    Tay,
    Tsx,
    Txa,
    Txs,
    Tya,
    Pha,
    Php,
    Pla,
    Plp,
    And,
    Eor,
    Ora,
    Bit,
    Adc,
    Sbc,
    Cmp,
    Cpx,
    Cpy,
    Inc,
    Inx,
    Iny,
    Dec,
    Dex,
    Dey,
    Asl,
    Lsr,
    Rol,
    Ror,
    Jmp,
    Jsr,
    Rts,
    Rti,
    Bcc,
    Bcs,
    Beq,
    Bmi,
    Bne,
    Bpl,
    Bvc,
    Bvs,
    Clc,
    Cld,
    Cli,
    Clv,
    Sec,
    Sed,
    Sei,
    Nop,
}

/// The addressing modes. `Imp` is implicit (no operand bytes), `Acc` names
/// the accumulator form of the shift instructions, `Rel` is the one-byte
/// signed displacement of the branches.
#[derive(Clone, Copy, Debug)]
pub enum Mode {
    Imp,
    Acc,
    Imm,
    Zp,
    ZpX,
    ZpY,
    Abs,
    AbsX,
    AbsY,
    Ind,
    IndX,
    IndY,
    Rel,
}

/// How many operand bytes a mode consumes after the opcode.
pub open spec fn mode_len(m: Mode) -> int {
    match m {
        Mode::Imp | Mode::Acc => 0,
        Mode::Imm | Mode::Zp | Mode::ZpX | Mode::ZpY | Mode::IndX | Mode::IndY | Mode::Rel => 1,
        Mode::Abs | Mode::AbsX | Mode::AbsY | Mode::Ind => 2,
    }
}

/// Modes that resolve to an operand value.
pub open spec fn reads_value(m: Mode) -> bool {
    match m {
        Mode::Imm | Mode::Zp | Mode::ZpX | Mode::ZpY | Mode::Abs | Mode::AbsX | Mode::AbsY
            | Mode::IndX | Mode::IndY => true,
        _ => false,
    }
}

/// Modes that resolve to an effective address.
pub open spec fn has_ea(m: Mode) -> bool {
    match m {
        Mode::Zp | Mode::ZpX | Mode::ZpY | Mode::Abs | Mode::AbsX | Mode::AbsY | Mode::Ind
            | Mode::IndX | Mode::IndY => true,
        _ => false,
    }
}

/// The two operand bytes of an absolute mode, low byte first.
/// `s.pc` points at the first operand byte.
pub open spec fn abs_operand(s: CpuState) -> u16 {
    (rd(s, s.pc) + rd(s, wrap16(s.pc + 1)) * 0x100) as u16
}

/// The effective address a mode resolves to. `s.pc` points at the first
/// operand byte. Zero-page index additions wrap inside page 0; absolute
/// index additions wrap modulo 65536.
pub open spec fn ea(s: CpuState, m: Mode) -> u16 {
    match m {
        Mode::Zp => rd(s, s.pc) as u16,
        Mode::ZpX => wrap8(rd(s, s.pc) + s.x) as u16,
        Mode::ZpY => wrap8(rd(s, s.pc) + s.y) as u16,
        Mode::Abs => abs_operand(s),
        Mode::AbsX => wrap16(abs_operand(s) + s.x),
        Mode::AbsY => wrap16(abs_operand(s) + s.y),
        Mode::Ind => rd16(s, abs_operand(s)),
        Mode::IndX => rd16(s, wrap8(rd(s, s.pc) + s.x) as u16),
        Mode::IndY => wrap16(rd16(s, rd(s, s.pc) as u16) + s.y),
        _ => 0,
    }
}

/// The operand value a mode resolves to. `s.pc` points at the first operand
/// byte.
pub open spec fn operand(s: CpuState, m: Mode) -> u8 {
    match m {
        Mode::Imm => rd(s, s.pc),
        Mode::Acc => s.a,
        _ => rd(s, ea(s, m)),
    }
}

/// The state after consuming a mode's operand bytes.
pub open spec fn advance(s: CpuState, m: Mode) -> CpuState {
    CpuState { pc: wrap16(s.pc + mode_len(m)), ..s }
}

/// The basic flag rule: zero flag from the whole result, negative flag from
/// its bit 7.
pub open spec fn with_zn(s: CpuState, r: u8) -> CpuState {
    CpuState { z: r == 0, n: bit7(r), ..s }
}

/// A store: the value placed at the mode's effective address, the operand
/// bytes consumed, nothing else changed.
pub open spec fn store_state(s: CpuState, m: Mode, val: u8) -> CpuState {
    CpuState { mem: s.mem.update(ea(s, m) as int, val), ..advance(s, m) }
}

/// Add with carry: sum of accumulator, operand and carry-in. Carry out of
/// the 8-bit sum; signed overflow when the addends agree in sign and the
/// result does not.
pub open spec fn adc_state(s: CpuState, v: u8) -> CpuState {
    let t: int = s.a + v + (if s.c {
        1int
    } else {
        0int
    });
    let r: u8 = wrap8(t);
    with_zn(
        CpuState {
            a: r,
            c: t > 0xff,
            v: (bit7(s.a) == bit7(v)) && (bit7(r) != bit7(s.a)),
            ..s
        },
        r,
    )
}

/// Subtract with carry, defined as add-with-carry of the operand's
/// complement; the carry is cleared exactly on borrow.
pub open spec fn sbc_state(s: CpuState, v: u8) -> CpuState {
    adc_state(s, (0xff - v) as u8)
}

/// Compare: carry iff the register is not below the operand (unsigned),
/// zero iff equal, negative from bit 7 of the wrapped difference.
pub open spec fn cmp_state(s: CpuState, reg: u8, v: u8) -> CpuState {
    CpuState { c: reg >= v, z: reg == v, n: bit7(wrap8(reg - v)), ..s }
}

/// Bit test: zero flag from the masked accumulator, negative and overflow
/// from bits 7 and 6 of the operand itself.
pub open spec fn bit_state(s: CpuState, v: u8) -> CpuState {
    CpuState { z: (s.a & v) == 0, n: bit7(v), v: bit6(v), ..s }
}

/// Arithmetic shift left: the byte doubled modulo 256.
pub open spec fn asl_val(v: u8) -> u8 {
    wrap8(v * 2)
}

/// Logical shift right: the byte halved.
pub open spec fn lsr_val(v: u8) -> u8 {
    v / 2
}

/// Rotate left through carry: the old carry enters at bit 0.
pub open spec fn rol_val(v: u8, cin: bool) -> u8 {
    wrap8(
        v * 2 + (if cin {
            1int
        } else {
            0int
        }),
    )
}

/// Rotate right through carry: the old carry enters at bit 7.
pub open spec fn ror_val(v: u8, cin: bool) -> u8 {
    (v / 2 + (if cin {
        0x80int
    } else {
        0int
    })) as u8
}

/// The carry a shift or rotate produces: the bit that falls off.
pub open spec fn shift_carry(op: Op, v: u8) -> bool {
    match op {
        Op::Asl | Op::Rol => bit7(v),
        _ => v % 2 == 1,
    }
}

/// The byte a shift or rotate produces.
pub open spec fn shift_val(op: Op, v: u8, cin: bool) -> u8 {
    match op {
        Op::Asl => asl_val(v),
        Op::Lsr => lsr_val(v),
        Op::Rol => rol_val(v, cin),
        _ => ror_val(v, cin),
    }
}

/// The address the stack pointer designates: the stack lives in page 1.
pub open spec fn stack_addr(sp: u8) -> u16 {
    (0x100 + sp) as u16
}

/// A push stores at the stack address and decrements the stack pointer,
/// wrapping modulo 256.
pub open spec fn push_state(s: CpuState, val: u8) -> CpuState {
    CpuState { mem: s.mem.update(stack_addr(s.sp) as int, val), sp: wrap8(s.sp - 1), ..s }
}

/// A pull increments the stack pointer, wrapping modulo 256; this is the
/// state change alone.
pub open spec fn pull_state(s: CpuState) -> CpuState {
    CpuState { sp: wrap8(s.sp + 1), ..s }
}

/// The byte a pull returns: the byte at the incremented stack pointer.
pub open spec fn pull_value(s: CpuState) -> u8 {
    rd(s, stack_addr(wrap8(s.sp + 1)))
}

/// 0 or 1 as an integer.
pub open spec fn cb(b: bool) -> int {
    if b {
        1int
    } else {
        0int
    }
}

/// The status register packed as one byte: carry in bit 7, then zero,
/// interrupt-disable, decimal, break, overflow and negative; bit 0 unused.
pub open spec fn flags_byte(s: CpuState) -> u8 {
    (cb(s.c) * 0x80 + cb(s.z) * 0x40 + cb(s.i) * 0x20 + cb(s.d) * 0x10 + cb(s.b) * 8 + cb(s.v) * 4
        + cb(s.n) * 2) as u8
}

/// The flags restored from a packed status byte; bit 0 is ignored.
pub open spec fn with_flags_byte(s: CpuState, p: u8) -> CpuState {
    CpuState {
        c: (p as int / 0x80) % 2 == 1,
        z: (p as int / 0x40) % 2 == 1,
        i: (p as int / 0x20) % 2 == 1,
        d: (p as int / 0x10) % 2 == 1,
        b: (p as int / 8) % 2 == 1,
        v: (p as int / 4) % 2 == 1,
        n: (p as int / 2) % 2 == 1,
        ..s
    }
}

/// The destination of a branch: the displacement byte read as a signed
/// two's-complement offset from the address after the operand, wrapping
/// modulo 65536.
pub open spec fn branch_dest(pc: u16, off: u8) -> u16 {
    if off < 0x80 {
        wrap16(pc + off)
    } else {
        wrap16(pc + off - 0x100)
    }
}

/// A branch instruction: the displacement byte is consumed either way; the
/// jump happens only when the condition holds. `s.pc` points at the
/// displacement byte.
pub open spec fn branch_state(s: CpuState, cond: bool) -> CpuState {
    let off: u8 = rd(s, s.pc);
    let s1 = advance(s, Mode::Rel);
    if cond {
        CpuState { pc: branch_dest(s1.pc, off), ..s1 }
    } else {
        s1
    }
}

/// High byte of a word.
pub open spec fn hi8(w: u16) -> u8 {
    (w as int / 0x100) as u8
}

/// Low byte of a word.
pub open spec fn lo8(w: u16) -> u8 {
    (w as int % 0x100) as u8
}

/// The decode table: which operation and addressing mode an opcode byte
/// names. `None` is an opcode outside the implemented set; it executes as a
/// one-byte no-operation. Opaque: proofs about a known opcode reveal it.
#[verifier::opaque]
pub open spec fn decode(opcode: u8) -> Option<(Op, Mode)> {
    match opcode {
        0xa9u8 => Some((Op::Lda, Mode::Imm)),
        0xa5u8 => Some((Op::Lda, Mode::Zp)),
        0xb5u8 => Some((Op::Lda, Mode::ZpX)),
        0xadu8 => Some((Op::Lda, Mode::Abs)),
        0xbdu8 => Some((Op::Lda, Mode::AbsX)),
        0xb9u8 => Some((Op::Lda, Mode::AbsY)),
        0xa1u8 => Some((Op::Lda, Mode::IndX)),
        0xb1u8 => Some((Op::Lda, Mode::IndY)),
        0xa2u8 => Some((Op::Ldx, Mode::Imm)),
        0xa6u8 => Some((Op::Ldx, Mode::Zp)),
        0xb6u8 => Some((Op::Ldx, Mode::ZpY)),
        0xaeu8 => Some((Op::Ldx, Mode::Abs)),
        0xbeu8 => Some((Op::Ldx, Mode::AbsY)),
        0xa0u8 => Some((Op::Ldy, Mode::Imm)),
        0xa4u8 => Some((Op::Ldy, Mode::Zp)),
        0xb4u8 => Some((Op::Ldy, Mode::ZpX)),
        0xacu8 => Some((Op::Ldy, Mode::Abs)),
        0xbcu8 => Some((Op::Ldy, Mode::AbsX)),
        0x85u8 => Some((Op::Sta, Mode::Zp)),
        0x95u8 => Some((Op::Sta, Mode::ZpX)),
        0x8du8 => Some((Op::Sta, Mode::Abs)),
        0x9du8 => Some((Op::Sta, Mode::AbsX)),
        0x99u8 => Some((Op::Sta, Mode::AbsY)),
        0x81u8 => Some((Op::Sta, Mode::IndX)),
        0x91u8 => Some((Op::Sta, Mode::IndY)),
        0x86u8 => Some((Op::Stx, Mode::Zp)),
        0x96u8 => Some((Op::Stx, Mode::ZpY)),
        0x8eu8 => Some((Op::Stx, Mode::Abs)),
        0x84u8 => Some((Op::Sty, Mode::Zp)),
        0x94u8 => Some((Op::Sty, Mode::ZpX)),
        0x8cu8 => Some((Op::Sty, Mode::Abs)),
        0xaau8 => Some((Op::Tax, Mode::Imp)),
        0xa8u8 => Some((Op::Tay, Mode::Imp)),
        0xbau8 => Some((Op::Tsx, Mode::Imp)),
        0x8au8 => Some((Op::Txa, Mode::Imp)),
        0x9au8 => Some((Op::Txs, Mode::Imp)),
        0x98u8 => Some((Op::Tya, Mode::Imp)),
        0x48u8 => Some((Op::Pha, Mode::Imp)),
        0x08u8 => Some((Op::Php, Mode::Imp)),
        0x68u8 => Some((Op::Pla, Mode::Imp)),
        0x28u8 => Some((Op::Plp, Mode::Imp)),
        0x29u8 => Some((Op::And, Mode::Imm)),
        0x25u8 => Some((Op::And, Mode::Zp)),
        0x35u8 => Some((Op::And, Mode::ZpX)),
        0x2du8 => Some((Op::And, Mode::Abs)),
        0x3du8 => Some((Op::And, Mode::AbsX)),
        0x39u8 => Some((Op::And, Mode::AbsY)),
        0x21u8 => Some((Op::And, Mode::IndX)),
        0x31u8 => Some((Op::And, Mode::IndY)),
        0x49u8 => Some((Op::Eor, Mode::Imm)),
        0x45u8 => Some((Op::Eor, Mode::Zp)),
        0x55u8 => Some((Op::Eor, Mode::ZpX)),
        0x4du8 => Some((Op::Eor, Mode::Abs)),
        0x5du8 => Some((Op::Eor, Mode::AbsX)),
        0x59u8 => Some((Op::Eor, Mode::AbsY)),
        0x41u8 => Some((Op::Eor, Mode::IndX)),
        0x51u8 => Some((Op::Eor, Mode::IndY)),
        0x09u8 => Some((Op::Ora, Mode::Imm)),
        0x05u8 => Some((Op::Ora, Mode::Zp)),
        0x15u8 => Some((Op::Ora, Mode::ZpX)),
        0x0du8 => Some((Op::Ora, Mode::Abs)),
        0x1du8 => Some((Op::Ora, Mode::AbsX)),
        0x19u8 => Some((Op::Ora, Mode::AbsY)),
        0x01u8 => Some((Op::Ora, Mode::IndX)),
        0x11u8 => Some((Op::Ora, Mode::IndY)),
        0x24u8 => Some((Op::Bit, Mode::Zp)),
        0x2cu8 => Some((Op::Bit, Mode::Abs)),
        0x69u8 => Some((Op::Adc, Mode::Imm)),
        0x65u8 => Some((Op::Adc, Mode::Zp)),
        0x75u8 => Some((Op::Adc, Mode::ZpX)),
        0x6du8 => Some((Op::Adc, Mode::Abs)),
        0x7du8 => Some((Op::Adc, Mode::AbsX)),
        0x79u8 => Some((Op::Adc, Mode::AbsY)),
        0x61u8 => Some((Op::Adc, Mode::IndX)),
        0x71u8 => Some((Op::Adc, Mode::IndY)),
        0xe9u8 => Some((Op::Sbc, Mode::Imm)),
        0xe5u8 => Some((Op::Sbc, Mode::Zp)),
        0xf5u8 => Some((Op::Sbc, Mode::ZpX)),
        0xedu8 => Some((Op::Sbc, Mode::Abs)),
        0xfdu8 => Some((Op::Sbc, Mode::AbsX)),
        0xf9u8 => Some((Op::Sbc, Mode::AbsY)),
        0xe1u8 => Some((Op::Sbc, Mode::IndX)),
        0xf1u8 => Some((Op::Sbc, Mode::IndY)),
        0xc9u8 => Some((Op::Cmp, Mode::Imm)),
        0xc5u8 => Some((Op::Cmp, Mode::Zp)),
        0xd5u8 => Some((Op::Cmp, Mode::ZpX)),
        0xcdu8 => Some((Op::Cmp, Mode::Abs)),
        0xddu8 => Some((Op::Cmp, Mode::AbsX)),
        0xd9u8 => Some((Op::Cmp, Mode::AbsY)),
        0xc1u8 => Some((Op::Cmp, Mode::IndX)),
        0xd1u8 => Some((Op::Cmp, Mode::IndY)),
        0xe0u8 => Some((Op::Cpx, Mode::Imm)),
        0xe4u8 => Some((Op::Cpx, Mode::Zp)),
        0xecu8 => Some((Op::Cpx, Mode::Abs)),
        0xc0u8 => Some((Op::Cpy, Mode::Imm)),
        0xc4u8 => Some((Op::Cpy, Mode::Zp)),
        0xccu8 => Some((Op::Cpy, Mode::Abs)),
        0xe6u8 => Some((Op::Inc, Mode::Zp)),
        0xf6u8 => Some((Op::Inc, Mode::ZpX)),
        0xeeu8 => Some((Op::Inc, Mode::Abs)),
        0xfeu8 => Some((Op::Inc, Mode::AbsX)),
        0xe8u8 => Some((Op::Inx, Mode::Imp)),
        0xc8u8 => Some((Op::Iny, Mode::Imp)),
        0xc6u8 => Some((Op::Dec, Mode::Zp)),
        0xd6u8 => Some((Op::Dec, Mode::ZpX)),
        0xceu8 => Some((Op::Dec, Mode::Abs)),
        0xdeu8 => Some((Op::Dec, Mode::AbsX)),
        0xcau8 => Some((Op::Dex, Mode::Imp)),
        0x88u8 => Some((Op::Dey, Mode::Imp)),
        0x0au8 => Some((Op::Asl, Mode::Acc)),
        0x06u8 => Some((Op::Asl, Mode::Zp)),
        0x16u8 => Some((Op::Asl, Mode::ZpX)),
        0x0eu8 => Some((Op::Asl, Mode::Abs)),
        0x1eu8 => Some((Op::Asl, Mode::AbsX)),
        0x4au8 => Some((Op::Lsr, Mode::Acc)),
        0x46u8 => Some((Op::Lsr, Mode::Zp)),
        0x56u8 => Some((Op::Lsr, Mode::ZpX)),
        0x4eu8 => Some((Op::Lsr, Mode::Abs)),
        0x5eu8 => Some((Op::Lsr, Mode::AbsX)),
        0x2au8 => Some((Op::Rol, Mode::Acc)),
        0x26u8 => Some((Op::Rol, Mode::Zp)),
        0x36u8 => Some((Op::Rol, Mode::ZpX)),
        0x2eu8 => Some((Op::Rol, Mode::Abs)),
        0x3eu8 => Some((Op::Rol, Mode::AbsX)),
        0x6au8 => Some((Op::Ror, Mode::Acc)),
        0x66u8 => Some((Op::Ror, Mode::Zp)),
        0x76u8 => Some((Op::Ror, Mode::ZpX)),
        0x6eu8 => Some((Op::Ror, Mode::Abs)),
        0x7eu8 => Some((Op::Ror, Mode::AbsX)),
        0x4cu8 => Some((Op::Jmp, Mode::Abs)),
        0x6cu8 => Some((Op::Jmp, Mode::Ind)),
        0x20u8 => Some((Op::Jsr, Mode::Abs)),
        0x60u8 => Some((Op::Rts, Mode::Imp)),
        0x40u8 => Some((Op::Rti, Mode::Imp)),
        0x90u8 => Some((Op::Bcc, Mode::Rel)),
        0xb0u8 => Some((Op::Bcs, Mode::Rel)),
        0xf0u8 => Some((Op::Beq, Mode::Rel)),
        0x30u8 => Some((Op::Bmi, Mode::Rel)),
        0xd0u8 => Some((Op::Bne, Mode::Rel)),
        0x10u8 => Some((Op::Bpl, Mode::Rel)),
        0x50u8 => Some((Op::Bvc, Mode::Rel)),
        0x70u8 => Some((Op::Bvs, Mode::Rel)),
        0x18u8 => Some((Op::Clc, Mode::Imp)),
        0xd8u8 => Some((Op::Cld, Mode::Imp)),
        0x58u8 => Some((Op::Cli, Mode::Imp)),
        0xb8u8 => Some((Op::Clv, Mode::Imp)),
        0x38u8 => Some((Op::Sec, Mode::Imp)),
        0xf8u8 => Some((Op::Sed, Mode::Imp)),
        0x78u8 => Some((Op::Sei, Mode::Imp)),
        0xeau8 => Some((Op::Nop, Mode::Imp)),
        _ => None,
    }
}

/// The addressing modes that can accompany each operation in the decode
/// table.
pub open spec fn mode_ok(op: Op, m: Mode) -> bool {
    match op {
        Op::Lda | Op::Ldx | Op::Ldy | Op::And | Op::Eor | Op::Ora | Op::Adc | Op::Sbc | Op::Cmp
            | Op::Cpx | Op::Cpy | Op::Bit => reads_value(m),
        Op::Sta | Op::Stx | Op::Sty | Op::Inc | Op::Dec | Op::Jmp => has_ea(m),
        Op::Asl | Op::Lsr | Op::Rol | Op::Ror => m is Acc || has_ea(m),
        Op::Jsr => m is Abs,
        _ => true,
    }
}

/// Every entry of the decode table pairs its operation with a mode the
/// operation accepts.
pub proof fn lemma_decode_mode_ok(opcode: u8)
    ensures
        decode(opcode) matches Some((op, m)) ==> mode_ok(op, m),
{
    reveal(decode);
}

/// The meaning of one decoded instruction. `s.pc` points at the first
/// operand byte (the opcode is already consumed).
pub open spec fn exec_op(s: CpuState, op: Op, m: Mode) -> CpuState {
    match op {
        Op::Lda => {
            let v: u8 = operand(s, m);
            with_zn(CpuState { a: v, ..advance(s, m) }, v)
        },
        Op::Ldx => {
            let v: u8 = operand(s, m);
            with_zn(CpuState { x: v, ..advance(s, m) }, v)
        },
        Op::Ldy => {
            let v: u8 = operand(s, m);
            with_zn(CpuState { y: v, ..advance(s, m) }, v)
        },
        Op::Sta => store_state(s, m, s.a),
        Op::Stx => store_state(s, m, s.x),
        Op::Sty => store_state(s, m, s.y),
        Op::Tax => with_zn(CpuState { x: s.a, ..s }, s.a),
        Op::Tay => with_zn(CpuState { y: s.a, ..s }, s.a),
        Op::Tsx => with_zn(CpuState { x: s.sp, ..s }, s.sp),
        Op::Txa => with_zn(CpuState { a: s.x, ..s }, s.x),
        Op::Txs => CpuState { sp: s.x, ..s },
        Op::Tya => with_zn(CpuState { a: s.y, ..s }, s.y),
        Op::Pha => push_state(s, s.a),
        Op::Php => push_state(s, flags_byte(s)),
        Op::Pla => {
            let v: u8 = pull_value(s);
            with_zn(CpuState { a: v, ..pull_state(s) }, v)
        },
        Op::Plp => with_flags_byte(pull_state(s), pull_value(s)),
        Op::And => {
            let r: u8 = s.a & operand(s, m);
            with_zn(CpuState { a: r, ..advance(s, m) }, r)
        },
        Op::Eor => {
            let r: u8 = s.a ^ operand(s, m);
            with_zn(CpuState { a: r, ..advance(s, m) }, r)
        },
        Op::Ora => {
            let r: u8 = s.a | operand(s, m);
            with_zn(CpuState { a: r, ..advance(s, m) }, r)
        },
        Op::Bit => bit_state(advance(s, m), operand(s, m)),
        Op::Adc => adc_state(advance(s, m), operand(s, m)),
        Op::Sbc => sbc_state(advance(s, m), operand(s, m)),
        Op::Cmp => cmp_state(advance(s, m), s.a, operand(s, m)),
        Op::Cpx => cmp_state(advance(s, m), s.x, operand(s, m)),
        Op::Cpy => cmp_state(advance(s, m), s.y, operand(s, m)),
        Op::Inc => {
            let r: u8 = wrap8(operand(s, m) + 1);
            with_zn(CpuState { mem: s.mem.update(ea(s, m) as int, r), ..advance(s, m) }, r)
        },
        Op::Dec => {
            let r: u8 = wrap8(operand(s, m) - 1);
            with_zn(CpuState { mem: s.mem.update(ea(s, m) as int, r), ..advance(s, m) }, r)
        },
        Op::Inx => with_zn(CpuState { x: wrap8(s.x + 1), ..s }, wrap8(s.x + 1)),
        Op::Iny => with_zn(CpuState { y: wrap8(s.y + 1), ..s }, wrap8(s.y + 1)),
        Op::Dex => with_zn(CpuState { x: wrap8(s.x - 1), ..s }, wrap8(s.x - 1)),
        Op::Dey => with_zn(CpuState { y: wrap8(s.y - 1), ..s }, wrap8(s.y - 1)),
        Op::Asl | Op::Lsr | Op::Rol | Op::Ror => {
            match m {
                Mode::Acc => {
                    let r: u8 = shift_val(op, s.a, s.c);
                    with_zn(CpuState { a: r, c: shift_carry(op, s.a), ..s }, r)
                },
                _ => {
                    let v: u8 = operand(s, m);
                    let r: u8 = shift_val(op, v, s.c);
                    with_zn(
                        CpuState {
                            mem: s.mem.update(ea(s, m) as int, r),
                            c: shift_carry(op, v),
                            ..advance(s, m)
                        },
                        r,
                    )
                },
            }
        },
        Op::Jmp => CpuState { pc: ea(s, m), ..s },
        Op::Jsr => {
            let target: u16 = ea(s, m);
            let ret: u16 = wrap16(s.pc + 1);
            let s1 = push_state(s, hi8(ret));
            let s2 = push_state(s1, lo8(ret));
            CpuState { pc: target, ..s2 }
        },
        Op::Rts => {
            let lo: u8 = pull_value(s);
            let s1 = pull_state(s);
            let hi: u8 = pull_value(s1);
            let s2 = pull_state(s1);
            CpuState { pc: wrap16(hi * 0x100 + lo + 1), ..s2 }
        },
        Op::Rti => {
            let p: u8 = pull_value(s);
            let s1 = pull_state(s);
            let lo: u8 = pull_value(s1);
            let s2 = pull_state(s1);
            let hi: u8 = pull_value(s2);
            let s3 = pull_state(s2);
            CpuState { pc: (hi * 0x100 + lo) as u16, ..with_flags_byte(s3, p) }
        },
        Op::Bcc => branch_state(s, !s.c),
        Op::Bcs => branch_state(s, s.c),
        Op::Beq => branch_state(s, s.z),
        Op::Bmi => branch_state(s, s.n),
        Op::Bne => branch_state(s, !s.z),
        Op::Bpl => branch_state(s, !s.n),
        Op::Bvc => branch_state(s, !s.v),
        Op::Bvs => branch_state(s, s.v),
        Op::Clc => CpuState { c: false, ..s },
        Op::Cld => CpuState { d: false, ..s },
        Op::Cli => CpuState { i: false, ..s },
        Op::Clv => CpuState { v: false, ..s },
        Op::Sec => CpuState { c: true, ..s },
        Op::Sed => CpuState { d: true, ..s },
        Op::Sei => CpuState { i: true, ..s },
        Op::Nop => s,
    }
}

/// The affected result of an instruction: the byte from which the basic
/// flag rule sets the zero and negative flags, where the instruction has
/// one. `s.pc` points at the first operand byte. The bit test is the stated
/// exception (its negative flag comes from the operand, not from a result),
/// as are the instructions that restore the whole status byte from the
/// stack; both answer `None` here.
pub open spec fn affected_result(s: CpuState, op: Op, m: Mode) -> Option<u8> {
    match op {
        Op::Lda | Op::Ldx | Op::Ldy => Some(operand(s, m)),
        Op::Tax | Op::Tay => Some(s.a),
        Op::Tsx => Some(s.sp),
        Op::Txa => Some(s.x),
        Op::Tya => Some(s.y),
        Op::Pla => Some(pull_value(s)),
        Op::And => Some(s.a & operand(s, m)),
        Op::Eor => Some(s.a ^ operand(s, m)),
        Op::Ora => Some(s.a | operand(s, m)),
        Op::Adc => Some(
            wrap8(
                s.a + operand(s, m) + (if s.c {
                    1int
                } else {
                    0int
                }),
            ),
        ),
        Op::Sbc => Some(
            wrap8(
                s.a + (0xff - operand(s, m)) + (if s.c {
                    1int
                } else {
                    0int
                }),
            ),
        ),
        Op::Cmp => Some(wrap8(s.a - operand(s, m))),
        Op::Cpx => Some(wrap8(s.x - operand(s, m))),
        Op::Cpy => Some(wrap8(s.y - operand(s, m))),
        Op::Inc => Some(wrap8(operand(s, m) + 1)),
        Op::Dec => Some(wrap8(operand(s, m) - 1)),
        Op::Inx => Some(wrap8(s.x + 1)),
        Op::Iny => Some(wrap8(s.y + 1)),
        Op::Dex => Some(wrap8(s.x - 1)),
        Op::Dey => Some(wrap8(s.y - 1)),
        Op::Asl | Op::Lsr | Op::Rol | Op::Ror => Some(
            shift_val(
                op,
                if m is Acc {
                    s.a
                } else {
                    operand(s, m)
                },
                s.c,
            ),
        ),
        _ => None,
    }
}

/// The meaning of one instruction from a state whose program counter points
/// at the opcode: fetch, decode, dispatch. An opcode outside the table
/// consumes one byte and does nothing else.
pub open spec fn step_state(s: CpuState) -> CpuState {
    let opcode: u8 = rd(s, s.pc);
    let s1 = CpuState { pc: wrap16(s.pc + 1), ..s };
    match decode(opcode) {
        None => s1,
        Some((op, m)) => exec_op(s1, op, m),
    }
}

/// Repeated instruction steps: stops when the program counter reaches the
/// top of the address space, or when the fuel runs out.
pub open spec fn run_state(s: CpuState, fuel: nat) -> CpuState
    decreases fuel,
{
    if fuel == 0 || s.pc >= 0xffff {
        s
    } else {
        run_state(step_state(s), (fuel - 1) as nat)
    }
}

/// How many instruction steps [`run_state`] takes before it stops.
pub open spec fn run_steps(s: CpuState, fuel: nat) -> nat
    decreases fuel,
{
    if fuel == 0 || s.pc >= 0xffff {
        0
    } else {
        1 + run_steps(step_state(s), (fuel - 1) as nat)
    }
}

/// The machine after reset with a program mapped at the program-ROM window:
/// registers clear, stack pointer at its reset value, status byte 0x34
/// (interrupt-disable, decimal and overflow set), program counter at the
/// start of the window, and memory zero outside the program bytes.
pub open spec fn initial_state(prg: Seq<u8>) -> CpuState {
    CpuState {
        a: 0,
        x: 0,
        y: 0,
        pc: 0x4020,
        sp: 0xfd,
        c: false,
        z: false,
        i: true,
        d: true,
        b: false,
        v: true,
        n: false,
        mem: Seq::new(
            0x10000,
            |j: int|
                if 0x4020 <= j < 0x4020 + prg.len() {
                    prg[j - 0x4020]
                } else {
                    0u8
                },
        ),
    }
}

} // verus!
