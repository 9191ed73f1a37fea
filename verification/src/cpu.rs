//! The executable interpreter: registers, status flags, addressing-mode
//! resolution, the instruction kernels, the stack, and the fetch-decode-
//! dispatch loop. Every method is verified against the model in
//! [`crate::model`]: [`Cpu::step`] performs exactly [`step_state`] and
//! [`Cpu::run`] exactly [`run_state`].

use vstd::prelude::*;
use vstd::arithmetic::div_mod::lemma_mod_add_multiples_vanish;
use crate::mem::Memory;
use crate::model::{
    adc_state, advance, bit_state, branch_dest, cmp_state, decode, ea, exec_op, flags_byte,
    has_ea, initial_state, lemma_decode_mode_ok, lemma_wrap16_add, operand, pull_state,
    pull_value, push_state, rd, reads_value, run_state, run_steps, sbc_state, shift_carry,
    shift_val, step_state, store_state, with_flags_byte, with_zn, wrap16, wrap8, CpuState, Mode,
    Op,
};
use crate::rom::Rom;

verus! {

/// Addition of a 16-bit displacement, wrapping modulo 65536.
fn wrap_add16(a: u16, off: u16) -> (r: u16)
    ensures
        r == wrap16(a + off),
{
    (((a as u32) + (off as u32)) % 0x10000) as u16
}

/// Subtraction of a 16-bit displacement, wrapping modulo 65536.
fn wrap_sub16(a: u16, off: u16) -> (r: u16)
    ensures
        r == wrap16(a - off),
{
    proof {
        lemma_mod_add_multiples_vanish(a - off, 0x10000);
    }
    (((a as u32) + 0x10000 - (off as u32)) % 0x10000) as u16
}

/// Byte addition, wrapping modulo 256.
fn wrap_add8(a: u8, off: u8) -> (r: u8)
    ensures
        r == wrap8(a + off),
{
    (((a as u16) + (off as u16)) % 0x100) as u8
}

/// Byte subtraction, wrapping modulo 256.
fn wrap_sub8(a: u8, off: u8) -> (r: u8)
    ensures
        r == wrap8(a - off),
{
    proof {
        lemma_mod_add_multiples_vanish(a - off, 0x100);
    }
    (((a as u16) + 0x100 - (off as u16)) % 0x100) as u8
}

/// The processor: registers, flags and the memory it owns.
pub struct Cpu {
    pub a: u8,
    pub x: u8,
    pub y: u8,
    pub pc: u16,
    pub sp: u8,
    /// Carry flag.
    pub c: bool,
    /// Zero flag.
    pub z: bool,
    /// Interrupt-disable flag.
    pub i: bool,
    /// Decimal flag.
    pub d: bool,
    /// Break flag.
    pub b: bool,
    /// Overflow flag.
    pub v: bool,
    /// Negative flag.
    pub n: bool,
    pub memory: Memory,
}

impl View for Cpu {
    type V = CpuState;

    open spec fn view(&self) -> CpuState {
        CpuState {
            a: self.a,
            x: self.x,
            y: self.y,
            pc: self.pc,
            sp: self.sp,
            c: self.c,
            z: self.z,
            i: self.i,
            d: self.d,
            b: self.b,
            v: self.v,
            n: self.n,
            mem: self.memory@,
        }
    }
}

impl Cpu {
    /// The processor is well formed when its memory spans the whole address
    /// space.
    pub open spec fn wf(&self) -> bool {
        self.memory.wf()
    }

    /// A freshly reset processor with the cartridge's program bytes mapped at
    /// the program-ROM window and the program counter at its start.
    pub fn new(rom: Rom) -> (r: Cpu)
        requires
            rom.prg_rom@.len() <= 0x10000 - 0x4020,
        ensures
            r.wf(),
            r@ == initial_state(rom.prg_rom@),
    {
        let ghost prg = rom.prg_rom@;
        let mut memory = Memory::new();
        memory.load_rom(rom);
        let cpu = Cpu {
            a: 0,
            x: 0,
            y: 0,
            pc: 0x4020,
            sp: 0xfd,
            c: false,
            z: false,
            i: true,
            d: true,
            b: false,
            v: true,
            n: false,
            memory,
        };
        proof {
            assert(cpu@.mem =~= initial_state(prg).mem);
            assert(cpu@ =~= initial_state(prg));
        }
        cpu
    }

    /// Fetches the byte at the program counter and advances the counter,
    /// wrapping modulo 65536.
    fn next_instruction(&mut self) -> (r: u8)
        requires
            old(self).wf(),
        ensures
            final(self).wf(),
            r == rd(old(self)@, old(self)@.pc),
            final(self)@ == (CpuState { pc: wrap16(old(self)@.pc + 1), ..old(self)@ }),
    {
        let r = self.memory.read(self.pc);
        self.pc = wrap_add16(self.pc, 1);
        r
    }

    // --- status flags ---

    /// Sets or clears the carry flag; nothing else changes.
    pub fn set_carry_flag(&mut self, carry: bool)
        ensures
            final(self)@ == (CpuState { c: carry, ..old(self)@ }),
    {
        self.c = carry;
    }

    /// The carry flag as 0 or 1.
    pub fn get_carry_flag(&self) -> (r: u8)
        ensures
            r == (if self@.c {
                1u8
            } else {
                0u8
            }),
    {
        if self.c {
            1
        } else {
            0
        }
    }

    /// Sets or clears the zero flag; nothing else changes.
    pub fn set_zero_flag(&mut self, zero: bool)
        ensures
            final(self)@ == (CpuState { z: zero, ..old(self)@ }),
    {
        self.z = zero;
    }

    /// The zero flag as 0 or 1.
    pub fn get_zero_flag(&self) -> (r: u8)
        ensures
            r == (if self@.z {
                1u8
            } else {
                0u8
            }),
    {
        if self.z {
            1
        } else {
            0
        }
    }

    /// The negative flag as 0 or 1.
    pub fn get_negative_flag(&self) -> (r: u8)
        ensures
            r == (if self@.n {
                1u8
            } else {
                0u8
            }),
    {
        if self.n {
            1
        } else {
            0
        }
    }

    /// The overflow flag as 0 or 1.
    pub fn get_overflow_flag(&self) -> (r: u8)
        ensures
            r == (if self@.v {
                1u8
            } else {
                0u8
            }),
    {
        if self.v {
            1
        } else {
            0
        }
    }

    /// Sets or clears the interrupt-disable flag; nothing else changes.
    pub fn set_interrupt_disable(&mut self, interrupt_disable: bool)
        ensures
            final(self)@ == (CpuState { i: interrupt_disable, ..old(self)@ }),
    {
        self.i = interrupt_disable;
    }

    /// Sets or clears the decimal flag; nothing else changes.
    pub fn set_decimal_mode(&mut self, decimal_mode: bool)
        ensures
            final(self)@ == (CpuState { d: decimal_mode, ..old(self)@ }),
    {
        self.d = decimal_mode;
    }

    /// Sets or clears the break flag; nothing else changes.
    pub fn set_break_command(&mut self, break_command: bool)
        ensures
            final(self)@ == (CpuState { b: break_command, ..old(self)@ }),
    {
        self.b = break_command;
    }

    /// Sets or clears the overflow flag; nothing else changes.
    pub fn set_overflow(&mut self, overflow: bool)
        ensures
            final(self)@ == (CpuState { v: overflow, ..old(self)@ }),
    {
        self.v = overflow;
    }

    /// Sets or clears the negative flag; nothing else changes.
    pub fn set_negative(&mut self, negative: bool)
        ensures
            final(self)@ == (CpuState { n: negative, ..old(self)@ }),
    {
        self.n = negative;
    }

    /// Packs the status flags into one byte, carry in bit 7 down to negative
    /// in bit 1.
    pub fn flags_to_byte(&self) -> (r: u8)
        ensures
            r == flags_byte(self@),
    {
        let mut r: u8 = 0;
        if self.c {
            r = r + 0x80;
        }
        if self.z {
            r = r + 0x40;
        }
        if self.i {
            r = r + 0x20;
        }
        if self.d {
            r = r + 0x10;
        }
        if self.b {
            r = r + 8;
        }
        if self.v {
            r = r + 4;
        }
        if self.n {
            r = r + 2;
        }
        r
    }

    /// Restores all seven flags from a packed status byte.
    pub fn set_flags_byte(&mut self, p: u8)
        ensures
            final(self)@ == with_flags_byte(old(self)@, p),
    {
        self.c = (p / 0x80) % 2 == 1;
        self.z = (p / 0x40) % 2 == 1;
        self.i = (p / 0x20) % 2 == 1;
        self.d = (p / 0x10) % 2 == 1;
        self.b = (p / 8) % 2 == 1;
        self.v = (p / 4) % 2 == 1;
        self.n = (p / 2) % 2 == 1;
    }

    // --- instruction kernels ---

    /// The basic flag rule: zero from the whole result byte, negative from
    /// its bit 7.
    pub fn assign_basic_flags(&mut self, val: u8)
        ensures
            final(self)@ == with_zn(old(self)@, val),
    {
        self.z = val == 0;
        self.n = val >= 0x80;
    }

    /// Loads the accumulator and applies the basic flag rule.
    pub fn lda(&mut self, val: u8)
        ensures
            final(self)@ == with_zn((CpuState { a: val, ..old(self)@ }), val),
    {
        self.a = val;
        self.assign_basic_flags(val);
    }

    /// Loads the X register and applies the basic flag rule.
    pub fn ldx(&mut self, val: u8)
        ensures
            final(self)@ == with_zn((CpuState { x: val, ..old(self)@ }), val),
    {
        self.x = val;
        self.assign_basic_flags(val);
    }

    /// Loads the Y register and applies the basic flag rule.
    pub fn ldy(&mut self, val: u8)
        ensures
            final(self)@ == with_zn((CpuState { y: val, ..old(self)@ }), val),
    {
        self.y = val;
        self.assign_basic_flags(val);
    }

    /// Bit test: zero from the masked accumulator, negative and overflow
    /// from bits 7 and 6 of the operand itself.
    pub fn bit_test(&mut self, val: u8)
        ensures
            final(self)@ == bit_state(old(self)@, val),
    {
        self.z = (self.a & val) == 0;
        self.n = val >= 0x80;
        self.v = (val / 0x40) % 2 == 1;
    }

    /// Add with carry: sets carry on carry-out of the 8-bit sum, overflow by
    /// the signed rule, and the basic flags from the result.
    pub fn adc(&mut self, val: u8)
        ensures
            final(self)@ == adc_state(old(self)@, val),
    {
        let a0 = self.a;
        let cin: u16 = if self.c {
            1
        } else {
            0
        };
        let t: u16 = a0 as u16 + val as u16 + cin;
        let r: u8 = (t % 0x100) as u8;
        self.a = r;
        self.c = t > 0xff;
        self.z = r == 0;
        self.n = r >= 0x80;
        self.v = ((a0 >= 0x80) == (val >= 0x80)) && ((r >= 0x80) != (a0 >= 0x80));
    }

    /// Subtract with carry: add-with-carry of the operand's complement, so
    /// the carry is cleared exactly on borrow.
    pub fn sbc(&mut self, val: u8)
        ensures
            final(self)@ == sbc_state(old(self)@, val),
    {
        self.adc(0xff - val);
    }

    /// Compare: carry iff the register is not below the operand, zero iff
    /// equal, negative from bit 7 of the wrapped difference.
    pub fn cmp(&mut self, val_1: u8, val_2: u8)
        ensures
            final(self)@ == cmp_state(old(self)@, val_1, val_2),
    {
        self.c = val_1 >= val_2;
        self.z = val_1 == val_2;
        let diff: u8 = if val_1 >= val_2 {
            val_1 - val_2
        } else {
            proof {
                lemma_mod_add_multiples_vanish(val_1 - val_2, 0x100);
            }
            ((0x100u16 + val_1 as u16) - val_2 as u16) as u8
        };
        self.n = diff >= 0x80;
    }

    // --- stack ---

    /// Pushes a byte at the stack address and decrements the stack pointer,
    /// wrapping modulo 256.
    pub fn stack_push(&mut self, val: u8)
        requires
            old(self).wf(),
        ensures
            final(self).wf(),
            final(self)@ == push_state(old(self)@, val),
    {
        let addr: u16 = 0x100 + self.sp as u16;
        self.memory.write(val, addr);
        self.sp = wrap_sub8(self.sp, 1);
    }

    /// Increments the stack pointer, wrapping modulo 256, and returns the
    /// byte at the new stack address.
    pub fn stack_pull(&mut self) -> (r: u8)
        requires
            old(self).wf(),
        ensures
            final(self).wf(),
            final(self)@ == pull_state(old(self)@),
            r == pull_value(old(self)@),
    {
        self.sp = wrap_add8(self.sp, 1);
        let addr: u16 = 0x100 + self.sp as u16;
        self.memory.read(addr)
    }

    // --- addressing modes ---

    /// Resolves a mode's effective address, consuming its operand bytes.
    fn resolve_addr(&mut self, m: Mode) -> (r: u16)
        requires
            old(self).wf(),
            has_ea(m),
        ensures
            final(self).wf(),
            final(self)@ == advance(old(self)@, m),
            r == ea(old(self)@, m),
    {
        match m {
            Mode::Zp => {
                let lo = self.next_instruction();
                lo as u16
            },
            Mode::ZpX => {
                let lo = self.next_instruction();
                wrap_add8(lo, self.x) as u16
            },
            Mode::ZpY => {
                let lo = self.next_instruction();
                wrap_add8(lo, self.y) as u16
            },
            Mode::Abs => self.get_absolute_addr(),
            Mode::AbsX => {
                let w = self.get_absolute_addr();
                wrap_add16(w, self.x as u16)
            },
            Mode::AbsY => {
                let w = self.get_absolute_addr();
                wrap_add16(w, self.y as u16)
            },
            Mode::Ind => self.get_indirect_addr(),
            Mode::IndX => {
                let base = self.next_instruction();
                let ptr: u16 = wrap_add8(base, self.x) as u16;
                let lo = self.memory.read(ptr);
                let hi = self.memory.read(wrap_add16(ptr, 1));
                (hi as u16) * 0x100 + (lo as u16)
            },
            Mode::IndY => {
                let base = self.next_instruction();
                let lo = self.memory.read(base as u16);
                let hi = self.memory.read(wrap_add16(base as u16, 1));
                wrap_add16((hi as u16) * 0x100 + (lo as u16), self.y as u16)
            },
            Mode::Imp | Mode::Acc | Mode::Imm | Mode::Rel => {
                proof {
                    assert(false);
                }
                0
            },
        }
    }

    /// Reads the immediate operand: the byte after the opcode.
    pub fn get_imm(&mut self) -> (r: u8)
        requires
            old(self).wf(),
        ensures
            final(self).wf(),
            final(self)@ == advance(old(self)@, Mode::Imm),
            r == operand(old(self)@, Mode::Imm),
    {
        self.next_instruction()
    }

    /// Reads the zero-page operand.
    pub fn get_zero_page(&mut self) -> (r: u8)
        requires
            old(self).wf(),
        ensures
            final(self).wf(),
            final(self)@ == advance(old(self)@, Mode::Zp),
            r == operand(old(self)@, Mode::Zp),
    {
        let addr = self.resolve_addr(Mode::Zp);
        self.memory.read(addr)
    }

    /// Reads the zero-page operand indexed by X, wrapping inside page 0.
    pub fn get_zero_page_x(&mut self) -> (r: u8)
        requires
            old(self).wf(),
        ensures
            final(self).wf(),
            final(self)@ == advance(old(self)@, Mode::ZpX),
            r == operand(old(self)@, Mode::ZpX),
    {
        let addr = self.resolve_addr(Mode::ZpX);
        self.memory.read(addr)
    }

    /// Reads the zero-page operand indexed by Y, wrapping inside page 0.
    pub fn get_zero_page_y(&mut self) -> (r: u8)
        requires
            old(self).wf(),
        ensures
            final(self).wf(),
            final(self)@ == advance(old(self)@, Mode::ZpY),
            r == operand(old(self)@, Mode::ZpY),
    {
        let addr = self.resolve_addr(Mode::ZpY);
        self.memory.read(addr)
    }

    /// Reads the two-byte absolute address, low byte first.
    pub fn get_absolute_addr(&mut self) -> (r: u16)
        requires
            old(self).wf(),
        ensures
            final(self).wf(),
            final(self)@ == advance(old(self)@, Mode::Abs),
            r == ea(old(self)@, Mode::Abs),
    {
        let lo = self.next_instruction();
        let hi = self.next_instruction();
        proof {
            lemma_wrap16_add(old(self)@.pc + 1, 1);
        }
        (hi as u16) * 0x100 + (lo as u16)
    }

    /// Reads the two-byte absolute address and dereferences it as a 16-bit
    /// little-endian pointer (the indirect jump).
    pub fn get_indirect_addr(&mut self) -> (r: u16)
        requires
            old(self).wf(),
        ensures
            final(self).wf(),
            final(self)@ == advance(old(self)@, Mode::Ind),
            r == ea(old(self)@, Mode::Ind),
    {
        let ptr = self.get_absolute_addr();
        let lo = self.memory.read(ptr);
        let hi = self.memory.read(wrap_add16(ptr, 1));
        (hi as u16) * 0x100 + (lo as u16)
    }

    /// Reads the absolute operand.
    pub fn get_absolute(&mut self) -> (r: u8)
        requires
            old(self).wf(),
        ensures
            final(self).wf(),
            final(self)@ == advance(old(self)@, Mode::Abs),
            r == operand(old(self)@, Mode::Abs),
    {
        let addr = self.resolve_addr(Mode::Abs);
        self.memory.read(addr)
    }

    /// Reads the absolute operand indexed by X, wrapping modulo 65536.
    pub fn get_absolute_x(&mut self) -> (r: u8)
        requires
            old(self).wf(),
        ensures
            final(self).wf(),
            final(self)@ == advance(old(self)@, Mode::AbsX),
            r == operand(old(self)@, Mode::AbsX),
    {
        let addr = self.resolve_addr(Mode::AbsX);
        self.memory.read(addr)
    }

    /// Reads the absolute operand indexed by Y, wrapping modulo 65536.
    pub fn get_absolute_y(&mut self) -> (r: u8)
        requires
            old(self).wf(),
        ensures
            final(self).wf(),
            final(self)@ == advance(old(self)@, Mode::AbsY),
            r == operand(old(self)@, Mode::AbsY),
    {
        let addr = self.resolve_addr(Mode::AbsY);
        self.memory.read(addr)
    }

    /// Reads the indexed-indirect operand: pointer in page 0 at the operand
    /// byte plus X.
    pub fn get_indirect_x(&mut self) -> (r: u8)
        requires
            old(self).wf(),
        ensures
            final(self).wf(),
            final(self)@ == advance(old(self)@, Mode::IndX),
            r == operand(old(self)@, Mode::IndX),
    {
        let addr = self.resolve_addr(Mode::IndX);
        self.memory.read(addr)
    }

    /// Reads the indirect-indexed operand: pointer in page 0 at the operand
    /// byte, plus Y after dereferencing.
    pub fn get_indirect_y(&mut self) -> (r: u8)
        requires
            old(self).wf(),
        ensures
            final(self).wf(),
            final(self)@ == advance(old(self)@, Mode::IndY),
            r == operand(old(self)@, Mode::IndY),
    {
        let addr = self.resolve_addr(Mode::IndY);
        self.memory.read(addr)
    }

    /// Stores a byte through the zero-page mode.
    pub fn write_zero_page(&mut self, val: u8)
        requires
            old(self).wf(),
        ensures
            final(self).wf(),
            final(self)@ == store_state(old(self)@, Mode::Zp, val),
    {
        let addr = self.resolve_addr(Mode::Zp);
        self.memory.write(val, addr);
    }

    /// Stores a byte through the zero-page mode indexed by X.
    pub fn write_zero_page_x(&mut self, val: u8)
        requires
            old(self).wf(),
        ensures
            final(self).wf(),
            final(self)@ == store_state(old(self)@, Mode::ZpX, val),
    {
        let addr = self.resolve_addr(Mode::ZpX);
        self.memory.write(val, addr);
    }

    /// Stores a byte through the zero-page mode indexed by Y.
    pub fn write_zero_page_y(&mut self, val: u8)
        requires
            old(self).wf(),
        ensures
            final(self).wf(),
            final(self)@ == store_state(old(self)@, Mode::ZpY, val),
    {
        let addr = self.resolve_addr(Mode::ZpY);
        self.memory.write(val, addr);
    }

    /// Stores a byte through the absolute mode.
    pub fn write_absolute(&mut self, val: u8)
        requires
            old(self).wf(),
        ensures
            final(self).wf(),
            final(self)@ == store_state(old(self)@, Mode::Abs, val),
    {
        let addr = self.resolve_addr(Mode::Abs);
        self.memory.write(val, addr);
    }

    /// Stores a byte through the absolute mode indexed by X.
    pub fn write_absolute_x(&mut self, val: u8)
        requires
            old(self).wf(),
        ensures
            final(self).wf(),
            final(self)@ == store_state(old(self)@, Mode::AbsX, val),
    {
        let addr = self.resolve_addr(Mode::AbsX);
        self.memory.write(val, addr);
    }

    /// Stores a byte through the absolute mode indexed by Y.
    pub fn write_absolute_y(&mut self, val: u8)
        requires
            old(self).wf(),
        ensures
            final(self).wf(),
            final(self)@ == store_state(old(self)@, Mode::AbsY, val),
    {
        let addr = self.resolve_addr(Mode::AbsY);
        self.memory.write(val, addr);
    }

    /// Stores a byte through the indexed-indirect mode.
    pub fn write_indirect_x(&mut self, val: u8)
        requires
            old(self).wf(),
        ensures
            final(self).wf(),
            final(self)@ == store_state(old(self)@, Mode::IndX, val),
    {
        let addr = self.resolve_addr(Mode::IndX);
        self.memory.write(val, addr);
    }

    /// Stores a byte through the indirect-indexed mode.
    pub fn write_indirect_y(&mut self, val: u8)
        requires
            old(self).wf(),
        ensures
            final(self).wf(),
            final(self)@ == store_state(old(self)@, Mode::IndY, val),
    {
        let addr = self.resolve_addr(Mode::IndY);
        self.memory.write(val, addr);
    }

    /// Resolves a value-producing mode to its operand.
    fn read_operand(&mut self, m: Mode) -> (r: u8)
        requires
            old(self).wf(),
            reads_value(m),
        ensures
            final(self).wf(),
            final(self)@ == advance(old(self)@, m),
            r == operand(old(self)@, m),
    {
        match m {
            Mode::Imm => self.get_imm(),
            Mode::Zp => self.get_zero_page(),
            Mode::ZpX => self.get_zero_page_x(),
            Mode::ZpY => self.get_zero_page_y(),
            Mode::Abs => self.get_absolute(),
            Mode::AbsX => self.get_absolute_x(),
            Mode::AbsY => self.get_absolute_y(),
            Mode::IndX => self.get_indirect_x(),
            Mode::IndY => self.get_indirect_y(),
            Mode::Imp | Mode::Acc | Mode::Ind | Mode::Rel => {
                proof {
                    assert(false);
                }
                0
            },
        }
    }

    /// Stores a byte through an address-producing mode.
    fn write_operand(&mut self, m: Mode, val: u8)
        requires
            old(self).wf(),
            has_ea(m),
        ensures
            final(self).wf(),
            final(self)@ == store_state(old(self)@, m, val),
    {
        let addr = self.resolve_addr(m);
        self.memory.write(val, addr);
    }

    /// Adds the branch displacement byte, read as a signed two's-complement
    /// offset, to the program counter, wrapping modulo 65536.
    pub fn branch_jump(&mut self, off: u8)
        ensures
            final(self)@ == (CpuState { pc: branch_dest(old(self)@.pc, off), ..old(self)@ }),
    {
        if off < 0x80 {
            self.pc = wrap_add16(self.pc, off as u16);
        } else {
            self.pc = wrap_sub16(self.pc, 0x100 - (off as u16));
        }
    }

    /// One shift or rotate, on the accumulator or through a memory mode:
    /// the carry takes the bit that falls off, the basic flags follow the
    /// result.
    fn do_shift(&mut self, op: Op, m: Mode)
        requires
            old(self).wf(),
            op is Asl || op is Lsr || op is Rol || op is Ror,
            m is Acc || has_ea(m),
        ensures
            final(self).wf(),
            final(self)@ == exec_op(old(self)@, op, m),
    {
        let cin = self.c;
        match m {
            Mode::Acc => {
                let v = self.a;
                let r = shift_val_ex(op, v, cin);
                self.set_carry_flag(shift_carry_ex(op, v));
                self.a = r;
                self.assign_basic_flags(r);
            },
            _ => {
                let addr = self.resolve_addr(m);
                let v = self.memory.read(addr);
                let r = shift_val_ex(op, v, cin);
                self.set_carry_flag(shift_carry_ex(op, v));
                self.assign_basic_flags(r);
                self.memory.write(r, addr);
            },
        }
    }

    /// One read-modify-write increment or decrement through a memory mode.
    fn do_inc_dec(&mut self, up: bool, m: Mode)
        requires
            old(self).wf(),
            has_ea(m),
        ensures
            final(self).wf(),
            final(self)@ == exec_op(old(self)@, if up {
                Op::Inc
            } else {
                Op::Dec
            }, m),
    {
        let addr = self.resolve_addr(m);
        let v = self.memory.read(addr);
        let r = if up {
            wrap_add8(v, 1)
        } else {
            wrap_sub8(v, 1)
        };
        self.assign_basic_flags(r);
        self.memory.write(r, addr);
    }

    /// Executes the instruction at the program counter: fetch, decode,
    /// dispatch. An opcode outside the decode table consumes one byte and
    /// does nothing else.
    #[verifier::spinoff_prover]
    #[verifier::rlimit(100)]
    pub fn step(&mut self)
        requires
            old(self).wf(),
        ensures
            final(self).wf(),
            final(self)@ == step_state(old(self)@),
    {
        let opcode = self.next_instruction();
        proof {
            lemma_decode_mode_ok(opcode);
        }
        match decode_op(opcode) {
            None => {},
            Some((op, mode)) => {
                match op {
                    Op::Lda => {
                        let v = self.read_operand(mode);
                        self.lda(v);
                    },
                    Op::Ldx => {
                        let v = self.read_operand(mode);
                        self.ldx(v);
                    },
                    Op::Ldy => {
                        let v = self.read_operand(mode);
                        self.ldy(v);
                    },
                    Op::Sta => {
                        let v = self.a;
                        self.write_operand(mode, v);
                    },
                    Op::Stx => {
                        let v = self.x;
                        self.write_operand(mode, v);
                    },
                    Op::Sty => {
                        let v = self.y;
                        self.write_operand(mode, v);
                    },
                    Op::Tax => {
                        let v = self.a;
                        self.ldx(v);
                    },
                    Op::Tay => {
                        let v = self.a;
                        self.ldy(v);
                    },
                    Op::Tsx => {
                        let v = self.sp;
                        self.ldx(v);
                    },
                    Op::Txa => {
                        let v = self.x;
                        self.lda(v);
                    },
                    Op::Txs => {
                        self.sp = self.x;
                    },
                    Op::Tya => {
                        let v = self.y;
                        self.lda(v);
                    },
                    Op::Pha => {
                        let v = self.a;
                        self.stack_push(v);
                    },
                    Op::Php => {
                        let p = self.flags_to_byte();
                        self.stack_push(p);
                    },
                    Op::Pla => {
                        let v = self.stack_pull();
                        self.lda(v);
                    },
                    Op::Plp => {
                        let p = self.stack_pull();
                        self.set_flags_byte(p);
                    },
                    Op::And => {
                        let v = self.read_operand(mode);
                        let r = self.a & v;
                        self.lda(r);
                    },
                    Op::Eor => {
                        let v = self.read_operand(mode);
                        let r = self.a ^ v;
                        self.lda(r);
                    },
                    Op::Ora => {
                        let v = self.read_operand(mode);
                        let r = self.a | v;
                        self.lda(r);
                    },
                    Op::Bit => {
                        let v = self.read_operand(mode);
                        self.bit_test(v);
                    },
                    Op::Adc => {
                        let v = self.read_operand(mode);
                        self.adc(v);
                    },
                    Op::Sbc => {
                        let v = self.read_operand(mode);
                        self.sbc(v);
                    },
                    Op::Cmp => {
                        let v = self.read_operand(mode);
                        let r = self.a;
                        self.cmp(r, v);
                    },
                    Op::Cpx => {
                        let v = self.read_operand(mode);
                        let r = self.x;
                        self.cmp(r, v);
                    },
                    Op::Cpy => {
                        let v = self.read_operand(mode);
                        let r = self.y;
                        self.cmp(r, v);
                    },
                    Op::Inc => {
                        self.do_inc_dec(true, mode);
                    },
                    Op::Dec => {
                        self.do_inc_dec(false, mode);
                    },
                    Op::Inx => {
                        let v = wrap_add8(self.x, 1);
                        self.ldx(v);
                    },
                    Op::Iny => {
                        let v = wrap_add8(self.y, 1);
                        self.ldy(v);
                    },
                    Op::Dex => {
                        let v = wrap_sub8(self.x, 1);
                        self.ldx(v);
                    },
                    Op::Dey => {
                        let v = wrap_sub8(self.y, 1);
                        self.ldy(v);
                    },
                    Op::Asl | Op::Lsr | Op::Rol | Op::Ror => {
                        self.do_shift(op, mode);
                    },
                    Op::Jmp => {
                        let addr = self.resolve_addr(mode);
                        self.pc = addr;
                    },
                    Op::Jsr => {
                        let target = self.get_absolute_addr();
                        let ret = wrap_sub16(self.pc, 1);
                        proof {
                            lemma_wrap16_add(old(self)@.pc + 2, -1);
                        }
                        self.stack_push((ret / 0x100) as u8);
                        self.stack_push((ret % 0x100) as u8);
                        self.pc = target;
                    },
                    Op::Rts => {
                        let lo = self.stack_pull();
                        let hi = self.stack_pull();
                        self.pc = wrap_add16((hi as u16) * 0x100 + (lo as u16), 1);
                    },
                    Op::Rti => {
                        let p = self.stack_pull();
                        self.set_flags_byte(p);
                        let lo = self.stack_pull();
                        let hi = self.stack_pull();
                        self.pc = (hi as u16) * 0x100 + (lo as u16);
                    },
                    Op::Bcc => {
                        let off = self.get_imm();
                        if !self.c {
                            self.branch_jump(off);
                        }
                    },
                    Op::Bcs => {
                        let off = self.get_imm();
                        if self.c {
                            self.branch_jump(off);
                        }
                    },
                    Op::Beq => {
                        let off = self.get_imm();
                        if self.z {
                            self.branch_jump(off);
                        }
                    },
                    Op::Bmi => {
                        let off = self.get_imm();
                        if self.n {
                            self.branch_jump(off);
                        }
                    },
                    Op::Bne => {
                        let off = self.get_imm();
                        if !self.z {
                            self.branch_jump(off);
                        }
                    },
                    Op::Bpl => {
                        let off = self.get_imm();
                        if !self.n {
                            self.branch_jump(off);
                        }
                    },
                    Op::Bvc => {
                        let off = self.get_imm();
                        if !self.v {
                            self.branch_jump(off);
                        }
                    },
                    Op::Bvs => {
                        let off = self.get_imm();
                        if self.v {
                            self.branch_jump(off);
                        }
                    },
                    Op::Clc => {
                        self.set_carry_flag(false);
                    },
                    Op::Cld => {
                        self.set_decimal_mode(false);
                    },
                    Op::Cli => {
                        self.set_interrupt_disable(false);
                    },
                    Op::Clv => {
                        self.set_overflow(false);
                    },
                    Op::Sec => {
                        self.set_carry_flag(true);
                    },
                    Op::Sed => {
                        self.set_decimal_mode(true);
                    },
                    Op::Sei => {
                        self.set_interrupt_disable(true);
                    },
                    Op::Nop => {},
                }
            },
        }
    }

    /// Runs the fetch-execute loop until the program counter reaches the top
    /// of the address space, or until `max_steps` instructions have run.
    /// Returns how many instructions ran.
    pub fn run(&mut self, max_steps: u64) -> (steps: u64)
        requires
            old(self).wf(),
        ensures
            final(self).wf(),
            final(self)@ == run_state(old(self)@, max_steps as nat),
            steps == run_steps(old(self)@, max_steps as nat),
            steps <= max_steps,
            steps < max_steps ==> final(self)@.pc >= 0xffff,
    {
        let ghost orig = self@;
        let mut steps: u64 = 0;
        while self.pc < 0xffff && steps < max_steps
            invariant
                self.wf(),
                steps <= max_steps,
                run_state(orig, max_steps as nat) == run_state(self@, (max_steps - steps) as nat),
                run_steps(orig, max_steps as nat) == steps + run_steps(
                    self@,
                    (max_steps - steps) as nat,
                ),
            decreases max_steps - steps,
        {
            self.step();
            steps = steps + 1;
        }
        steps
    }
}

/// The decode table as executable code; it agrees with [`decode`] on every
/// opcode byte.
pub fn decode_op(opcode: u8) -> (r: Option<(Op, Mode)>)
    ensures
        r == decode(opcode),
{
    proof {
        reveal(decode);
    }
    match opcode {
        0xa9u8 => Some((Op::Lda, Mode::Imm)),
        0xa5u8 => Some((Op::Lda, Mode::Zp)),
        0xb5u8 => Some((Op::Lda, Mode::ZpX)),
        0xadu8 => Some((Op::Lda, Mode::Abs)),
        0xbdu8 => Some((Op::Lda, Mode::AbsX)),
        0xb9u8 => Some((Op::Lda, Mode::AbsY)),
        0xa1u8 => Some((Op::Lda, Mode::IndX)),
        0xb1u8 => Some((Op::Lda, Mode::IndY)),
        0xa2u8 => Some((Op::Ldx, Mode::Imm)),
        0xa6u8 => Some((Op::Ldx, Mode::Zp)),
        0xb6u8 => Some((Op::Ldx, Mode::ZpY)),
        0xaeu8 => Some((Op::Ldx, Mode::Abs)),
        0xbeu8 => Some((Op::Ldx, Mode::AbsY)),
        0xa0u8 => Some((Op::Ldy, Mode::Imm)),
        0xa4u8 => Some((Op::Ldy, Mode::Zp)),
        0xb4u8 => Some((Op::Ldy, Mode::ZpX)),
        0xacu8 => Some((Op::Ldy, Mode::Abs)),
        0xbcu8 => Some((Op::Ldy, Mode::AbsX)),
        0x85u8 => Some((Op::Sta, Mode::Zp)),
        0x95u8 => Some((Op::Sta, Mode::ZpX)),
        0x8du8 => Some((Op::Sta, Mode::Abs)),
        0x9du8 => Some((Op::Sta, Mode::AbsX)),
        0x99u8 => Some((Op::Sta, Mode::AbsY)),
        0x81u8 => Some((Op::Sta, Mode::IndX)),
        0x91u8 => Some((Op::Sta, Mode::IndY)),
        0x86u8 => Some((Op::Stx, Mode::Zp)),
        0x96u8 => Some((Op::Stx, Mode::ZpY)),
        0x8eu8 => Some((Op::Stx, Mode::Abs)),
        0x84u8 => Some((Op::Sty, Mode::Zp)),
        0x94u8 => Some((Op::Sty, Mode::ZpX)),
        0x8cu8 => Some((Op::Sty, Mode::Abs)),
        0xaau8 => Some((Op::Tax, Mode::Imp)),
        0xa8u8 => Some((Op::Tay, Mode::Imp)),
        0xbau8 => Some((Op::Tsx, Mode::Imp)),
        0x8au8 => Some((Op::Txa, Mode::Imp)),
        0x9au8 => Some((Op::Txs, Mode::Imp)),
        0x98u8 => Some((Op::Tya, Mode::Imp)),
        0x48u8 => Some((Op::Pha, Mode::Imp)),
        0x08u8 => Some((Op::Php, Mode::Imp)),
        0x68u8 => Some((Op::Pla, Mode::Imp)),
        0x28u8 => Some((Op::Plp, Mode::Imp)),
        0x29u8 => Some((Op::And, Mode::Imm)),
        0x25u8 => Some((Op::And, Mode::Zp)),
        0x35u8 => Some((Op::And, Mode::ZpX)),
        0x2du8 => Some((Op::And, Mode::Abs)),
        0x3du8 => Some((Op::And, Mode::AbsX)),
        0x39u8 => Some((Op::And, Mode::AbsY)),
        0x21u8 => Some((Op::And, Mode::IndX)),
        0x31u8 => Some((Op::And, Mode::IndY)),
        0x49u8 => Some((Op::Eor, Mode::Imm)),
        0x45u8 => Some((Op::Eor, Mode::Zp)),
        0x55u8 => Some((Op::Eor, Mode::ZpX)),
        0x4du8 => Some((Op::Eor, Mode::Abs)),
        0x5du8 => Some((Op::Eor, Mode::AbsX)),
        0x59u8 => Some((Op::Eor, Mode::AbsY)),
        0x41u8 => Some((Op::Eor, Mode::IndX)),
        0x51u8 => Some((Op::Eor, Mode::IndY)),
        0x09u8 => Some((Op::Ora, Mode::Imm)),
        0x05u8 => Some((Op::Ora, Mode::Zp)),
        0x15u8 => Some((Op::Ora, Mode::ZpX)),
        0x0du8 => Some((Op::Ora, Mode::Abs)),
        0x1du8 => Some((Op::Ora, Mode::AbsX)),
        0x19u8 => Some((Op::Ora, Mode::AbsY)),
        0x01u8 => Some((Op::Ora, Mode::IndX)),
        0x11u8 => Some((Op::Ora, Mode::IndY)),
        0x24u8 => Some((Op::Bit, Mode::Zp)),
        0x2cu8 => Some((Op::Bit, Mode::Abs)),
        0x69u8 => Some((Op::Adc, Mode::Imm)),
        0x65u8 => Some((Op::Adc, Mode::Zp)),
        0x75u8 => Some((Op::Adc, Mode::ZpX)),
        0x6du8 => Some((Op::Adc, Mode::Abs)),
        0x7du8 => Some((Op::Adc, Mode::AbsX)),
        0x79u8 => Some((Op::Adc, Mode::AbsY)),
        0x61u8 => Some((Op::Adc, Mode::IndX)),
        0x71u8 => Some((Op::Adc, Mode::IndY)),
        0xe9u8 => Some((Op::Sbc, Mode::Imm)),
        0xe5u8 => Some((Op::Sbc, Mode::Zp)),
        0xf5u8 => Some((Op::Sbc, Mode::ZpX)),
        0xedu8 => Some((Op::Sbc, Mode::Abs)),
        0xfdu8 => Some((Op::Sbc, Mode::AbsX)),
        0xf9u8 => Some((Op::Sbc, Mode::AbsY)),
        0xe1u8 => Some((Op::Sbc, Mode::IndX)),
        0xf1u8 => Some((Op::Sbc, Mode::IndY)),
        0xc9u8 => Some((Op::Cmp, Mode::Imm)),
        0xc5u8 => Some((Op::Cmp, Mode::Zp)),
        0xd5u8 => Some((Op::Cmp, Mode::ZpX)),
        0xcdu8 => Some((Op::Cmp, Mode::Abs)),
        0xddu8 => Some((Op::Cmp, Mode::AbsX)),
        0xd9u8 => Some((Op::Cmp, Mode::AbsY)),
        0xc1u8 => Some((Op::Cmp, Mode::IndX)),
        0xd1u8 => Some((Op::Cmp, Mode::IndY)),
        0xe0u8 => Some((Op::Cpx, Mode::Imm)),
        0xe4u8 => Some((Op::Cpx, Mode::Zp)),
        0xecu8 => Some((Op::Cpx, Mode::Abs)),
        0xc0u8 => Some((Op::Cpy, Mode::Imm)),
        0xc4u8 => Some((Op::Cpy, Mode::Zp)),
        0xccu8 => Some((Op::Cpy, Mode::Abs)),
        0xe6u8 => Some((Op::Inc, Mode::Zp)),
        0xf6u8 => Some((Op::Inc, Mode::ZpX)),
        0xeeu8 => Some((Op::Inc, Mode::Abs)),
        0xfeu8 => Some((Op::Inc, Mode::AbsX)),
        0xe8u8 => Some((Op::Inx, Mode::Imp)),
        0xc8u8 => Some((Op::Iny, Mode::Imp)),
        0xc6u8 => Some((Op::Dec, Mode::Zp)),
        0xd6u8 => Some((Op::Dec, Mode::ZpX)),
        0xceu8 => Some((Op::Dec, Mode::Abs)),
        0xdeu8 => Some((Op::Dec, Mode::AbsX)),
        0xcau8 => Some((Op::Dex, Mode::Imp)),
        0x88u8 => Some((Op::Dey, Mode::Imp)),
        0x0au8 => Some((Op::Asl, Mode::Acc)),
        0x06u8 => Some((Op::Asl, Mode::Zp)),
        0x16u8 => Some((Op::Asl, Mode::ZpX)),
        0x0eu8 => Some((Op::Asl, Mode::Abs)),
        0x1eu8 => Some((Op::Asl, Mode::AbsX)),
        0x4au8 => Some((Op::Lsr, Mode::Acc)),
        0x46u8 => Some((Op::Lsr, Mode::Zp)),
        0x56u8 => Some((Op::Lsr, Mode::ZpX)),
        0x4eu8 => Some((Op::Lsr, Mode::Abs)),
        0x5eu8 => Some((Op::Lsr, Mode::AbsX)),
        0x2au8 => Some((Op::Rol, Mode::Acc)),
        0x26u8 => Some((Op::Rol, Mode::Zp)),
        0x36u8 => Some((Op::Rol, Mode::ZpX)),
        0x2eu8 => Some((Op::Rol, Mode::Abs)),
        0x3eu8 => Some((Op::Rol, Mode::AbsX)),
        0x6au8 => Some((Op::Ror, Mode::Acc)),
        0x66u8 => Some((Op::Ror, Mode::Zp)),
        0x76u8 => Some((Op::Ror, Mode::ZpX)),
        0x6eu8 => Some((Op::Ror, Mode::Abs)),
        0x7eu8 => Some((Op::Ror, Mode::AbsX)),
        0x4cu8 => Some((Op::Jmp, Mode::Abs)),
        0x6cu8 => Some((Op::Jmp, Mode::Ind)),
        0x20u8 => Some((Op::Jsr, Mode::Abs)),
        0x60u8 => Some((Op::Rts, Mode::Imp)),
        0x40u8 => Some((Op::Rti, Mode::Imp)),
        0x90u8 => Some((Op::Bcc, Mode::Rel)),
        0xb0u8 => Some((Op::Bcs, Mode::Rel)),
        0xf0u8 => Some((Op::Beq, Mode::Rel)),
        0x30u8 => Some((Op::Bmi, Mode::Rel)),
        0xd0u8 => Some((Op::Bne, Mode::Rel)),
        0x10u8 => Some((Op::Bpl, Mode::Rel)),
        0x50u8 => Some((Op::Bvc, Mode::Rel)),
        0x70u8 => Some((Op::Bvs, Mode::Rel)),
        0x18u8 => Some((Op::Clc, Mode::Imp)),
        0xd8u8 => Some((Op::Cld, Mode::Imp)),
        0x58u8 => Some((Op::Cli, Mode::Imp)),
        0xb8u8 => Some((Op::Clv, Mode::Imp)),
        0x38u8 => Some((Op::Sec, Mode::Imp)),
        0xf8u8 => Some((Op::Sed, Mode::Imp)),
        0x78u8 => Some((Op::Sei, Mode::Imp)),
        0xeau8 => Some((Op::Nop, Mode::Imp)),
        _ => None,
    }
}

/// The byte a shift or rotate produces, as executable code.
fn shift_val_ex(op: Op, v: u8, cin: bool) -> (r: u8)
    requires
        op is Asl || op is Lsr || op is Rol || op is Ror,
    ensures
        r == shift_val(op, v, cin),
{
    match op {
        Op::Asl => (((v as u16) * 2) % 0x100) as u8,
        Op::Lsr => v / 2,
        Op::Rol => (((v as u16) * 2 + (if cin {
            1u16
        } else {
            0u16
        })) % 0x100) as u8,
        Op::Ror => v / 2 + (if cin {
            0x80u8
        } else {
            0u8
        }),
        _ => {
            proof {
                assert(false);
            }
            0
        },
    }
}

/// The carry a shift or rotate produces, as executable code.
fn shift_carry_ex(op: Op, v: u8) -> (r: bool)
    requires
        op is Asl || op is Lsr || op is Rol || op is Ror,
    ensures
        r == shift_carry(op, v),
{
    match op {
        Op::Asl | Op::Rol => v >= 0x80,
        _ => v % 2 == 1,
    }
}

} // verus!
