use vstd::prelude::*;
use crate::alu::{
    add16, add_16, alu, alu_spec, byte_to_flags, daa, daa_spec, flags_byte, flags_of,
    flags_to_byte, incdec, incdec_spec, sext, shift, shift_spec, sign_extend, Flags,
};
use crate::bus::Bus;
use crate::joypad::Joypad;
use crate::ppu::{bit, get_bit, Ppu};
use crate::timer::Timer;

verus! {

/// Why a step of the CPU failed.
#[derive(Debug, Copy, Clone, PartialEq, Eq, Structural)]
pub enum CpuError {
    /// No instruction has this opcode.
    UnknownOpcode(u8),
    /// An 8-bit register index outside 0..=7.
    UnknownRegister(u8),
    /// A register pair index outside 0..=3.
    UnknownRegisterPair(u8),
}

/// `x` wrapped into 16 bits.
pub open spec fn w16(x: int) -> u16 {
    (x % 0x10000) as u16
}

/// Interrupt vectors are 8 bytes apart from 0x40, in priority order:
/// vertical blank, LCD status, timer, serial, joypad.
pub open spec fn irq_flag(b: Bus, k: int) -> bool {
    if k == 0 {
        b.ppu.int_v_blank
    } else if k == 1 {
        b.ppu.int_lcd_stat
    } else if k == 2 {
        b.timer.int
    } else if k == 3 {
        b.int_serial
    } else {
        b.joypad.int
    }
}

/// Interrupt `k` is both requested and enabled.
pub open spec fn irq_ready(b: Bus, k: int) -> bool {
    bit(b.ie, k as u8) && irq_flag(b, k)
}

/// The first ready interrupt in priority order; 5 when none is.
pub open spec fn first_irq(b: Bus) -> int {
    if irq_ready(b, 0) {
        0
    } else if irq_ready(b, 1) {
        1
    } else if irq_ready(b, 2) {
        2
    } else if irq_ready(b, 3) {
        3
    } else if irq_ready(b, 4) {
        4
    } else {
        5
    }
}

/// `b` with the request flag of interrupt `k` cleared.
pub open spec fn clear_irq(b: Bus, k: int) -> Bus {
    if k == 0 {
        Bus { ppu: Ppu { int_v_blank: false, ..b.ppu }, ..b }
    } else if k == 1 {
        Bus { ppu: Ppu { int_lcd_stat: false, ..b.ppu }, ..b }
    } else if k == 2 {
        Bus { timer: Timer { int: false, ..b.timer }, ..b }
    } else if k == 3 {
        Bus { int_serial: false, ..b }
    } else {
        Bus { joypad: Joypad { int: false, ..b.joypad }, ..b }
    }
}

/// The CPU: accumulator, flags, three register pairs, stack pointer,
/// program counter, and the bus it drives.
pub struct Cpu {
    pub a: u8,
    pub f: Flags,
    pub bc: u16,
    pub de: u16,
    pub hl: u16,
    pub sp: u16,
    pub pc: u16,
    /// Steps left to wait before the next fetch.
    pub stalls: u8,
    /// Machine cycles that the last step took; the peripherals run that
    /// many cycles after it.
    pub cycles: u8,
    /// Interrupt master enable.
    pub ime: bool,
    pub halt: bool,
    pub bus: Bus,
}

impl Cpu {
    pub open spec fn wf(&self) -> bool {
        self.bus.wf()
    }

    /// The byte at the program counter.
    pub open spec fn imm8(&self) -> u8 {
        self.bus.read_spec(self.pc)
    }

    /// The word at the program counter.
    pub open spec fn imm16(&self) -> u16 {
        self.bus.read_word_spec(self.pc)
    }

    /// The program counter moved on by `n`.
    pub open spec fn advanced(self, n: int) -> Cpu {
        Cpu { pc: w16(self.pc + n), ..self }
    }

    /// Operand slot `i`: B, C, D, E, H, L, the byte at HL, A.
    pub open spec fn r8_spec(&self, i: u8) -> u8 {
        if i == 0 {
            (self.bc / 256) as u8
        } else if i == 1 {
            (self.bc % 256) as u8
        } else if i == 2 {
            (self.de / 256) as u8
        } else if i == 3 {
            (self.de % 256) as u8
        } else if i == 4 {
            (self.hl / 256) as u8
        } else if i == 5 {
            (self.hl % 256) as u8
        } else if i == 6 {
            self.bus.read_spec(self.hl)
        } else {
            self.a
        }
    }

    /// `new` is `self` with operand slot `i` set to `v` (a bus write for
    /// the byte at HL).
    pub open spec fn set_r8_post(self, new: Cpu, i: u8, v: u8) -> bool {
        if i == 0 {
            new == Cpu { bc: (v * 256 + self.bc % 256) as u16, ..self }
        } else if i == 1 {
            new == Cpu { bc: (self.bc / 256 * 256 + v) as u16, ..self }
        } else if i == 2 {
            new == Cpu { de: (v * 256 + self.de % 256) as u16, ..self }
        } else if i == 3 {
            new == Cpu { de: (self.de / 256 * 256 + v) as u16, ..self }
        } else if i == 4 {
            new == Cpu { hl: (v * 256 + self.hl % 256) as u16, ..self }
        } else if i == 5 {
            new == Cpu { hl: (self.hl / 256 * 256 + v) as u16, ..self }
        } else if i == 6 {
            &&& new == Cpu { bus: new.bus, ..self }
            &&& self.bus.write_spec(new.bus, self.hl, v)
        } else {
            new == Cpu { a: v, ..self }
        }
    }

    /// A and F as one word.
    pub open spec fn af_spec(&self) -> u16 {
        (self.a * 256 + flags_byte(self.f)) as u16
    }

    /// Register pair `i`: BC, DE, HL, then AF (`high`) or SP.
    pub open spec fn r16_spec(&self, i: u8, high: bool) -> u16 {
        if i == 0 {
            self.bc
        } else if i == 1 {
            self.de
        } else if i == 2 {
            self.hl
        } else if high {
            self.af_spec()
        } else {
            self.sp
        }
    }

    pub open spec fn with_r16(self, i: u8, v: u16, high: bool) -> Cpu {
        if i == 0 {
            Cpu { bc: v, ..self }
        } else if i == 1 {
            Cpu { de: v, ..self }
        } else if i == 2 {
            Cpu { hl: v, ..self }
        } else if high {
            Cpu { a: (v / 256) as u8, f: flags_of((v % 256) as u8), ..self }
        } else {
            Cpu { sp: v, ..self }
        }
    }

    /// Condition `cc`: NZ, Z, NC, C.
    pub open spec fn cond_spec(&self, cc: u8) -> bool {
        if cc == 0 {
            !self.f.z
        } else if cc == 1 {
            self.f.z
        } else if cc == 2 {
            !self.f.c
        } else {
            self.f.c
        }
    }

    /// `new` is `self` after pushing the program counter and jumping to
    /// `addr`.
    pub open spec fn call_post(self, new: Cpu, addr: u16) -> bool {
        &&& new == Cpu { sp: w16(self.sp - 2), pc: addr, bus: new.bus, ..self }
        &&& self.bus.write_word_spec(new.bus, w16(self.sp - 2), self.pc)
    }

    /// `new` is `self` after popping the program counter.
    pub open spec fn ret_spec(self) -> Cpu {
        Cpu { pc: self.bus.read_word_spec(self.sp), sp: w16(self.sp + 2), ..self }
    }

    /// The result of an operation on operand slot `index`: refused, with no
    /// change, when the slot does not exist.
    pub open spec fn reg_result(self, new: Cpu, index: u8, r: Result<(), CpuError>) -> bool {
        &&& index >= 8 ==> r == Err::<(), CpuError>(CpuError::UnknownRegister(index)) && new
            == self
        &&& index < 8 ==> r is Ok
    }

    pub open spec fn pair_result(self, new: Cpu, index: u8, r: Result<(), CpuError>) -> bool {
        &&& index >= 4 ==> r == Err::<(), CpuError>(CpuError::UnknownRegisterPair(index)) && new
            == self
        &&& index < 4 ==> r is Ok
    }
}

impl Cpu {
    pub fn b(&self) -> (r: u8)
        ensures
            r == self.r8_spec(0),
    {
        (self.bc / 256) as u8
    }

    pub fn c(&self) -> (r: u8)
        ensures
            r == self.r8_spec(1),
    {
        (self.bc % 256) as u8
    }

    pub fn d(&self) -> (r: u8)
        ensures
            r == self.r8_spec(2),
    {
        (self.de / 256) as u8
    }

    pub fn e(&self) -> (r: u8)
        ensures
            r == self.r8_spec(3),
    {
        (self.de % 256) as u8
    }

    pub fn h(&self) -> (r: u8)
        ensures
            r == self.r8_spec(4),
    {
        (self.hl / 256) as u8
    }

    pub fn l(&self) -> (r: u8)
        ensures
            r == self.r8_spec(5),
    {
        (self.hl % 256) as u8
    }

    fn af(&self) -> (r: u16)
        ensures
            r == self.af_spec(),
    {
        self.a as u16 * 256 + flags_to_byte(self.f) as u16
    }

    fn set_af(&mut self, val: u16)
        ensures
            *final(self) == old(self).with_r16(3, val, true),
    {
        self.a = (val / 256) as u8;
        self.f = byte_to_flags((val % 256) as u8);
    }

    fn r8(&self, index: u8) -> (r: u8)
        requires
            self.wf(),
            index < 8,
        ensures
            r == self.r8_spec(index),
    {
        match index {
            0 => self.b(),
            1 => self.c(),
            2 => self.d(),
            3 => self.e(),
            4 => self.h(),
            5 => self.l(),
            6 => self.bus.read(self.hl),
            _ => self.a,
        }
    }

    fn set_r8(&mut self, index: u8, val: u8)
        requires
            old(self).wf(),
            index < 8,
        ensures
            final(self).wf(),
            old(self).set_r8_post(*final(self), index, val),
    {
        match index {
            0 => {
                self.bc = val as u16 * 256 + self.bc % 256;
            },
            1 => {
                self.bc = self.bc / 256 * 256 + val as u16;
            },
            2 => {
                self.de = val as u16 * 256 + self.de % 256;
            },
            3 => {
                self.de = self.de / 256 * 256 + val as u16;
            },
            4 => {
                self.hl = val as u16 * 256 + self.hl % 256;
            },
            5 => {
                self.hl = self.hl / 256 * 256 + val as u16;
            },
            6 => {
                let hl = self.hl;
                self.bus.write(hl, val);
            },
            _ => {
                self.a = val;
            },
        }
    }

    fn r16(&self, index: u8, high: bool) -> (r: u16)
        requires
            index < 4,
        ensures
            r == self.r16_spec(index, high),
    {
        match index {
            0 => self.bc,
            1 => self.de,
            2 => self.hl,
            _ => if high {
                self.af()
            } else {
                self.sp
            },
        }
    }

    fn set_r16(&mut self, index: u8, val: u16, high: bool)
        requires
            index < 4,
        ensures
            *final(self) == old(self).with_r16(index, val, high),
    {
        match index {
            0 => {
                self.bc = val;
            },
            1 => {
                self.de = val;
            },
            2 => {
                self.hl = val;
            },
            _ => if high {
                self.set_af(val);
            } else {
                self.sp = val;
            },
        }
    }

    /// Reads the byte at the program counter and moves past it.
    fn fetch(&mut self) -> (r: u8)
        requires
            old(self).wf(),
        ensures
            r == old(self).imm8(),
            *final(self) == old(self).advanced(1),
    {
        let v = self.bus.read(self.pc);
        self.pc = self.pc.wrapping_add(1);
        v
    }

    /// Reads the word at the program counter and moves past it.
    fn fetch_word(&mut self) -> (r: u16)
        requires
            old(self).wf(),
        ensures
            r == old(self).imm16(),
            *final(self) == old(self).advanced(2),
    {
        let v = self.bus.read_word(self.pc);
        self.pc = self.pc.wrapping_add(2);
        v
    }

    fn cond(&self, cc: u8) -> (r: bool)
        ensures
            r == self.cond_spec(cc),
    {
        match cc {
            0 => !self.f.z,
            1 => self.f.z,
            2 => !self.f.c,
            _ => self.f.c,
        }
    }

    /// Pushes the program counter and jumps to `addr`.
    pub fn call(&mut self, addr: u16)
        requires
            old(self).wf(),
        ensures
            final(self).wf(),
            old(self).call_post(*final(self), addr),
    {
        self.sp = self.sp.wrapping_sub(2);
        let (sp, pc) = (self.sp, self.pc);
        self.bus.write_word(sp, pc);
        self.pc = addr;
    }

    fn pop_pc(&mut self)
        requires
            old(self).wf(),
        ensures
            *final(self) == old(self).ret_spec(),
    {
        let addr = self.bus.read_word(self.sp);
        self.sp = self.sp.wrapping_add(2);
        self.pc = addr;
    }
}

} // verus!

verus! {

impl Cpu {
    /// Accumulator operation `k` with operand `b`; the program counter then
    /// moves on by `pc_inc` (past an immediate operand).
    pub open spec fn alu_post(self, new: Cpu, k: u8, b: u8, pc_inc: int) -> bool {
        let (v, f) = alu_spec(k, self.a, b, self.f);
        new == Cpu { a: v, f, ..self.advanced(pc_inc) }
    }

    /// Rotate or shift `k` on operand slot `i`.
    pub open spec fn shift_post(self, new: Cpu, k: u8, i: u8) -> bool {
        let (v, f) = shift_spec(k, self.r8_spec(i), self.f);
        Cpu { f, ..self }.set_r8_post(new, i, v)
    }

    /// The accumulator rotations RLCA, RRCA, RLA, RRA: as their prefixed
    /// forms on A, with Z cleared.
    pub open spec fn shift_a_post(self, new: Cpu, k: u8) -> bool {
        let (v, f) = shift_spec(k, self.a, self.f);
        new == Cpu { a: v, f: Flags { z: false, ..f }, ..self }
    }

    /// BIT: Z is set when bit `b` of slot `i` is clear; N cleared, H set.
    pub open spec fn bit_post(self, new: Cpu, i: u8, b: u8) -> bool {
        new == Cpu { f: Flags { z: !bit(self.r8_spec(i), b), n: false, h: true, ..self.f }, ..self }
    }

    /// SET (`set`) or RES of bit `b` of slot `i`; flags kept.
    pub open spec fn setres_post(self, new: Cpu, i: u8, b: u8, set: bool) -> bool {
        let v = self.r8_spec(i);
        self.set_r8_post(new, i, if set { v | (1u8 << b) } else { v & !(1u8 << b) })
    }

    pub open spec fn incdec_post(self, new: Cpu, i: u8, dec: bool) -> bool {
        let (v, f) = incdec_spec(self.r8_spec(i), dec, self.f);
        Cpu { f, ..self }.set_r8_post(new, i, v)
    }

    /// A loaded from `addr`; then PC moved by `pc_inc` and HL by `hl_delta`.
    pub open spec fn load_a_post(self, new: Cpu, addr: u16, pc_inc: int, hl_delta: int) -> bool {
        new == Cpu {
            a: self.bus.read_spec(addr),
            pc: w16(self.pc + pc_inc),
            hl: w16(self.hl + hl_delta),
            ..self
        }
    }

    /// A stored at `addr`; then PC moved by `pc_inc` and HL by `hl_delta`.
    pub open spec fn store_a_post(self, new: Cpu, addr: u16, pc_inc: int, hl_delta: int) -> bool {
        &&& new == Cpu {
            bus: new.bus,
            pc: w16(self.pc + pc_inc),
            hl: w16(self.hl + hl_delta),
            ..self
        }
        &&& self.bus.write_spec(new.bus, addr, self.a)
    }

    /// SP plus the signed immediate, with the 16-bit flag rules and Z, N
    /// cleared.
    pub open spec fn sp_offset(self) -> (u16, Flags) {
        let (v, f) = add16(self.sp, sext(self.imm8()), false);
        (v, Flags { z: false, ..f })
    }

    pub open spec fn push_post(self, new: Cpu, i: u8) -> bool {
        &&& new == Cpu { sp: w16(self.sp - 2), bus: new.bus, ..self }
        &&& self.bus.write_word_spec(new.bus, w16(self.sp - 2), self.r16_spec(i, true))
    }

    pub open spec fn pop_post(self, new: Cpu, i: u8) -> bool {
        new == Cpu { sp: w16(self.sp + 2), ..self }.with_r16(
            i,
            self.bus.read_word_spec(self.sp),
            true,
        )
    }

    pub open spec fn jp_post(self, new: Cpu, taken: bool) -> bool {
        new == Cpu {
            pc: if taken {
                self.imm16()
            } else {
                w16(self.pc + 2)
            },
            ..self
        }
    }

    pub open spec fn jr_post(self, new: Cpu, taken: bool) -> bool {
        new == Cpu {
            pc: if taken {
                w16(self.pc + 1 + sext(self.imm8()))
            } else {
                w16(self.pc + 1)
            },
            ..self
        }
    }

    pub open spec fn call_cc_post(self, new: Cpu, taken: bool) -> bool {
        if taken {
            self.advanced(2).call_post(new, self.imm16())
        } else {
            new == self.advanced(2)
        }
    }

    pub open spec fn ret_cc_post(self, new: Cpu, taken: bool) -> bool {
        new == if taken {
            self.ret_spec()
        } else {
            self
        }
    }
}

impl Cpu {
    fn alu_a(&mut self, k: u8, right: u8)
        requires
            old(self).wf(),
        ensures
            final(self).wf(),
            old(self).alu_post(*final(self), k, right, 0),
    {
        let (v, f) = alu(k, self.a, right, self.f);
        self.a = v;
        self.f = f;
    }

    fn alu_r(&mut self, k: u8, index: u8) -> (r: Result<(), CpuError>)
        requires
            old(self).wf(),
        ensures
            final(self).wf(),
            old(self).reg_result(*final(self), index, r),
            index < 8 ==> old(self).alu_post(*final(self), k, old(self).r8_spec(index), 0),
    {
        if index >= 8 {
            return Err(CpuError::UnknownRegister(index));
        }
        let right = self.r8(index);
        self.alu_a(k, right);
        Ok(())
    }

    fn alu_im8(&mut self, k: u8)
        requires
            old(self).wf(),
        ensures
            final(self).wf(),
            old(self).alu_post(*final(self), k, old(self).imm8(), 1),
    {
        let right = self.fetch();
        self.alu_a(k, right);
    }

    fn shift_r(&mut self, k: u8, index: u8) -> (r: Result<(), CpuError>)
        requires
            old(self).wf(),
        ensures
            final(self).wf(),
            old(self).reg_result(*final(self), index, r),
            index < 8 ==> old(self).shift_post(*final(self), k, index),
    {
        if index >= 8 {
            return Err(CpuError::UnknownRegister(index));
        }
        let val = self.r8(index);
        let (v, f) = shift(k, val, self.f);
        self.f = f;
        self.set_r8(index, v);
        Ok(())
    }

    fn shift_a(&mut self, k: u8)
        ensures
            old(self).shift_a_post(*final(self), k),
    {
        let (v, f) = shift(k, self.a, self.f);
        self.a = v;
        self.f = Flags { z: false, ..f };
    }

    fn setres(&mut self, index: u8, bit: u8, set: bool) -> (r: Result<(), CpuError>)
        requires
            old(self).wf(),
            bit < 8,
        ensures
            final(self).wf(),
            old(self).reg_result(*final(self), index, r),
            index < 8 ==> old(self).setres_post(*final(self), index, bit, set),
    {
        if index >= 8 {
            return Err(CpuError::UnknownRegister(index));
        }
        let left = self.r8(index);
        let result = if set {
            left | (1u8 << bit)
        } else {
            left & !(1u8 << bit)
        };
        self.set_r8(index, result);
        Ok(())
    }

    fn incdec_r(&mut self, index: u8, dec: bool) -> (r: Result<(), CpuError>)
        requires
            old(self).wf(),
        ensures
            final(self).wf(),
            old(self).reg_result(*final(self), index, r),
            index < 8 ==> old(self).incdec_post(*final(self), index, dec),
    {
        if index >= 8 {
            return Err(CpuError::UnknownRegister(index));
        }
        let left = self.r8(index);
        let (v, f) = incdec(left, dec, self.f);
        self.f = f;
        self.set_r8(index, v);
        Ok(())
    }

    fn load_a(&mut self, addr: u16)
        requires
            old(self).wf(),
        ensures
            old(self).load_a_post(*final(self), addr, 0, 0),
    {
        self.a = self.bus.read(addr);
    }

    fn store_a(&mut self, addr: u16)
        requires
            old(self).wf(),
        ensures
            final(self).wf(),
            old(self).store_a_post(*final(self), addr, 0, 0),
    {
        let a = self.a;
        self.bus.write(addr, a);
    }

    fn jp_cc(&mut self, cc: u8)
        requires
            old(self).wf(),
        ensures
            old(self).jp_post(*final(self), old(self).cond_spec(cc)),
    {
        let addr = self.fetch_word();
        if self.cond(cc) {
            self.pc = addr;
        }
    }

    fn jr_cc(&mut self, cc: u8)
        requires
            old(self).wf(),
        ensures
            old(self).jr_post(*final(self), old(self).cond_spec(cc)),
    {
        let index = self.fetch();
        if self.cond(cc) {
            self.pc = self.pc.wrapping_add(sign_extend(index));
        }
    }

    fn call_cc(&mut self, cc: u8)
        requires
            old(self).wf(),
        ensures
            final(self).wf(),
            old(self).call_cc_post(*final(self), old(self).cond_spec(cc)),
    {
        let addr = self.fetch_word();
        if self.cond(cc) {
            self.call(addr);
        }
    }

    fn ret_cc(&mut self, cc: u8)
        requires
            old(self).wf(),
        ensures
            old(self).ret_cc_post(*final(self), old(self).cond_spec(cc)),
    {
        if self.cond(cc) {
            self.pop_pc();
        }
    }
}

impl Cpu {
    /// No operation.
    pub fn nop(&mut self)
        requires
            old(self).wf(),
        ensures
            final(self).wf(),
            *final(self) == *old(self),
    {
        
    }

    /// Stops fetching until an interrupt is taken.
    pub fn halt(&mut self)
        requires
            old(self).wf(),
        ensures
            final(self).wf(),
            *final(self) == (Cpu { halt: true, ..*old(self) }),
    {
        self.halt = true;
    }

    /// Treated as a no-operation.
    pub fn stop(&mut self)
        requires
            old(self).wf(),
        ensures
            final(self).wf(),
            *final(self) == *old(self),
    {
        
    }

    /// Disables interrupt dispatch.
    pub fn di(&mut self)
        requires
            old(self).wf(),
        ensures
            final(self).wf(),
            *final(self) == (Cpu { ime: false, ..*old(self) }),
    {
        self.ime = false;
    }

    /// Enables interrupt dispatch.
    pub fn ei(&mut self)
        requires
            old(self).wf(),
        ensures
            final(self).wf(),
            *final(self) == (Cpu { ime: true, ..*old(self) }),
    {
        self.ime = true;
    }

    /// LD r, n: the immediate byte into operand slot `index`.
    pub fn load_8_r_im8(&mut self, index: u8) -> (r: Result<(), CpuError>)
        requires
            old(self).wf(),
        ensures
            final(self).wf(),
            old(self).reg_result(*final(self), index, r),
            index < 8 ==> old(self).advanced(1).set_r8_post(*final(self), index, old(self).imm8()),
    {
        if index >= 8 {
            return Err(CpuError::UnknownRegister(index));
        }
        let val = self.fetch();
        self.set_r8(index, val);
        Ok(())
    }

    /// LD r, r': operand slot `right` into slot `left`.
    pub fn load_8_r_r(&mut self, left: u8, right: u8) -> (r: Result<(), CpuError>)
        requires
            old(self).wf(),
        ensures
            final(self).wf(),
            left >= 8 ==> r == Err::<(), CpuError>(CpuError::UnknownRegister(left)) && *final(self) == *old(self),
            left < 8 && right >= 8 ==> r == Err::<(), CpuError>(CpuError::UnknownRegister(right)) && *final(self) == *old(self),
            left < 8 && right < 8 ==> r is Ok && old(self).set_r8_post(*final(self), left, old(self).r8_spec(right)),
    {
        if left >= 8 {
            return Err(CpuError::UnknownRegister(left));
        }
        if right >= 8 {
            return Err(CpuError::UnknownRegister(right));
        }
        let val = self.r8(right);
        self.set_r8(left, val);
        Ok(())
    }

    /// LD A, (BC).
    pub fn load_8_a_addr_bc(&mut self)
        requires
            old(self).wf(),
        ensures
            final(self).wf(),
            old(self).load_a_post(*final(self), old(self).bc, 0, 0),
    {
        let addr = self.bc;
        self.load_a(addr);
    }

    /// LD (BC), A.
    pub fn load_8_addr_bc_a(&mut self)
        requires
            old(self).wf(),
        ensures
            final(self).wf(),
            old(self).store_a_post(*final(self), old(self).bc, 0, 0),
    {
        let addr = self.bc;
        self.store_a(addr);
    }

    /// LD A, (DE).
    pub fn load_8_a_addr_de(&mut self)
        requires
            old(self).wf(),
        ensures
            final(self).wf(),
            old(self).load_a_post(*final(self), old(self).de, 0, 0),
    {
        let addr = self.de;
        self.load_a(addr);
    }

    /// LD (DE), A.
    pub fn load_8_addr_de_a(&mut self)
        requires
            old(self).wf(),
        ensures
            final(self).wf(),
            old(self).store_a_post(*final(self), old(self).de, 0, 0),
    {
        let addr = self.de;
        self.store_a(addr);
    }

    /// LD A, (nn).
    pub fn load_8_a_addr_im16(&mut self)
        requires
            old(self).wf(),
        ensures
            final(self).wf(),
            old(self).load_a_post(*final(self), old(self).imm16(), 2, 0),
    {
        let addr = self.fetch_word();
        self.load_a(addr);
    }

    /// LD (nn), A.
    pub fn load_8_addr_im16_a(&mut self)
        requires
            old(self).wf(),
        ensures
            final(self).wf(),
            old(self).store_a_post(*final(self), old(self).imm16(), 2, 0),
    {
        let addr = self.fetch_word();
        self.store_a(addr);
    }

    /// LDH A, (C): from 0xFF00 plus C.
    pub fn load_8_a_addr_index_c(&mut self)
        requires
            old(self).wf(),
        ensures
            final(self).wf(),
            old(self).load_a_post(*final(self), (0xFF00 + old(self).r8_spec(1)) as u16, 0, 0),
    {
        let addr = 0xFF00 + self.c() as u16;
        self.load_a(addr);
    }

    /// LDH (C), A: to 0xFF00 plus C.
    pub fn load_8_addr_index_c_a(&mut self)
        requires
            old(self).wf(),
        ensures
            final(self).wf(),
            old(self).store_a_post(*final(self), (0xFF00 + old(self).r8_spec(1)) as u16, 0, 0),
    {
        let addr = 0xFF00 + self.c() as u16;
        self.store_a(addr);
    }

    /// LDH A, (n): from 0xFF00 plus the immediate byte.
    pub fn load_8_a_addr_index_im8(&mut self)
        requires
            old(self).wf(),
        ensures
            final(self).wf(),
            old(self).load_a_post(*final(self), (0xFF00 + old(self).imm8()) as u16, 1, 0),
    {
        let index = self.fetch();
        self.load_a(0xFF00 + index as u16);
    }

    /// LDH (n), A: to 0xFF00 plus the immediate byte.
    pub fn load_8_addr_index_im8_a(&mut self)
        requires
            old(self).wf(),
        ensures
            final(self).wf(),
            old(self).store_a_post(*final(self), (0xFF00 + old(self).imm8()) as u16, 1, 0),
    {
        let index = self.fetch();
        self.store_a(0xFF00 + index as u16);
    }

    /// LD A, (HL-).
    pub fn load_dec_8_a_addr_hl(&mut self)
        requires
            old(self).wf(),
        ensures
            final(self).wf(),
            old(self).load_a_post(*final(self), old(self).hl, 0, -1),
    {
        let addr = self.hl;
        self.load_a(addr);
        self.hl = self.hl.wrapping_sub(1);
    }

    /// LD (HL-), A.
    pub fn load_dec_8_addr_hl_a(&mut self)
        requires
            old(self).wf(),
        ensures
            final(self).wf(),
            old(self).store_a_post(*final(self), old(self).hl, 0, -1),
    {
        let addr = self.hl;
        self.store_a(addr);
        self.hl = self.hl.wrapping_sub(1);
    }

    /// LD A, (HL+).
    pub fn load_inc_8_a_addr_hl(&mut self)
        requires
            old(self).wf(),
        ensures
            final(self).wf(),
            old(self).load_a_post(*final(self), old(self).hl, 0, 1),
    {
        let addr = self.hl;
        self.load_a(addr);
        self.hl = self.hl.wrapping_add(1);
    }

    /// LD (HL+), A.
    pub fn load_inc_8_addr_hl_a(&mut self)
        requires
            old(self).wf(),
        ensures
            final(self).wf(),
            old(self).store_a_post(*final(self), old(self).hl, 0, 1),
    {
        let addr = self.hl;
        self.store_a(addr);
        self.hl = self.hl.wrapping_add(1);
    }

    /// LD rr, nn: the immediate word into pair `index` (BC, DE, HL, SP).
    pub fn load_16_rr_im16(&mut self, index: u8) -> (r: Result<(), CpuError>)
        requires
            old(self).wf(),
        ensures
            final(self).wf(),
            old(self).pair_result(*final(self), index, r),
            index < 4 ==> *final(self) == old(self).advanced(2).with_r16(index, old(self).imm16(), false),
    {
        if index >= 4 {
            return Err(CpuError::UnknownRegisterPair(index));
        }
        let val = self.fetch_word();
        self.set_r16(index, val, false);
        Ok(())
    }

    /// LD (nn), SP: the stack pointer stored at the immediate address.
    pub fn load_16_addr_im16_sp(&mut self)
        requires
            old(self).wf(),
        ensures
            final(self).wf(),
            *final(self) == (Cpu { bus: final(self).bus, ..old(self).advanced(2) }),
            old(self).bus.write_word_spec(final(self).bus, old(self).imm16(), old(self).sp),
    {
        let addr = self.fetch_word();
        let sp = self.sp;
        self.bus.write_word(addr, sp);
    }

    /// LD HL, SP+n: SP plus the signed immediate into HL.
    pub fn load_16_hl_index_im8_sp(&mut self)
        requires
            old(self).wf(),
        ensures
            final(self).wf(),
            *final(self) == (Cpu { hl: old(self).sp_offset().0, f: old(self).sp_offset().1, ..old(self).advanced(1) }),
    {
        let index = self.fetch();
        let (v, f) = add_16(self.sp, sign_extend(index), false);
        self.hl = v;
        self.f = Flags { z: false, ..f };
    }

    /// LD SP, HL.
    pub fn load_16_sp_hl(&mut self)
        requires
            old(self).wf(),
        ensures
            final(self).wf(),
            *final(self) == (Cpu { sp: old(self).hl, ..*old(self) }),
    {
        self.sp = self.hl;
    }

    /// PUSH rr: pair `index` (BC, DE, HL, AF) stored below SP.
    pub fn push_16_rr(&mut self, index: u8) -> (r: Result<(), CpuError>)
        requires
            old(self).wf(),
        ensures
            final(self).wf(),
            old(self).pair_result(*final(self), index, r),
            index < 4 ==> old(self).push_post(*final(self), index),
    {
        if index >= 4 {
            return Err(CpuError::UnknownRegisterPair(index));
        }
        let val = self.r16(index, true);
        self.sp = self.sp.wrapping_sub(2);
        let sp = self.sp;
        self.bus.write_word(sp, val);
        Ok(())
    }

    /// POP rr: the word at SP into pair `index` (BC, DE, HL, AF).
    pub fn pop_16_rr(&mut self, index: u8) -> (r: Result<(), CpuError>)
        requires
            old(self).wf(),
        ensures
            final(self).wf(),
            old(self).pair_result(*final(self), index, r),
            index < 4 ==> old(self).pop_post(*final(self), index),
    {
        if index >= 4 {
            return Err(CpuError::UnknownRegisterPair(index));
        }
        let val = self.bus.read_word(self.sp);
        self.sp = self.sp.wrapping_add(2);
        self.set_r16(index, val, true);
        Ok(())
    }

    /// ADD A, r.
    pub fn add_8_a_r(&mut self, index: u8) -> (r: Result<(), CpuError>)
        requires
            old(self).wf(),
        ensures
            final(self).wf(),
            old(self).reg_result(*final(self), index, r),
            index < 8 ==> old(self).alu_post(*final(self), 0, old(self).r8_spec(index), 0),
    {
        self.alu_r(0, index)
    }

    /// ADD A, n.
    pub fn add_8_a_im8(&mut self)
        requires
            old(self).wf(),
        ensures
            final(self).wf(),
            old(self).alu_post(*final(self), 0, old(self).imm8(), 1),
    {
        self.alu_im8(0);
    }

    /// ADC A, r.
    pub fn add_carry_8_a_r(&mut self, index: u8) -> (r: Result<(), CpuError>)
        requires
            old(self).wf(),
        ensures
            final(self).wf(),
            old(self).reg_result(*final(self), index, r),
            index < 8 ==> old(self).alu_post(*final(self), 1, old(self).r8_spec(index), 0),
    {
        self.alu_r(1, index)
    }

    /// ADC A, n.
    pub fn add_carry_8_a_im8(&mut self)
        requires
            old(self).wf(),
        ensures
            final(self).wf(),
            old(self).alu_post(*final(self), 1, old(self).imm8(), 1),
    {
        self.alu_im8(1);
    }

    /// SUB A, r.
    pub fn sub_8_a_r(&mut self, index: u8) -> (r: Result<(), CpuError>)
        requires
            old(self).wf(),
        ensures
            final(self).wf(),
            old(self).reg_result(*final(self), index, r),
            index < 8 ==> old(self).alu_post(*final(self), 2, old(self).r8_spec(index), 0),
    {
        self.alu_r(2, index)
    }

    /// SUB A, n.
    pub fn sub_8_a_im8(&mut self)
        requires
            old(self).wf(),
        ensures
            final(self).wf(),
            old(self).alu_post(*final(self), 2, old(self).imm8(), 1),
    {
        self.alu_im8(2);
    }

    /// SBC A, r.
    pub fn sub_carry_8_a_r(&mut self, index: u8) -> (r: Result<(), CpuError>)
        requires
            old(self).wf(),
        ensures
            final(self).wf(),
            old(self).reg_result(*final(self), index, r),
            index < 8 ==> old(self).alu_post(*final(self), 3, old(self).r8_spec(index), 0),
    {
        self.alu_r(3, index)
    }

    /// SBC A, n.
    pub fn sub_carry_8_a_im8(&mut self)
        requires
            old(self).wf(),
        ensures
            final(self).wf(),
            old(self).alu_post(*final(self), 3, old(self).imm8(), 1),
    {
        self.alu_im8(3);
    }

    /// AND A, r.
    pub fn and_8_a_r(&mut self, index: u8) -> (r: Result<(), CpuError>)
        requires
            old(self).wf(),
        ensures
            final(self).wf(),
            old(self).reg_result(*final(self), index, r),
            index < 8 ==> old(self).alu_post(*final(self), 4, old(self).r8_spec(index), 0),
    {
        self.alu_r(4, index)
    }

    /// AND A, n.
    pub fn and_8_a_im8(&mut self)
        requires
            old(self).wf(),
        ensures
            final(self).wf(),
            old(self).alu_post(*final(self), 4, old(self).imm8(), 1),
    {
        self.alu_im8(4);
    }

    /// XOR A, r.
    pub fn xor_8_a_r(&mut self, index: u8) -> (r: Result<(), CpuError>)
        requires
            old(self).wf(),
        ensures
            final(self).wf(),
            old(self).reg_result(*final(self), index, r),
            index < 8 ==> old(self).alu_post(*final(self), 5, old(self).r8_spec(index), 0),
    {
        self.alu_r(5, index)
    }

    /// XOR A, n.
    pub fn xor_8_a_im8(&mut self)
        requires
            old(self).wf(),
        ensures
            final(self).wf(),
            old(self).alu_post(*final(self), 5, old(self).imm8(), 1),
    {
        self.alu_im8(5);
    }

    /// OR A, r.
    pub fn or_8_a_r(&mut self, index: u8) -> (r: Result<(), CpuError>)
        requires
            old(self).wf(),
        ensures
            final(self).wf(),
            old(self).reg_result(*final(self), index, r),
            index < 8 ==> old(self).alu_post(*final(self), 6, old(self).r8_spec(index), 0),
    {
        self.alu_r(6, index)
    }

    /// OR A, n.
    pub fn or_8_a_im8(&mut self)
        requires
            old(self).wf(),
        ensures
            final(self).wf(),
            old(self).alu_post(*final(self), 6, old(self).imm8(), 1),
    {
        self.alu_im8(6);
    }

    /// CP A, r.
    pub fn cp_8_a_r(&mut self, index: u8) -> (r: Result<(), CpuError>)
        requires
            old(self).wf(),
        ensures
            final(self).wf(),
            old(self).reg_result(*final(self), index, r),
            index < 8 ==> old(self).alu_post(*final(self), 7, old(self).r8_spec(index), 0),
    {
        self.alu_r(7, index)
    }

    /// CP A, n.
    pub fn cp_8_a_im8(&mut self)
        requires
            old(self).wf(),
        ensures
            final(self).wf(),
            old(self).alu_post(*final(self), 7, old(self).imm8(), 1),
    {
        self.alu_im8(7);
    }

    /// INC r.
    pub fn inc_8_r(&mut self, index: u8) -> (r: Result<(), CpuError>)
        requires
            old(self).wf(),
        ensures
            final(self).wf(),
            old(self).reg_result(*final(self), index, r),
            index < 8 ==> old(self).incdec_post(*final(self), index, false),
    {
        self.incdec_r(index, false)
    }

    /// DEC r.
    pub fn dec_8_r(&mut self, index: u8) -> (r: Result<(), CpuError>)
        requires
            old(self).wf(),
        ensures
            final(self).wf(),
            old(self).reg_result(*final(self), index, r),
            index < 8 ==> old(self).incdec_post(*final(self), index, true),
    {
        self.incdec_r(index, true)
    }

    /// ADD HL, rr (BC, DE, HL, SP); Z kept.
    pub fn add_16_hl_rr(&mut self, index: u8) -> (r: Result<(), CpuError>)
        requires
            old(self).wf(),
        ensures
            final(self).wf(),
            old(self).pair_result(*final(self), index, r),
            index < 4 ==> *final(self) == (Cpu { hl: add16(old(self).hl, old(self).r16_spec(index, false), old(self).f.z).0, f: add16(old(self).hl, old(self).r16_spec(index, false), old(self).f.z).1, ..*old(self) }),
    {
        if index >= 4 {
            return Err(CpuError::UnknownRegisterPair(index));
        }
        let right = self.r16(index, false);
        let (v, f) = add_16(self.hl, right, self.f.z);
        self.hl = v;
        self.f = f;
        Ok(())
    }

    /// ADD SP, n: the signed immediate added to SP.
    pub fn add_16_sp_im8(&mut self)
        requires
            old(self).wf(),
        ensures
            final(self).wf(),
            *final(self) == (Cpu { sp: old(self).sp_offset().0, f: old(self).sp_offset().1, ..old(self).advanced(1) }),
    {
        let index = self.fetch();
        let (v, f) = add_16(self.sp, sign_extend(index), false);
        self.sp = v;
        self.f = Flags { z: false, ..f };
    }

    /// INC rr (BC, DE, HL, SP); flags kept.
    pub fn inc_16_rr(&mut self, index: u8) -> (r: Result<(), CpuError>)
        requires
            old(self).wf(),
        ensures
            final(self).wf(),
            old(self).pair_result(*final(self), index, r),
            index < 4 ==> *final(self) == old(self).with_r16(index, w16(old(self).r16_spec(index, false) + 1), false),
    {
        if index >= 4 {
            return Err(CpuError::UnknownRegisterPair(index));
        }
        let left = self.r16(index, false);
        self.set_r16(index, left.wrapping_add(1), false);
        Ok(())
    }

    /// DEC rr (BC, DE, HL, SP); flags kept.
    pub fn dec_16_rr(&mut self, index: u8) -> (r: Result<(), CpuError>)
        requires
            old(self).wf(),
        ensures
            final(self).wf(),
            old(self).pair_result(*final(self), index, r),
            index < 4 ==> *final(self) == old(self).with_r16(index, w16(old(self).r16_spec(index, false) + -1), false),
    {
        if index >= 4 {
            return Err(CpuError::UnknownRegisterPair(index));
        }
        let left = self.r16(index, false);
        self.set_r16(index, left.wrapping_sub(1), false);
        Ok(())
    }

    /// RLCA: rotates A; Z cleared.
    pub fn rlca_8(&mut self)
        requires
            old(self).wf(),
        ensures
            final(self).wf(),
            old(self).shift_a_post(*final(self), 0),
    {
        self.shift_a(0);
    }

    /// RRCA: rotates A; Z cleared.
    pub fn rrca_8(&mut self)
        requires
            old(self).wf(),
        ensures
            final(self).wf(),
            old(self).shift_a_post(*final(self), 1),
    {
        self.shift_a(1);
    }

    /// RLA: rotates A; Z cleared.
    pub fn rla_8(&mut self)
        requires
            old(self).wf(),
        ensures
            final(self).wf(),
            old(self).shift_a_post(*final(self), 2),
    {
        self.shift_a(2);
    }

    /// RRA: rotates A; Z cleared.
    pub fn rra_8(&mut self)
        requires
            old(self).wf(),
        ensures
            final(self).wf(),
            old(self).shift_a_post(*final(self), 3),
    {
        self.shift_a(3);
    }

    /// RLC r.
    pub fn rlc_8_r(&mut self, index: u8) -> (r: Result<(), CpuError>)
        requires
            old(self).wf(),
        ensures
            final(self).wf(),
            old(self).reg_result(*final(self), index, r),
            index < 8 ==> old(self).shift_post(*final(self), 0, index),
    {
        self.shift_r(0, index)
    }

    /// RRC r.
    pub fn rrc_8_r(&mut self, index: u8) -> (r: Result<(), CpuError>)
        requires
            old(self).wf(),
        ensures
            final(self).wf(),
            old(self).reg_result(*final(self), index, r),
            index < 8 ==> old(self).shift_post(*final(self), 1, index),
    {
        self.shift_r(1, index)
    }

    /// RL r.
    pub fn rl_8_r(&mut self, index: u8) -> (r: Result<(), CpuError>)
        requires
            old(self).wf(),
        ensures
            final(self).wf(),
            old(self).reg_result(*final(self), index, r),
            index < 8 ==> old(self).shift_post(*final(self), 2, index),
    {
        self.shift_r(2, index)
    }

    /// RR r.
    pub fn rr_8_r(&mut self, index: u8) -> (r: Result<(), CpuError>)
        requires
            old(self).wf(),
        ensures
            final(self).wf(),
            old(self).reg_result(*final(self), index, r),
            index < 8 ==> old(self).shift_post(*final(self), 3, index),
    {
        self.shift_r(3, index)
    }

    /// SLA r.
    pub fn sla_8_r(&mut self, index: u8) -> (r: Result<(), CpuError>)
        requires
            old(self).wf(),
        ensures
            final(self).wf(),
            old(self).reg_result(*final(self), index, r),
            index < 8 ==> old(self).shift_post(*final(self), 4, index),
    {
        self.shift_r(4, index)
    }

    /// SRA r.
    pub fn sra_8_r(&mut self, index: u8) -> (r: Result<(), CpuError>)
        requires
            old(self).wf(),
        ensures
            final(self).wf(),
            old(self).reg_result(*final(self), index, r),
            index < 8 ==> old(self).shift_post(*final(self), 5, index),
    {
        self.shift_r(5, index)
    }

    /// SWAP r.
    pub fn swap_8_r(&mut self, index: u8) -> (r: Result<(), CpuError>)
        requires
            old(self).wf(),
        ensures
            final(self).wf(),
            old(self).reg_result(*final(self), index, r),
            index < 8 ==> old(self).shift_post(*final(self), 6, index),
    {
        self.shift_r(6, index)
    }

    /// SRL r.
    pub fn srl_8_r(&mut self, index: u8) -> (r: Result<(), CpuError>)
        requires
            old(self).wf(),
        ensures
            final(self).wf(),
            old(self).reg_result(*final(self), index, r),
            index < 8 ==> old(self).shift_post(*final(self), 7, index),
    {
        self.shift_r(7, index)
    }

    /// BIT b, r.
    pub fn bit_8_bit_r(&mut self, index: u8, bit: u8) -> (r: Result<(), CpuError>)
        requires
            old(self).wf(),
            bit < 8,
        ensures
            final(self).wf(),
            old(self).reg_result(*final(self), index, r),
            index < 8 ==> old(self).bit_post(*final(self), index, bit),
    {
        if index >= 8 {
            return Err(CpuError::UnknownRegister(index));
        }
        let left = self.r8(index);
        self.f = Flags { z: !get_bit(left, bit), n: false, h: true, ..self.f };
        Ok(())
    }

    /// SET b, r.
    pub fn set_8_bit_r(&mut self, index: u8, bit: u8) -> (r: Result<(), CpuError>)
        requires
            old(self).wf(),
            bit < 8,
        ensures
            final(self).wf(),
            old(self).reg_result(*final(self), index, r),
            index < 8 ==> old(self).setres_post(*final(self), index, bit, true),
    {
        self.setres(index, bit, true)
    }

    /// RES b, r.
    pub fn reset_8_bit_r(&mut self, index: u8, bit: u8) -> (r: Result<(), CpuError>)
        requires
            old(self).wf(),
            bit < 8,
        ensures
            final(self).wf(),
            old(self).reg_result(*final(self), index, r),
            index < 8 ==> old(self).setres_post(*final(self), index, bit, false),
    {
        self.setres(index, bit, false)
    }

    /// JP nn.
    pub fn jp_16(&mut self)
        requires
            old(self).wf(),
        ensures
            final(self).wf(),
            old(self).jp_post(*final(self), true),
    {
        let addr = self.fetch_word();
        self.pc = addr;
    }

    /// JP NZ, nn.
    pub fn jp_16_nz(&mut self)
        requires
            old(self).wf(),
        ensures
            final(self).wf(),
            old(self).jp_post(*final(self), old(self).cond_spec(0)),
    {
        self.jp_cc(0);
    }

    /// JP Z, nn.
    pub fn jp_16_z(&mut self)
        requires
            old(self).wf(),
        ensures
            final(self).wf(),
            old(self).jp_post(*final(self), old(self).cond_spec(1)),
    {
        self.jp_cc(1);
    }

    /// JP NC, nn.
    pub fn jp_16_nc(&mut self)
        requires
            old(self).wf(),
        ensures
            final(self).wf(),
            old(self).jp_post(*final(self), old(self).cond_spec(2)),
    {
        self.jp_cc(2);
    }

    /// JP C, nn.
    pub fn jp_16_c(&mut self)
        requires
            old(self).wf(),
        ensures
            final(self).wf(),
            old(self).jp_post(*final(self), old(self).cond_spec(3)),
    {
        self.jp_cc(3);
    }

    /// JP (HL): jumps to HL.
    pub fn jp_16_hl(&mut self)
        requires
            old(self).wf(),
        ensures
            final(self).wf(),
            *final(self) == (Cpu { pc: old(self).hl, ..*old(self) }),
    {
        self.pc = self.hl;
    }

    /// JR n: relative jump by the signed immediate.
    pub fn jr_8_im_8(&mut self)
        requires
            old(self).wf(),
        ensures
            final(self).wf(),
            old(self).jr_post(*final(self), true),
    {
        let index = self.fetch();
        self.pc = self.pc.wrapping_add(sign_extend(index));
    }

    /// JR NZ, n.
    pub fn jr_8_nz(&mut self)
        requires
            old(self).wf(),
        ensures
            final(self).wf(),
            old(self).jr_post(*final(self), old(self).cond_spec(0)),
    {
        self.jr_cc(0);
    }

    /// JR Z, n.
    pub fn jr_8_z(&mut self)
        requires
            old(self).wf(),
        ensures
            final(self).wf(),
            old(self).jr_post(*final(self), old(self).cond_spec(1)),
    {
        self.jr_cc(1);
    }

    /// JR NC, n.
    pub fn jr_8_nc(&mut self)
        requires
            old(self).wf(),
        ensures
            final(self).wf(),
            old(self).jr_post(*final(self), old(self).cond_spec(2)),
    {
        self.jr_cc(2);
    }

    /// JR C, n.
    pub fn jr_8_c(&mut self)
        requires
            old(self).wf(),
        ensures
            final(self).wf(),
            old(self).jr_post(*final(self), old(self).cond_spec(3)),
    {
        self.jr_cc(3);
    }

    /// CALL nn.
    pub fn call_16(&mut self)
        requires
            old(self).wf(),
        ensures
            final(self).wf(),
            old(self).call_cc_post(*final(self), true),
    {
        let addr = self.fetch_word();
        self.call(addr);
    }

    /// CALL NZ, nn.
    pub fn call_16_nz(&mut self)
        requires
            old(self).wf(),
        ensures
            final(self).wf(),
            old(self).call_cc_post(*final(self), old(self).cond_spec(0)),
    {
        self.call_cc(0);
    }

    /// CALL Z, nn.
    pub fn call_16_z(&mut self)
        requires
            old(self).wf(),
        ensures
            final(self).wf(),
            old(self).call_cc_post(*final(self), old(self).cond_spec(1)),
    {
        self.call_cc(1);
    }

    /// CALL NC, nn.
    pub fn call_16_nc(&mut self)
        requires
            old(self).wf(),
        ensures
            final(self).wf(),
            old(self).call_cc_post(*final(self), old(self).cond_spec(2)),
    {
        self.call_cc(2);
    }

    /// CALL C, nn.
    pub fn call_16_c(&mut self)
        requires
            old(self).wf(),
        ensures
            final(self).wf(),
            old(self).call_cc_post(*final(self), old(self).cond_spec(3)),
    {
        self.call_cc(3);
    }

    /// RST: calls the fixed vector `param` * 8.
    pub fn restart(&mut self, param: u8)
        requires
            old(self).wf(),
            param < 8,
        ensures
            final(self).wf(),
            old(self).call_post(*final(self), (param * 8) as u16),
    {
        self.call(param as u16 * 8);
    }

    /// RET.
    pub fn ret(&mut self)
        requires
            old(self).wf(),
        ensures
            final(self).wf(),
            *final(self) == old(self).ret_spec(),
    {
        self.pop_pc();
    }

    /// RET NZ.
    pub fn ret_nz(&mut self)
        requires
            old(self).wf(),
        ensures
            final(self).wf(),
            old(self).ret_cc_post(*final(self), old(self).cond_spec(0)),
    {
        self.ret_cc(0);
    }

    /// RET Z.
    pub fn ret_z(&mut self)
        requires
            old(self).wf(),
        ensures
            final(self).wf(),
            old(self).ret_cc_post(*final(self), old(self).cond_spec(1)),
    {
        self.ret_cc(1);
    }

    /// RET NC.
    pub fn ret_nc(&mut self)
        requires
            old(self).wf(),
        ensures
            final(self).wf(),
            old(self).ret_cc_post(*final(self), old(self).cond_spec(2)),
    {
        self.ret_cc(2);
    }

    /// RET C.
    pub fn ret_c(&mut self)
        requires
            old(self).wf(),
        ensures
            final(self).wf(),
            old(self).ret_cc_post(*final(self), old(self).cond_spec(3)),
    {
        self.ret_cc(3);
    }

    /// RETI: returns and enables interrupt dispatch.
    pub fn reti(&mut self)
        requires
            old(self).wf(),
        ensures
            final(self).wf(),
            *final(self) == (Cpu { ime: true, ..old(self).ret_spec() }),
    {
        self.pop_pc();
        self.ime = true;
    }

    /// DAA.
    pub fn decimal_adjust_8_a(&mut self)
        requires
            old(self).wf(),
        ensures
            final(self).wf(),
            *final(self) == (Cpu { a: daa_spec(old(self).a, old(self).f).0, f: daa_spec(old(self).a, old(self).f).1, ..*old(self) }),
    {
        let (v, f) = daa(self.a, self.f);
        self.a = v;
        self.f = f;
    }

    /// CPL: A inverted; N and H set.
    pub fn complement_8_a(&mut self)
        requires
            old(self).wf(),
        ensures
            final(self).wf(),
            *final(self) == (Cpu { a: (255 - old(self).a) as u8, f: Flags { n: true, h: true, ..old(self).f }, ..*old(self) }),
    {
        self.a = 255 - self.a;
        self.f = Flags { n: true, h: true, ..self.f };
    }

    /// CCF: carry inverted; N and H cleared.
    pub fn complement_carry(&mut self)
        requires
            old(self).wf(),
        ensures
            final(self).wf(),
            *final(self) == (Cpu { f: Flags { n: false, h: false, c: !old(self).f.c, ..old(self).f }, ..*old(self) }),
    {
        self.f = Flags { n: false, h: false, c: !self.f.c, ..self.f };
    }

    /// SCF: carry set; N and H cleared.
    pub fn set_carry_flag(&mut self)
        requires
            old(self).wf(),
        ensures
            final(self).wf(),
            *final(self) == (Cpu { f: Flags { n: false, h: false, c: true, ..old(self).f }, ..*old(self) }),
    {
        self.f = Flags { n: false, h: false, c: true, ..self.f };
    }

}

} // verus!

verus! {

/// The opcodes that no instruction has.
pub open spec fn is_unknown(op: u8) -> bool {
    op == 0xD3 || op == 0xDB || op == 0xDD || op == 0xE3 || op == 0xE4 || op == 0xEB || op == 0xEC
        || op == 0xED || op == 0xF4 || op == 0xFC || op == 0xFD
}

impl Cpu {
    /// Instructions 0x00..=0x3F.
    pub open spec fn exec_q0(self, new: Cpu, op: u8) -> bool {
        let x = (op / 8 % 8) as u8;
        let y = op % 8;
        let z = op % 16;
        let p = (op / 16 % 4) as u8;
        if op == 0x00 {
            new == self
        } else if op == 0x10 {
            new == self
        } else if y == 6 {
            self.advanced(1).set_r8_post(new, x, self.imm8())
        } else if op == 0x0A {
            self.load_a_post(new, self.bc, 0, 0)
        } else if op == 0x1A {
            self.load_a_post(new, self.de, 0, 0)
        } else if op == 0x02 {
            self.store_a_post(new, self.bc, 0, 0)
        } else if op == 0x12 {
            self.store_a_post(new, self.de, 0, 0)
        } else if op == 0x3A {
            self.load_a_post(new, self.hl, 0, -1)
        } else if op == 0x32 {
            self.store_a_post(new, self.hl, 0, -1)
        } else if op == 0x2A {
            self.load_a_post(new, self.hl, 0, 1)
        } else if op == 0x22 {
            self.store_a_post(new, self.hl, 0, 1)
        } else if z == 1 {
            new == self.advanced(2).with_r16(p, self.imm16(), false)
        } else if op == 0x08 {
            new == (Cpu { bus: new.bus, ..self.advanced(2) }) && self.bus.write_word_spec(new.bus, self.imm16(), self.sp)
        } else if y == 4 {
            self.incdec_post(new, x, false)
        } else if y == 5 {
            self.incdec_post(new, x, true)
        } else if z == 9 {
            new == (Cpu { hl: add16(self.hl, self.r16_spec(p, false), self.f.z).0, f: add16(self.hl, self.r16_spec(p, false), self.f.z).1, ..self })
        } else if z == 3 {
            new == self.with_r16(p, w16(self.r16_spec(p, false) + 1), false)
        } else if z == 11 {
            new == self.with_r16(p, w16(self.r16_spec(p, false) - 1), false)
        } else if op == 0x07 {
            self.shift_a_post(new, 0)
        } else if op == 0x17 {
            self.shift_a_post(new, 2)
        } else if op == 0x0F {
            self.shift_a_post(new, 1)
        } else if op == 0x1F {
            self.shift_a_post(new, 3)
        } else if op == 0x27 {
            new == (Cpu { a: daa_spec(self.a, self.f).0, f: daa_spec(self.a, self.f).1, ..self })
        } else if op == 0x2F {
            new == (Cpu { a: (255 - self.a) as u8, f: Flags { n: true, h: true, ..self.f }, ..self })
        } else if op == 0x3F {
            new == (Cpu { f: Flags { n: false, h: false, c: !self.f.c, ..self.f }, ..self })
        } else if op == 0x37 {
            new == (Cpu { f: Flags { n: false, h: false, c: true, ..self.f }, ..self })
        } else if op == 0x18 {
            self.jr_post(new, true)
        } else if op == 0x20 {
            self.jr_post(new, self.cond_spec(0))
        } else if op == 0x28 {
            self.jr_post(new, self.cond_spec(1))
        } else if op == 0x30 {
            self.jr_post(new, self.cond_spec(2))
        } else if op == 0x38 {
            self.jr_post(new, self.cond_spec(3))
        } else {
            false
        }
    }

    /// Instructions 0xC0..=0xDF.
    pub open spec fn exec_q3a(self, new: Cpu, op: u8) -> bool {
        let x = (op / 8 % 8) as u8;
        let y = op % 8;
        let z = op % 16;
        let p = (op / 16 % 4) as u8;
        if z == 5 {
            self.push_post(new, p)
        } else if z == 1 {
            self.pop_post(new, p)
        } else if y == 6 {
            self.alu_post(new, x, self.imm8(), 1)
        } else if y == 7 {
            self.call_post(new, (x * 8) as u16)
        } else if op == 0xC3 {
            self.jp_post(new, true)
        } else if op == 0xC2 {
            self.jp_post(new, self.cond_spec(0))
        } else if op == 0xCA {
            self.jp_post(new, self.cond_spec(1))
        } else if op == 0xD2 {
            self.jp_post(new, self.cond_spec(2))
        } else if op == 0xDA {
            self.jp_post(new, self.cond_spec(3))
        } else if op == 0xCD {
            self.call_cc_post(new, true)
        } else if op == 0xC4 {
            self.call_cc_post(new, self.cond_spec(0))
        } else if op == 0xCC {
            self.call_cc_post(new, self.cond_spec(1))
        } else if op == 0xD4 {
            self.call_cc_post(new, self.cond_spec(2))
        } else if op == 0xDC {
            self.call_cc_post(new, self.cond_spec(3))
        } else if op == 0xC9 {
            new == self.ret_spec()
        } else if op == 0xC0 {
            self.ret_cc_post(new, self.cond_spec(0))
        } else if op == 0xC8 {
            self.ret_cc_post(new, self.cond_spec(1))
        } else if op == 0xD0 {
            self.ret_cc_post(new, self.cond_spec(2))
        } else if op == 0xD8 {
            self.ret_cc_post(new, self.cond_spec(3))
        } else if op == 0xD9 {
            new == (Cpu { ime: true, ..self.ret_spec() })
        } else if op == 0xCB {
            self.advanced(1).exec_prefixed_spec(new, self.imm8())
        } else {
            false
        }
    }

    /// Instructions 0xE0..=0xFF.
    pub open spec fn exec_q3b(self, new: Cpu, op: u8) -> bool {
        let x = (op / 8 % 8) as u8;
        let y = op % 8;
        let z = op % 16;
        let p = (op / 16 % 4) as u8;
        if op == 0xF3 {
            new == (Cpu { ime: false, ..self })
        } else if op == 0xFB {
            new == (Cpu { ime: true, ..self })
        } else if op == 0xFA {
            self.load_a_post(new, self.imm16(), 2, 0)
        } else if op == 0xEA {
            self.store_a_post(new, self.imm16(), 2, 0)
        } else if op == 0xF2 {
            self.load_a_post(new, (0xFF00 + self.r8_spec(1)) as u16, 0, 0)
        } else if op == 0xE2 {
            self.store_a_post(new, (0xFF00 + self.r8_spec(1)) as u16, 0, 0)
        } else if op == 0xF0 {
            self.load_a_post(new, (0xFF00 + self.imm8()) as u16, 1, 0)
        } else if op == 0xE0 {
            self.store_a_post(new, (0xFF00 + self.imm8()) as u16, 1, 0)
        } else if op == 0xF8 {
            new == (Cpu { hl: self.sp_offset().0, f: self.sp_offset().1, ..self.advanced(1) })
        } else if op == 0xF9 {
            new == (Cpu { sp: self.hl, ..self })
        } else if op == 0xE8 {
            new == (Cpu { sp: self.sp_offset().0, f: self.sp_offset().1, ..self.advanced(1) })
        } else if op == 0xE9 {
            new == (Cpu { pc: self.hl, ..self })
        } else if z == 5 {
            self.push_post(new, p)
        } else if z == 1 {
            self.pop_post(new, p)
        } else if y == 6 {
            self.alu_post(new, x, self.imm8(), 1)
        } else if y == 7 {
            self.call_post(new, (x * 8) as u16)
        } else {
            false
        }
    }

    /// The prefixed (0xCB) instructions: rotates and shifts, BIT, RES, SET.
    pub open spec fn exec_prefixed_spec(self, new: Cpu, op: u8) -> bool {
        let x = (op / 8 % 8) as u8;
        let y = (op % 8) as u8;
        if op < 0x40 {
            self.shift_post(new, x, y)
        } else if op < 0x80 {
            self.bit_post(new, y, x)
        } else if op < 0xC0 {
            self.setres_post(new, y, x, false)
        } else {
            self.setres_post(new, y, x, true)
        }
    }

    /// `new` is `self` after executing the instruction `op`, whose opcode
    /// byte was already fetched.
    pub open spec fn exec_spec(self, new: Cpu, op: u8) -> bool {
        if op < 0x40 {
            self.exec_q0(new, op)
        } else if op < 0x80 {
            if op == 0x76 {
                new == Cpu { halt: true, ..self }
            } else {
                self.set_r8_post(new, (op / 8 % 8) as u8, self.r8_spec(op % 8))
            }
        } else if op < 0xC0 {
            self.alu_post(new, (op / 8 % 8) as u8, self.r8_spec(op % 8), 0)
        } else if op < 0xE0 {
            self.exec_q3a(new, op)
        } else {
            self.exec_q3b(new, op)
        }
    }
}

impl Cpu {
    #[verifier::rlimit(60)]
    fn do_q0(&mut self, op: u8)
        requires
            old(self).wf(),
            op < 0x40,
        ensures
            final(self).wf(),
            old(self).exec_q0(*final(self), op),
    {
        let x = op / 8 % 8;
        let y = op % 8;
        let z = op % 16;
        let p = op / 16 % 4;
        if op == 0x00 {
            self.nop();
        } else if op == 0x10 {
            self.stop();
        } else if y == 6 {
            let _ = self.load_8_r_im8(x);
        } else if op == 0x0A {
            self.load_8_a_addr_bc();
        } else if op == 0x1A {
            self.load_8_a_addr_de();
        } else if op == 0x02 {
            self.load_8_addr_bc_a();
        } else if op == 0x12 {
            self.load_8_addr_de_a();
        } else if op == 0x3A {
            self.load_dec_8_a_addr_hl();
        } else if op == 0x32 {
            self.load_dec_8_addr_hl_a();
        } else if op == 0x2A {
            self.load_inc_8_a_addr_hl();
        } else if op == 0x22 {
            self.load_inc_8_addr_hl_a();
        } else if z == 1 {
            let _ = self.load_16_rr_im16(p);
        } else if op == 0x08 {
            self.load_16_addr_im16_sp();
        } else if y == 4 {
            let _ = self.inc_8_r(x);
        } else if y == 5 {
            let _ = self.dec_8_r(x);
        } else if z == 9 {
            let _ = self.add_16_hl_rr(p);
        } else if z == 3 {
            let _ = self.inc_16_rr(p);
        } else if z == 11 {
            let _ = self.dec_16_rr(p);
        } else if op == 0x07 {
            self.rlca_8();
        } else if op == 0x17 {
            self.rla_8();
        } else if op == 0x0F {
            self.rrca_8();
        } else if op == 0x1F {
            self.rra_8();
        } else if op == 0x27 {
            self.decimal_adjust_8_a();
        } else if op == 0x2F {
            self.complement_8_a();
        } else if op == 0x3F {
            self.complement_carry();
        } else if op == 0x37 {
            self.set_carry_flag();
        } else if op == 0x18 {
            self.jr_8_im_8();
        } else if op == 0x20 {
            self.jr_8_nz();
        } else if op == 0x28 {
            self.jr_8_z();
        } else if op == 0x30 {
            self.jr_8_nc();
        } else if op == 0x38 {
            self.jr_8_c();
        }
    }

    #[verifier::rlimit(60)]
    fn do_q3a(&mut self, op: u8) -> (r: Result<(), CpuError>)
        requires
            old(self).wf(),
            0xC0 <= op < 0xE0,
        ensures
            final(self).wf(),
            is_unknown(op) ==> r == Err::<(), CpuError>(CpuError::UnknownOpcode(op)) && *final(self) == *old(self),
            !is_unknown(op) ==> r is Ok && old(self).exec_q3a(*final(self), op),
    {
        let x = op / 8 % 8;
        let y = op % 8;
        let z = op % 16;
        let p = op / 16 % 4;
        if z == 5 {
            self.push_16_rr(p)
        } else if z == 1 {
            self.pop_16_rr(p)
        } else if y == 6 {
            self.alu_im8(x);
            Ok(())
        } else if y == 7 {
            self.restart(x);
            Ok(())
        } else if op == 0xC3 {
            self.jp_16();
            Ok(())
        } else if op == 0xC2 {
            self.jp_16_nz();
            Ok(())
        } else if op == 0xCA {
            self.jp_16_z();
            Ok(())
        } else if op == 0xD2 {
            self.jp_16_nc();
            Ok(())
        } else if op == 0xDA {
            self.jp_16_c();
            Ok(())
        } else if op == 0xCD {
            self.call_16();
            Ok(())
        } else if op == 0xC4 {
            self.call_16_nz();
            Ok(())
        } else if op == 0xCC {
            self.call_16_z();
            Ok(())
        } else if op == 0xD4 {
            self.call_16_nc();
            Ok(())
        } else if op == 0xDC {
            self.call_16_c();
            Ok(())
        } else if op == 0xC9 {
            self.ret();
            Ok(())
        } else if op == 0xC0 {
            self.ret_nz();
            Ok(())
        } else if op == 0xC8 {
            self.ret_z();
            Ok(())
        } else if op == 0xD0 {
            self.ret_nc();
            Ok(())
        } else if op == 0xD8 {
            self.ret_c();
            Ok(())
        } else if op == 0xD9 {
            self.reti();
            Ok(())
        } else if op == 0xCB {
            self.do_prefixed();
            Ok(())
        } else {
            Err(CpuError::UnknownOpcode(op))
        }
    }

    #[verifier::rlimit(60)]
    fn do_q3b(&mut self, op: u8) -> (r: Result<(), CpuError>)
        requires
            old(self).wf(),
            0xE0 <= op,
        ensures
            final(self).wf(),
            is_unknown(op) ==> r == Err::<(), CpuError>(CpuError::UnknownOpcode(op)) && *final(self) == *old(self),
            !is_unknown(op) ==> r is Ok && old(self).exec_q3b(*final(self), op),
    {
        let x = op / 8 % 8;
        let y = op % 8;
        let z = op % 16;
        let p = op / 16 % 4;
        if op == 0xF3 {
            self.di();
            Ok(())
        } else if op == 0xFB {
            self.ei();
            Ok(())
        } else if op == 0xFA {
            self.load_8_a_addr_im16();
            Ok(())
        } else if op == 0xEA {
            self.load_8_addr_im16_a();
            Ok(())
        } else if op == 0xF2 {
            self.load_8_a_addr_index_c();
            Ok(())
        } else if op == 0xE2 {
            self.load_8_addr_index_c_a();
            Ok(())
        } else if op == 0xF0 {
            self.load_8_a_addr_index_im8();
            Ok(())
        } else if op == 0xE0 {
            self.load_8_addr_index_im8_a();
            Ok(())
        } else if op == 0xF8 {
            self.load_16_hl_index_im8_sp();
            Ok(())
        } else if op == 0xF9 {
            self.load_16_sp_hl();
            Ok(())
        } else if op == 0xE8 {
            self.add_16_sp_im8();
            Ok(())
        } else if op == 0xE9 {
            self.jp_16_hl();
            Ok(())
        } else if z == 5 {
            self.push_16_rr(p)
        } else if z == 1 {
            self.pop_16_rr(p)
        } else if y == 6 {
            self.alu_im8(x);
            Ok(())
        } else if y == 7 {
            self.restart(x);
            Ok(())
        } else {
            Err(CpuError::UnknownOpcode(op))
        }
    }

    fn do_prefixed(&mut self)
        requires
            old(self).wf(),
        ensures
            final(self).wf(),
            old(self).advanced(1).exec_prefixed_spec(*final(self), old(self).imm8()),
    {
        let op = self.fetch();
        self.do_mnemonic_prefixed(op);
    }

    /// Executes the prefixed instruction `op`; every prefixed opcode is an
    /// instruction.
    fn do_mnemonic_prefixed(&mut self, op: u8)
        requires
            old(self).wf(),
        ensures
            final(self).wf(),
            old(self).exec_prefixed_spec(*final(self), op),
    {
        let x = op / 8 % 8;
        let y = op % 8;
        if op < 0x40 {
            let _ = self.shift_r(x, y);
        } else if op < 0x80 {
            let _ = self.bit_8_bit_r(y, x);
        } else if op < 0xC0 {
            let _ = self.reset_8_bit_r(y, x);
        } else {
            let _ = self.set_8_bit_r(y, x);
        }
    }

    /// Executes the instruction `op`, whose opcode byte was already fetched;
    /// an opcode of no instruction is an error and changes nothing.
    fn do_mnemonic(&mut self, op: u8) -> (r: Result<(), CpuError>)
        requires
            old(self).wf(),
        ensures
            final(self).wf(),
            is_unknown(op) ==> r == Err::<(), CpuError>(CpuError::UnknownOpcode(op)) && *final(self)
                == *old(self),
            !is_unknown(op) ==> r is Ok && old(self).exec_spec(*final(self), op),
    {
        if op < 0x40 {
            self.do_q0(op);
            Ok(())
        } else if op < 0x80 {
            if op == 0x76 {
                self.halt();
            } else {
                let _ = self.load_8_r_r(op / 8 % 8, op % 8);
            }
            Ok(())
        } else if op < 0xC0 {
            let _ = self.alu_r(op / 8 % 8, op % 8);
            Ok(())
        } else if op < 0xE0 {
            self.do_q3a(op)
        } else {
            self.do_q3b(op)
        }
    }
}

} // verus!

verus! {

/// Machine cycles that taking an interrupt costs.
pub const INTERRUPT_CYCLES: u8 = 5;

pub open spec fn irq_vector(k: int) -> u16 {
    (0x40 + 8 * k) as u16
}

impl Cpu {
    /// Machine cycles of instruction `op`, fetched already (the program
    /// counter is past it); a conditional branch costs more when taken. A
    /// memory operand at HL costs one or two cycles more.
    pub open spec fn cycles_spec(self, op: u8) -> u8 {
        let x = (op / 8 % 8) as u8;
        let y = op % 8;
        let z = op % 16;
        if op < 0x40 {
            if y == 6 {
                if op == 0x36 {
                    3
                } else {
                    2
                }
            } else if y == 4 || y == 5 {
                if x == 6 {
                    3
                } else {
                    1
                }
            } else if z == 1 {
                3
            } else if op == 0x08 {
                5
            } else if z == 9 || z == 3 || z == 11 || y == 2 {
                2
            } else if op == 0x18 {
                3
            } else if op >= 0x20 && y == 0 {
                if self.cond_spec((x - 4) as u8) {
                    3
                } else {
                    2
                }
            } else {
                1
            }
        } else if op < 0x80 {
            if op != 0x76 && (x == 6 || y == 6) {
                2
            } else {
                1
            }
        } else if op < 0xC0 {
            if y == 6 {
                2
            } else {
                1
            }
        } else if z == 5 && !is_unknown(op) {
            4
        } else if z == 1 {
            3
        } else if y == 6 {
            2
        } else if y == 7 {
            4
        } else if op == 0xC3 || op == 0xC9 || op == 0xD9 || op == 0xFA || op == 0xEA || op
            == 0xE8 {
            4
        } else if op == 0xCD {
            6
        } else if op < 0xE0 && y == 2 {
            if self.cond_spec(x) {
                4
            } else {
                3
            }
        } else if op < 0xE0 && y == 4 {
            if self.cond_spec(x) {
                6
            } else {
                3
            }
        } else if op < 0xE0 && y == 0 {
            if self.cond_spec(x) {
                5
            } else {
                2
            }
        } else if op == 0xCB {
            let p = self.imm8();
            if p % 8 != 6 {
                2
            } else if p / 64 == 1 {
                3
            } else {
                4
            }
        } else if op == 0xF0 || op == 0xE0 || op == 0xF8 {
            3
        } else if op == 0xF2 || op == 0xE2 || op == 0xF9 {
            2
        } else {
            1
        }
    }

    fn op_cycles(&self, op: u8) -> (r: u8)
        requires
            self.wf(),
        ensures
            r == self.cycles_spec(op),
    {
        let x = op / 8 % 8;
        let y = op % 8;
        let z = op % 16;
        if op < 0x40 {
            if y == 6 {
                if op == 0x36 {
                    3
                } else {
                    2
                }
            } else if y == 4 || y == 5 {
                if x == 6 {
                    3
                } else {
                    1
                }
            } else if z == 1 {
                3
            } else if op == 0x08 {
                5
            } else if z == 9 || z == 3 || z == 11 || y == 2 {
                2
            } else if op == 0x18 {
                3
            } else if op >= 0x20 && y == 0 {
                if self.cond(x - 4) {
                    3
                } else {
                    2
                }
            } else {
                1
            }
        } else if op < 0x80 {
            if op != 0x76 && (x == 6 || y == 6) {
                2
            } else {
                1
            }
        } else if op < 0xC0 {
            if y == 6 {
                2
            } else {
                1
            }
        } else if z == 5 && op != 0xDD && op != 0xED && op != 0xFD {
            4
        } else if z == 1 {
            3
        } else if y == 6 {
            2
        } else if y == 7 {
            4
        } else if op == 0xC3 || op == 0xC9 || op == 0xD9 || op == 0xFA || op == 0xEA || op
            == 0xE8 {
            4
        } else if op == 0xCD {
            6
        } else if op < 0xE0 && y == 2 {
            if self.cond(x) {
                4
            } else {
                3
            }
        } else if op < 0xE0 && y == 4 {
            if self.cond(x) {
                6
            } else {
                3
            }
        } else if op < 0xE0 && y == 0 {
            if self.cond(x) {
                5
            } else {
                2
            }
        } else if op == 0xCB {
            let p = self.bus.read(self.pc);
            if p % 8 != 6 {
                2
            } else if p / 64 == 1 {
                3
            } else {
                4
            }
        } else if op == 0xF0 || op == 0xE0 || op == 0xF8 {
            3
        } else if op == 0xF2 || op == 0xE2 || op == 0xF9 {
            2
        } else {
            1
        }
    }

    /// `new` is `self` after one step: a ready interrupt is taken first
    /// (while dispatch is enabled); else a pending stall is spent; else a
    /// halted CPU waits; else one instruction is fetched and executed. The
    /// step records the machine cycles it took.
    pub open spec fn step_spec(self, new: Cpu, r: Result<(), CpuError>) -> bool {
        let k = first_irq(self.bus);
        if self.ime && k < 5 {
            &&& r is Ok
            &&& Cpu {
                ime: false,
                halt: false,
                cycles: INTERRUPT_CYCLES,
                bus: clear_irq(self.bus, k),
                ..self
            }.call_post(new, irq_vector(k))
        } else if self.stalls > 0 {
            r is Ok && new == Cpu { stalls: (self.stalls - 1) as u8, cycles: 1, ..self }
        } else if self.halt {
            r is Ok && new == Cpu { cycles: 1, ..self }
        } else {
            let op = self.imm8();
            let s1 = self.advanced(1);
            let s2 = Cpu { cycles: s1.cycles_spec(op), ..s1 };
            if is_unknown(op) {
                r == Err::<(), CpuError>(CpuError::UnknownOpcode(op)) && new == s2
            } else {
                r is Ok && s2.exec_spec(new, op)
            }
        }
    }

    /// The state `reset` leaves.
    pub open spec fn reset_spec(self) -> Cpu {
        Cpu {
            a: 0x11,
            f: flags_of(0x80),
            bc: 0x0000,
            de: 0xFF56,
            hl: 0x000D,
            sp: 0xFFFE,
            pc: 0x0100,
            stalls: 0,
            bus: Bus {
                timer: Timer {
                    enable: false,
                    clock: 0,
                    tma: 0,
                    ..Timer { tima: 0, ..self.bus.timer.synced() }.synced()
                },
                ppu: Ppu {
                    lcd_control: 0x91,
                    scroll_y: 0,
                    scroll_x: 0,
                    lines_compare: 0,
                    bg_palette: 0xFC,
                    object_palette_0: 0xFF,
                    object_palette_1: 0xFF,
                    window_y: 0,
                    window_x: 0,
                    ..self.bus.ppu
                },
                ie: 0,
                ..self.bus
            },
            ..self
        }
    }

    /// A CPU at power-on over a fresh bus: registers cleared, dispatch
    /// disabled, running; the pixel unit, timer, joypad and memories cleared.
    pub open spec fn is_power_on(&self) -> bool {
        &&& self.a == 0 && self.bc == 0 && self.de == 0 && self.hl == 0
        &&& self.sp == 0 && self.pc == 0 && self.stalls == 0 && self.cycles == 0
        &&& self.f == Flags { z: false, n: false, h: false, c: false }
        &&& !self.ime && !self.halt
        &&& self.bus.ppu.is_initial()
        &&& self.bus.timer == Timer::initial()
        &&& self.bus.joypad == Joypad::initial()
        &&& self.bus.ram@ == Seq::new(crate::bus::WORK_RAM_SIZE as nat, |i: int| 0u8)
        &&& self.bus.hram@ == Seq::new(crate::bus::HIGH_RAM_SIZE as nat, |i: int| 0u8)
        &&& self.bus.ie == 0 && !self.bus.int_serial && !self.bus.prev_serial
    }

    /// A CPU at power-on: registers cleared, dispatch disabled, running.
    pub fn new(bus: Bus) -> (r: Cpu)
        requires
            bus.wf(),
        ensures
            r.wf(),
            r == (Cpu {
                a: 0,
                f: Flags { z: false, n: false, h: false, c: false },
                bc: 0,
                de: 0,
                hl: 0,
                sp: 0,
                pc: 0,
                stalls: 0,
                cycles: 0,
                ime: false,
                halt: false,
                bus,
            }),
    {
        Cpu {
            a: 0,
            f: Flags { z: false, n: false, h: false, c: false },
            bc: 0,
            de: 0,
            hl: 0,
            sp: 0,
            pc: 0,
            stalls: 0,
            cycles: 0,
            ime: false,
            halt: false,
            bus,
        }
    }

    /// The register values that the boot program leaves, and the post-boot
    /// values of the timer, video and interrupt enable registers.
    pub fn reset(&mut self)
        requires
            old(self).wf(),
        ensures
            final(self).wf(),
            *final(self) == old(self).reset_spec(),
    {
        self.a = 0x11;
        self.f = byte_to_flags(0x80);
        self.bc = 0x0000;
        self.de = 0xFF56;
        self.hl = 0x000D;
        self.sp = 0xFFFE;
        self.pc = 0x0100;
        self.stalls = 0;
        let ghost t0 = self.bus.timer;
        self.bus.timer.write_tima(0x00);
        assert(self.bus.timer == Timer { tima: 0, ..t0.synced() });
        self.bus.timer.write_tma(0x00);
        self.bus.timer.write_tac(0x00);
        assert(0u8 & 4 == 0 && 0u8 & 3 == 0) by (bit_vector);
        assert(self.bus.timer == (Timer {
            enable: false,
            clock: 0,
            tma: 0,
            ..Timer { tima: 0, ..t0.synced() }.synced()
        }));
        self.bus.ppu.write_lcd_control(0x91);
        self.bus.ppu.write_scroll_y(0x00);
        self.bus.ppu.write_scroll_x(0x00);
        self.bus.ppu.write_line_compare(0x00);
        self.bus.ppu.write_bg_palette(0xFC);
        self.bus.ppu.write_object_palette_0(0xFF);
        self.bus.ppu.write_object_palette_1(0xFF);
        self.bus.ppu.write_window_y(0x00);
        self.bus.ppu.write_window_x(0x00);
        self.bus.ie = 0x00;
    }

    /// Takes the first interrupt that is both requested and enabled, in
    /// priority order: clears its request and calls its vector. Returns
    /// whether one was taken.
    pub fn interrupt(&mut self) -> (r: bool)
        requires
            old(self).wf(),
        ensures
            final(self).wf(),
            r == (first_irq(old(self).bus) < 5),
            !r ==> *final(self) == *old(self),
            r ==> (Cpu { bus: clear_irq(old(self).bus, first_irq(old(self).bus)), ..*old(self) }).call_post(
                *final(self),
                irq_vector(first_irq(old(self).bus)),
            ),
    {
        let k = self.first_ready();
        if k == 5 {
            return false;
        }
        self.clear_request(k);
        self.call(0x40 + 8 * k as u16);
        true
    }

    fn first_ready(&self) -> (r: u8)
        ensures
            r == first_irq(self.bus),
    {
        let ie = self.bus.ie;
        if get_bit(ie, 0) && self.bus.ppu.int_v_blank {
            0
        } else if get_bit(ie, 1) && self.bus.ppu.int_lcd_stat {
            1
        } else if get_bit(ie, 2) && self.bus.timer.int {
            2
        } else if get_bit(ie, 3) && self.bus.int_serial {
            3
        } else if get_bit(ie, 4) && self.bus.joypad.int {
            4
        } else {
            5
        }
    }

    fn clear_request(&mut self, k: u8)
        requires
            old(self).wf(),
            k < 5,
        ensures
            final(self).wf(),
            *final(self) == (Cpu { bus: clear_irq(old(self).bus, k as int), ..*old(self) }),
    {
        if k == 0 {
            self.bus.set_irq_v_blank(false);
        } else if k == 1 {
            self.bus.set_irq_lcd_stat(false);
        } else if k == 2 {
            self.bus.set_irq_timer(false);
        } else if k == 3 {
            self.bus.set_irq_serial(false);
        } else {
            self.bus.set_irq_joypad(false);
        }
    }

    /// One step of the CPU.
    pub fn tick(&mut self) -> (r: Result<(), CpuError>)
        requires
            old(self).wf(),
        ensures
            final(self).wf(),
            old(self).step_spec(*final(self), r),
    {
        if self.ime {
            let ghost pre = *self;
            let halted = self.halt;
            let cycles = self.cycles;
            self.ime = false;
            self.halt = false;
            self.cycles = INTERRUPT_CYCLES;
            if self.interrupt() {
                return Ok(());
            }
            self.ime = true;
            self.halt = halted;
            self.cycles = cycles;
            assert(*self == pre);
        }
        if self.stalls > 0 {
            self.stalls = self.stalls - 1;
            self.cycles = 1;
            return Ok(());
        }
        if self.halt {
            self.cycles = 1;
            return Ok(());
        }
        let opcode = self.fetch();
        self.cycles = self.op_cycles(opcode);
        self.do_mnemonic(opcode)
    }
}

} // verus!

verus! {

/// PUSH of a register pair followed at once by POP into the same pair
/// restores the pair and the stack pointer, wherever the two stack bytes
/// lie in plain memory.
pub proof fn lemma_push_pop(c0: Cpu, c1: Cpu, c2: Cpu, i: u8)
    requires
        c0.wf(),
        c1.wf(),
        i < 4,
        c0.push_post(c1, i),
        c1.pop_post(c2, i),
        crate::bus::is_plain_memory(w16(c0.sp - 2)),
        crate::bus::is_plain_memory(w16(c0.sp - 1)),
    ensures
        c2.r16_spec(i, true) == c0.r16_spec(i, true),
        c2.sp == c0.sp,
{
    let s = w16(c0.sp - 2);
    let v = c0.r16_spec(i, true);
    assert(((s + 1) % 0x10000) as u16 == w16(c0.sp - 1));
    crate::bus::lemma_write_read_word(c0.bus, c1.bus, s, v);
    assert(c1.bus.read_word_spec(c1.sp) == v);
    if i == 3 {
        crate::alu::lemma_flags_round_trip(c0.f);
        assert(v % 256 == flags_byte(c0.f));
        assert(v / 256 == c0.a);
    }
}

} // verus!

verus! {

/// With dispatch enabled and the vertical blanking interrupt both requested
/// and enabled, the next step takes it: the request and dispatch are
/// cleared, the old program counter is pushed, and execution goes to the
/// vector 0x40 (the stack being in plain memory).
pub proof fn lemma_vblank_dispatch(c0: Cpu, c1: Cpu, r: Result<(), CpuError>)
    requires
        c0.wf(),
        c0.ime,
        bit(c0.bus.ie, 0),
        c0.bus.ppu.int_v_blank,
        c0.step_spec(c1, r),
        crate::bus::is_plain_memory(w16(c0.sp - 2)),
        crate::bus::is_plain_memory(w16(c0.sp - 1)),
    ensures
        r is Ok,
        !c1.bus.ppu.int_v_blank,
        !c1.ime,
        c1.pc == 0x40,
        c1.sp == w16(c0.sp - 2),
        c1.bus.read_word_spec(c1.sp) == c0.pc,
{
    let b = clear_irq(c0.bus, 0);
    let s = w16(c0.sp - 2);
    assert(first_irq(c0.bus) == 0);
    assert(((s + 1) % 0x10000) as u16 == w16(c0.sp - 1));
    crate::bus::lemma_write_read_word(b, c1.bus, s, c0.pc);
    let mid = choose|mid: Bus|
        #![trigger b.write_spec(mid, s, (c0.pc % 256) as u8)]
        mid.wf() && b.write_spec(mid, s, (c0.pc % 256) as u8) && mid.write_spec(
            c1.bus,
            w16(c0.sp - 1),
            (c0.pc / 256) as u8,
        );
    assert(!mid.ppu.int_v_blank);
}

} // verus!
