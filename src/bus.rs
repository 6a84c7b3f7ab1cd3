use vstd::prelude::*;
use crate::joypad::Joypad;
use crate::mbc::{Cartridge, Mbc};
use crate::ppu::{bit, Ppu};
use crate::timer::Timer;

verus! {

pub const WORK_RAM_SIZE: usize = 0x8000;

pub const HIGH_RAM_SIZE: usize = 0x80;

/// Interrupt bit positions, shared by the enable and the flag registers.
pub const INT_V_BLANK: u8 = 0;

pub const INT_LCD_STAT: u8 = 1;

pub const INT_TIMER: u8 = 2;

pub const INT_SERIAL: u8 = 3;

pub const INT_JOYPAD: u8 = 4;

pub open spec fn b2u(b: bool) -> u8 {
    if b {
        1
    } else {
        0
    }
}

/// The 16-bit address space: cartridge, video RAM, work RAM and its echo,
/// sprite table, I/O registers, high RAM and the interrupt enable register.
pub struct Bus {
    pub ppu: Ppu,
    pub joypad: Joypad,
    pub timer: Timer,
    pub ram: Vec<u8>,
    pub hram: Vec<u8>,
    pub mbc: Cartridge,
    /// Interrupt enable register (0xFFFF).
    pub ie: u8,
    pub prev_serial: bool,
    pub int_serial: bool,
}

impl Bus {
    pub open spec fn wf(&self) -> bool {
        &&& self.ppu.wf()
        &&& self.timer.wf()
        &&& self.mbc.wf()
        &&& self.ram@.len() == WORK_RAM_SIZE
        &&& self.hram@.len() == HIGH_RAM_SIZE
    }

    /// The interrupt flag register, `000jstlv`.
    pub open spec fn irq_byte(&self) -> u8 {
        (b2u(self.ppu.int_v_blank) + 2 * b2u(self.ppu.int_lcd_stat) + 4 * b2u(self.timer.int) + 8
            * b2u(self.int_serial) + 16 * b2u(self.joypad.int)) as u8
    }

    /// What `read` returns at `addr`.
    pub open spec fn read_spec(&self, addr: u16) -> u8 {
        if addr <= 0x7FFF {
            self.mbc.read_spec(addr)
        } else if addr <= 0x9FFF {
            self.ppu.vram@[addr - 0x8000]
        } else if addr <= 0xBFFF {
            self.mbc.read_spec(addr)
        } else if addr <= 0xDFFF {
            self.ram@[addr - 0xC000]
        } else if addr <= 0xFDFF {
            self.ram@[addr - 0xE000]
        } else if addr <= 0xFE9F {
            self.ppu.oam_byte(addr)
        } else if addr <= 0xFEFF {
            0
        } else if addr == 0xFF00 {
            self.joypad.read_spec()
        } else if addr == 0xFF04 {
            (self.timer.counter / 256) as u8
        } else if addr == 0xFF05 {
            self.timer.tima
        } else if addr == 0xFF06 {
            self.timer.tma
        } else if addr == 0xFF07 {
            ((if self.timer.enable {
                4int
            } else {
                0
            }) + self.timer.clock) as u8
        } else if addr == 0xFF0F {
            self.irq_byte()
        } else if addr == 0xFF40 {
            self.ppu.lcd_control
        } else if addr == 0xFF41 {
            self.ppu.lcd_status
        } else if addr == 0xFF42 {
            self.ppu.scroll_y
        } else if addr == 0xFF43 {
            self.ppu.scroll_x
        } else if addr == 0xFF44 {
            self.ppu.lines
        } else if addr == 0xFF45 {
            self.ppu.lines_compare
        } else if addr == 0xFF47 {
            self.ppu.bg_palette
        } else if addr == 0xFF48 {
            self.ppu.object_palette_0
        } else if addr == 0xFF49 {
            self.ppu.object_palette_1
        } else if addr == 0xFF4A {
            self.ppu.window_y
        } else if addr == 0xFF4B {
            self.ppu.window_x
        } else if 0xFF80 <= addr <= 0xFFFE {
            self.hram@[addr - 0xFF80]
        } else if addr == 0xFFFF {
            self.ie
        } else {
            0
        }
    }

    /// `new` is `self` after `val` was written at `addr`.
    pub open spec fn write_spec(&self, new: Bus, addr: u16, val: u8) -> bool {
        if addr <= 0x7FFF || (0xA000 <= addr <= 0xBFFF) {
            &&& new == Bus { mbc: new.mbc, ..*self }
            &&& self.mbc.write_spec(&new.mbc, addr, val)
        } else if addr <= 0x9FFF {
            &&& new == Bus { ppu: Ppu { vram: new.ppu.vram, ..self.ppu }, ..*self }
            &&& new.ppu.vram@ == self.ppu.vram@.update(addr - 0x8000, val)
        } else if 0xC000 <= addr <= 0xDFFF {
            &&& new == Bus { ram: new.ram, ..*self }
            &&& new.ram@ == self.ram@.update(addr - 0xC000, val)
        } else if 0xE000 <= addr <= 0xFDFF {
            &&& new == Bus { ram: new.ram, ..*self }
            &&& new.ram@ == self.ram@.update(addr - 0xE000, val)
        } else if 0xFE00 <= addr <= 0xFE9F {
            &&& new == Bus { ppu: Ppu { oam: new.ppu.oam, ..self.ppu }, ..*self }
            &&& new.ppu.oam@.len() == self.ppu.oam@.len()
            &&& forall|a: u16|
                0xFE00 <= a <= 0xFE9F ==> new.ppu.oam_byte(a) == if a == addr {
                    val
                } else {
                    self.ppu.oam_byte(a)
                }
        } else if addr == 0xFF00 {
            new == Bus {
                joypad: Joypad { direction: val & 0x10 == 0, button: val & 0x20 == 0, ..self.joypad },
                ..*self
            }
        } else if addr == 0xFF02 {
            let cur = bit(val, 7);
            new == Bus {
                prev_serial: cur,
                int_serial: self.int_serial || (self.prev_serial && !cur),
                ..*self
            }
        } else if addr == 0xFF04 {
            new == Bus { timer: Timer { counter: 0, ..self.timer }, ..*self }
        } else if addr == 0xFF05 {
            new == Bus { timer: Timer { tima: val, ..self.timer.synced() }, ..*self }
        } else if addr == 0xFF06 {
            new == Bus { timer: Timer { tma: val, ..self.timer.synced() }, ..*self }
        } else if addr == 0xFF07 {
            new == Bus {
                timer: Timer { enable: val & 4 != 0, clock: val & 3, ..self.timer },
                ..*self
            }
        } else if addr == 0xFF0F {
            new == Bus {
                ppu: Ppu { int_v_blank: bit(val, 0), int_lcd_stat: bit(val, 1), ..self.ppu },
                timer: Timer { int: bit(val, 2), ..self.timer },
                int_serial: bit(val, 3),
                joypad: Joypad { int: bit(val, 4), ..self.joypad },
                ..*self
            }
        } else if addr == 0xFF40 {
            new == Bus { ppu: Ppu { lcd_control: val, ..self.ppu }, ..*self }
        } else if addr == 0xFF41 {
            new == Bus { ppu: Ppu { lcd_status: val, ..self.ppu }, ..*self }
        } else if addr == 0xFF42 {
            new == Bus { ppu: Ppu { scroll_y: val, ..self.ppu }, ..*self }
        } else if addr == 0xFF43 {
            new == Bus { ppu: Ppu { scroll_x: val, ..self.ppu }, ..*self }
        } else if addr == 0xFF45 {
            new == Bus { ppu: Ppu { lines_compare: val, ..self.ppu }, ..*self }
        } else if addr == 0xFF47 {
            new == Bus { ppu: Ppu { bg_palette: val, ..self.ppu }, ..*self }
        } else if addr == 0xFF48 {
            new == Bus { ppu: Ppu { object_palette_0: val, ..self.ppu }, ..*self }
        } else if addr == 0xFF49 {
            new == Bus { ppu: Ppu { object_palette_1: val, ..self.ppu }, ..*self }
        } else if addr == 0xFF4A {
            new == Bus { ppu: Ppu { window_y: val, ..self.ppu }, ..*self }
        } else if addr == 0xFF4B {
            new == Bus { ppu: Ppu { window_x: val, ..self.ppu }, ..*self }
        } else if 0xFF80 <= addr <= 0xFFFE {
            &&& new == Bus { hram: new.hram, ..*self }
            &&& new.hram@ == self.hram@.update(addr - 0xFF80, val)
        } else if addr == 0xFFFF {
            new == Bus { ie: val, ..*self }
        } else {
            new == *self
        }
    }

    /// The 16-bit little-endian word at `addr` (the high byte at `addr + 1`,
    /// wrapping).
    pub open spec fn read_word_spec(&self, addr: u16) -> u16 {
        (self.read_spec(addr) + 256 * self.read_spec(((addr + 1) % 0x10000) as u16)) as u16
    }

    /// `new` is `self` after the word `val` was written at `addr`, low byte
    /// first.
    pub open spec fn write_word_spec(&self, new: Bus, addr: u16, val: u16) -> bool {
        exists|mid: Bus|
            #![trigger self.write_spec(mid, addr, (val % 256) as u8)]
            mid.wf() && self.write_spec(mid, addr, (val % 256) as u8) && mid.write_spec(
                new,
                ((addr + 1) % 0x10000) as u16,
                (val / 256) as u8,
            )
    }

    /// A bus over `ppu` and `mbc` with cleared memories and default peripherals.
    pub fn new(ppu: Ppu, mbc: Cartridge) -> (r: Bus)
        requires
            ppu.wf(),
            mbc.wf(),
        ensures
            r.wf(),
            r.ppu == ppu,
            r.mbc == mbc,
            r.joypad == Joypad::initial(),
            r.timer == Timer::initial(),
            r.ram@ == Seq::new(WORK_RAM_SIZE as nat, |i: int| 0u8),
            r.hram@ == Seq::new(HIGH_RAM_SIZE as nat, |i: int| 0u8),
            r.ie == 0,
            !r.prev_serial,
            !r.int_serial,
    {
        let ram = vec![0u8; WORK_RAM_SIZE];
        let hram = vec![0u8; HIGH_RAM_SIZE];
        assert(ram@ =~= Seq::new(WORK_RAM_SIZE as nat, |i: int| 0u8));
        assert(hram@ =~= Seq::new(HIGH_RAM_SIZE as nat, |i: int| 0u8));
        Bus {
            ram,
            hram,
            ie: 0,
            int_serial: false,
            prev_serial: false,
            ppu,
            mbc,
            joypad: Joypad::new(),
            timer: Timer::new(),
        }
    }

    pub fn irq_v_blank(&self) -> (r: bool)
        ensures
            r == self.ppu.int_v_blank,
    {
        self.ppu.int_v_blank
    }

    pub fn set_irq_v_blank(&mut self, val: bool)
        ensures
            *final(self) == (Bus { ppu: Ppu { int_v_blank: val, ..old(self).ppu }, ..*old(self) }),
    {
        self.ppu.int_v_blank = val;
    }

    pub fn irq_lcd_stat(&self) -> (r: bool)
        ensures
            r == self.ppu.int_lcd_stat,
    {
        self.ppu.int_lcd_stat
    }

    pub fn set_irq_lcd_stat(&mut self, val: bool)
        ensures
            *final(self) == (Bus { ppu: Ppu { int_lcd_stat: val, ..old(self).ppu }, ..*old(self) }),
    {
        self.ppu.int_lcd_stat = val;
    }

    pub fn irq_timer(&self) -> (r: bool)
        ensures
            r == self.timer.int,
    {
        self.timer.int
    }

    pub fn set_irq_timer(&mut self, val: bool)
        ensures
            *final(self) == (Bus { timer: Timer { int: val, ..old(self).timer }, ..*old(self) }),
    {
        self.timer.int = val;
    }

    pub fn irq_serial(&self) -> (r: bool)
        ensures
            r == self.int_serial,
    {
        self.int_serial
    }

    pub fn set_irq_serial(&mut self, val: bool)
        ensures
            *final(self) == (Bus { int_serial: val, ..*old(self) }),
    {
        self.int_serial = val;
    }

    pub fn irq_joypad(&self) -> (r: bool)
        ensures
            r == self.joypad.int,
    {
        self.joypad.int
    }

    pub fn set_irq_joypad(&mut self, val: bool)
        ensures
            *final(self) == (Bus { joypad: Joypad { int: val, ..old(self).joypad }, ..*old(self) }),
    {
        self.joypad.int = val;
    }
}

} // verus!

verus! {

impl Bus {
    pub fn read(&self, addr: u16) -> (r: u8)
        requires
            self.wf(),
        ensures
            r == self.read_spec(addr),
    {
        if addr <= 0x7FFF {
            self.mbc.read(addr)
        } else if addr <= 0x9FFF {
            self.ppu.read(addr)
        } else if addr <= 0xBFFF {
            self.mbc.read(addr)
        } else if addr <= 0xDFFF {
            self.ram[(addr - 0xC000) as usize]
        } else if addr <= 0xFDFF {
            self.ram[(addr - 0xE000) as usize]
        } else if addr <= 0xFE9F {
            self.ppu.read_oam(addr)
        } else if addr <= 0xFEFF {
            0
        } else if addr == 0xFF00 {
            self.joypad.read()
        } else if addr == 0xFF01 {
            self.read_serial()
        } else if addr == 0xFF02 {
            self.read_serial_ctrl()
        } else if addr == 0xFF04 {
            self.timer.read_div()
        } else if addr == 0xFF05 {
            self.timer.read_tima()
        } else if addr == 0xFF06 {
            self.timer.read_tma()
        } else if addr == 0xFF07 {
            self.timer.read_tac()
        } else if addr == 0xFF0F {
            self.read_irq()
        } else if addr == 0xFF40 {
            self.ppu.read_lcd_control()
        } else if addr == 0xFF41 {
            self.ppu.read_lcd_status()
        } else if addr == 0xFF42 {
            self.ppu.read_scroll_y()
        } else if addr == 0xFF43 {
            self.ppu.read_scroll_x()
        } else if addr == 0xFF44 {
            self.ppu.read_lines()
        } else if addr == 0xFF45 {
            self.ppu.read_line_compare()
        } else if addr == 0xFF47 {
            self.ppu.read_bg_palette()
        } else if addr == 0xFF48 {
            self.ppu.read_object_palette_0()
        } else if addr == 0xFF49 {
            self.ppu.read_object_palette_1()
        } else if addr == 0xFF4A {
            self.ppu.read_window_y()
        } else if addr == 0xFF4B {
            self.ppu.read_window_x()
        } else if addr >= 0xFF80 && addr <= 0xFFFE {
            self.hram[(addr - 0xFF80) as usize]
        } else if addr == 0xFFFF {
            self.ie
        } else {
            0
        }
    }

    pub fn read_word(&self, addr: u16) -> (r: u16)
        requires
            self.wf(),
        ensures
            r == self.read_word_spec(addr),
    {
        let low = self.read(addr);
        let high = self.read(addr.wrapping_add(1));
        high as u16 * 256 + low as u16
    }

    fn flag(b: bool) -> (r: u8)
        ensures
            r == b2u(b),
    {
        if b {
            1
        } else {
            0
        }
    }

    /// The interrupt flag register: one bit per pending interrupt.
    pub fn read_irq(&self) -> (r: u8)
        ensures
            r == self.irq_byte(),
    {
        Self::flag(self.ppu.int_v_blank) + 2 * Self::flag(self.ppu.int_lcd_stat) + 4 * Self::flag(
            self.timer.int,
        ) + 8 * Self::flag(self.int_serial) + 16 * Self::flag(self.joypad.int)
    }

    /// The serial port is not emulated: its data register reads 0.
    pub fn read_serial(&self) -> (r: u8)
        ensures
            r == 0,
    {
        0
    }

    pub fn read_serial_ctrl(&self) -> (r: u8)
        ensures
            r == 0,
    {
        0
    }

    pub fn write(&mut self, addr: u16, val: u8)
        requires
            old(self).wf(),
        ensures
            final(self).wf(),
            old(self).write_spec(*final(self), addr, val),
    {
        if addr < 0xFF00 {
            self.write_memory(addr, val);
        } else if addr < 0xFF10 {
            self.write_io(addr, val);
        } else if addr < 0xFF80 {
            self.write_video_regs(addr, val);
        } else if addr <= 0xFFFE {
            self.hram.set((addr - 0xFF80) as usize, val);
        } else {
            self.ie = val;
        }
    }

    #[verifier::rlimit(60)]
    fn write_memory(&mut self, addr: u16, val: u8)
        requires
            old(self).wf(),
            addr < 0xFF00,
        ensures
            final(self).wf(),
            old(self).write_spec(*final(self), addr, val),
    {
        if addr <= 0x7FFF {
            self.mbc.write(addr, val);
        } else if addr <= 0x9FFF {
            self.ppu.write(addr, val);
        } else if addr <= 0xBFFF {
            self.mbc.write(addr, val);
        } else if addr <= 0xDFFF {
            self.ram.set((addr - 0xC000) as usize, val);
        } else if addr <= 0xFDFF {
            self.ram.set((addr - 0xE000) as usize, val);
        } else if addr <= 0xFE9F {
            self.ppu.write_oam(addr, val);
        }
    }

    fn write_timer(&mut self, addr: u16, val: u8)
        requires
            old(self).wf(),
            0xFF04 <= addr <= 0xFF07,
        ensures
            final(self).wf(),
            old(self).write_spec(*final(self), addr, val),
    {
        if addr == 0xFF04 {
            self.timer.write_div(val);
        } else if addr == 0xFF05 {
            self.timer.write_tima(val);
        } else if addr == 0xFF06 {
            self.timer.write_tma(val);
        } else {
            self.timer.write_tac(val);
        }
    }

    #[verifier::rlimit(60)]
    fn write_io(&mut self, addr: u16, val: u8)
        requires
            old(self).wf(),
            0xFF00 <= addr < 0xFF10,
        ensures
            final(self).wf(),
            old(self).write_spec(*final(self), addr, val),
    {
        if addr == 0xFF00 {
            self.joypad.write(val);
        } else if addr == 0xFF01 {
            self.write_serial(val);
        } else if addr == 0xFF02 {
            self.write_serial_ctrl(val);
        } else if addr >= 0xFF04 && addr <= 0xFF07 {
            self.write_timer(addr, val);
        } else if addr == 0xFF0F {
            self.write_irq(val);
        }
    }

    #[verifier::rlimit(60)]
    fn write_video_regs(&mut self, addr: u16, val: u8)
        requires
            old(self).wf(),
            0xFF10 <= addr < 0xFF80,
        ensures
            final(self).wf(),
            old(self).write_spec(*final(self), addr, val),
    {
        if addr == 0xFF40 {
            self.ppu.write_lcd_control(val);
        } else if addr == 0xFF41 {
            self.ppu.write_lcd_status(val);
        } else if addr == 0xFF42 {
            self.ppu.write_scroll_y(val);
        } else if addr == 0xFF43 {
            self.ppu.write_scroll_x(val);
        } else if addr == 0xFF45 {
            self.ppu.write_line_compare(val);
        } else if addr == 0xFF47 {
            self.ppu.write_bg_palette(val);
        } else if addr == 0xFF48 {
            self.ppu.write_object_palette_0(val);
        } else if addr == 0xFF49 {
            self.ppu.write_object_palette_1(val);
        } else if addr == 0xFF4A {
            self.ppu.write_window_y(val);
        } else if addr == 0xFF4B {
            self.ppu.write_window_x(val);
        }
    }

    pub fn write_word(&mut self, addr: u16, val: u16)
        requires
            old(self).wf(),
        ensures
            final(self).wf(),
            old(self).write_word_spec(*final(self), addr, val),
    {
        let low = (val % 256) as u8;
        let high = (val / 256) as u8;
        self.write(addr, low);
        let ghost mid = *self;
        self.write(addr.wrapping_add(1), high);
        assert(old(self).write_spec(mid, addr, (val % 256) as u8));
    }

    /// Sets the five pending flags from the bits of `val`.
    pub fn write_irq(&mut self, val: u8)
        ensures
            *final(self) == (Bus {
                ppu: Ppu { int_v_blank: bit(val, 0), int_lcd_stat: bit(val, 1), ..old(self).ppu },
                timer: Timer { int: bit(val, 2), ..old(self).timer },
                int_serial: bit(val, 3),
                joypad: Joypad { int: bit(val, 4), ..old(self).joypad },
                ..*old(self)
            }),
    {
        self.ppu.int_v_blank = (val >> 0u8) & 1 == 1;
        self.ppu.int_lcd_stat = (val >> 1u8) & 1 == 1;
        self.timer.int = (val >> 2u8) & 1 == 1;
        self.int_serial = (val >> 3u8) & 1 == 1;
        self.joypad.int = (val >> 4u8) & 1 == 1;
    }

    /// The serial port is not emulated: a written data byte is dropped.
    pub fn write_serial(&mut self, _val: u8)
        ensures
            *final(self) == *old(self),
    {
    }

    /// Bit 7 starts a transfer; its falling edge marks the transfer done and
    /// raises the serial interrupt.
    pub fn write_serial_ctrl(&mut self, val: u8)
        ensures
            *final(self) == (Bus {
                prev_serial: bit(val, 7),
                int_serial: old(self).int_serial || (old(self).prev_serial && !bit(val, 7)),
                ..*old(self)
            }),
    {
        let cur = (val >> 7u8) & 1 == 1;
        if self.prev_serial && !cur {
            self.int_serial = true;
        }
        self.prev_serial = cur;
    }

    /// One machine cycle: two dots of the pixel unit, four timer counts.
    pub open spec fn ticked_from(&self, old: Bus) -> bool {
        &&& self.wf()
        &&& *self == Bus { ppu: self.ppu, timer: self.timer, ..old }
        &&& self.timer == old.timer.ticked().ticked().ticked().ticked()
        &&& exists|p: Ppu| p.ticked_from(old.ppu) && self.ppu.ticked_from(p)
    }

    /// `self` is `old` after `n` machine cycles.
    pub open spec fn ticked_times(&self, old: Bus, n: nat) -> bool
        decreases n,
    {
        if n == 0 {
            *self == old
        } else {
            exists|m: Bus| m.ticked_times(old, (n - 1) as nat) && self.ticked_from(m)
        }
    }

    pub fn tick(&mut self)
        requires
            old(self).wf(),
        ensures
            final(self).ticked_from(*old(self)),
    {
        self.ppu.tick();
        let ghost p = self.ppu;
        self.ppu.tick();
        self.timer.tick();
        self.timer.tick();
        self.timer.tick();
        self.timer.tick();
        assert(p.ticked_from(old(self).ppu) && self.ppu.ticked_from(p));
    }
}

} // verus!

verus! {

/// Addresses backed by plain memory: video RAM, work RAM and its echo,
/// high RAM.
pub open spec fn is_plain_memory(addr: u16) -> bool {
    (0x8000 <= addr <= 0x9FFF) || (0xC000 <= addr <= 0xFDFF) || (0xFF80 <= addr <= 0xFFFE)
}

/// Where a plain memory address is stored: its region and index.
pub open spec fn cell(addr: u16) -> (int, int) {
    if addr <= 0x9FFF {
        (0, addr - 0x8000)
    } else if addr <= 0xDFFF {
        (1, addr - 0xC000)
    } else if addr <= 0xFDFF {
        (1, addr - 0xE000)
    } else {
        (2, addr - 0xFF80)
    }
}

/// A byte written to video RAM, work RAM or high RAM reads back unchanged.
pub proof fn lemma_write_read(b: Bus, n: Bus, addr: u16, val: u8)
    requires
        b.wf(),
        b.write_spec(n, addr, val),
        is_plain_memory(addr),
    ensures
        n.read_spec(addr) == val,
{
}

/// A write to plain memory leaves every other plain memory cell as it was.
pub proof fn lemma_write_other(b: Bus, n: Bus, addr: u16, val: u8, other: u16)
    requires
        b.wf(),
        b.write_spec(n, addr, val),
        is_plain_memory(addr),
        is_plain_memory(other),
        cell(addr) != cell(other),
    ensures
        n.read_spec(other) == b.read_spec(other),
{
}

/// A word written to two plain memory cells reads back unchanged.
pub proof fn lemma_write_read_word(b: Bus, n: Bus, addr: u16, val: u16)
    requires
        b.wf(),
        b.write_word_spec(n, addr, val),
        is_plain_memory(addr),
        is_plain_memory(((addr + 1) % 0x10000) as u16),
    ensures
        n.read_word_spec(addr) == val,
{
    let hi = ((addr + 1) % 0x10000) as u16;
    let mid = choose|mid: Bus|
        #![trigger b.write_spec(mid, addr, (val % 256) as u8)]
        mid.wf() && b.write_spec(mid, addr, (val % 256) as u8) && mid.write_spec(
            n,
            hi,
            (val / 256) as u8,
        );
    lemma_write_read(b, mid, addr, (val % 256) as u8);
    lemma_write_read(mid, n, hi, (val / 256) as u8);
    lemma_write_other(mid, n, hi, (val / 256) as u8, addr);
}

} // verus!
