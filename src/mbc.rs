use vstd::prelude::*;
use crate::rom::{MbcType, Rom};

verus! {

pub const ROM_BANK_SIZE: usize = 0x4000;

pub const RAM_BANK_SIZE: usize = 0x2000;

/// Byte `i` of a ROM image; reads past the end of the image give 0.
pub open spec fn rom_byte(data: Seq<u8>, i: int) -> u8 {
    if 0 <= i < data.len() {
        data[i]
    } else {
        0
    }
}

/// Address mapping of a cartridge: the ROM window 0x0000..=0x7FFF and
/// the cartridge RAM window 0xA000..=0xBFFF.
pub trait Mbc {
    spec fn wf(&self) -> bool;

    /// What `read` returns at `addr`.
    spec fn read_spec(&self, addr: u16) -> u8;

    /// `new` is the controller after `val` was written at `addr`.
    spec fn write_spec(&self, new: &Self, addr: u16, val: u8) -> bool;

    fn read(&self, addr: u16) -> (r: u8)
        requires
            self.wf(),
        ensures
            r == self.read_spec(addr),
    ;

    fn write(&mut self, addr: u16, val: u8)
        requires
            old(self).wf(),
        ensures
            final(self).wf(),
            old(self).write_spec(final(self), addr, val),
    ;
}

/// A cartridge without banking: 32 KiB of ROM and 8 KiB of RAM.
pub struct RomOnly {
    pub rom: Rom,
    pub ram: Vec<u8>,
}

impl RomOnly {
    /// A fresh controller over `rom`, with cleared RAM.
    pub open spec fn is_new(&self, rom: Rom) -> bool {
        &&& self.rom == rom
        &&& self.ram@ == Seq::new(RAM_BANK_SIZE as nat, |i: int| 0u8)
    }

    pub fn new(rom: Rom) -> (r: RomOnly)
        ensures
            r.wf(),
            r.is_new(rom),
    {
        let ram = vec![0u8; RAM_BANK_SIZE];
        assert(ram@ =~= Seq::new(RAM_BANK_SIZE as nat, |i: int| 0u8));
        RomOnly { rom, ram }
    }
}

fn rom_at(data: &Vec<u8>, i: usize) -> (r: u8)
    ensures
        r == rom_byte(data@, i as int),
{
    if i < data.len() {
        data[i]
    } else {
        0
    }
}

impl Mbc for RomOnly {
    open spec fn wf(&self) -> bool {
        self.ram@.len() == RAM_BANK_SIZE
    }

    open spec fn read_spec(&self, addr: u16) -> u8 {
        if 0xA000 <= addr <= 0xBFFF {
            self.ram@[addr - 0xA000]
        } else if addr <= 0x7FFF {
            rom_byte(self.rom.data@, addr as int)
        } else {
            0
        }
    }

    open spec fn write_spec(&self, new: &Self, addr: u16, val: u8) -> bool {
        &&& new.rom == self.rom
        &&& if 0xA000 <= addr <= 0xBFFF {
            new.ram@ == self.ram@.update(addr - 0xA000, val)
        } else {
            new.ram@ == self.ram@
        }
    }

    fn read(&self, addr: u16) -> (r: u8) {
        if addr >= 0xA000 && addr <= 0xBFFF {
            return self.ram[(addr - 0xA000) as usize];
        }
        if addr <= 0x7FFF {
            return rom_at(&self.rom.data, addr as usize);
        }
        0
    }

    fn write(&mut self, addr: u16, val: u8) {
        if addr >= 0xA000 && addr <= 0xBFFF {
            self.ram.set((addr - 0xA000) as usize, val);
        }
    }
}

/// What the two-bit register at 0x4000..=0x5FFF extends.
#[derive(Debug, Copy, Clone, PartialEq, Eq, Structural)]
pub enum Mbc1SelectMode {
    /// The upper ROM bank bits.
    Rom,
    /// The RAM bank.
    Ram,
}

/// The MBC1 controller: banked ROM (up to 2 MiB) and banked RAM (32 KiB).
pub struct Mbc1 {
    pub rom: Rom,
    pub ram: Vec<u8>,
    /// Low five bits of the ROM bank, never 0.
    pub rom_bank: u8,
    /// The two-bit register: upper ROM bank bits or RAM bank.
    pub ram_bank: u8,
    pub enable_ram: bool,
    pub select_mode: Mbc1SelectMode,
}

impl Mbc1 {
    /// A fresh controller over `rom`: cleared RAM, enabled, bank 1, ROM mode.
    pub open spec fn is_new(&self, rom: Rom) -> bool {
        &&& self.rom == rom
        &&& self.ram@ == Seq::new(0x8000, |i: int| 0u8)
        &&& self.rom_bank == 1
        &&& self.ram_bank == 0
        &&& self.enable_ram
        &&& self.select_mode == Mbc1SelectMode::Rom
    }

    pub fn new(rom: Rom) -> (r: Mbc1)
        ensures
            r.wf(),
            r.is_new(rom),
    {
        let ram = vec![0u8; 0x8000];
        assert(ram@ =~= Seq::new(0x8000, |i: int| 0u8));
        Mbc1 {
            rom,
            ram,
            rom_bank: 1,
            ram_bank: 0,
            enable_ram: true,
            select_mode: Mbc1SelectMode::Rom,
        }
    }

    /// ROM bank mapped at 0x4000..=0x7FFF.
    pub open spec fn rom_bank_spec(&self) -> int {
        match self.select_mode {
            Mbc1SelectMode::Rom => self.ram_bank * 32 + self.rom_bank,
            Mbc1SelectMode::Ram => self.rom_bank as int,
        }
    }

    /// RAM bank mapped at 0xA000..=0xBFFF.
    pub open spec fn ram_bank_spec(&self) -> int {
        match self.select_mode {
            Mbc1SelectMode::Rom => 0,
            Mbc1SelectMode::Ram => self.ram_bank as int,
        }
    }

    pub open spec fn ram_index(&self, addr: u16) -> int {
        self.ram_bank_spec() * RAM_BANK_SIZE + (addr - 0xA000)
    }

    fn read_rom_from_bank(&self, addr: u16) -> (r: u8)
        requires
            self.wf(),
            0x4000 <= addr <= 0x7FFF,
        ensures
            r == rom_byte(self.rom.data@, self.rom_bank_spec() * ROM_BANK_SIZE + (addr - 0x4000)),
    {
        let bank: usize = match self.select_mode {
            Mbc1SelectMode::Rom => self.ram_bank as usize * 32 + self.rom_bank as usize,
            Mbc1SelectMode::Ram => self.rom_bank as usize,
        };
        rom_at(&self.rom.data, bank * ROM_BANK_SIZE + (addr - 0x4000) as usize)
    }

    fn read_ram_from_bank(&self, addr: u16) -> (r: u8)
        requires
            self.wf(),
            0xA000 <= addr <= 0xBFFF,
        ensures
            r == (if self.enable_ram { self.ram@[self.ram_index(addr)] } else { 0 }),
    {
        if !self.enable_ram {
            return 0;
        }
        let bank: usize = match self.select_mode {
            Mbc1SelectMode::Rom => 0,
            Mbc1SelectMode::Ram => self.ram_bank as usize,
        };
        self.ram[bank * RAM_BANK_SIZE + (addr - 0xA000) as usize]
    }

    fn write_ram_into_bank(&mut self, addr: u16, val: u8)
        requires
            old(self).wf(),
            0xA000 <= addr <= 0xBFFF,
        ensures
            final(self).wf(),
            *final(self) == (Mbc1 { ram: final(self).ram, ..*old(self) }),
            final(self).ram@ == (if old(self).enable_ram {
                old(self).ram@.update(old(self).ram_index(addr), val)
            } else {
                old(self).ram@
            }),
    {
        if !self.enable_ram {
            return;
        }
        let bank: usize = match self.select_mode {
            Mbc1SelectMode::Rom => 0,
            Mbc1SelectMode::Ram => self.ram_bank as usize,
        };
        self.ram.set(bank * RAM_BANK_SIZE + (addr - 0xA000) as usize, val);
    }
}

impl Mbc for Mbc1 {
    open spec fn wf(&self) -> bool {
        &&& self.ram@.len() == 4 * RAM_BANK_SIZE
        &&& 1 <= self.rom_bank < 32
        &&& self.ram_bank < 4
    }

    open spec fn read_spec(&self, addr: u16) -> u8 {
        if addr <= 0x3FFF {
            rom_byte(self.rom.data@, addr as int)
        } else if addr <= 0x7FFF {
            rom_byte(self.rom.data@, self.rom_bank_spec() * ROM_BANK_SIZE + (addr - 0x4000))
        } else if 0xA000 <= addr <= 0xBFFF {
            if self.enable_ram {
                self.ram@[self.ram_index(addr)]
            } else {
                0
            }
        } else {
            0
        }
    }

    /// 0x0000..=0x1FFF: RAM enable (low nibble 0xA); 0x2000..=0x3FFF: low ROM
    /// bank bits (0 reads as 1); 0x4000..=0x5FFF: the two-bit register;
    /// 0x6000..=0x7FFF: mode select (1 selects RAM banking); 0xA000..=0xBFFF:
    /// cartridge RAM, dropped while disabled.
    open spec fn write_spec(&self, new: &Self, addr: u16, val: u8) -> bool {
        if addr <= 0x1FFF {
            *new == Mbc1 { enable_ram: val % 16 == 0x0A, ..*self }
        } else if addr <= 0x3FFF {
            *new == Mbc1 { rom_bank: if val % 32 == 0 { 1 } else { (val % 32) as u8 }, ..*self }
        } else if addr <= 0x5FFF {
            *new == Mbc1 { ram_bank: (val % 4) as u8, ..*self }
        } else if addr <= 0x7FFF {
            *new == Mbc1 {
                select_mode: if val == 1 { Mbc1SelectMode::Ram } else { Mbc1SelectMode::Rom },
                ..*self
            }
        } else if 0xA000 <= addr <= 0xBFFF {
            &&& *new == Mbc1 { ram: new.ram, ..*self }
            &&& new.ram@ == if self.enable_ram {
                self.ram@.update(self.ram_index(addr), val)
            } else {
                self.ram@
            }
        } else {
            *new == *self
        }
    }

    fn read(&self, addr: u16) -> (r: u8) {
        if addr <= 0x3FFF {
            rom_at(&self.rom.data, addr as usize)
        } else if addr <= 0x7FFF {
            self.read_rom_from_bank(addr)
        } else if addr >= 0xA000 && addr <= 0xBFFF {
            self.read_ram_from_bank(addr)
        } else {
            0
        }
    }

    fn write(&mut self, addr: u16, val: u8) {
        if addr <= 0x1FFF {
            self.enable_ram = val & 0x0F == 0x0A;
            assert(val & 0x0F == val % 16) by (bit_vector);
        } else if addr <= 0x3FFF {
            let bank = val & 0x1F;
            assert(val & 0x1F == val % 32) by (bit_vector);
            self.rom_bank = if bank == 0 { 1 } else { bank };
        } else if addr <= 0x5FFF {
            self.ram_bank = val & 0x03;
            assert(val & 0x03 == val % 4) by (bit_vector);
        } else if addr <= 0x7FFF {
            self.select_mode = if val == 0x01 { Mbc1SelectMode::Ram } else { Mbc1SelectMode::Rom };
        } else if addr >= 0xA000 && addr <= 0xBFFF {
            self.write_ram_into_bank(addr, val);
        }
    }
}

/// A cartridge controller, chosen by the header's controller kind.
pub enum Cartridge {
    RomOnly(RomOnly),
    Mbc1(Mbc1),
}

impl Mbc for Cartridge {
    open spec fn wf(&self) -> bool {
        match self {
            Cartridge::RomOnly(c) => c.wf(),
            Cartridge::Mbc1(c) => c.wf(),
        }
    }

    open spec fn read_spec(&self, addr: u16) -> u8 {
        match self {
            Cartridge::RomOnly(c) => c.read_spec(addr),
            Cartridge::Mbc1(c) => c.read_spec(addr),
        }
    }

    open spec fn write_spec(&self, new: &Self, addr: u16, val: u8) -> bool {
        match (self, new) {
            (Cartridge::RomOnly(c), Cartridge::RomOnly(n)) => c.write_spec(n, addr, val),
            (Cartridge::Mbc1(c), Cartridge::Mbc1(n)) => c.write_spec(n, addr, val),
            _ => false,
        }
    }

    fn read(&self, addr: u16) -> (r: u8) {
        match self {
            Cartridge::RomOnly(c) => c.read(addr),
            Cartridge::Mbc1(c) => c.read(addr),
        }
    }

    fn write(&mut self, addr: u16, val: u8) {
        match self {
            Cartridge::RomOnly(c) => c.write(addr, val),
            Cartridge::Mbc1(c) => c.write(addr, val),
        }
    }
}

/// Why no controller could be made for a cartridge.
#[derive(Debug, Copy, Clone, PartialEq, Eq, Structural)]
pub enum MbcError {
    Unsupported(MbcType),
}

pub open spec fn is_supported(t: MbcType) -> bool {
    t == MbcType::RomOnly || t == MbcType::Mbc1 || t == MbcType::Mbc1Ram || t
        == MbcType::Mbc1RamBattery
}

/// Builds the controller for `rom`: no banking for a ROM-only cartridge, MBC1
/// for the three MBC1 kinds; any other kind is refused.
pub fn new_mbc(rom: Rom) -> (r: Result<Cartridge, MbcError>)
    ensures
        is_supported(rom.mbc_type) <==> r is Ok,
        !is_supported(rom.mbc_type) ==> r == Err::<Cartridge, MbcError>(
            MbcError::Unsupported(rom.mbc_type),
        ),
        r is Ok ==> r->Ok_0.wf(),
        r matches Ok(Cartridge::RomOnly(c)) ==> rom.mbc_type == MbcType::RomOnly && c.is_new(rom),
        r matches Ok(Cartridge::Mbc1(c)) ==> rom.mbc_type != MbcType::RomOnly && c.is_new(rom),
{
    match rom.mbc_type {
        MbcType::RomOnly => Ok(Cartridge::RomOnly(RomOnly::new(rom))),
        MbcType::Mbc1 | MbcType::Mbc1Ram | MbcType::Mbc1RamBattery => Ok(
            Cartridge::Mbc1(Mbc1::new(rom)),
        ),
        t => Err(MbcError::Unsupported(t)),
    }
}

} // verus!
