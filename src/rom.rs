use vstd::prelude::*;

verus! {

/// Cartridge controller kind, as coded in the header byte at 0x147.
#[derive(Debug, Copy, Clone, PartialEq, Eq, Structural)]
pub enum MbcType {
    RomOnly,
    Mbc1,
    Mbc1Ram,
    Mbc1RamBattery,
    Mbc2,
    Mbc2Battery,
    RomRam,
    RomRamBattery,
    Mmm01,
    Mmm01Ram,
    Mmm01RamBattery,
    Mbc3,
    Mbc3Ram,
    Mbc3RamBattery,
}

#[derive(Debug, Copy, Clone, PartialEq, Eq, Structural)]
pub enum DestinationCode {
    Japanese,
    NonJapanese,
}

/// Why a cartridge image was refused.
#[derive(Debug, Copy, Clone, PartialEq, Eq, Structural)]
pub enum RomError {
    /// The image ends before the end of the header (0x150).
    Truncated,
    UnknownSgbFlag(u8),
    UnknownMbcType(u8),
    UnknownRomSize(u8),
    UnknownRamSize(u8),
    UnknownDestinationCode(u8),
    /// The header checksum byte disagrees with the computed one.
    HeaderChecksum { stored: u8, computed: u8 },
    /// The declared ROM size disagrees with the image length.
    RomSize { expected: usize, actual: usize },
}

pub open spec fn mbc_type_of(b: u8) -> Option<MbcType> {
    if b == 0x00 {
        Some(MbcType::RomOnly)
    } else if b == 0x01 {
        Some(MbcType::Mbc1)
    } else if b == 0x02 {
        Some(MbcType::Mbc1Ram)
    } else if b == 0x03 {
        Some(MbcType::Mbc1RamBattery)
    } else if b == 0x05 {
        Some(MbcType::Mbc2)
    } else if b == 0x06 {
        Some(MbcType::Mbc2Battery)
    } else if b == 0x08 {
        Some(MbcType::RomRam)
    } else if b == 0x09 {
        Some(MbcType::RomRamBattery)
    } else if b == 0x0b {
        Some(MbcType::Mmm01)
    } else if b == 0x0c {
        Some(MbcType::Mmm01Ram)
    } else if b == 0x0d {
        Some(MbcType::Mmm01RamBattery)
    } else if b == 0x11 {
        Some(MbcType::Mbc3)
    } else if b == 0x12 {
        Some(MbcType::Mbc3Ram)
    } else if b == 0x13 {
        Some(MbcType::Mbc3RamBattery)
    } else {
        None
    }
}

pub open spec fn sgb_of(b: u8) -> Option<bool> {
    if b == 0x00 {
        Some(false)
    } else if b == 0x03 {
        Some(true)
    } else {
        None
    }
}

/// ROM size in bytes for a size code: 32 KiB shifted left by the code, or
/// one of the three odd sizes 1.1, 1.2 and 1.5 MiB (rounded down).
pub open spec fn rom_size_of(b: u8) -> Option<usize> {
    if b <= 8 {
        Some((0x8000 * pow2_small(b as nat)) as usize)
    } else if b == 0x52 {
        Some(1153433)
    } else if b == 0x53 {
        Some(1258291)
    } else if b == 0x54 {
        Some(1572864)
    } else {
        None
    }
}

pub open spec fn pow2_small(n: nat) -> nat
    decreases n,
{
    if n == 0 {
        1
    } else {
        2 * pow2_small((n - 1) as nat)
    }
}

pub open spec fn ram_size_of(b: u8) -> Option<usize> {
    if b == 0x00 {
        Some(0)
    } else if b == 0x01 {
        Some(0x200000)
    } else if b == 0x02 {
        Some(0x800000)
    } else if b == 0x03 {
        Some(0x2000000)
    } else if b == 0x04 {
        Some(0x8000000)
    } else if b == 0x05 {
        Some(0x4000000)
    } else {
        None
    }
}

pub open spec fn destination_of(b: u8) -> Option<DestinationCode> {
    if b == 0x00 {
        Some(DestinationCode::Japanese)
    } else if b == 0x01 {
        Some(DestinationCode::NonJapanese)
    } else {
        None
    }
}

/// Header checksum over bytes 0x134 up to (not including) `end`:
/// start at 0 and subtract each byte plus one, wrapping.
pub open spec fn header_sum(d: Seq<u8>, end: int) -> u8
    decreases end - 0x134,
{
    if end <= 0x134 {
        0
    } else {
        let prev = header_sum(d, end - 1);
        ((prev - d[end - 1] - 1) % 256) as u8
    }
}

/// The first reason, in header order, to refuse the image `d`; `None` when
/// it is a well-formed cartridge.
pub open spec fn rom_error(d: Seq<u8>) -> Option<RomError> {
    if d.len() < 0x150 {
        Some(RomError::Truncated)
    } else if sgb_of(d[0x146]) is None {
        Some(RomError::UnknownSgbFlag(d[0x146]))
    } else if mbc_type_of(d[0x147]) is None {
        Some(RomError::UnknownMbcType(d[0x147]))
    } else if rom_size_of(d[0x148]) is None {
        Some(RomError::UnknownRomSize(d[0x148]))
    } else if ram_size_of(d[0x149]) is None {
        Some(RomError::UnknownRamSize(d[0x149]))
    } else if destination_of(d[0x14A]) is None {
        Some(RomError::UnknownDestinationCode(d[0x14A]))
    } else if d[0x14D] != header_sum(d, 0x14D) {
        Some(RomError::HeaderChecksum { stored: d[0x14D], computed: header_sum(d, 0x14D) })
    } else if rom_size_of(d[0x148])->Some_0 != d.len() {
        Some(
            RomError::RomSize { expected: rom_size_of(d[0x148])->Some_0, actual: d.len() as usize },
        )
    } else {
        None
    }
}

/// A parsed cartridge: the header fields and the whole image.
pub struct Rom {
    pub entry_point: Vec<u8>,
    pub logo: Vec<u8>,
    pub title: Vec<u8>,
    pub new_licensee_code: Vec<u8>,
    pub sgb_flag: bool,
    pub mbc_type: MbcType,
    pub rom_size: usize,
    pub ram_size: usize,
    pub destination_code: DestinationCode,
    pub old_licensee_code: u8,
    pub mask_rom_version_number: u8,
    pub header_checksum: u8,
    pub global_checksum: Vec<u8>,
    pub data: Vec<u8>,
}

impl Rom {
    /// The fields of `self` are those that the header of `d` declares.
    pub open spec fn parsed_from(&self, d: Seq<u8>) -> bool {
        &&& self.data@ == d
        &&& self.entry_point@ == d.subrange(0x100, 0x104)
        &&& self.logo@ == d.subrange(0x104, 0x134)
        &&& self.title@ == d.subrange(0x134, 0x144)
        &&& self.new_licensee_code@ == d.subrange(0x144, 0x146)
        &&& Some(self.sgb_flag) == sgb_of(d[0x146])
        &&& Some(self.mbc_type) == mbc_type_of(d[0x147])
        &&& Some(self.rom_size) == rom_size_of(d[0x148])
        &&& Some(self.ram_size) == ram_size_of(d[0x149])
        &&& Some(self.destination_code) == destination_of(d[0x14A])
        &&& self.old_licensee_code == d[0x14B]
        &&& self.mask_rom_version_number == d[0x14C]
        &&& self.header_checksum == d[0x14D]
        &&& self.global_checksum@ == d.subrange(0x14E, 0x150)
    }

    /// Parses a whole cartridge image, checking the header codes, the header
    /// checksum and the declared ROM size.
    pub fn new(data: Vec<u8>) -> (r: Result<Rom, RomError>)
        ensures
            r is Ok <==> rom_error(data@) is None,
            r is Err ==> Some(r->Err_0) == rom_error(data@),
            r is Ok ==> r->Ok_0.parsed_from(data@),
    {
        if data.len() < 0x150 {
            return Err(RomError::Truncated);
        }
        let sgb_flag = match sgb_from_u8(data[0x146]) {
            Some(f) => f,
            None => {
                return Err(RomError::UnknownSgbFlag(data[0x146]));
            },
        };
        let mbc_type = match mbc_type_from_u8(data[0x147]) {
            Some(t) => t,
            None => {
                return Err(RomError::UnknownMbcType(data[0x147]));
            },
        };
        let rom_size = match rom_size_from_u8(data[0x148]) {
            Some(s) => s,
            None => {
                return Err(RomError::UnknownRomSize(data[0x148]));
            },
        };
        let ram_size = match ram_size_from_u8(data[0x149]) {
            Some(s) => s,
            None => {
                return Err(RomError::UnknownRamSize(data[0x149]));
            },
        };
        let destination_code = match destination_from_u8(data[0x14A]) {
            Some(c) => c,
            None => {
                return Err(RomError::UnknownDestinationCode(data[0x14A]));
            },
        };
        let chksum = checksum(&data);
        if data[0x14D] != chksum {
            return Err(RomError::HeaderChecksum { stored: data[0x14D], computed: chksum });
        }
        if rom_size != data.len() {
            return Err(RomError::RomSize { expected: rom_size, actual: data.len() });
        }
        Ok(
            Rom {
                entry_point: slice_of(&data, 0x100, 0x104),
                logo: slice_of(&data, 0x104, 0x134),
                title: slice_of(&data, 0x134, 0x144),
                new_licensee_code: slice_of(&data, 0x144, 0x146),
                sgb_flag,
                mbc_type,
                rom_size,
                ram_size,
                destination_code,
                old_licensee_code: data[0x14B],
                mask_rom_version_number: data[0x14C],
                header_checksum: data[0x14D],
                global_checksum: slice_of(&data, 0x14E, 0x150),
                data,
            },
        )
    }
}

fn slice_of(d: &Vec<u8>, start: usize, end: usize) -> (r: Vec<u8>)
    requires
        start <= end <= d@.len(),
    ensures
        r@ == d@.subrange(start as int, end as int),
{
    let mut r: Vec<u8> = Vec::new();
    let mut i: usize = start;
    while i < end
        invariant
            start <= i <= end <= d@.len(),
            r@ == d@.subrange(start as int, i as int),
        decreases end - i,
    {
        r.push(d[i]);
        i += 1;
    }
    r
}

fn checksum(d: &Vec<u8>) -> (r: u8)
    requires
        d@.len() >= 0x150,
    ensures
        r == header_sum(d@, 0x14D),
{
    let mut sum: u8 = 0;
    let mut i: usize = 0x134;
    while i < 0x14D
        invariant
            0x134 <= i <= 0x14D,
            d@.len() >= 0x150,
            sum == header_sum(d@, i as int),
        decreases 0x14D - i,
    {
        sum = sum.wrapping_sub(d[i]).wrapping_sub(1);
        i += 1;
    }
    sum
}

fn sgb_from_u8(b: u8) -> (r: Option<bool>)
    ensures
        r == sgb_of(b),
{
    match b {
        0x00 => Some(false),
        0x03 => Some(true),
        _ => None,
    }
}

pub fn mbc_type_from_u8(b: u8) -> (r: Option<MbcType>)
    ensures
        r == mbc_type_of(b),
{
    match b {
        0x00 => Some(MbcType::RomOnly),
        0x01 => Some(MbcType::Mbc1),
        0x02 => Some(MbcType::Mbc1Ram),
        0x03 => Some(MbcType::Mbc1RamBattery),
        0x05 => Some(MbcType::Mbc2),
        0x06 => Some(MbcType::Mbc2Battery),
        0x08 => Some(MbcType::RomRam),
        0x09 => Some(MbcType::RomRamBattery),
        0x0b => Some(MbcType::Mmm01),
        0x0c => Some(MbcType::Mmm01Ram),
        0x0d => Some(MbcType::Mmm01RamBattery),
        0x11 => Some(MbcType::Mbc3),
        0x12 => Some(MbcType::Mbc3Ram),
        0x13 => Some(MbcType::Mbc3RamBattery),
        _ => None,
    }
}

fn rom_size_from_u8(b: u8) -> (r: Option<usize>)
    ensures
        r == rom_size_of(b),
{
    if b <= 8 {
        let mut size: usize = 0x8000;
        let mut i: u8 = 0;
        while i < b
            invariant
                i <= b <= 8,
                size == 0x8000 * pow2_small(i as nat),
                size <= 0x8000 * 256,
            decreases b - i,
        {
            assert(pow2_small((i + 1) as nat) == 2 * pow2_small(i as nat));
            assert(pow2_small(i as nat) <= 128) by {
                lemma_pow2_small_le(i as nat);
            }
            size = size * 2;
            i += 1;
        }
        return Some(size);
    }
    match b {
        0x52 => Some(1153433),
        0x53 => Some(1258291),
        0x54 => Some(1572864),
        _ => None,
    }
}

proof fn lemma_pow2_small_le(n: nat)
    requires
        n < 8,
    ensures
        pow2_small(n) <= 128,
    decreases n,
{
    reveal_with_fuel(pow2_small, 9);
}

fn ram_size_from_u8(b: u8) -> (r: Option<usize>)
    ensures
        r == ram_size_of(b),
{
    match b {
        0x00 => Some(0),
        0x01 => Some(0x200000),
        0x02 => Some(0x800000),
        0x03 => Some(0x2000000),
        0x04 => Some(0x8000000),
        0x05 => Some(0x4000000),
        _ => None,
    }
}

fn destination_from_u8(b: u8) -> (r: Option<DestinationCode>)
    ensures
        r == destination_of(b),
{
    match b {
        0x00 => Some(DestinationCode::Japanese),
        0x01 => Some(DestinationCode::NonJapanese),
        _ => None,
    }
}

} // verus!

verus! {

impl Default for MbcType {
    fn default() -> (r: MbcType)
        ensures
            r == MbcType::RomOnly,
    {
        MbcType::RomOnly
    }
}

impl Default for DestinationCode {
    fn default() -> (r: DestinationCode)
        ensures
            r == DestinationCode::Japanese,
    {
        DestinationCode::Japanese
    }
}

impl Default for Rom {
    /// An empty cartridge: header fields zero, no image bytes.
    fn default() -> (r: Rom)
        ensures
            r.entry_point@ == Seq::new(4, |i: int| 0u8),
            r.logo@ == Seq::new(0x30, |i: int| 0u8),
            r.title@ == Seq::new(0x10, |i: int| 0u8),
            r.new_licensee_code@ == Seq::new(2, |i: int| 0u8),
            r.global_checksum@ == Seq::new(2, |i: int| 0u8),
            r.data@.len() == 0,
            !r.sgb_flag,
            r.mbc_type == MbcType::RomOnly,
            r.rom_size == 0,
            r.ram_size == 0,
            r.destination_code == DestinationCode::Japanese,
            r.old_licensee_code == 0,
            r.mask_rom_version_number == 0,
            r.header_checksum == 0,
    {
        let entry_point = vec![0u8; 4];
        let logo = vec![0u8; 0x30];
        let title = vec![0u8; 0x10];
        let new_licensee_code = vec![0u8; 2];
        let global_checksum = vec![0u8; 2];
        assert(entry_point@ =~= Seq::new(4, |i: int| 0u8));
        assert(logo@ =~= Seq::new(0x30, |i: int| 0u8));
        assert(title@ =~= Seq::new(0x10, |i: int| 0u8));
        assert(new_licensee_code@ =~= Seq::new(2, |i: int| 0u8));
        assert(global_checksum@ =~= Seq::new(2, |i: int| 0u8));
        Rom {
            entry_point,
            logo,
            title,
            new_licensee_code,
            sgb_flag: false,
            mbc_type: MbcType::RomOnly,
            rom_size: 0,
            ram_size: 0,
            destination_code: DestinationCode::Japanese,
            old_licensee_code: 0,
            mask_rom_version_number: 0,
            header_checksum: 0,
            global_checksum,
            data: Vec::new(),
        }
    }
}

} // verus!
