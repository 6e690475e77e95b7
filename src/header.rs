use vstd::prelude::*;

verus! {

/// Why a ROM image cannot be loaded.
#[derive(Clone, Copy, Debug, PartialEq, Eq, Structural)]
pub enum RomParserError {
    TooShort,
    UnknownMapper,
    MapperNotImplemented,
    InvalidChecksum,
}

impl RomParserError {
    /// The name of the error, for messages.
    pub fn to_string(&self) -> (r: String) {
        match self {
            RomParserError::TooShort => String::from_str("TooShort"),
            RomParserError::UnknownMapper => String::from_str("UnknownMapper"),
            RomParserError::MapperNotImplemented => String::from_str("MapperNotImplemented"),
            RomParserError::InvalidChecksum => String::from_str("InvalidChecksum"),
        }
    }
}

/// Colour support that the cartridge declares.
#[derive(Clone, Copy, Debug, PartialEq, Eq, Structural)]
pub enum CgbFlag {
    NoCgb,
    CgbSupported,
    CgbOnly,
}

/// Cartridge hardware declared by the header's type code.
#[derive(Clone, Copy, Debug, PartialEq, Eq, Structural)]
pub enum CartridgeType {
    RomOnly,
    Mbc1,
    Mbc1Ram,
    Mbc1RamBattery,
    Mbc2,
    Mbc2Battery,
    RomRam,
    RomRamBattery,
    Mmm01,
    Mmm01Ram,
    Mmm01RamBattery,
    Mbc3TimerBattery,
    Mbc3TimerRamBattery,
    Mbc3,
    Mbc3Ram,
    Mbc3RamBattery,
    Mbc5,
    Mbc5Ram,
    Mbc5RamBattery,
    Mbc5Rumble,
    Mbc5RumbleRam,
    Mbc5RumbleRamBattery,
    Mbc6,
    Mbc7SensorRumbleRamBattery,
    PocketCamera,
    BandaiTama5,
    Huc3,
    Huc1RamBattery,
}

/// Whether a cartridge type code is one that the header format defines.
pub open spec fn is_known_type_code(code: u8) -> bool {
    (code <= 0x03) || code == 0x05 || code == 0x06 || code == 0x08 || code == 0x09 || (0x0B <= code
        <= 0x0D) || (0x0F <= code <= 0x13) || (0x19 <= code <= 0x1E) || code == 0x20 || code == 0x22
        || code >= 0xFC
}

impl CartridgeType {
    /// The header code of the type.
    pub open spec fn code(self) -> u8 {
        match self {
            CartridgeType::RomOnly => 0x00,
            CartridgeType::Mbc1 => 0x01,
            CartridgeType::Mbc1Ram => 0x02,
            CartridgeType::Mbc1RamBattery => 0x03,
            CartridgeType::Mbc2 => 0x05,
            CartridgeType::Mbc2Battery => 0x06,
            CartridgeType::RomRam => 0x08,
            CartridgeType::RomRamBattery => 0x09,
            CartridgeType::Mmm01 => 0x0B,
            CartridgeType::Mmm01Ram => 0x0C,
            CartridgeType::Mmm01RamBattery => 0x0D,
            CartridgeType::Mbc3TimerBattery => 0x0F,
            CartridgeType::Mbc3TimerRamBattery => 0x10,
            CartridgeType::Mbc3 => 0x11,
            CartridgeType::Mbc3Ram => 0x12,
            CartridgeType::Mbc3RamBattery => 0x13,
            CartridgeType::Mbc5 => 0x19,
            CartridgeType::Mbc5Ram => 0x1A,
            CartridgeType::Mbc5RamBattery => 0x1B,
            CartridgeType::Mbc5Rumble => 0x1C,
            CartridgeType::Mbc5RumbleRam => 0x1D,
            CartridgeType::Mbc5RumbleRamBattery => 0x1E,
            CartridgeType::Mbc6 => 0x20,
            CartridgeType::Mbc7SensorRumbleRamBattery => 0x22,
            CartridgeType::PocketCamera => 0xFC,
            CartridgeType::BandaiTama5 => 0xFD,
            CartridgeType::Huc3 => 0xFE,
            CartridgeType::Huc1RamBattery => 0xFF,
        }
    }

    /// Decodes a cartridge type code; `None` for a code that the format does not define.
    pub fn from_code(code: u8) -> (r: Option<CartridgeType>)
        ensures
            r is Some <==> is_known_type_code(code),
            r matches Some(t) ==> t.code() == code,
            code == 0x00 ==> r == Some(CartridgeType::RomOnly),
            code == 0x01 ==> r == Some(CartridgeType::Mbc1),
            code == 0x05 ==> r == Some(CartridgeType::Mbc2),
            code == 0x11 ==> r == Some(CartridgeType::Mbc3),
            code == 0x19 ==> r == Some(CartridgeType::Mbc5),
    {
        match code {
            0x00 => Some(CartridgeType::RomOnly),
            0x01 => Some(CartridgeType::Mbc1),
            0x02 => Some(CartridgeType::Mbc1Ram),
            0x03 => Some(CartridgeType::Mbc1RamBattery),
            0x05 => Some(CartridgeType::Mbc2),
            0x06 => Some(CartridgeType::Mbc2Battery),
            0x08 => Some(CartridgeType::RomRam),
            0x09 => Some(CartridgeType::RomRamBattery),
            0x0B => Some(CartridgeType::Mmm01),
            0x0C => Some(CartridgeType::Mmm01Ram),
            0x0D => Some(CartridgeType::Mmm01RamBattery),
            0x0F => Some(CartridgeType::Mbc3TimerBattery),
            0x10 => Some(CartridgeType::Mbc3TimerRamBattery),
            0x11 => Some(CartridgeType::Mbc3),
            0x12 => Some(CartridgeType::Mbc3Ram),
            0x13 => Some(CartridgeType::Mbc3RamBattery),
            0x19 => Some(CartridgeType::Mbc5),
            0x1A => Some(CartridgeType::Mbc5Ram),
            0x1B => Some(CartridgeType::Mbc5RamBattery),
            0x1C => Some(CartridgeType::Mbc5Rumble),
            0x1D => Some(CartridgeType::Mbc5RumbleRam),
            0x1E => Some(CartridgeType::Mbc5RumbleRamBattery),
            0x20 => Some(CartridgeType::Mbc6),
            0x22 => Some(CartridgeType::Mbc7SensorRumbleRamBattery),
            0xFC => Some(CartridgeType::PocketCamera),
            0xFD => Some(CartridgeType::BandaiTama5),
            0xFE => Some(CartridgeType::Huc3),
            0xFF => Some(CartridgeType::Huc1RamBattery),
            _ => None,
        }
    }

    /// Whether the type uses an MBC1 controller.
    pub open spec fn is_mbc1(self) -> bool {
        self is Mbc1 || self is Mbc1Ram || self is Mbc1RamBattery
    }

    /// Whether the type uses an MBC2 controller.
    pub open spec fn is_mbc2(self) -> bool {
        self is Mbc2 || self is Mbc2Battery
    }
}

/// RAM that the header declares.
#[derive(Clone, Copy, Debug, PartialEq, Eq, Structural)]
pub enum RamBanks {
    NoRam,
    Mbc2,
    TwoKb,
    Banks(usize),
}

/// The header's running checksum over `s[lo..hi]`: start at 0, subtract each byte and 1.
pub open spec fn running_checksum(s: Seq<u8>, lo: int, hi: int) -> int
    decreases hi - lo,
{
    if hi <= lo {
        0
    } else {
        (running_checksum(s, lo, hi - 1) + 512 - s[hi - 1] - 1) % 256
    }
}

/// The checksum that a header block (the bytes from `0x100`) must carry at offset `0x4D`.
pub open spec fn header_checksum_of(block: Seq<u8>) -> int {
    running_checksum(block, 0x34, 0x4D)
}

/// ROM bank count that the size code declares.
pub open spec fn rom_banks_of(code: u8, mbc1: bool) -> u64 {
    if code == 0x05 {
        if mbc1 { 63 } else { 64 }
    } else if code == 0x06 {
        if mbc1 { 125 } else { 128 }
    } else if code == 0x52 {
        72
    } else if code == 0x53 {
        80
    } else if code == 0x54 {
        96
    } else if code % 64 < 63 {
        (1u64 << ((code % 64) + 1) as u64) as u64
    } else {
        0
    }
}

/// RAM that the size code declares, for a cartridge of type code `type_code`.
pub open spec fn ram_banks_of(code: u8, type_code: u8) -> RamBanks {
    if code == 0 {
        if type_code == 0x05 || type_code == 0x06 {
            RamBanks::Mbc2
        } else {
            RamBanks::NoRam
        }
    } else if code == 1 {
        RamBanks::TwoKb
    } else if code == 2 {
        RamBanks::Banks(1)
    } else if code == 3 {
        RamBanks::Banks(4)
    } else if code == 4 {
        RamBanks::Banks(16)
    } else if code == 5 {
        RamBanks::Banks(8)
    } else {
        RamBanks::NoRam
    }
}

/// Fields of the cartridge header, read once at load.
#[derive(Clone, Debug)]
pub struct Header {
    pub logo: Vec<u8>,
    pub title: Vec<u8>,
    pub manufacturer_code: Vec<u8>,
    pub cgb_flag: CgbFlag,
    pub licensee_code: Vec<u8>,
    pub sgb_flag: bool,
    pub cartridge_type: CartridgeType,
    pub rom_banks: u64,
    pub ram_banks: RamBanks,
    pub is_japanese: bool,
    pub old_licensee_code: u8,
    pub mask_rom_version_number: u8,
    pub header_checksum: u8,
    pub global_checksum: Vec<u8>,
}

/// Copies `data[lo..hi]` into a new vector.
pub fn copy_range(data: &[u8], lo: usize, hi: usize) -> (r: Vec<u8>)
    requires
        lo <= hi <= data@.len(),
    ensures
        r@ == data@.subrange(lo as int, hi as int),
{
    let mut r: Vec<u8> = Vec::new();
    let mut i: usize = lo;
    while i < hi
        invariant
            lo <= i <= hi <= data@.len(),
            r@ == data@.subrange(lo as int, i as int),
        decreases hi - i,
    {
        r.push(data[i]);
        i = i + 1;
        proof {
            assert(r@ =~= data@.subrange(lo as int, i as int));
        }
    }
    r
}

impl Header {
    /// Parses the header block: the bytes from `0x100` of the ROM image.
    pub fn parse(data: &[u8]) -> (r: Result<Header, RomParserError>)
        ensures
            data@.len() < 0x50 ==> r == Err::<Header, RomParserError>(RomParserError::TooShort),
            data@.len() >= 0x50 && header_checksum_of(data@) != data@[0x4D] as int
                ==> r == Err::<Header, RomParserError>(RomParserError::InvalidChecksum),
            data@.len() >= 0x50 && header_checksum_of(data@) == data@[0x4D] as int
                && !is_known_type_code(data@[0x47]) ==> r == Err::<Header, RomParserError>(
                RomParserError::UnknownMapper),
            data@.len() >= 0x50 && header_checksum_of(data@) == data@[0x4D] as int
                && is_known_type_code(data@[0x47]) ==> r is Ok,
            r matches Ok(h) ==> {
                &&& h.cartridge_type.code() == data@[0x47]
                &&& h.rom_banks == rom_banks_of(data@[0x48], h.cartridge_type.is_mbc1())
                &&& h.title@ == data@.subrange(0x34, 0x3F)
                &&& h.header_checksum == data@[0x4D]
                &&& h.ram_banks == ram_banks_of(data@[0x49], data@[0x47])
            },
    {
        if data.len() < 0x50 {
            return Err(RomParserError::TooShort);
        }
        let mut checksum: u8 = 0;
        let mut i: usize = 0x34;
        while i < 0x4D
            invariant
                0x34 <= i <= 0x4D,
                data@.len() >= 0x50,
                checksum as int == running_checksum(data@, 0x34, i as int),
            decreases 0x4D - i,
        {
            checksum = ((checksum as u32 + 512 - data[i] as u32 - 1) % 256) as u8;
            i = i + 1;
        }
        if checksum != data[0x4D] {
            return Err(RomParserError::InvalidChecksum);
        }
        let cartridge_type = match CartridgeType::from_code(data[0x47]) {
            Some(t) => t,
            None => {
                return Err(RomParserError::UnknownMapper);
            },
        };
        let cgb_flag = match data[0x43] >> 6u8 {
            2 => CgbFlag::CgbSupported,
            3 => CgbFlag::CgbOnly,
            _ => CgbFlag::NoCgb,
        };
        let is_mbc1 = match cartridge_type {
            CartridgeType::Mbc1 | CartridgeType::Mbc1Ram | CartridgeType::Mbc1RamBattery => true,
            _ => false,
        };
        let size_code = data[0x48];
        let rom_banks: u64 = if size_code == 0x05 {
            if is_mbc1 { 63 } else { 64 }
        } else if size_code == 0x06 {
            if is_mbc1 { 125 } else { 128 }
        } else if size_code == 0x52 {
            72
        } else if size_code == 0x53 {
            80
        } else if size_code == 0x54 {
            96
        } else if size_code % 64 < 63 {
            1u64 << ((size_code % 64) + 1) as u64
        } else {
            0
        };
        let ram_banks = match data[0x49] {
            0 => match cartridge_type {
                CartridgeType::Mbc2 | CartridgeType::Mbc2Battery => RamBanks::Mbc2,
                _ => RamBanks::NoRam,
            },
            1 => RamBanks::TwoKb,
            2 => RamBanks::Banks(1),
            3 => RamBanks::Banks(4),
            4 => RamBanks::Banks(16),
            5 => RamBanks::Banks(8),
            _ => RamBanks::NoRam,
        };
        Ok(Header {
            logo: copy_range(data, 0x04, 0x34),
            title: copy_range(data, 0x34, 0x3F),
            manufacturer_code: copy_range(data, 0x3F, 0x43),
            cgb_flag,
            licensee_code: copy_range(data, 0x44, 0x46),
            sgb_flag: data[0x46] == 0x03,
            cartridge_type,
            rom_banks,
            ram_banks,
            is_japanese: data[0x4A] == 0,
            old_licensee_code: data[0x4B],
            mask_rom_version_number: data[0x4C],
            header_checksum: data[0x4D],
            global_checksum: copy_range(data, 0x4E, 0x50),
        })
    }
}

} // verus!
