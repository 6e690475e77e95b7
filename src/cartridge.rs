use vstd::prelude::*;

use crate::header::{
    header_checksum_of, is_known_type_code, CartridgeType, Header, RamBanks, RomParserError,
    copy_range,
};
use crate::mappers::{
    is_ram_addr, CartridgeReadTarget, Mapper, Mbc1, Mbc2, Mbc3, Mbc5, NoMapper,
};

verus! {

/// Whether the cartridge type is one of the supported controller families.
pub open spec fn is_supported_type_code(code: u8) -> bool {
    code <= 0x03 || code == 0x05 || code == 0x06 || code == 0x08 || code == 0x09 || (0x0F <= code
        <= 0x13) || (0x19 <= code <= 0x1E)
}

/// Bytes of cartridge RAM for the header's RAM size code and type code (8 KiB banks;
/// 512 nibbles built into MBC2; none otherwise).
pub open spec fn ram_size_of(ram_code: u8, type_code: u8) -> nat {
    if ram_code == 0 && (type_code == 0x05 || type_code == 0x06) {
        512
    } else if ram_code == 2 {
        8192
    } else if ram_code == 3 {
        32768
    } else if ram_code == 4 {
        131072
    } else if ram_code == 5 {
        65536
    } else {
        0
    }
}

/// A zero-filled buffer of `n` bytes.
pub fn zeroed(n: usize) -> (r: Vec<u8>)
    ensures
        r@.len() == n,
        forall|i: int| 0 <= i < n ==> r@[i] == 0,
{
    let mut r: Vec<u8> = Vec::new();
    let mut i: usize = 0;
    while i < n
        invariant
            i <= n,
            r@.len() == i,
            forall|j: int| 0 <= j < i ==> r@[j] == 0,
        decreases n - i,
    {
        r.push(0);
        i = i + 1;
    }
    r
}

/// The byte that a RAM-window read yields, given the controller state and the RAM contents.
pub open spec fn ram_byte(m: Mapper, ram: Option<Seq<u8>>, addr: u16) -> u8 {
    if !m.ram_enabled() {
        0
    } else {
        match ram {
            None => 0,
            Some(v) => if v.len() == 0 {
                0
            } else {
                let i = m.ram_offset(addr) as int % v.len() as int;
                if m.ram_is_half() {
                    (v[i] & 0x0F) | 0xF0
                } else {
                    v[i]
                }
            },
        }
    }
}

/// The RAM contents after a RAM-window write.
pub open spec fn ram_after_write(m: Mapper, ram: Option<Seq<u8>>, addr: u16, data: u8) -> Option<Seq<u8>> {
    if !m.ram_enabled() {
        ram
    } else {
        match ram {
            None => None,
            Some(v) => if v.len() == 0 {
                Some(v)
            } else {
                Some(v.update(m.ram_offset(addr) as int % v.len() as int, data))
            },
        }
    }
}

/// Writing a byte to enabled cartridge RAM and reading the same address gives the byte back;
/// on nibble-wide RAM the low four bits come back, with the high four bits set.
pub proof fn lemma_ram_round_trip(m: Mapper, ram: Seq<u8>, addr: u16, data: u8)
    requires
        is_ram_addr(addr),
        m.ram_enabled(),
        ram.len() > 0,
    ensures
        !m.ram_is_half() ==> ram_byte(m, ram_after_write(m, Some(ram), addr, data), addr) == data,
        m.ram_is_half() ==> ram_byte(m, ram_after_write(m, Some(ram), addr, data), addr) == (data
            & 0x0F) | 0xF0,
{
}

/// After the RAM enable value 0x0A is written below 0x2000 (address bit 8 clear, as MBC2
/// needs), a byte written to the RAM window reads back (its low nibble, on nibble-wide RAM).
pub proof fn lemma_enable_then_round_trip(m0: Mapper, m1: Mapper, ram: Seq<u8>, addr: u16, data: u8)
    requires
        m1.ram_enabled(),
        m1.ram_is_half() == m0.ram_is_half(),
        forall|a: u16| #[trigger] m1.ram_offset(a) == m0.ram_offset(a),
        is_ram_addr(addr),
        ram.len() > 0,
    ensures
        !m1.ram_is_half() ==> ram_byte(m1, ram_after_write(m1, Some(ram), addr, data), addr) == data,
        m1.ram_is_half() ==> ram_byte(m1, ram_after_write(m1, Some(ram), addr, data), addr) == (data
            & 0x0F) | 0xF0,
{
    lemma_ram_round_trip(m1, ram, addr, data);
}

/// A loaded cartridge: ROM image, optional RAM, and its bank controller.
pub struct Cartridge {
    pub header: Header,
    pub rom: Vec<u8>,
    pub ram: Option<Vec<u8>>,
    pub mapper: Mapper,
}

impl Cartridge {
    pub open spec fn wf(&self) -> bool {
        &&& self.rom@.len() > 0
        &&& self.ram matches Some(r) ==> r@.len() > 0
    }

    /// The ROM byte that an address in `0x0000..=0x7FFF` reads through the bank controller;
    /// offsets past the image wrap around.
    pub open spec fn rom_byte(&self, addr: u16) -> u8 {
        self.rom@[(self.mapper.rom_offset(addr) as int) % (self.rom@.len() as int)]
    }

    pub open spec fn ram_view(&self) -> Option<Seq<u8>> {
        match self.ram {
            Some(r) => Some(r@),
            None => None,
        }
    }

    /// Loads a ROM image, and save data where its size matches the cartridge RAM.
    pub fn load(rom: &[u8], save_data: Option<&[u8]>) -> (r: Result<Cartridge, RomParserError>)
        ensures
            rom@.len() < 0x150 ==> r == Err::<Cartridge, RomParserError>(RomParserError::TooShort),
            rom@.len() >= 0x150 && header_checksum_of(rom@.subrange(0x100, 0x150)) != rom@[0x14D] as int
                ==> r == Err::<Cartridge, RomParserError>(RomParserError::InvalidChecksum),
            rom@.len() >= 0x150 && header_checksum_of(rom@.subrange(0x100, 0x150)) == rom@[0x14D] as int
                && !is_known_type_code(rom@[0x147]) ==> r == Err::<Cartridge, RomParserError>(
                RomParserError::UnknownMapper),
            rom@.len() >= 0x150 && header_checksum_of(rom@.subrange(0x100, 0x150)) == rom@[0x14D] as int
                && is_known_type_code(rom@[0x147]) && !is_supported_type_code(rom@[0x147])
                ==> r == Err::<Cartridge, RomParserError>(RomParserError::MapperNotImplemented),
            rom@.len() >= 0x150 && header_checksum_of(rom@.subrange(0x100, 0x150)) == rom@[0x14D] as int
                && is_supported_type_code(rom@[0x147]) ==> r is Ok,
            r matches Ok(c) ==> {
                &&& c.wf()
                &&& c.rom@ == rom@
                &&& (rom@[0x147] == 0x00 ==> c.mapper is NoMapper)
                &&& (0x01 <= rom@[0x147] <= 0x03 ==> c.mapper is Mbc1)
                &&& (0x05 <= rom@[0x147] <= 0x06 ==> c.mapper is Mbc2)
                &&& (0x0F <= rom@[0x147] <= 0x13 ==> c.mapper is Mbc3)
                &&& (0x19 <= rom@[0x147] <= 0x1E ==> c.mapper is Mbc5)
                &&& (c.ram is None <==> ram_size_of(rom@[0x149], rom@[0x147]) == 0)
                &&& (c.ram matches Some(ram) ==> {
                    &&& ram@.len() == ram_size_of(rom@[0x149], rom@[0x147])
                    &&& (save_data is Some && save_data->Some_0@.len() == ram@.len() ==> ram@
                        == save_data->Some_0@)
                    &&& (!(save_data is Some && save_data->Some_0@.len() == ram@.len())
                        ==> forall|i: int| 0 <= i < ram@.len() ==> ram@[i] == 0)
                })
            },
    {
        if rom.len() < 0x150 {
            return Err(RomParserError::TooShort);
        }
        let block = copy_range(rom, 0x100, 0x150);
        proof {
            assert(block@ =~= rom@.subrange(0x100, 0x150));
        }
        let header = match Header::parse(block.as_slice()) {
            Ok(h) => h,
            Err(e) => {
                return Err(e);
            },
        };
        let ram_banks: u64 = match header.ram_banks {
            RamBanks::Banks(n) => n as u64,
            _ => 0,
        };
        let mapper = match header.cartridge_type {
            CartridgeType::RomOnly | CartridgeType::RomRam | CartridgeType::RomRamBattery => {
                Mapper::NoMapper(NoMapper)
            },
            CartridgeType::Mbc1 | CartridgeType::Mbc1Ram | CartridgeType::Mbc1RamBattery => {
                Mapper::Mbc1(Mbc1::new(header.rom_banks, ram_banks))
            },
            CartridgeType::Mbc2 | CartridgeType::Mbc2Battery => Mapper::Mbc2(Mbc2::new()),
            CartridgeType::Mbc3TimerBattery
            | CartridgeType::Mbc3TimerRamBattery
            | CartridgeType::Mbc3
            | CartridgeType::Mbc3Ram
            | CartridgeType::Mbc3RamBattery => Mapper::Mbc3(Mbc3::new()),
            CartridgeType::Mbc5
            | CartridgeType::Mbc5Ram
            | CartridgeType::Mbc5RamBattery
            | CartridgeType::Mbc5Rumble
            | CartridgeType::Mbc5RumbleRam
            | CartridgeType::Mbc5RumbleRamBattery => Mapper::Mbc5(Mbc5::new()),
            _ => {
                return Err(RomParserError::MapperNotImplemented);
            },
        };
        let ram_size: usize = match header.ram_banks {
            RamBanks::Banks(n) => if n <= 16 {
                n * 8 * 1024
            } else {
                0
            },
            RamBanks::Mbc2 => 512,
            _ => 0,
        };
        let ram: Option<Vec<u8>> = if ram_size == 0 {
            None
        } else {
            match save_data {
                Some(s) => if s.len() == ram_size {
                    Some(copy_range(s, 0, s.len()))
                } else {
                    // A save of another size belongs to another cartridge: it is dropped
                    Some(zeroed(ram_size))
                },
                None => Some(zeroed(ram_size)),
            }
        };
        let rom_copy = copy_range(rom, 0, rom.len());
        proof {
            assert(rom_copy@ =~= rom@);
            if let Some(s) = save_data {
                assert(s@.subrange(0, s@.len() as int) =~= s@);
            }
        }
        Ok(Cartridge { header, rom: rom_copy, ram, mapper })
    }

    /// Whether the cartridge declares colour support.
    pub fn is_cgb(&self) -> (r: bool)
        ensures
            r == !(self.header.cgb_flag is NoCgb),
    {
        match self.header.cgb_flag {
            crate::header::CgbFlag::NoCgb => false,
            _ => true,
        }
    }

    pub fn read(&self, addr: u16) -> (r: u8)
        requires
            self.wf(),
        ensures
            is_ram_addr(addr) ==> r == ram_byte(self.mapper, self.ram_view(), addr),
            addr <= 0x7FFF ==> r == self.rom_byte(addr),
    {
        match self.mapper.map_read(addr) {
            CartridgeReadTarget::Error => 0,
            CartridgeReadTarget::Rom(a) => self.rom[a % self.rom.len()],
            CartridgeReadTarget::Ram(a) => match &self.ram {
                Some(ram) => ram[a % ram.len()],
                None => 0,
            },
            CartridgeReadTarget::RamHalf(a) => match &self.ram {
                Some(ram) => (ram[a % ram.len()] & 0x0F) | 0xF0,
                None => 0,
            },
        }
    }

    pub fn write(&mut self, addr: u16, data: u8)
        requires
            old(self).wf(),
        ensures
            final(self).wf(),
            final(self).rom@ == old(self).rom@,
            is_ram_addr(addr) ==> final(self).mapper == old(self).mapper,
            is_ram_addr(addr) ==> final(self).ram_view() == ram_after_write(
                old(self).mapper,
                old(self).ram_view(),
                addr,
                data,
            ),
            !is_ram_addr(addr) ==> final(self).ram_view() == old(self).ram_view(),
            final(self).mapper.ram_is_half() == old(self).mapper.ram_is_half(),
            addr <= 0x1FFF && addr & 0x100 == 0 && data == 0x0A ==> final(self).mapper.ram_enabled(),
            addr <= 0x1FFF && addr & 0x100 == 0 ==> forall|a: u16| #[trigger]
                final(self).mapper.ram_offset(a) == old(self).mapper.ram_offset(a),
    {
        match self.mapper.map_write(addr, data) {
            Some(a) => match &mut self.ram {
                Some(ram) => {
                    let size = ram.len();
                    ram.set(a % size, data);
                },
                None => {},
            },
            None => {},
        }
    }

    /// Cartridge RAM, for persisting it.
    pub fn get_save_data(&self) -> (r: Option<&[u8]>)
        ensures
            self.ram is None <==> r is None,
            r matches Some(s) ==> self.ram_view() == Some(s@),
    {
        match &self.ram {
            Some(r) => Some(r.as_slice()),
            None => None,
        }
    }
}

} // verus!
