use vstd::prelude::*;

verus! {

/// Where a cartridge access lands after bank translation.
#[derive(Clone, Copy, Debug, PartialEq, Eq, Structural)]
pub enum CartridgeReadTarget {
    /// Nothing answers: the read yields the open-bus default.
    Error,
    /// An offset into the ROM image.
    Rom(usize),
    /// An offset into cartridge RAM.
    Ram(usize),
    /// An offset into nibble-wide cartridge RAM (only the low four bits exist).
    RamHalf(usize),
}

/// Whether `addr` lies in the cartridge RAM window.
pub open spec fn is_ram_addr(addr: u16) -> bool {
    0xA000 <= addr <= 0xBFFF
}

/// Cartridge without a bank controller: a fixed 32 KiB ROM and an optional 8 KiB RAM.
#[derive(Clone, Copy, Debug, PartialEq, Eq, Structural)]
pub struct NoMapper;

impl NoMapper {
    pub fn map_read(&self, addr: u16) -> (r: CartridgeReadTarget)
        ensures
            is_ram_addr(addr) ==> r == CartridgeReadTarget::Ram((addr & 0x1FFF) as usize),
            !is_ram_addr(addr) ==> r == CartridgeReadTarget::Rom((addr & 0x7FFF) as usize),
    {
        if 0xA000 <= addr && addr <= 0xBFFF {
            CartridgeReadTarget::Ram((addr & 0x1FFF) as usize)
        } else {
            CartridgeReadTarget::Rom((addr & 0x7FFF) as usize)
        }
    }

    pub fn map_write(&self, addr: u16, data: u8) -> (r: Option<usize>)
        ensures
            is_ram_addr(addr) ==> r == Some((addr & 0x1FFF) as usize),
            !is_ram_addr(addr) ==> r is None,
    {
        if 0xA000 <= addr && addr <= 0xBFFF {
            Some((addr & 0x1FFF) as usize)
        } else {
            None
        }
    }
}

/// MBC1: 5-bit ROM bank register, 2-bit auxiliary register, and a banking mode bit.
#[derive(Clone, Copy, Debug, PartialEq, Eq, Structural)]
pub struct Mbc1 {
    pub n_rom_banks: u64,
    pub n_ram_banks: u64,
    pub bank_mask: u8,
    pub ram_enable: bool,
    pub rom_bank_number: u8,
    pub ram_bank_number_or_upper_rom_bank: u8,
    pub banking_mode_select: bool,
}

impl Mbc1 {
    pub fn new(n_rom_banks: u64, n_ram_banks: u64) -> (r: Self)
        ensures
            r.n_rom_banks == n_rom_banks,
            r.n_ram_banks == n_ram_banks,
            r.bank_mask == (n_rom_banks.wrapping_sub(1) % 256) as u8,
            !r.ram_enable,
            r.rom_bank_number == 1,
            r.ram_bank_number_or_upper_rom_bank == 0,
            !r.banking_mode_select,
    {
        Mbc1 {
            n_rom_banks,
            n_ram_banks,
            bank_mask: (n_rom_banks.wrapping_sub(1) % 256) as u8,
            ram_enable: false,
            rom_bank_number: 1,
            ram_bank_number_or_upper_rom_bank: 0,
            banking_mode_select: false,
        }
    }

    /// The state after a write of `data` to the ROM bank register: a value that masks to 0
    /// selects bank 1.
    pub open spec fn with_rom_bank_write(self, data: u8) -> Mbc1 {
        Mbc1 {
            rom_bank_number: if data & self.bank_mask & 0x1F == 0 {
                1u8
            } else {
                data & self.bank_mask & 0x1F
            },
            ..self
        }
    }

    /// The RAM offset that a RAM-window address selects in the current state.
    pub open spec fn ram_offset(&self, addr: u16) -> usize {
        if self.n_ram_banks > 1 && self.banking_mode_select {
            (((self.ram_bank_number_or_upper_rom_bank as usize) << 13usize) | ((addr & 0x1FFF) as usize)) as usize
        } else {
            (addr & 0x1FFF) as usize
        }
    }

    /// The ROM offset that a switchable-bank address selects in the current state.
    pub open spec fn high_rom_offset(&self, addr: u16) -> usize {
        let low = ((self.rom_bank_number as usize) << 14usize) as usize;
        let bank = if self.n_rom_banks > 64 {
            (low | ((self.ram_bank_number_or_upper_rom_bank as usize) << 19usize)) as usize
        } else {
            low
        };
        (bank | ((addr & 0x3FFF) as usize)) as usize
    }

    pub fn map_read(&self, addr: u16) -> (r: CartridgeReadTarget)
        ensures
            is_ram_addr(addr) && self.ram_enable ==> r == CartridgeReadTarget::Ram(self.ram_offset(addr)),
            is_ram_addr(addr) && !self.ram_enable ==> r == CartridgeReadTarget::Error,
            0x4000 <= addr <= 0x7FFF ==> r == CartridgeReadTarget::Rom(self.high_rom_offset(addr)),
            addr <= 0x3FFF && !(self.n_rom_banks > 64 && self.banking_mode_select)
                ==> r == CartridgeReadTarget::Rom((addr & 0x3FFF) as usize),
            addr <= 0x3FFF && self.n_rom_banks > 64 && self.banking_mode_select ==> r
                == CartridgeReadTarget::Rom(
                (((self.ram_bank_number_or_upper_rom_bank as usize) << 19usize) | ((addr & 0x3FFF)
                    as usize)) as usize,
            ),
    {
        if addr <= 0x3FFF {
            let a = (addr & 0x3FFF) as usize;
            if self.n_rom_banks > 64 && self.banking_mode_select {
                let bank = (self.ram_bank_number_or_upper_rom_bank as usize) << 19usize;
                CartridgeReadTarget::Rom(bank | a)
            } else {
                CartridgeReadTarget::Rom(a)
            }
        } else if addr <= 0x7FFF {
            let a = (addr & 0x3FFF) as usize;
            let mut bank = (self.rom_bank_number as usize) << 14usize;
            if self.n_rom_banks > 64 {
                bank = bank | ((self.ram_bank_number_or_upper_rom_bank as usize) << 19usize);
            }
            CartridgeReadTarget::Rom(bank | a)
        } else if 0xA000 <= addr && addr <= 0xBFFF {
            if self.ram_enable {
                let a = (addr & 0x1FFF) as usize;
                if self.n_ram_banks > 1 && self.banking_mode_select {
                    let bank = (self.ram_bank_number_or_upper_rom_bank as usize) << 13usize;
                    CartridgeReadTarget::Ram(bank | a)
                } else {
                    CartridgeReadTarget::Ram(a)
                }
            } else {
                CartridgeReadTarget::Error
            }
        } else {
            CartridgeReadTarget::Error
        }
    }

    pub fn map_write(&mut self, addr: u16, data: u8) -> (r: Option<usize>)
        ensures
            is_ram_addr(addr) ==> *final(self) == *old(self),
            is_ram_addr(addr) && old(self).ram_enable ==> r == Some(old(self).ram_offset(addr)),
            is_ram_addr(addr) && !old(self).ram_enable ==> r is None,
            !is_ram_addr(addr) ==> r is None,
            addr <= 0x1FFF ==> *final(self) == (Mbc1 { ram_enable: data & 0xF == 0x0A, ..*old(self) }),
            0x2000 <= addr <= 0x3FFF ==> *final(self) == old(self).with_rom_bank_write(data),
            0x4000 <= addr <= 0x5FFF ==> *final(self) == (Mbc1 {
                ram_bank_number_or_upper_rom_bank: data & 0x3,
                ..*old(self)
            }),
            0x6000 <= addr <= 0x7FFF ==> *final(self) == (Mbc1 {
                banking_mode_select: data & 1 == 1,
                ..*old(self)
            }),
            0x7FFF < addr && !is_ram_addr(addr) ==> *final(self) == *old(self),
    {
        if addr <= 0x1FFF {
            self.ram_enable = data & 0xF == 0x0A;
            None
        } else if addr <= 0x3FFF {
            let bank_number = data & self.bank_mask & 0x1F;
            if bank_number == 0 {
                // The register cannot hold 0: it reads as bank 1
                self.rom_bank_number = 1;
            } else {
                self.rom_bank_number = bank_number;
            }
            None
        } else if addr <= 0x5FFF {
            self.ram_bank_number_or_upper_rom_bank = data & 0x3;
            None
        } else if addr <= 0x7FFF {
            self.banking_mode_select = data & 1 == 1;
            None
        } else if 0xA000 <= addr && addr <= 0xBFFF {
            if self.ram_enable {
                let a = (addr & 0x1FFF) as usize;
                if self.n_ram_banks > 1 && self.banking_mode_select {
                    let bank = (self.ram_bank_number_or_upper_rom_bank as usize) << 13usize;
                    Some(bank | a)
                } else {
                    Some(a)
                }
            } else {
                None
            }
        } else {
            None
        }
    }
}


/// MBC2 selects one of at most 16 ROM banks.
pub const MBC2_BANK_MASK: u8 = 0x0F;

/// MBC2: 4-bit ROM bank register and a built-in 512 x 4-bit RAM.
#[derive(Clone, Copy, Debug, PartialEq, Eq, Structural)]
pub struct Mbc2 {
    pub ram_enable: bool,
    pub rom_bank_number: u8,
}

impl Mbc2 {
    pub fn new() -> (r: Self)
        ensures
            !r.ram_enable,
            r.rom_bank_number == 1,
    {
        Mbc2 { ram_enable: false, rom_bank_number: 1 }
    }

    /// The state after a write of `data` to the ROM bank register: a value that masks to 0
    /// selects bank 1.
    pub open spec fn with_rom_bank_write(self, data: u8) -> Mbc2 {
        Mbc2 {
            rom_bank_number: if data & MBC2_BANK_MASK == 0 {
                1u8
            } else {
                data & MBC2_BANK_MASK
            },
            ..self
        }
    }

    /// The RAM offset that a RAM-window address selects: the 512 nibbles repeat.
    pub open spec fn ram_offset(&self, addr: u16) -> usize {
        (addr & 0x1FF) as usize
    }

    /// The ROM offset that a switchable-bank address selects in the current state.
    pub open spec fn high_rom_offset(&self, addr: u16) -> usize {
        (((self.rom_bank_number as usize) << 14usize) | ((addr & 0x3FFF) as usize)) as usize
    }

    pub fn map_read(&self, addr: u16) -> (r: CartridgeReadTarget)
        ensures
            is_ram_addr(addr) && self.ram_enable ==> r == CartridgeReadTarget::RamHalf(self.ram_offset(addr)),
            is_ram_addr(addr) && !self.ram_enable ==> r == CartridgeReadTarget::Error,
            0x4000 <= addr <= 0x7FFF ==> r == CartridgeReadTarget::Rom(self.high_rom_offset(addr)),
            addr <= 0x3FFF ==> r == CartridgeReadTarget::Rom((addr & 0x3FFF) as usize),
    {
        if addr <= 0x3FFF {
            CartridgeReadTarget::Rom((addr & 0x3FFF) as usize)
        } else if addr <= 0x7FFF {
            let bank = (self.rom_bank_number as usize) << 14usize;
            CartridgeReadTarget::Rom(bank | ((addr & 0x3FFF) as usize))
        } else if 0xA000 <= addr && addr <= 0xBFFF {
            if self.ram_enable {
                CartridgeReadTarget::RamHalf((addr & 0x1FF) as usize)
            } else {
                CartridgeReadTarget::Error
            }
        } else {
            CartridgeReadTarget::Error
        }
    }

    pub fn map_write(&mut self, addr: u16, data: u8) -> (r: Option<usize>)
        ensures
            is_ram_addr(addr) ==> *final(self) == *old(self),
            is_ram_addr(addr) && old(self).ram_enable ==> r == Some(old(self).ram_offset(addr)),
            is_ram_addr(addr) && !old(self).ram_enable ==> r is None,
            !is_ram_addr(addr) ==> r is None,
            addr <= 0x3FFF && addr & 0x100 == 0x100 ==> *final(self) == old(
                self,
            ).with_rom_bank_write(data),
            addr <= 0x3FFF && addr & 0x100 != 0x100 ==> *final(self) == (Mbc2 {
                ram_enable: data == 0x0A,
                ..*old(self)
            }),
            0x3FFF < addr && !is_ram_addr(addr) ==> *final(self) == *old(self),
    {
        if addr <= 0x3FFF {
            if addr & 0x100 == 0x100 {
                let bank_number = data & MBC2_BANK_MASK;
                if bank_number == 0 {
                    self.rom_bank_number = 1;
                } else {
                    self.rom_bank_number = bank_number;
                }
            } else {
                self.ram_enable = data == 0x0A;
            }
            None
        } else if 0xA000 <= addr && addr <= 0xBFFF {
            if self.ram_enable {
                Some((addr & 0x1FF) as usize)
            } else {
                None
            }
        } else {
            None
        }
    }
}

/// MBC3: 7-bit ROM bank register and a RAM bank (or clock register) select.
#[derive(Clone, Copy, Debug, PartialEq, Eq, Structural)]
pub struct Mbc3 {
    pub ram_rtc_enable: bool,
    pub ram_or_rtc_bank_number: u8,
    pub rom_bank_number: u8,
}

impl Mbc3 {
    pub fn new() -> (r: Self)
        ensures
            !r.ram_rtc_enable,
            r.ram_or_rtc_bank_number == 0,
            r.rom_bank_number == 1,
    {
        Mbc3 { ram_rtc_enable: false, ram_or_rtc_bank_number: 0, rom_bank_number: 1 }
    }

    /// The state after a write of `data` to the ROM bank register: a value that masks to 0
    /// selects bank 1.
    pub open spec fn with_rom_bank_write(self, data: u8) -> Mbc3 {
        Mbc3 {
            rom_bank_number: if data & 0x7F == 0 {
                1u8
            } else {
                data & 0x7F
            },
            ..self
        }
    }

    /// The RAM offset that a RAM-window address selects in the current state.
    pub open spec fn ram_offset(&self, addr: u16) -> usize {
        (((self.ram_or_rtc_bank_number as usize) << 13usize) | ((addr & 0x1FFF) as usize)) as usize
    }

    /// The ROM offset that a switchable-bank address selects in the current state.
    pub open spec fn high_rom_offset(&self, addr: u16) -> usize {
        (((self.rom_bank_number as usize) << 14usize) | ((addr & 0x3FFF) as usize)) as usize
    }

    pub fn map_read(&self, addr: u16) -> (r: CartridgeReadTarget)
        ensures
            is_ram_addr(addr) && self.ram_rtc_enable ==> r == CartridgeReadTarget::Ram(self.ram_offset(addr)),
            is_ram_addr(addr) && !self.ram_rtc_enable ==> r == CartridgeReadTarget::Error,
            0x4000 <= addr <= 0x7FFF ==> r == CartridgeReadTarget::Rom(self.high_rom_offset(addr)),
            addr <= 0x3FFF ==> r == CartridgeReadTarget::Rom((addr & 0x3FFF) as usize),
    {
        if addr <= 0x3FFF {
            CartridgeReadTarget::Rom((addr & 0x3FFF) as usize)
        } else if addr <= 0x7FFF {
            let bank = (self.rom_bank_number as usize) << 14usize;
            CartridgeReadTarget::Rom(bank | ((addr & 0x3FFF) as usize))
        } else if 0xA000 <= addr && addr <= 0xBFFF {
            if self.ram_rtc_enable {
                let bank = (self.ram_or_rtc_bank_number as usize) << 13usize;
                CartridgeReadTarget::Ram(bank | ((addr & 0x1FFF) as usize))
            } else {
                CartridgeReadTarget::Error
            }
        } else {
            CartridgeReadTarget::Error
        }
    }

    pub fn map_write(&mut self, addr: u16, data: u8) -> (r: Option<usize>)
        ensures
            is_ram_addr(addr) ==> *final(self) == *old(self),
            is_ram_addr(addr) && old(self).ram_rtc_enable ==> r == Some(old(self).ram_offset(addr)),
            is_ram_addr(addr) && !old(self).ram_rtc_enable ==> r is None,
            !is_ram_addr(addr) ==> r is None,
            addr <= 0x1FFF ==> *final(self) == (Mbc3 { ram_rtc_enable: data == 0x0A, ..*old(self) }),
            0x2000 <= addr <= 0x3FFF ==> *final(self) == old(self).with_rom_bank_write(data),
            0x4000 <= addr <= 0x5FFF ==> *final(self) == (Mbc3 {
                ram_or_rtc_bank_number: data & 0x03,
                ..*old(self)
            }),
            0x5FFF < addr && !is_ram_addr(addr) ==> *final(self) == *old(self),
    {
        if addr <= 0x1FFF {
            self.ram_rtc_enable = data == 0x0A;
            None
        } else if addr <= 0x3FFF {
            let bank_number = data & 0x7F;
            if bank_number == 0 {
                self.rom_bank_number = 1;
            } else {
                self.rom_bank_number = bank_number;
            }
            None
        } else if addr <= 0x5FFF {
            // Clock registers are not modelled: only the RAM bank bits are kept
            self.ram_or_rtc_bank_number = data & 0x03;
            None
        } else if addr <= 0x7FFF {
            // Clock latch sequence: accepted and ignored
            None
        } else if 0xA000 <= addr && addr <= 0xBFFF {
            if self.ram_rtc_enable {
                let bank = (self.ram_or_rtc_bank_number as usize) << 13usize;
                Some(bank | ((addr & 0x1FFF) as usize))
            } else {
                None
            }
        } else {
            None
        }
    }
}

/// MBC5: 9-bit ROM bank split over two registers and a 4-bit RAM bank.
#[derive(Clone, Copy, Debug, PartialEq, Eq, Structural)]
pub struct Mbc5 {
    pub ram_enable: bool,
    pub rom_bank_number: u8,
    pub rom_bank_number_9th: u8,
    pub ram_bank_number: u8,
}

impl Mbc5 {
    pub fn new() -> (r: Self)
        ensures
            !r.ram_enable,
            r.rom_bank_number == 0,
            r.rom_bank_number_9th == 0,
            r.ram_bank_number == 0,
    {
        Mbc5 { ram_enable: false, rom_bank_number: 0, rom_bank_number_9th: 0, ram_bank_number: 0 }
    }

    /// The RAM offset that a RAM-window address selects in the current state.
    pub open spec fn ram_offset(&self, addr: u16) -> usize {
        (((self.ram_bank_number as usize) << 13usize) | ((addr & 0x1FFF) as usize)) as usize
    }

    /// The ROM offset that a switchable-bank address selects in the current state.
    pub open spec fn high_rom_offset(&self, addr: u16) -> usize {
        ((((self.rom_bank_number_9th as usize) << 22usize) | ((self.rom_bank_number as usize) << 14usize))
            | ((addr & 0x3FFF) as usize)) as usize
    }

    pub fn map_read(&self, addr: u16) -> (r: CartridgeReadTarget)
        ensures
            is_ram_addr(addr) && self.ram_enable ==> r == CartridgeReadTarget::Ram(self.ram_offset(addr)),
            is_ram_addr(addr) && !self.ram_enable ==> r == CartridgeReadTarget::Error,
            0x4000 <= addr <= 0x7FFF ==> r == CartridgeReadTarget::Rom(self.high_rom_offset(addr)),
            addr <= 0x3FFF ==> r == CartridgeReadTarget::Rom((addr & 0x3FFF) as usize),
    {
        if addr <= 0x3FFF {
            CartridgeReadTarget::Rom((addr & 0x3FFF) as usize)
        } else if addr <= 0x7FFF {
            let bank = ((self.rom_bank_number_9th as usize) << 22usize) | ((self.rom_bank_number as usize) << 14usize);
            CartridgeReadTarget::Rom(bank | ((addr & 0x3FFF) as usize))
        } else if 0xA000 <= addr && addr <= 0xBFFF {
            if self.ram_enable {
                let bank = (self.ram_bank_number as usize) << 13usize;
                CartridgeReadTarget::Ram(bank | ((addr & 0x1FFF) as usize))
            } else {
                CartridgeReadTarget::Error
            }
        } else {
            CartridgeReadTarget::Error
        }
    }

    pub fn map_write(&mut self, addr: u16, data: u8) -> (r: Option<usize>)
        ensures
            is_ram_addr(addr) ==> *final(self) == *old(self),
            is_ram_addr(addr) && old(self).ram_enable ==> r == Some(old(self).ram_offset(addr)),
            is_ram_addr(addr) && !old(self).ram_enable ==> r is None,
            !is_ram_addr(addr) ==> r is None,
            addr <= 0x1FFF ==> *final(self) == (Mbc5 { ram_enable: data & 0xF == 0x0A, ..*old(self) }),
            0x2000 <= addr <= 0x2FFF ==> *final(self) == (Mbc5 { rom_bank_number: data, ..*old(self) }),
            0x3000 <= addr <= 0x3FFF ==> *final(self) == (Mbc5 {
                rom_bank_number_9th: data & 0x1,
                ..*old(self)
            }),
            0x4000 <= addr <= 0x5FFF ==> *final(self) == (Mbc5 { ram_bank_number: data & 0xF, ..*old(self) }),
            0x5FFF < addr && !is_ram_addr(addr) ==> *final(self) == *old(self),
    {
        if addr <= 0x1FFF {
            self.ram_enable = data & 0xF == 0x0A;
            None
        } else if addr <= 0x2FFF {
            self.rom_bank_number = data;
            None
        } else if addr <= 0x3FFF {
            self.rom_bank_number_9th = data & 0x1;
            None
        } else if addr <= 0x5FFF {
            self.ram_bank_number = data & 0xF;
            None
        } else if 0xA000 <= addr && addr <= 0xBFFF {
            if self.ram_enable {
                let bank = (self.ram_bank_number as usize) << 13usize;
                Some(bank | ((addr & 0x1FFF) as usize))
            } else {
                None
            }
        } else {
            None
        }
    }
}

/// A write to the ROM bank register whose value masks to 0 selects bank 1, so the
/// switchable window then reads ROM bank 1 (MBC1 on cartridges of up to 64 banks, MBC2, MBC3).
pub proof fn lemma_bank_zero_selects_bank_one(m1: Mbc1, m2: Mbc2, m3: Mbc3, data: u8, addr: u16)
    requires
        0x4000 <= addr <= 0x7FFF,
    ensures
        data & m1.bank_mask & 0x1F == 0 ==> m1.with_rom_bank_write(data).rom_bank_number == 1,
        data & m1.bank_mask & 0x1F == 0 && m1.n_rom_banks > 64 ==> m1.with_rom_bank_write(
            data,
        ).high_rom_offset(addr) == ((((1usize << 14usize) | ((
        m1.ram_bank_number_or_upper_rom_bank as usize) << 19usize)) as usize) | ((addr & 0x3FFF)
            as usize)) as usize,
        data & m1.bank_mask & 0x1F == 0 && m1.n_rom_banks <= 64 ==> m1.with_rom_bank_write(
            data,
        ).high_rom_offset(addr) == 0x4000 + (addr % 0x4000) as int,
        data & MBC2_BANK_MASK == 0 ==> m2.with_rom_bank_write(data).high_rom_offset(addr) == 0x4000
            + (addr % 0x4000) as int,
        data & 0x7F == 0 ==> m3.with_rom_bank_write(data).high_rom_offset(addr) == 0x4000 + (addr
            % 0x4000) as int,
{
    let low = addr & 0x3FFF;
    assert(addr & 0x3FFF == addr % 0x4000) by (bit_vector);
    assert(low < 0x4000) by (bit_vector)
        requires
            low == addr & 0x3FFF,
    ;
    let l = low as usize;
    assert(((1usize << 14usize) | l) == 0x4000 + l) by (bit_vector)
        requires
            l < 0x4000,
    ;
}

/// The bank controller of a cartridge: one of a closed set of strategies.
#[derive(Clone, Copy, Debug, PartialEq, Eq, Structural)]
pub enum Mapper {
    NoMapper(NoMapper),
    Mbc1(Mbc1),
    Mbc2(Mbc2),
    Mbc3(Mbc3),
    Mbc5(Mbc5),
}

impl Mapper {
    /// Whether RAM-window accesses currently reach cartridge RAM.
    pub open spec fn ram_enabled(&self) -> bool {
        match self {
            Mapper::NoMapper(_) => true,
            Mapper::Mbc1(m) => m.ram_enable,
            Mapper::Mbc2(m) => m.ram_enable,
            Mapper::Mbc3(m) => m.ram_rtc_enable,
            Mapper::Mbc5(m) => m.ram_enable,
        }
    }

    /// The RAM offset that a RAM-window address selects in the current state.
    pub open spec fn ram_offset(&self, addr: u16) -> usize {
        match self {
            Mapper::NoMapper(_) => (addr & 0x1FFF) as usize,
            Mapper::Mbc1(m) => m.ram_offset(addr),
            Mapper::Mbc2(m) => m.ram_offset(addr),
            Mapper::Mbc3(m) => m.ram_offset(addr),
            Mapper::Mbc5(m) => m.ram_offset(addr),
        }
    }

    /// The ROM offset that an address in `0x0000..=0x7FFF` selects in the current state.
    pub open spec fn rom_offset(&self, addr: u16) -> usize {
        match self {
            Mapper::NoMapper(_) => (addr & 0x7FFF) as usize,
            Mapper::Mbc1(m) => if addr <= 0x3FFF {
                if m.n_rom_banks > 64 && m.banking_mode_select {
                    (((m.ram_bank_number_or_upper_rom_bank as usize) << 19usize) | ((addr & 0x3FFF)
                        as usize)) as usize
                } else {
                    (addr & 0x3FFF) as usize
                }
            } else {
                m.high_rom_offset(addr)
            },
            Mapper::Mbc2(m) => if addr <= 0x3FFF {
                (addr & 0x3FFF) as usize
            } else {
                m.high_rom_offset(addr)
            },
            Mapper::Mbc3(m) => if addr <= 0x3FFF {
                (addr & 0x3FFF) as usize
            } else {
                m.high_rom_offset(addr)
            },
            Mapper::Mbc5(m) => if addr <= 0x3FFF {
                (addr & 0x3FFF) as usize
            } else {
                m.high_rom_offset(addr)
            },
        }
    }

    /// Whether RAM is nibble-wide (reads keep only the low four bits).
    pub open spec fn ram_is_half(&self) -> bool {
        self is Mbc2
    }

    /// The ROM bank mapped at `0x4000..=0x7FFF` (low 8 bits), for debugging.
    pub fn get_rom_bank(&self) -> (r: u8)
        ensures
            self matches Mapper::Mbc1(m) ==> r == m.rom_bank_number,
            self matches Mapper::Mbc3(m) ==> r == m.rom_bank_number,
            self is NoMapper ==> r == 1,
    {
        match self {
            Mapper::NoMapper(_) => 1,
            Mapper::Mbc1(m) => m.rom_bank_number,
            Mapper::Mbc2(m) => m.rom_bank_number,
            Mapper::Mbc3(m) => m.rom_bank_number,
            Mapper::Mbc5(m) => m.rom_bank_number,
        }
    }

    /// The RAM bank mapped at `0xA000..=0xBFFF`, for debugging.
    pub fn get_ram_bank(&self) -> (r: u8)
        ensures
            self is NoMapper || self is Mbc2 ==> r == 0,
    {
        match self {
            Mapper::NoMapper(_) => 0,
            Mapper::Mbc1(m) => if m.banking_mode_select {
                m.ram_bank_number_or_upper_rom_bank
            } else {
                0
            },
            Mapper::Mbc2(_) => 0,
            Mapper::Mbc3(m) => m.ram_or_rtc_bank_number,
            Mapper::Mbc5(m) => m.ram_bank_number,
        }
    }

    pub fn map_read(&self, addr: u16) -> (r: CartridgeReadTarget)
        ensures
            is_ram_addr(addr) && self.ram_enabled() && !self.ram_is_half()
                ==> r == CartridgeReadTarget::Ram(self.ram_offset(addr)),
            is_ram_addr(addr) && self.ram_enabled() && self.ram_is_half()
                ==> r == CartridgeReadTarget::RamHalf(self.ram_offset(addr)),
            is_ram_addr(addr) && !self.ram_enabled() ==> r == CartridgeReadTarget::Error,
            addr <= 0x7FFF ==> r == CartridgeReadTarget::Rom(self.rom_offset(addr)),
    {
        match self {
            Mapper::NoMapper(m) => m.map_read(addr),
            Mapper::Mbc1(m) => m.map_read(addr),
            Mapper::Mbc2(m) => m.map_read(addr),
            Mapper::Mbc3(m) => m.map_read(addr),
            Mapper::Mbc5(m) => m.map_read(addr),
        }
    }

    pub fn map_write(&mut self, addr: u16, data: u8) -> (r: Option<usize>)
        ensures
            is_ram_addr(addr) ==> *final(self) == *old(self),
            is_ram_addr(addr) && old(self).ram_enabled() ==> r == Some(old(self).ram_offset(addr)),
            is_ram_addr(addr) && !old(self).ram_enabled() ==> r is None,
            !is_ram_addr(addr) ==> r is None,
            final(self).ram_is_half() == old(self).ram_is_half(),
            addr <= 0x1FFF && addr & 0x100 == 0 && data == 0x0A ==> final(self).ram_enabled(),
            addr <= 0x1FFF && addr & 0x100 == 0 && data & 0x0F != 0x0A && !(*old(self) is NoMapper)
                ==> !final(self).ram_enabled(),
            addr <= 0x1FFF && addr & 0x100 == 0 ==> forall|a: u16| #[trigger]
                final(self).ram_offset(a) == old(self).ram_offset(a),
    {
        proof {
            assert(data == 0x0A ==> data & 0x0F == 0x0A) by (bit_vector);
            assert(data & 0x0F != 0x0A ==> data != 0x0A) by (bit_vector);
        }
        match self {
            Mapper::NoMapper(m) => m.map_write(addr, data),
            Mapper::Mbc1(m) => m.map_write(addr, data),
            Mapper::Mbc2(m) => m.map_write(addr, data),
            Mapper::Mbc3(m) => m.map_write(addr, data),
            Mapper::Mbc5(m) => m.map_write(addr, data),
        }
    }
}

} // verus!
