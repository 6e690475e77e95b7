use vstd::prelude::*;

use crate::cartridge::{ram_byte, Cartridge};
use crate::mappers::is_ram_addr;
use crate::dma::{HDma, OamDma};
use crate::fifo::FifoMode;
use crate::interrupt::{InterruptState, INT_MASK};
use crate::ppu::Ppu;
use crate::serial::SerialPort;
use crate::timer::TimerRegisters;

verus! {

/// What the video controller reaches on the bus: the interrupt requests and the HBlank
/// signal of the HDMA engine.
pub struct PpuBus {
    pub interrupts: InterruptState,
    pub hdma: HDma,
}

impl PpuBus {
    pub fn borrow(interrupts: InterruptState, hdma: HDma) -> (r: Self)
        ensures
            r.interrupts == interrupts,
            r.hdma == hdma,
    {
        PpuBus { interrupts, hdma }
    }

    pub fn get_interrupt_state(&self) -> (r: InterruptState)
        ensures
            r == self.interrupts,
    {
        self.interrupts
    }

    pub fn set_interrupt_state(&mut self, interrupts: InterruptState)
        ensures
            final(self).interrupts == interrupts,
            final(self).hdma == old(self).hdma,
    {
        self.interrupts = interrupts;
    }

    /// Raises the request bits of `interrupt`.
    pub fn request_interrupt(&mut self, interrupt: u8)
        ensures
            final(self).interrupts.status == old(self).interrupts.status | (interrupt & INT_MASK),
            final(self).interrupts.enable == old(self).interrupts.enable,
            final(self).hdma == old(self).hdma,
    {
        self.interrupts.request(interrupt);
    }

    /// Signals whether an HBlank window is open; the latch is only set while an
    /// HBlank-mode transfer is in progress.
    pub fn set_hdma_hblank(&mut self, value: bool)
        ensures
            final(self).interrupts == old(self).interrupts,
            final(self).hdma == (HDma {
                hblank_latch: if value {
                    if old(self).hdma.hblank_mode && old(self).hdma.control & 0x80 == 0 {
                        true
                    } else {
                        old(self).hdma.hblank_latch
                    }
                } else {
                    false
                },
                ..old(self).hdma
            }),
    {
        if value {
            if self.hdma.hblank_mode && self.hdma.control & 0x80 == 0 {
                self.hdma.hblank_latch = true;
            }
        } else {
            self.hdma.hblank_latch = false;
        }
    }
}


/// Size of one work RAM bank.
pub const WRAM_BANK_SIZE: u16 = 0x1000;

/// KEY1 bit: a speed switch is armed for the next STOP.
pub const SPEED_PENDING: u8 = 0x01;

/// KEY1 bits that always read as 1.
pub const SPEED_UNUSED: u8 = 0x7E;

/// KEY1 bit: double speed is on.
pub const SPEED_ENABLED: u8 = 0x80;

/// Index into work RAM of a CPU address in `0xC000..=0xFDFF` (echo RAM included).
pub open spec fn wram_index(cgb_mode: bool, wram_bank: u8, addr: u16) -> int {
    if cgb_mode {
        let bank: int = if (addr / 0x1000) % 2 == 1 {
            if wram_bank % 8 == 0 {
                1
            } else {
                (wram_bank % 8) as int
            }
        } else {
            0
        };
        bank * 0x1000 + (addr % 0x1000) as int
    } else {
        (addr % 0x2000) as int
    }
}

/// The joypad register for pressed buttons `state` (bit set = pressed) and group selection
/// `select`: selected groups read active-low in the low nibble.
pub open spec fn joypad_value(state: u8, select: u8) -> u8 {
    let dpad: u8 = if select & 0x10 == 0 {
        state & 0x0F
    } else {
        0
    };
    let buttons: u8 = if select & 0x20 == 0 {
        (state & 0xF0) >> 4u8
    } else {
        0
    };
    (!(dpad | buttons) & 0x0F) | (select & 0x30)
}

/// Whether an OAM DMA reading page `source` shares the bus that `addr` needs.
pub open spec fn dma_conflict(source: u8, addr: u16) -> bool {
    ((source <= 0x7F || (0xA0 <= source <= 0xBF)) && (addr <= 0x7FFF || (0xA000 <= addr <= 0xBFFF)))
        || ((0xC0 <= source <= 0xFD) && (0xC000 <= addr <= 0xFDFF)) || (0x8000 <= addr <= 0x9FFF)
}

/// Whether byte `k` of an HDMA block from `src` to VRAM offset `dst` reached `vram`, for a
/// source byte that the bus itself holds.
pub open spec fn hdma_byte_copied(bus: CpuBus, vram: Seq<u8>, src: int, dst: int, k: int) -> bool {
    let s = ((src + k) % 0x10000) as u16;
    let d = (0x8000 + (dst + k) % 0x2000) as u16;
    bus.bus_held_byte(s) is Some ==> vram[bus.ppu.banked_index(d)] == bus.bus_held_byte(s)->Some_0
}

/// Everything the CPU reaches through the address bus, besides its own registers.
pub struct CpuBus {
    pub wram: Vec<u8>,
    pub wram_bank: u8,
    pub hram: Vec<u8>,
    pub ppu_bus: PpuBus,
    pub double_speed: u8,
    pub oam_dma: OamDma,
    pub timer_registers: TimerRegisters,
    pub cartridge: Cartridge,
    pub ppu: Ppu,
    pub cgb_mode: bool,
    pub serial_port: SerialPort,
    pub joypad_state: u8,
    pub joypad_register: u8,
}

impl CpuBus {
    pub open spec fn wf(&self) -> bool {
        &&& self.wram@.len() == 0x8000
        &&& self.hram@.len() == 0x7F
        &&& self.cartridge.wf()
        &&& self.ppu.wf()
        &&& self.serial_port.wf()
    }

    pub open spec fn interrupts(&self) -> InterruptState {
        self.ppu_bus.interrupts
    }

    /// Whether an OAM DMA transfer is running.
    pub open spec fn dma_active(&self) -> bool {
        self.oam_dma.cycle is Some
    }

    /// Gathers the subsystems into a bus.
    pub fn borrow(
        wram: Vec<u8>,
        wram_bank: u8,
        hram: Vec<u8>,
        interrupts: InterruptState,
        double_speed: u8,
        oam_dma: OamDma,
        hdma: HDma,
        timer_registers: TimerRegisters,
        cartridge: Cartridge,
        ppu: Ppu,
        cgb_mode: bool,
        serial_port: SerialPort,
        joypad_state: u8,
        joypad_register: u8,
    ) -> (r: Self)
        ensures
            r.wram == wram && r.hram == hram && r.wram_bank == wram_bank,
            r.ppu_bus.interrupts == interrupts && r.ppu_bus.hdma == hdma,
            r.double_speed == double_speed && r.oam_dma == oam_dma,
            r.timer_registers == timer_registers && r.cartridge == cartridge && r.ppu == ppu,
            r.cgb_mode == cgb_mode && r.serial_port == serial_port,
            r.joypad_state == joypad_state && r.joypad_register == joypad_register,
    {
        CpuBus {
            wram,
            wram_bank,
            hram,
            ppu_bus: PpuBus { interrupts, hdma },
            double_speed,
            oam_dma,
            timer_registers,
            cartridge,
            ppu,
            cgb_mode,
            serial_port,
            joypad_state,
            joypad_register,
        }
    }

    /// A CPU write: dropped when a running OAM DMA holds the bus that `addr` needs.
    pub fn write(&mut self, addr: u16, data: u8)
        requires
            old(self).wf(),
        ensures
            final(self).wf(),
            old(self).ppu.timing_kept(final(self).ppu),
            addr != 0xFF0F && addr != 0xFFFF ==> final(self).interrupts() == old(self).interrupts(),
            old(self).dma_active() && dma_conflict(old(self).oam_dma.source, addr) ==> final(self).wram@
                == old(self).wram@ && final(self).hram@ == old(self).hram@,
            !(old(self).dma_active() && dma_conflict(old(self).oam_dma.source, addr)) ==> {
                &&& (0xC000 <= addr <= 0xFDFF ==> final(self).wram@ == old(self).wram@.update(
                    wram_index(old(self).cgb_mode, old(self).wram_bank, addr),
                    data,
                ))
                &&& (0xFF80 <= addr <= 0xFFFE ==> final(self).hram@ == old(self).hram@.update(
                    addr - 0xFF80,
                    data,
                ))
            },
            addr == 0xFF0F ==> final(self).interrupts().status == data & INT_MASK
                && final(self).interrupts().enable == old(self).interrupts().enable,
            addr == 0xFFFF ==> final(self).interrupts().enable == data & INT_MASK
                && final(self).interrupts().status == old(self).interrupts().status,
            !(0xC000 <= addr <= 0xFDFF) ==> final(self).wram@ == old(self).wram@,
            !(0xFF80 <= addr <= 0xFFFE) ==> final(self).hram@ == old(self).hram@,
            final(self).oam_dma.cycle == old(self).oam_dma.cycle || addr == 0xFF46,
            addr != 0xFF46 ==> final(self).oam_dma == old(self).oam_dma,
            addr != 0xFF70 ==> final(self).wram_bank == old(self).wram_bank,
            final(self).cgb_mode == old(self).cgb_mode,
            old(self).dma_active() && dma_conflict(old(self).oam_dma.source, addr) ==> *final(self)
                == *old(self),
    {
        if self.oam_dma.cycle.is_some() && Self::check_oam_dma_bus_conflict(self.oam_dma.source, addr) {
            return;
        }
        self.write_without_dma_check(addr, data, false);
    }

    /// A CPU read: 0xFF when a running OAM DMA holds the bus that `addr` needs.
    pub fn read(&self, addr: u16) -> (r: u8)
        requires
            self.wf(),
        ensures
            self.dma_active() && dma_conflict(self.oam_dma.source, addr) ==> r == 0xFF,
            !(self.dma_active() && dma_conflict(self.oam_dma.source, addr))
                && self.unchecked_byte(addr) is Some ==> r == self.unchecked_byte(addr)->Some_0,
            !(self.dma_active() && dma_conflict(self.oam_dma.source, addr)) && addr <= 0x7FFF ==> r
                == self.cartridge.rom_byte(addr),
            !(self.dma_active() && dma_conflict(self.oam_dma.source, addr))
                && self.bus_held_byte(addr) is Some ==> r == self.bus_held_byte(addr)->Some_0,
    {
        if self.oam_dma.cycle.is_some() && Self::check_oam_dma_bus_conflict(self.oam_dma.source, addr) {
            0xFF
        } else {
            self.read_without_dma_check(addr, false)
        }
    }

    /// What an unchecked read of `addr` yields, for the regions whose contents the bus holds
    /// itself; `None` for the regions that read through another subsystem.
    pub open spec fn bus_held_byte(&self, addr: u16) -> Option<u8> {
        if 0xC000 <= addr <= 0xFDFF {
            Some(self.wram@[wram_index(self.cgb_mode, self.wram_bank, addr)])
        } else if 0xFF80 <= addr <= 0xFFFE {
            Some(self.hram@[addr - 0xFF80])
        } else if addr == 0xFF0F {
            Some(self.interrupts().status | 0xE0)
        } else if addr == 0xFFFF {
            Some(self.interrupts().enable | 0xE0)
        } else if addr == 0xFF00 {
            Some(joypad_value(self.joypad_state, self.joypad_register))
        } else if addr == 0xFF46 {
            Some(self.oam_dma.source)
        } else if addr == 0xFF70 {
            Some(self.wram_bank)
        } else if addr == 0xFF4D {
            Some(self.double_speed)
        } else {
            None
        }
    }

    /// What an unchecked read of `addr` yields, where the state determines it: the bus-held
    /// bytes, cartridge ROM through the bank controller, cartridge RAM, VRAM (0xFF while a line is drawn), object memory and the
    /// serial registers.
    pub open spec fn unchecked_byte(&self, addr: u16) -> Option<u8> {
        if self.bus_held_byte(addr) is Some {
            self.bus_held_byte(addr)
        } else if addr <= 0x7FFF {
            Some(self.cartridge.rom_byte(addr))
        } else if is_ram_addr(addr) {
            Some(ram_byte(self.cartridge.mapper, self.cartridge.ram_view(), addr))
        } else if 0x8000 <= addr <= 0x9FFF {
            if self.ppu.fifo_mode is Drawing {
                Some(0xFFu8)
            } else {
                Some(self.ppu.vram@[self.ppu.banked_index(addr)])
            }
        } else if 0xFE00 <= addr <= 0xFE9F {
            Some(self.ppu.oam@[(addr % 0x100) as int])
        } else if addr == 0xFF01 {
            Some(self.serial_port.buffer)
        } else if addr == 0xFF02 {
            Some(self.serial_port.control)
        } else {
            None
        }
    }

    pub fn write_without_dma_check(&mut self, addr: u16, data: u8, called_from_dma: bool)
        requires
            old(self).wf(),
        ensures
            final(self).wf(),
            old(self).ppu.timing_kept(final(self).ppu),
            addr != 0xFF0F && addr != 0xFFFF ==> final(self).interrupts() == old(self).interrupts(),
            0xC000 <= addr <= 0xFDFF ==> final(self).wram@ == old(self).wram@.update(
                wram_index(old(self).cgb_mode, old(self).wram_bank, addr),
                data,
            ),
            !(0xC000 <= addr <= 0xFDFF) ==> final(self).wram@ == old(self).wram@,
            0xFF80 <= addr <= 0xFFFE ==> final(self).hram@ == old(self).hram@.update(
                addr - 0xFF80,
                data,
            ),
            !(0xFF80 <= addr <= 0xFFFE) ==> final(self).hram@ == old(self).hram@,
            addr == 0xFF0F ==> final(self).interrupts().status == data & INT_MASK
                && final(self).interrupts().enable == old(self).interrupts().enable,
            addr == 0xFFFF ==> final(self).interrupts().enable == data & INT_MASK
                && final(self).interrupts().status == old(self).interrupts().status,
            addr != 0xFF46 ==> final(self).oam_dma == old(self).oam_dma,
            addr != 0xFF70 ==> final(self).wram_bank == old(self).wram_bank,
            final(self).cgb_mode == old(self).cgb_mode,
            addr == 0xFF46 ==> final(self).oam_dma == (OamDma {
                source: if data >= 0xE0 {
                    (data - 0x20) as u8
                } else {
                    data
                },
                cycle: Some(0u8),
            }),
            0xFE00 <= addr <= 0xFE9F ==> final(self).ppu.oam@ == old(self).ppu.oam@.update(
                (addr % 0x100) as int,
                data,
            ),
    {
        if addr <= 0x7FFF {
            self.write_cartridge(addr, data);
        } else if addr <= 0x9FFF {
            self.ppu.write_vram(addr, data);
        } else if addr <= 0xBFFF {
            self.write_cartridge(addr, data);
        } else if addr <= 0xFDFF {
            self.write_ram(addr, data);
        } else if addr <= 0xFE9F {
            self.ppu.write_oam(addr, data, called_from_dma);
        } else if addr == 0xFF00 {
            self.write_joypad_reg(data);
        } else if addr == 0xFF01 {
            self.serial_port.set_buffer(data);
        } else if addr == 0xFF02 {
            self.serial_port.set_control(data);
        } else if 0xFF04 <= addr && addr <= 0xFF07 {
            self.timer_registers.write(addr, data);
        } else if addr == 0xFF0F {
            self.ppu_bus.interrupts.status = data & INT_MASK;
        } else if addr == 0xFF46 {
            self.request_oam_dma(data);
        } else if addr == 0xFF40 {
            let was_enabled = self.ppu.is_enabled();
            self.ppu.write(addr, data);
            let is_enabled = self.ppu.is_enabled();
            if was_enabled && !is_enabled {
                // Turning the LCD off mid-line lets a pending HBlank transfer copy its block
                if self.ppu_bus.hdma.control & 0x80 == 0 && self.ppu_bus.hdma.hblank_mode {
                    match self.ppu.get_mode() {
                        FifoMode::Drawing(_) => {
                            self.ppu_bus.hdma.hblank_latch = true;
                        },
                        _ => {},
                    }
                }
                self.ppu.disable();
            }
        } else if (0xFF41 <= addr && addr <= 0xFF45) || (0xFF47 <= addr && addr <= 0xFF4C) || (0xFF4E
            <= addr && addr <= 0xFF50) || (0xFF56 <= addr && addr <= 0xFF6F) {
            self.ppu.write(addr, data);
        } else if addr == 0xFF4D {
            self.double_speed = if data & 1 != 0 {
                self.double_speed | SPEED_PENDING
            } else {
                self.double_speed & !SPEED_PENDING
            };
        } else if 0xFF51 <= addr && addr <= 0xFF55 {
            self.write_hdma(addr, data);
        } else if addr == 0xFF70 {
            self.wram_bank = data;
        } else if 0xFF80 <= addr && addr <= 0xFFFE {
            self.hram.set((addr - 0xFF80) as usize, data);
        } else if addr == 0xFFFF {
            self.ppu_bus.interrupts.enable = data & INT_MASK;
        }
        // Other addresses are unmapped: the write is dropped

    }

    pub fn read_without_dma_check(&self, addr: u16, called_from_dma: bool) -> (r: u8)
        requires
            self.wf(),
        ensures
            self.unchecked_byte(addr) matches Some(v) ==> r == v,
            self.bus_held_byte(addr) matches Some(v) ==> r == v,
            is_ram_addr(addr) ==> r == ram_byte(self.cartridge.mapper, self.cartridge.ram_view(), addr),
    {
        if addr <= 0x7FFF {
            self.read_cartridge(addr)
        } else if addr <= 0x9FFF {
            self.ppu.read_vram(addr)
        } else if addr <= 0xBFFF {
            self.read_cartridge(addr)
        } else if addr <= 0xFDFF {
            self.read_ram(addr)
        } else if addr <= 0xFE9F {
            self.ppu.read_oam(addr, called_from_dma)
        } else if addr == 0xFF00 {
            self.read_joypad_reg()
        } else if addr == 0xFF01 {
            self.serial_port.get_buffer()
        } else if addr == 0xFF02 {
            self.serial_port.get_control()
        } else if 0xFF04 <= addr && addr <= 0xFF07 {
            self.timer_registers.read(addr)
        } else if addr == 0xFF0F {
            self.ppu_bus.interrupts.status | 0xE0
        } else if addr == 0xFF26 {
            // Sound is not emulated: the master control reads as off
            0x00
        } else if addr == 0xFF46 {
            self.read_oam_dma()
        } else if (0xFF40 <= addr && addr <= 0xFF45) || (0xFF47 <= addr && addr <= 0xFF4C) || (0xFF4E
            <= addr && addr <= 0xFF50) || (0xFF56 <= addr && addr <= 0xFF6F) {
            self.ppu.read(addr)
        } else if addr == 0xFF4D {
            self.double_speed
        } else if 0xFF51 <= addr && addr <= 0xFF55 {
            self.read_hdma(addr)
        } else if addr == 0xFF70 {
            self.wram_bank
        } else if 0xFF80 <= addr && addr <= 0xFFFE {
            self.hram[(addr - 0xFF80) as usize]
        } else if addr == 0xFFFF {
            self.ppu_bus.interrupts.enable | 0xE0
        } else {
            // Unmapped: open bus
            0xFF
        }
    }

    pub fn write_ram(&mut self, addr: u16, data: u8)
        requires
            old(self).wf(),
        ensures
            final(self).wf(),
            final(self).wram_bank == old(self).wram_bank,
            final(self).cgb_mode == old(self).cgb_mode,
            final(self).wram@ == old(self).wram@.update(
                wram_index(old(self).cgb_mode, old(self).wram_bank, addr),
                data,
            ),
            final(self).hram@ == old(self).hram@,
            final(self).ppu_bus == old(self).ppu_bus,
            final(self).oam_dma == old(self).oam_dma,
            final(self).ppu == old(self).ppu,
            final(self).cartridge == old(self).cartridge,
            *final(self) == (CpuBus { wram: final(self).wram, ..*old(self) }),
    {
        let i = self.ram_index(addr);
        self.wram.set(i, data);
    }

    pub fn read_ram(&self, addr: u16) -> (r: u8)
        requires
            self.wf(),
        ensures
            r == self.wram@[wram_index(self.cgb_mode, self.wram_bank, addr)],
    {
        self.wram[self.ram_index(addr)]
    }

    /// Work RAM index of an address: in colour mode the upper 4 KiB window is banked
    /// (bank 0 selects bank 1).
    pub fn ram_index(&self, addr: u16) -> (r: usize)
        ensures
            r as int == wram_index(self.cgb_mode, self.wram_bank, addr),
            r < 0x8000,
    {
        if self.cgb_mode {
            let bank: usize = if (addr / 0x1000) % 2 == 1 {
                if self.wram_bank % 8 == 0 {
                    1
                } else {
                    (self.wram_bank % 8) as usize
                }
            } else {
                0
            };
            bank * 0x1000 + (addr % 0x1000) as usize
        } else {
            (addr % 0x2000) as usize
        }
    }

    pub fn write_cartridge(&mut self, addr: u16, data: u8)
        requires
            old(self).wf(),
        ensures
            final(self).wf(),
            final(self).wram_bank == old(self).wram_bank,
            final(self).cgb_mode == old(self).cgb_mode,
            final(self).wram == old(self).wram,
            final(self).hram == old(self).hram,
            final(self).ppu_bus == old(self).ppu_bus,
            final(self).oam_dma == old(self).oam_dma,
            final(self).ppu == old(self).ppu,
    {
        self.cartridge.write(addr, data);
    }

    pub fn read_cartridge(&self, addr: u16) -> (r: u8)
        requires
            self.wf(),
        ensures
            is_ram_addr(addr) ==> r == ram_byte(self.cartridge.mapper, self.cartridge.ram_view(), addr),
            addr <= 0x7FFF ==> r == self.cartridge.rom_byte(addr),
    {
        self.cartridge.read(addr)
    }

    /// Writes an HDMA register (`0xFF51..=0xFF55`).
    pub fn write_hdma(&mut self, addr: u16, data: u8)
        requires
            old(self).wf(),
        ensures
            final(self).wf(),
            final(self).ppu == old(self).ppu,
            final(self).wram_bank == old(self).wram_bank,
            final(self).cgb_mode == old(self).cgb_mode,
            final(self).wram == old(self).wram,
            final(self).hram == old(self).hram,
            final(self).ppu_bus.interrupts == old(self).ppu_bus.interrupts,
            final(self).oam_dma == old(self).oam_dma,
            addr == 0xFF51 ==> final(self).ppu_bus.hdma.source == (old(self).ppu_bus.hdma.source % 256)
                + (data as u16) * 256,
            addr == 0xFF52 ==> final(self).ppu_bus.hdma.source == (old(self).ppu_bus.hdma.source / 256)
                * 256 + data as u16,
            addr == 0xFF53 ==> final(self).ppu_bus.hdma.destination == (
            old(self).ppu_bus.hdma.destination % 256) + (data as u16) * 256,
            addr == 0xFF54 ==> final(self).ppu_bus.hdma.destination == (
            old(self).ppu_bus.hdma.destination / 256) * 256 + data as u16,
            addr == 0xFF55 && old(self).ppu_bus.hdma.control & 0x80 == 0 && data & 0x80 == 0
                ==> final(self).ppu_bus.hdma.control == old(self).ppu_bus.hdma.control | 0x80,
    {
        if addr == 0xFF51 {
            self.ppu_bus.hdma.source = (self.ppu_bus.hdma.source % 256) + (data as u16) * 256;
        } else if addr == 0xFF52 {
            self.ppu_bus.hdma.source = (self.ppu_bus.hdma.source / 256) * 256 + data as u16;
        } else if addr == 0xFF53 {
            self.ppu_bus.hdma.destination = (self.ppu_bus.hdma.destination % 256) + (data as u16)
                * 256;
        } else if addr == 0xFF54 {
            self.ppu_bus.hdma.destination = (self.ppu_bus.hdma.destination / 256) * 256
                + data as u16;
        } else if addr == 0xFF55 {
            if self.ppu_bus.hdma.is_active() && data & 0x80 == 0 {
                // Writing with bit 7 clear during a transfer stops it
                self.ppu_bus.hdma.control = self.ppu_bus.hdma.control | 0x80;
            } else {
                self.ppu_bus.hdma.start(data);
            }
        }
    }

    /// Reads an HDMA register (`0xFF51..=0xFF55`).
    pub fn read_hdma(&self, addr: u16) -> (r: u8)
        ensures
            addr == 0xFF51 ==> r == self.ppu_bus.hdma.source / 256,
            addr == 0xFF52 ==> r == self.ppu_bus.hdma.source % 256,
            addr == 0xFF53 ==> r == self.ppu_bus.hdma.destination / 256,
            addr == 0xFF54 ==> r == self.ppu_bus.hdma.destination % 256,
            addr == 0xFF55 ==> r == self.ppu_bus.hdma.control,
            !(0xFF51 <= addr <= 0xFF55) ==> r == 0xFF,
    {
        if addr == 0xFF51 {
            (self.ppu_bus.hdma.source / 256) as u8
        } else if addr == 0xFF52 {
            (self.ppu_bus.hdma.source % 256) as u8
        } else if addr == 0xFF53 {
            (self.ppu_bus.hdma.destination / 256) as u8
        } else if addr == 0xFF54 {
            (self.ppu_bus.hdma.destination % 256) as u8
        } else if addr == 0xFF55 {
            self.ppu_bus.hdma.control
        } else {
            0xFF
        }
    }

    /// Selects the joypad group(s) to read: only the two select bits are kept.
    pub fn write_joypad_reg(&mut self, data: u8)
        requires
            old(self).wf(),
        ensures
            final(self).wf(),
            *final(self) == (CpuBus { joypad_register: data & 0x30, ..*old(self) }),
    {
        self.joypad_register = data & 0x30;
    }

    /// The joypad register: the select bits, and in the low nibble the pressed buttons of
    /// the selected groups as they are now, active-low.
    pub fn read_joypad_reg(&self) -> (r: u8)
        ensures
            r == joypad_value(self.joypad_state, self.joypad_register),
    {
        let state = self.joypad_state;
        let select = self.joypad_register;
        let dpad: u8 = if select & 0x10 == 0 {
            state & 0x0F
        } else {
            0
        };
        let buttons: u8 = if select & 0x20 == 0 {
            (state & 0xF0) >> 4u8
        } else {
            0
        };
        // Buttons are active-low
        (!(dpad | buttons) & 0x0F) | (select & 0x30)
    }

    /// STOP with a switch armed: toggles double speed and disarms.
    pub fn toggle_double_speed(&mut self)
        requires
            old(self).wf(),
        ensures
            final(self).wf(),
            final(self).ppu == old(self).ppu,
            final(self).timer_registers == old(self).timer_registers,
            old(self).double_speed & SPEED_PENDING != 0 ==> final(self).double_speed == (
            old(self).double_speed ^ SPEED_ENABLED) & !SPEED_PENDING,
            old(self).double_speed & SPEED_PENDING == 0 ==> final(self).double_speed
                == old(self).double_speed,
            final(self).wram == old(self).wram,
            final(self).hram == old(self).hram,
            final(self).ppu_bus == old(self).ppu_bus,
            final(self).oam_dma == old(self).oam_dma,
    {
        if self.double_speed & SPEED_PENDING != 0 {
            self.double_speed = (self.double_speed ^ SPEED_ENABLED) & !SPEED_PENDING;
        }
    }

    /// Starts an OAM DMA from page `source`; pages 0xE0-0xFF mirror 0xC0-0xDF.
    pub fn request_oam_dma(&mut self, source: u8)
        requires
            old(self).wf(),
        ensures
            final(self).wf(),
            final(self).wram_bank == old(self).wram_bank,
            final(self).cgb_mode == old(self).cgb_mode,
            final(self).oam_dma == (OamDma {
                source: if source >= 0xE0 {
                    (source - 0x20) as u8
                } else {
                    source
                },
                cycle: Some(0u8),
            }),
            final(self).wram == old(self).wram,
            final(self).hram == old(self).hram,
            final(self).ppu_bus == old(self).ppu_bus,
            final(self).ppu == old(self).ppu,
    {
        let page = if source >= 0xE0 {
            source - 0x20
        } else {
            source
        };
        self.oam_dma = OamDma::new(page);
    }

    pub fn read_oam_dma(&self) -> (r: u8)
        ensures
            r == self.oam_dma.source,
    {
        self.oam_dma.source
    }

    pub fn get_oam_dma(&self) -> (r: OamDma)
        ensures
            r == self.oam_dma,
    {
        self.oam_dma
    }

    pub fn get_hdma(&self) -> (r: HDma)
        ensures
            r == self.ppu_bus.hdma,
    {
        self.ppu_bus.hdma
    }

    pub fn get_cgb_mode(&self) -> (r: bool)
        ensures
            r == self.cgb_mode,
    {
        self.cgb_mode
    }

    pub fn get_double_speed_mode(&self) -> (r: u8)
        ensures
            r == self.double_speed,
    {
        self.double_speed
    }

    pub fn set_oam_dma(&mut self, oam_dma: OamDma)
        requires
            old(self).wf(),
        ensures
            final(self).wf(),
            final(self).oam_dma == oam_dma,
            final(self).wram == old(self).wram,
            final(self).hram == old(self).hram,
            final(self).ppu_bus == old(self).ppu_bus,
            final(self).ppu == old(self).ppu,
    {
        self.oam_dma = oam_dma;
    }

    pub fn set_hdma(&mut self, hdma: HDma)
        requires
            old(self).wf(),
        ensures
            final(self).wf(),
            final(self).ppu_bus.hdma == hdma,
            final(self).ppu_bus.interrupts == old(self).ppu_bus.interrupts,
            final(self).oam_dma == old(self).oam_dma,
    {
        self.ppu_bus.hdma = hdma;
    }

    /// Raises the request bits of `interrupt`.
    pub fn request_interrupt(&mut self, interrupt: u8)
        requires
            old(self).wf(),
        ensures
            final(self).wf(),
            final(self).ppu == old(self).ppu,
            final(self).cartridge == old(self).cartridge,
            final(self).timer_registers == old(self).timer_registers,
            final(self).wram_bank == old(self).wram_bank,
            final(self).cgb_mode == old(self).cgb_mode,
            final(self).interrupts().status == old(self).interrupts().status | (interrupt & INT_MASK),
            final(self).interrupts().enable == old(self).interrupts().enable,
            final(self).wram == old(self).wram,
            final(self).hram == old(self).hram,
            final(self).oam_dma == old(self).oam_dma,
            final(self).ppu_bus.hdma == old(self).ppu_bus.hdma,
    {
        self.ppu_bus.request_interrupt(interrupt);
    }


    /// Runs the HDMA engine for one machine cycle: a general-purpose transfer copies all its
    /// blocks at once, an HBlank transfer copies one 16-byte block per open HBlank window.
    /// The length register counts blocks down; it reads 0xFF once the transfer is done.
    pub fn run_hdma(&mut self)
        requires
            old(self).wf(),
        ensures
            final(self).wf(),
            old(self).ppu.timing_kept(final(self).ppu),
            final(self).cartridge == old(self).cartridge,
            final(self).timer_registers == old(self).timer_registers,
            final(self).wram_bank == old(self).wram_bank,
            final(self).cgb_mode == old(self).cgb_mode,
            final(self).ppu_bus.interrupts == old(self).ppu_bus.interrupts,
            final(self).oam_dma == old(self).oam_dma,
            final(self).wram == old(self).wram,
            final(self).hram == old(self).hram,
            !old(self).ppu_bus.hdma.is_currently_in_hdma_spec() ==> final(self).ppu_bus.hdma
                == old(self).ppu_bus.hdma,
            old(self).ppu_bus.hdma.is_currently_in_hdma_spec() && old(self).ppu_bus.hdma.hblank_mode
                ==> {
                &&& !final(self).ppu_bus.hdma.hblank_latch
                &&& final(self).ppu_bus.hdma.control == if old(self).ppu_bus.hdma.control == 0 {
                    0xFFu8
                } else {
                    (old(self).ppu_bus.hdma.control - 1) as u8
                }
            },
            old(self).ppu_bus.hdma.is_currently_in_hdma_spec() && !old(self).ppu_bus.hdma.hblank_mode
                ==> final(self).ppu_bus.hdma.control == 0xFF,
    {
        if !self.ppu_bus.hdma.is_currently_in_hdma() {
            return;
        }
        let hblank_mode = self.ppu_bus.hdma.hblank_mode;
        let mut blocks: u16 = if hblank_mode {
            1
        } else {
            (self.ppu_bus.hdma.control % 0x80) as u16 + 1
        };
        while blocks > 0
            invariant
                self.wf(),
                self.ppu_bus.interrupts == old(self).ppu_bus.interrupts,
                self.ppu_bus.hdma.hblank_mode == hblank_mode,
                self.ppu_bus.hdma.control == old(self).ppu_bus.hdma.control,
                self.oam_dma == old(self).oam_dma,
                self.wram_bank == old(self).wram_bank,
                self.cgb_mode == old(self).cgb_mode,
                old(self).ppu.timing_kept(self.ppu),
                self.timer_registers == old(self).timer_registers,
                self.cartridge == old(self).cartridge,
                self.wram == old(self).wram,
                self.hram == old(self).hram,
                hblank_mode ==> blocks <= 1 && (blocks == 1 ==> self.ppu_bus.hdma
                    == old(self).ppu_bus.hdma),
                !hblank_mode ==> blocks <= 0x80,
            decreases blocks,
        {
            self.copy_hdma_block();
            blocks = blocks - 1;
        }
        self.ppu_bus.hdma.hblank_latch = false;
        let control = self.ppu_bus.hdma.control;
        self.ppu_bus.hdma.control = if hblank_mode && control % 0x80 != 0 {
            control % 0x80 - 1
        } else {
            0xFF
        };
        proof {
            let c = old(self).ppu_bus.hdma.control;
            assert(c & 0x80 == 0 ==> c % 0x80 == c) by (bit_vector);
        }
    }

    /// Copies one 16-byte block from the HDMA source to VRAM and advances both addresses.
    pub fn copy_hdma_block(&mut self)
        requires
            old(self).wf(),
        ensures
            final(self).wf(),
            old(self).ppu.timing_kept(final(self).ppu),
            final(self).cartridge == old(self).cartridge,
            final(self).timer_registers == old(self).timer_registers,
            final(self).wram_bank == old(self).wram_bank,
            final(self).cgb_mode == old(self).cgb_mode,
            final(self).ppu_bus.interrupts == old(self).ppu_bus.interrupts,
            final(self).ppu_bus.hdma.control == old(self).ppu_bus.hdma.control,
            final(self).ppu_bus.hdma.hblank_mode == old(self).ppu_bus.hdma.hblank_mode,
            final(self).oam_dma == old(self).oam_dma,
            final(self).wram == old(self).wram,
            final(self).hram == old(self).hram,
            final(self).ppu_bus.hdma.source == ((old(self).ppu_bus.hdma.source / 16 * 16 + 16) % 0x10000)
                as u16,
            final(self).ppu_bus.hdma.destination == (0x8000 + (old(self).ppu_bus.hdma.destination
                % 0x2000 / 16 * 16 + 16) % 0x2000) as u16,
            forall|k: int|
                0 <= k < 16 ==> #[trigger] hdma_byte_copied(
                    *old(self),
                    final(self).ppu.vram@,
                    old(self).ppu_bus.hdma.source / 16 * 16,
                    old(self).ppu_bus.hdma.destination % 0x2000 / 16 * 16,
                    k,
                ),
    {
        let source = self.ppu_bus.hdma.source / 16 * 16;
        let destination = self.ppu_bus.hdma.destination % 0x2000 / 16 * 16;
        let mut i: u16 = 0;
        while i < 16
            invariant
                self.wf(),
                self.ppu_bus == old(self).ppu_bus,
                self.oam_dma == old(self).oam_dma,
                self.wram_bank == old(self).wram_bank,
                self.cgb_mode == old(self).cgb_mode,
                old(self).ppu.timing_kept(self.ppu),
                self.timer_registers == old(self).timer_registers,
                self.cartridge == old(self).cartridge,
                self.wram == old(self).wram,
                self.hram == old(self).hram,
                destination < 0x2000,
                destination % 16 == 0,
                source % 16 == 0,
                source == old(self).ppu_bus.hdma.source / 16 * 16,
                destination == old(self).ppu_bus.hdma.destination % 0x2000 / 16 * 16,
                i <= 16,
                self.ppu.cgb_mode == old(self).ppu.cgb_mode,
                self.ppu.vram_bank_register == old(self).ppu.vram_bank_register,
                self.joypad_register == old(self).joypad_register,
                self.joypad_state == old(self).joypad_state,
                self.cartridge == old(self).cartridge,
                self.double_speed == old(self).double_speed,
                forall|k: int|
                    0 <= k < i ==> #[trigger] hdma_byte_copied(
                        *old(self),
                        self.ppu.vram@,
                        source as int,
                        destination as int,
                        k,
                    ),
            decreases 16 - i,
        {
            let a = source.wrapping_add(i);
            let b = self.read_without_dma_check(a, true);
            proof {
                assert(self.bus_held_byte(a) == old(self).bus_held_byte(a));
            }
            let ghost prev = self.ppu.vram@;
            self.ppu.write_vram(0x8000 + (destination + i) % 0x2000, b);
            proof {
                assert forall|k: int| 0 <= k < i + 1 implies #[trigger] hdma_byte_copied(
                    *old(self),
                    self.ppu.vram@,
                    source as int,
                    destination as int,
                    k,
                ) by {
                    if k < i {
                        assert(hdma_byte_copied(*old(self), prev, source as int, destination as int, k));
                        let dk = (0x8000 + (destination + k) % 0x2000) as u16;
                        let di = (0x8000 + (destination + i) % 0x2000) as u16;
                        assert(old(self).ppu.banked_index(dk) != old(self).ppu.banked_index(di));
                    }
                }
            }
            i = i + 1;
        }
        self.ppu_bus.hdma.source = source.wrapping_add(16);
        self.ppu_bus.hdma.destination = 0x8000 + (destination + 16) % 0x2000;
    }

    /// The cartridge's current ROM bank, for debugging.
    pub fn get_cartridge_rom_bank(&self) -> (r: u8) {
        self.cartridge.mapper.get_rom_bank()
    }

    /// The cartridge's current RAM bank, for debugging.
    pub fn get_cartridge_ram_bank(&self) -> (r: u8) {
        self.cartridge.mapper.get_ram_bank()
    }

    /// Whether an OAM DMA from page `source` blocks CPU access to `addr`: ROM and cartridge
    /// RAM share one bus, work RAM has its own, and VRAM is always the destination.
    pub fn check_oam_dma_bus_conflict(source: u8, addr: u16) -> (r: bool)
        ensures
            r == dma_conflict(source, addr),
    {
        if (source <= 0x7F || (0xA0 <= source && source <= 0xBF)) && (addr <= 0x7FFF || (0xA000
            <= addr && addr <= 0xBFFF)) {
            true
        } else if (0xC0 <= source && source <= 0xFD) && (0xC000 <= addr && addr <= 0xFDFF) {
            true
        } else {
            0x8000 <= addr && addr <= 0x9FFF
        }
    }

}

} // verus!
