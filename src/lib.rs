//! Cycle-level emulation core for an 8-bit handheld console (DMG / CGB class): processor,
//! bus arbitration with DMA, pixel-pipeline video, cartridge bank controllers, timer,
//! interrupt controller and serial link.

pub mod bus;
pub mod cartridge;
pub mod cpu;
pub mod debugger;
pub mod decoder;
pub mod dma;
pub mod fifo;
pub mod header;
pub mod inputs;
pub mod interrupt;
pub mod mappers;
pub mod ppu;
pub mod serial;
pub mod timer;

use vstd::prelude::*;

use crate::bus::{CpuBus, SPEED_ENABLED, SPEED_UNUSED};
use crate::cartridge::{is_supported_type_code, Cartridge};
use crate::cpu::Cpu;
use crate::dma::{HDma, OamDma};
use crate::header::{header_checksum_of, is_known_type_code, RomParserError};
use crate::interrupt::InterruptState;
use crate::serial::{SerialPort, SerialTransport};
use crate::timer::TimerRegisters;

verus! {

/// Joypad button bits of `set_joypad` (bit set = pressed).
pub const JOYPAD_START: u8 = 0x80;

pub const JOYPAD_SELECT: u8 = 0x40;

pub const JOYPAD_B: u8 = 0x20;

pub const JOYPAD_A: u8 = 0x10;

pub const JOYPAD_DOWN: u8 = 0x08;

pub const JOYPAD_UP: u8 = 0x04;

pub const JOYPAD_LEFT: u8 = 0x02;

pub const JOYPAD_RIGHT: u8 = 0x01;

/// The whole console: processor, bus with every subsystem, and the master clock divider.
pub struct Emulator {
    pub cpu: Cpu,
    pub bus: CpuBus,
    pub clock_count: u8,
}

impl Emulator {
    pub open spec fn wf(&self) -> bool {
        &&& self.cpu.wf()
        &&& self.bus.wf()
        &&& self.clock_count < 4
    }

    /// Builds a console for a ROM image, with optional save data for its RAM.
    pub fn new(rom: &[u8], save_data: Option<&[u8]>) -> (r: Result<Emulator, RomParserError>)
        ensures
            rom@.len() < 0x150 ==> r == Err::<Emulator, RomParserError>(RomParserError::TooShort),
            rom@.len() >= 0x150 && header_checksum_of(rom@.subrange(0x100, 0x150)) != rom@[0x14D] as int
                ==> r == Err::<Emulator, RomParserError>(RomParserError::InvalidChecksum),
            rom@.len() >= 0x150 && header_checksum_of(rom@.subrange(0x100, 0x150)) == rom@[0x14D] as int
                && !is_known_type_code(rom@[0x147]) ==> r == Err::<Emulator, RomParserError>(
                RomParserError::UnknownMapper),
            rom@.len() >= 0x150 && header_checksum_of(rom@.subrange(0x100, 0x150)) == rom@[0x14D] as int
                && is_known_type_code(rom@[0x147]) && !is_supported_type_code(rom@[0x147])
                ==> r == Err::<Emulator, RomParserError>(RomParserError::MapperNotImplemented),
            rom@.len() >= 0x150 && header_checksum_of(rom@.subrange(0x100, 0x150)) == rom@[0x14D] as int
                && is_supported_type_code(rom@[0x147]) ==> r is Ok,
            r matches Ok(e) ==> {
                &&& e.wf()
                &&& e.bus.cartridge.rom@ == rom@
                &&& e.cpu.pc == 0x0100
                &&& e.bus.ppu.y == 0 && e.bus.ppu.cycle == 0 && e.bus.ppu.paused_cycles == 0
                &&& e.bus.ppu.lcd_control_reg == 0
                &&& e.clock_count == 0
            },
    {
        let cartridge = match Cartridge::load(rom, save_data) {
            Ok(c) => c,
            Err(e) => {
                return Err(e);
            },
        };
        let cgb_mode = cartridge.is_cgb();
        let ppu = ppu::Ppu::new(cgb_mode);
        let bus = CpuBus::borrow(
            vec![0u8; 0x8000],
            0xFF,
            vec![0u8; 0x7F],
            InterruptState::new(),
            SPEED_UNUSED,
            OamDma::idle(),
            HDma::new(),
            TimerRegisters::new(),
            cartridge,
            ppu,
            cgb_mode,
            SerialPort::new(),
            0,
            0,
        );
        Ok(Emulator { cpu: Cpu::new(), bus, clock_count: 0 })
    }

    /// Advances every subsystem by one master-clock pulse: the video controller each pulse,
    /// the processor every 4 pulses (every 2 in double speed). Returns the finished frame
    /// when the video controller is back at the start of a frame.
    pub fn clock(&mut self) -> (r: Option<Vec<u8>>)
        requires
            old(self).wf(),
        ensures
            final(self).wf(),
            final(self).clock_count == (old(self).clock_count + 1) % 4,
            r is Some <==> final(self).bus.ppu.frame_ready(),
            // The video controller advances one dot on every pulse; a processor write that turns
            // the display off can only bring it back to the start of the frame
            old(self).bus.ppu.enabled() ==> final(self).bus.ppu.dot_index() == (
            old(self).bus.ppu.dot_index() + 1) % ppu::DOTS_PER_FRAME as int || (final(self).bus.ppu.y
                == 0 && final(self).bus.ppu.cycle == 0),
            !old(self).bus.ppu.enabled() ==> final(self).bus.ppu.paused_cycles == (
            old(self).bus.ppu.paused_cycles + 1) % ppu::DOTS_PER_FRAME as int,
            // On pulses where the processor does not run, the video controller advances one dot
            !((old(self).bus.double_speed & SPEED_ENABLED != 0 && old(self).clock_count + 1 == 2)
                || old(self).clock_count + 1 == 4) ==> {
                &&& final(self).bus.ppu.lcd_control_reg == old(self).bus.ppu.lcd_control_reg
                &&& (old(self).bus.ppu.enabled() ==> final(self).bus.ppu.dot_index() == (old(
                    self,
                ).bus.ppu.dot_index() + 1) % ppu::DOTS_PER_FRAME as int)
                &&& (!old(self).bus.ppu.enabled() ==> final(self).bus.ppu.paused_cycles == (old(
                    self,
                ).bus.ppu.paused_cycles + 1) % ppu::DOTS_PER_FRAME as int)
            },
            r matches Some(f) ==> f@.len() == ppu::FRAME_BYTES,
    {
        self.clock_count = self.clock_count + 1;
        self.bus.ppu.clock(&mut self.bus.ppu_bus);
        let double_speed = self.bus.double_speed & SPEED_ENABLED != 0;
        if (double_speed && self.clock_count == 2) || self.clock_count == 4 {
            self.cpu.clock(&mut self.bus);
            if self.clock_count == 4 {
                self.clock_count = 0;
            }
        }
        self.bus.ppu.ready_frame()
    }

    /// Connects the serial port to a link-cable transport.
    pub fn set_serial(&mut self, serial: Box<dyn SerialTransport>)
        requires
            old(self).wf(),
        ensures
            final(self).wf(),
    {
        self.bus.serial_port.set_serial(serial);
    }

    /// Sets the pressed buttons (`JOYPAD_*` bits).
    pub fn set_joypad(&mut self, state: u8)
        requires
            old(self).wf(),
        ensures
            final(self).wf(),
            final(self).bus.joypad_state == state,
    {
        self.bus.joypad_state = state;
    }

    /// Cartridge RAM, for persisting it; `None` when the cartridge has none.
    pub fn get_save_data(&self) -> (r: Option<&[u8]>)
        ensures
            self.bus.cartridge.ram is None <==> r is None,
            r matches Some(s) ==> self.bus.cartridge.ram_view() == Some(s@),
    {
        self.bus.cartridge.get_save_data()
    }

    /// The bytes that the processor would read at `start..=end`.
    pub fn mem_dump(&self, start: u16, end: u16) -> (r: Vec<u8>)
        requires
            self.wf(),
        ensures
            start <= end ==> r@.len() == end - start + 1,
            start > end ==> r@.len() == 0,
    {
        let mut data: Vec<u8> = Vec::new();
        if start > end {
            return data;
        }
        let mut addr: u32 = start as u32;
        while addr <= end as u32
            invariant
                self.wf(),
                start as u32 <= addr <= end as u32 + 1,
                data@.len() == addr - start,
            decreases end as u32 + 1 - addr,
        {
            data.push(self.bus.read(addr as u16));
            addr = addr + 1;
        }
        data
    }

    /// A listing of the whole address space.
    pub fn disassemble(&self, start: u16, end: u16) -> (r: Vec<debugger::Disassembled>)
        requires
            self.wf(),
        ensures
            r@.len() > 0,
    {
        debugger::disassemble(&self.bus)
    }

    /// The processor state.
    pub fn cpu(&self) -> (r: &Cpu)
        ensures
            *r == self.cpu,
    {
        &self.cpu
    }
}

} // verus!
