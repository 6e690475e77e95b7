use vstd::prelude::*;

verus! {

/// OAM DMA: copies 160 bytes from page `source` into object memory, one byte per machine cycle.
#[derive(Clone, Copy, Debug, PartialEq, Eq, Structural)]
pub struct OamDma {
    pub cycle: Option<u8>,
    pub source: u8,
}

impl OamDma {
    /// A transfer from page `source`, starting at its first byte.
    pub fn new(source: u8) -> (r: Self)
        ensures
            r.source == source,
            r.cycle == Some(0u8),
    {
        OamDma { source, cycle: Some(0) }
    }

    /// No transfer in progress.
    pub fn idle() -> (r: Self)
        ensures
            r.cycle is None,
            r.source == 0,
    {
        OamDma { source: 0, cycle: None }
    }
}

/// HDMA (CGB): general-purpose or HBlank-paced copies into VRAM.
#[derive(Clone, Copy, Debug, PartialEq, Eq, Structural)]
pub struct HDma {
    pub source: u16,
    pub destination: u16,
    pub control: u8,
    pub hblank_mode: bool,
    pub cycle: u8,
    pub hblank_latch: bool,
}

impl HDma {
    /// The state after reset: inactive, with all registers set.
    pub fn new() -> (r: Self)
        ensures
            r.source == 0xFFFF && r.destination == 0xFFFF && r.control == 0xFF,
            r.cycle == 0 && !r.hblank_mode && !r.hblank_latch,
    {
        HDma {
            source: 0xFFFF,
            destination: 0xFFFF,
            control: 0xFF,
            cycle: 0,
            hblank_mode: false,
            hblank_latch: false,
        }
    }

    /// Starts a transfer: bit 7 selects HBlank mode, the low 7 bits hold the length.
    pub fn start(&mut self, data: u8)
        ensures
            *final(self) == (HDma {
                hblank_mode: data & 0x80 == 0x80,
                control: data & 0x7F,
                cycle: 0,
                hblank_latch: false,
                ..*old(self)
            }),
    {
        self.reset();
        self.hblank_mode = data & 0x80 == 0x80;
        self.control = data & 0x7F;
    }

    pub open spec fn is_currently_in_hdma_spec(&self) -> bool {
        self.control & 0x80 == 0 && (!self.hblank_mode || self.hblank_latch)
    }

    /// Whether a block is to be copied right now.
    pub fn is_currently_in_hdma(&self) -> (r: bool)
        ensures
            r == self.is_currently_in_hdma_spec(),
    {
        self.is_active() && (!self.hblank_mode || self.hblank_latch)
    }

    /// Whether a transfer is in progress (bit 7 of control clear).
    pub fn is_active(&self) -> (r: bool)
        ensures
            r == (self.control & 0x80 == 0),
    {
        self.control & 0x80 == 0
    }

    pub fn reset(&mut self)
        ensures
            *final(self) == (HDma { cycle: 0, hblank_latch: false, ..*old(self) }),
    {
        self.cycle = 0;
        self.hblank_latch = false;
    }
}

} // verus!
