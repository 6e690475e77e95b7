use vstd::prelude::*;

use crate::bus::PpuBus;
use crate::fifo::{
    drain_view, load_view, CgbPalette, DrawingState, FifoMode, OamScanState, PixelFetcherState,
    PixelFifo,
};
use crate::interrupt::{INT_LCD_STAT, INT_VBLANK};

verus! {

pub const FRAME_WIDTH: usize = 160;

pub const FRAME_HEIGHT: usize = 144;

/// Bytes of one RGBA frame.
pub const FRAME_BYTES: usize = 92160;

/// Dots per scanline.
pub const DOTS_PER_LINE: u16 = 456;

/// Scanlines per frame, vertical blank included.
pub const LINES_PER_FRAME: u8 = 154;

/// Dots per frame.
pub const DOTS_PER_FRAME: u32 = 70224;

pub const LCDC_BG_WINDOW_ENABLE_PRIORITY: u8 = 0x01;

pub const LCDC_OBJ_ENABLE: u8 = 0x02;

pub const LCDC_OBJ_SIZE: u8 = 0x04;

pub const LCDC_BG_TILE_MAP_AREA: u8 = 0x08;

pub const LCDC_BG_WINDOW_TILE_DATA_AREA: u8 = 0x10;

pub const LCDC_WINDOW_ENABLE: u8 = 0x20;

pub const LCDC_WINDOW_TILE_MAP_AREA: u8 = 0x40;

pub const LCDC_LCD_PPU_ENABLE: u8 = 0x80;

pub const STAT_LYC_EQ_LC: u8 = 0x04;

pub const STAT_HBLANK_INTERRUPT_SOURCE: u8 = 0x08;

pub const STAT_VBLANK_INTERRUPT_SOURCE: u8 = 0x10;

pub const STAT_OAM_INTERRUPT_SOURCE: u8 = 0x20;

pub const STAT_LYC_EQ_LC_INTERRUPT_SOURCE: u8 = 0x40;

/// The video controller: a per-dot state machine that draws one 160x144 RGBA frame per
/// 70,224 dots.
pub struct Ppu {
    pub cgb_mode: bool,
    pub x: u8,
    pub y: u8,
    pub window_y_counter: u8,
    pub window_y_flag: bool,
    pub y_compare: u8,
    pub window_x: u8,
    pub window_y: u8,
    pub scroll_x: u8,
    pub scroll_y: u8,
    pub vram: Vec<u8>,
    pub vram_bank_register: bool,
    pub oam: Vec<u8>,
    pub secondary_oam: Vec<u8>,
    pub cgb_bg_palette: CgbPalette,
    pub cgb_obj_palette: CgbPalette,
    pub dmg_bg_palette: u8,
    pub dmg_obj_palette: [u8; 2],
    pub dmg_colorized_bg_palette: [[u8; 3]; 4],
    pub dmg_colorized_obj_palette: [[[u8; 3]; 4]; 2],
    pub lcd_control_reg: u8,
    pub lcd_status_reg: u8,
    pub background_pixel_pipeline: PixelFifo,
    pub sprite_pixel_pipeline: PixelFifo,
    pub cycle: u16,
    pub paused_cycles: u32,
    pub fifo_mode: FifoMode,
    pub frame: Vec<u8>,
}

/// Requesting the LCD status interrupt leaves a pending vertical blank request in place.
pub proof fn lemma_request_keeps_vblank(status: u8)
    ensures
        status & INT_VBLANK == INT_VBLANK ==> (status | (INT_LCD_STAT & 0x1F)) & INT_VBLANK
            == INT_VBLANK,
{
    assert(status & 0x01u8 == 0x01u8 ==> (status | (0x02u8 & 0x1Fu8)) & 0x01u8 == 0x01u8) by (bit_vector);
}

/// With the display on, a frame is ready exactly at dot 0 of the frame; since each clock
/// advances the dot index by one modulo 70,224, frames come out every 70,224 dots.
pub proof fn lemma_frame_ready_at_dot_zero(p: Ppu)
    requires
        p.wf(),
        p.enabled(),
    ensures
        p.frame_ready() <==> p.dot_index() == 0,
        0 <= p.dot_index() < DOTS_PER_FRAME,
{
}

/// The row that the Push step hands to a FIFO: the fetched pixels, mirrored when the
/// attribute's X-flip bit is set, each tagged with the attributes (and, for a sprite, its slot).
pub open spec fn pushed_row(state: DrawingState) -> Seq<u16> {
    let tag: u16 = if state.is_sprite {
        (state.tile_attr as int + (state.sprite_idx / 4) as int * 4096) as u16
    } else {
        state.tile_attr as u16
    };
    Seq::new(
        8,
        |i: int|
            (if state.tile_attr & 0x20 != 0 {
                state.buffer@[7 - i]
            } else {
                state.buffer@[i]
            }) | tag,
    )
}

/// Frame cadence: with the display on, if `later` is `k` dots after `start` (each clock
/// advances the dot index by one modulo 70,224) and `start` is at the frame start, a frame
/// is ready at `later` exactly when `k` is a multiple of 70,224.
pub proof fn lemma_frame_cadence(start: Ppu, later: Ppu, k: nat)
    requires
        start.wf(),
        later.wf(),
        start.enabled(),
        later.enabled(),
        start.frame_ready(),
        later.dot_index() == (start.dot_index() + k) % DOTS_PER_FRAME as int,
    ensures
        later.frame_ready() <==> (k as int) % (DOTS_PER_FRAME as int) == 0,
{
}

/// The grey ramp used to colour monochrome output.
pub fn grey_palette() -> (r: [[u8; 3]; 4]) {
    [[0xFF, 0xFF, 0xFF], [0xAA, 0xAA, 0xAA], [0x55, 0x55, 0x55], [0x00, 0x00, 0x00]]
}

/// A blank frame (all bytes 0xFF).
pub fn allocate_new_frame() -> (r: Vec<u8>)
    ensures
        r@.len() == FRAME_BYTES,
        forall|i: int| 0 <= i < FRAME_BYTES ==> r@[i] == 0xFF,
{
    let mut r: Vec<u8> = Vec::with_capacity(FRAME_BYTES);
    let mut i: usize = 0;
    while i < FRAME_BYTES
        invariant
            i <= FRAME_BYTES,
            r@.len() == i,
            forall|j: int| 0 <= j < i ==> r@[j] == 0xFF,
        decreases FRAME_BYTES - i,
    {
        r.push(0xFF);
        i = i + 1;
    }
    r
}

impl Ppu {
    pub open spec fn wf(&self) -> bool {
        &&& self.vram@.len() == 0x4000
        &&& self.oam@.len() == 0xA0
        &&& self.secondary_oam@.len() == 40
        &&& self.frame@.len() == FRAME_BYTES
        &&& self.cgb_bg_palette.wf()
        &&& self.cgb_obj_palette.wf()
        &&& self.background_pixel_pipeline.wf()
        &&& self.sprite_pixel_pipeline.wf()
        &&& self.cycle < DOTS_PER_LINE
        &&& self.y < LINES_PER_FRAME
        &&& self.x <= 160
        &&& self.paused_cycles < DOTS_PER_FRAME
    }

    /// Whether `later` keeps this controller's position in the frame, or is back at its
    /// start (the display was turned off); the paused-dot count is kept either way.
    pub open spec fn timing_kept(&self, later: Ppu) -> bool {
        &&& later.paused_cycles == self.paused_cycles
        &&& ((later.y == self.y && later.cycle == self.cycle) || (later.y == 0 && later.cycle == 0))
    }

    pub open spec fn enabled(&self) -> bool {
        self.lcd_control_reg & LCDC_LCD_PPU_ENABLE != 0
    }

    /// Position of the current dot within the frame.
    pub open spec fn dot_index(&self) -> int {
        self.y as int * DOTS_PER_LINE as int + self.cycle as int
    }

    /// Whether a completed frame is ready to be handed out.
    pub open spec fn frame_ready(&self) -> bool {
        if self.enabled() {
            self.y == 0 && self.cycle == 0
        } else {
            self.paused_cycles == 0
        }
    }

    pub fn new(cgb_mode: bool) -> (r: Self)
        ensures
            r.wf(),
            r.cgb_mode == cgb_mode,
            r.y == 0 && r.cycle == 0 && r.paused_cycles == 0 && r.x == 0,
            r.lcd_control_reg == 0,
    {
        Ppu {
            cgb_mode,
            x: 0,
            y: 0,
            window_y_counter: 0,
            window_y_flag: false,
            y_compare: 0,
            window_x: 0,
            window_y: 0,
            scroll_x: 0,
            scroll_y: 0,
            vram: vec![0u8; 0x4000],
            vram_bank_register: false,
            oam: vec![0u8; 0xA0],
            secondary_oam: vec![0u8; 40],
            // The boot ROM leaves colour palettes white
            cgb_bg_palette: CgbPalette::new(0xFF),
            cgb_obj_palette: CgbPalette::new(0xFF),
            dmg_bg_palette: 0,
            dmg_obj_palette: [0u8; 2],
            dmg_colorized_bg_palette: grey_palette(),
            dmg_colorized_obj_palette: [grey_palette(), grey_palette()],
            lcd_control_reg: 0,
            lcd_status_reg: 0,
            background_pixel_pipeline: PixelFifo::new(),
            sprite_pixel_pipeline: PixelFifo::new(),
            cycle: 0,
            paused_cycles: 0,
            fifo_mode: FifoMode::OamScan(OamScanState::new()),
            frame: allocate_new_frame(),
        }
    }

    /// Advances the controller by one dot.
    pub fn clock(&mut self, bus: &mut PpuBus)
        requires
            old(self).wf(),
        ensures
            final(self).wf(),
            final(self).lcd_control_reg == old(self).lcd_control_reg,
            old(self).enabled() ==> final(self).dot_index() == (old(self).dot_index() + 1)
                % DOTS_PER_FRAME as int,
            old(self).enabled() ==> final(self).paused_cycles == old(self).paused_cycles,
            !old(self).enabled() ==> final(self).paused_cycles == (old(self).paused_cycles + 1)
                % DOTS_PER_FRAME as int,
            !old(self).enabled() ==> final(self).dot_index() == old(self).dot_index(),
            old(self).enabled() && old(self).cycle == DOTS_PER_LINE - 1 && old(self).y == 143
                ==> final(bus).interrupts.status & INT_VBLANK == INT_VBLANK,
    {
        if self.lcd_control_reg & LCDC_LCD_PPU_ENABLE == 0 {
            // Disabled: keep counting so that frames still come out
            self.paused_cycles = self.paused_cycles + 1;
            if self.paused_cycles >= DOTS_PER_FRAME {
                self.paused_cycles = 0;
            }
            return;
        }
        self.cycle = self.cycle + 1;
        if self.y < 144 && self.cycle == 80 {
            self.fifo_mode = FifoMode::Drawing(DrawingState::new());
        }
        if self.cycle >= DOTS_PER_LINE {
            self.cycle = 0;
            self.x = 0;
            self.y = self.y + 1;
            // The HBlank window of HDMA closes with the line
            bus.set_hdma_hblank(false);
            if self.y >= 144 && self.y <= 153 {
                self.fifo_mode = FifoMode::VBlank;
                if self.y == 144 {
                    let ghost status = bus.interrupts.status;
                    bus.request_interrupt(INT_VBLANK);
                    proof {
                        assert((status | (INT_VBLANK & 0x1F)) & INT_VBLANK == INT_VBLANK)
                            by (bit_vector);
                    }
                    if self.lcd_status_reg & STAT_VBLANK_INTERRUPT_SOURCE != 0 {
                        let ghost status = bus.interrupts.status;
                        bus.request_interrupt(INT_LCD_STAT);
                        proof {
                            lemma_request_keeps_vblank(status);
                        }
                    }
                }
            } else {
                if self.y == LINES_PER_FRAME {
                    // End of the frame
                    self.y = 0;
                    self.window_y_counter = 0;
                    self.window_y_flag = false;
                }
                self.fifo_mode = FifoMode::OamScan(OamScanState::new());
                if self.lcd_status_reg & STAT_OAM_INTERRUPT_SOURCE != 0 {
                    bus.request_interrupt(INT_LCD_STAT);
                }
            }
            if self.y == self.y_compare && self.lcd_status_reg & STAT_LYC_EQ_LC_INTERRUPT_SOURCE
                != 0 {
                let ghost status = bus.interrupts.status;
                bus.request_interrupt(INT_LCD_STAT);
                proof {
                    lemma_request_keeps_vblank(status);
                }
            }
        }
        self.render(bus);
    }

    /// Hands out the finished frame, once per frame, and starts a blank one.
    pub fn ready_frame(&mut self) -> (r: Option<Vec<u8>>)
        requires
            old(self).wf(),
        ensures
            final(self).wf(),
            r is Some <==> old(self).frame_ready(),
            r matches Some(f) ==> f@ == old(self).frame@,
            final(self).y == old(self).y,
            final(self).cycle == old(self).cycle,
            final(self).paused_cycles == old(self).paused_cycles,
            final(self).lcd_control_reg == old(self).lcd_control_reg,
            r is Some ==> forall|i: int| 0 <= i < FRAME_BYTES ==> final(self).frame@[i] == 0xFF,
            r is None ==> final(self).frame@ == old(self).frame@,
            *final(self) == (Ppu { frame: final(self).frame, ..*old(self) }),
    {
        let is_ready = if self.lcd_control_reg & LCDC_LCD_PPU_ENABLE != 0 {
            self.y == 0 && self.cycle == 0
        } else {
            self.paused_cycles == 0
        };
        if is_ready {
            let mut frame = allocate_new_frame();
            core::mem::swap(&mut self.frame, &mut frame);
            Some(frame)
        } else {
            None
        }
    }

    /// Index into VRAM of a CPU address, through the selected bank.
    pub open spec fn banked_index(&self, addr: u16) -> int {
        (addr % 0x2000) as int + if self.cgb_mode && self.vram_bank_register {
            0x2000int
        } else {
            0int
        }
    }

    pub fn write_vram(&mut self, addr: u16, data: u8)
        requires
            old(self).wf(),
        ensures
            final(self).wf(),
            final(self).vram@ == old(self).vram@.update(old(self).banked_index(addr), data),
            final(self).lcd_control_reg == old(self).lcd_control_reg,
            *final(self) == (Ppu { vram: final(self).vram, ..*old(self) }),
    {
        // Writes stay open while drawing: the fetch timing is not exact enough to block them
        let i = (addr % 0x2000) as usize + self.get_current_vram_bank() as usize;
        self.vram.set(i, data);
    }

    /// Reads VRAM; while a line is drawn the CPU gets 0xFF.
    pub fn read_vram(&self, addr: u16) -> (r: u8)
        requires
            self.wf(),
        ensures
            self.fifo_mode is Drawing ==> r == 0xFF,
            !(self.fifo_mode is Drawing) ==> r == self.vram@[self.banked_index(addr)],
    {
        match self.fifo_mode {
            FifoMode::Drawing(_) => 0xFF,
            _ => self.read_vram_unblocked(addr),
        }
    }

    pub fn is_enabled(&self) -> (r: bool)
        ensures
            r == self.enabled(),
    {
        self.lcd_control_reg & LCDC_LCD_PPU_ENABLE != 0
    }

    pub fn get_mode(&self) -> (r: FifoMode)
        ensures
            r == self.fifo_mode,
    {
        self.fifo_mode
    }

    /// Turns the controller off: back to the start of the frame, pipelines cleared.
    pub fn disable(&mut self)
        requires
            old(self).wf(),
        ensures
            final(self).wf(),
            final(self).cycle == 0 && final(self).y == 0 && final(self).x == 0,
            final(self).lcd_control_reg == old(self).lcd_control_reg,
            final(self).vram@ == old(self).vram@,
            final(self).fifo_mode is OamScan,
            final(self).fifo_mode->OamScan_0 == (OamScanState {
                oam_pointer: 0,
                secondary_oam_pointer: 0,
                is_visible: false,
            }),
            final(self).background_pixel_pipeline.n_pixels == 0,
            final(self).sprite_pixel_pipeline.n_pixels == 0,
            *final(self) == (Ppu {
                cycle: 0,
                window_y_flag: false,
                window_y_counter: 0,
                x: 0,
                y: 0,
                fifo_mode: final(self).fifo_mode,
                background_pixel_pipeline: final(self).background_pixel_pipeline,
                sprite_pixel_pipeline: final(self).sprite_pixel_pipeline,
                ..*old(self)
            }),
    {
        self.cycle = 0;
        self.window_y_flag = false;
        self.window_y_counter = 0;
        self.x = 0;
        self.y = 0;
        self.fifo_mode = FifoMode::OamScan(OamScanState::new());
        self.background_pixel_pipeline = PixelFifo::new();
        self.sprite_pixel_pipeline = PixelFifo::new();
    }

    pub fn read_vram_unblocked(&self, addr: u16) -> (r: u8)
        requires
            self.wf(),
        ensures
            r == self.vram@[self.banked_index(addr)],
    {
        let i = (addr % 0x2000) as usize + self.get_current_vram_bank() as usize;
        self.vram[i]
    }

    pub fn read_vram_without_banking(&self, addr: u16) -> (r: u8)
        requires
            self.wf(),
        ensures
            r == self.vram@[(addr % 0x4000) as int],
    {
        self.vram[(addr % 0x4000) as usize]
    }

    /// Writes object memory (the low byte of the address selects the entry byte).
    pub fn write_oam(&mut self, addr: u16, data: u8, force: bool)
        requires
            old(self).wf(),
            addr % 0x100 < 0xA0,
        ensures
            final(self).wf(),
            final(self).oam@ == old(self).oam@.update((addr % 0x100) as int, data),
            *final(self) == (Ppu { oam: final(self).oam, ..*old(self) }),
            final(self).vram@ == old(self).vram@,
            final(self).lcd_control_reg == old(self).lcd_control_reg,
    {
        self.oam.set((addr % 0x100) as usize, data);
    }

    pub fn read_oam(&self, addr: u16, force: bool) -> (r: u8)
        requires
            self.wf(),
            addr % 0x100 < 0xA0,
        ensures
            r == self.oam@[(addr % 0x100) as int],
    {
        self.oam[(addr % 0x100) as usize]
    }

    /// Writes a video register in `0xFF40..=0xFF6B`.
    pub fn write(&mut self, addr: u16, data: u8)
        requires
            old(self).wf(),
        ensures
            final(self).wf(),
            addr == 0xFF40 ==> final(self).lcd_control_reg == data,
            addr != 0xFF40 ==> final(self).lcd_control_reg == old(self).lcd_control_reg,
            final(self).y == old(self).y,
            final(self).vram@ == old(self).vram@,
            addr == 0xFF42 ==> final(self).scroll_y == data,
            addr == 0xFF43 ==> final(self).scroll_x == data,
            addr == 0xFF45 ==> final(self).y_compare == data,
            addr == 0xFF4A ==> final(self).window_y == data,
            addr == 0xFF4B ==> final(self).window_x == data,
            final(self).cycle == old(self).cycle,
            final(self).paused_cycles == old(self).paused_cycles,
            final(self).x == old(self).x,
            final(self).frame@ == old(self).frame@,
            !(addr == 0xFF40 || addr == 0xFF41 || addr == 0xFF42 || addr == 0xFF43 || addr == 0xFF45
                || (0xFF47 <= addr <= 0xFF4B) || addr == 0xFF4F || (0xFF68 <= addr <= 0xFF6B))
                ==> *final(self) == *old(self),
    {
        if addr == 0xFF40 {
            self.write_lcd_control(data);
        } else if addr == 0xFF41 {
            self.write_lcd_status(data);
        } else if addr == 0xFF42 {
            self.scroll_y = data;
        } else if addr == 0xFF43 {
            self.scroll_x = data;
        } else if addr == 0xFF45 {
            self.y_compare = data;
        } else if addr == 0xFF47 {
            self.dmg_bg_palette = data;
        } else if addr == 0xFF48 {
            self.dmg_obj_palette[0] = data;
        } else if addr == 0xFF49 {
            self.dmg_obj_palette[1] = data;
        } else if addr == 0xFF4A {
            self.window_y = data;
        } else if addr == 0xFF4B {
            self.window_x = data;
        } else if addr == 0xFF4F {
            self.vram_bank_register = data & 1 > 0;
        } else if addr == 0xFF68 {
            self.cgb_bg_palette.write_spec(data);
        } else if addr == 0xFF69 {
            self.cgb_bg_palette.write_data(data);
        } else if addr == 0xFF6A {
            self.cgb_obj_palette.write_spec(data);
        } else if addr == 0xFF6B {
            self.cgb_obj_palette.write_data(data);
        }
        // LY (0xFF44) is read-only and KEY0 (0xFF4C) is locked after boot

    }

    /// Reads a video register in `0xFF40..=0xFF6B`; unknown addresses read 0.
    pub fn read(&self, addr: u16) -> (r: u8)
        requires
            self.wf(),
        ensures
            addr == 0xFF40 ==> r == self.lcd_control_reg,
            addr == 0xFF44 ==> r == self.y,
            addr == 0xFF42 ==> r == self.scroll_y,
            addr == 0xFF43 ==> r == self.scroll_x,
            addr == 0xFF45 ==> r == self.y_compare,
    {
        if addr == 0xFF40 {
            self.read_lcd_control()
        } else if addr == 0xFF41 {
            self.read_lcd_status()
        } else if addr == 0xFF42 {
            self.scroll_y
        } else if addr == 0xFF43 {
            self.scroll_x
        } else if addr == 0xFF44 {
            self.y
        } else if addr == 0xFF45 {
            self.y_compare
        } else if addr == 0xFF47 {
            self.dmg_bg_palette
        } else if addr == 0xFF48 {
            self.dmg_obj_palette[0]
        } else if addr == 0xFF49 {
            self.dmg_obj_palette[1]
        } else if addr == 0xFF4A {
            self.window_y
        } else if addr == 0xFF4B {
            self.window_x
        } else if addr == 0xFF4C {
            0xFF
        } else if addr == 0xFF4F {
            if self.vram_bank_register {
                0xFF
            } else {
                0xFE
            }
        } else if addr == 0xFF68 {
            self.cgb_bg_palette.read_spec()
        } else if addr == 0xFF69 {
            self.cgb_bg_palette.read_data()
        } else if addr == 0xFF6A {
            self.cgb_obj_palette.read_spec()
        } else if addr == 0xFF6B {
            self.cgb_obj_palette.read_data()
        } else {
            0
        }
    }

    pub fn write_lcd_control(&mut self, data: u8)
        requires
            old(self).wf(),
        ensures
            final(self).wf(),
            final(self).lcd_control_reg == data,
            final(self).y == old(self).y,
            final(self).vram@ == old(self).vram@,
            *final(self) == (Ppu { lcd_control_reg: data, ..*old(self) }),
    {
        self.lcd_control_reg = data;
    }

    pub fn read_lcd_control(&self) -> (r: u8)
        ensures
            r == self.lcd_control_reg,
    {
        self.lcd_control_reg
    }

    /// Only the interrupt-source bits (3-6) of the status register are writable.
    pub fn write_lcd_status(&mut self, data: u8)
        requires
            old(self).wf(),
        ensures
            final(self).wf(),
            final(self).lcd_status_reg == (old(self).lcd_status_reg & !0x78u8) | (data & 0x78),
            final(self).lcd_control_reg == old(self).lcd_control_reg,
            final(self).y == old(self).y,
            final(self).vram@ == old(self).vram@,
            *final(self) == (Ppu { lcd_status_reg: final(self).lcd_status_reg, ..*old(self) }),
    {
        self.lcd_status_reg = (self.lcd_status_reg & !0x78u8) | (data & 0x78);
    }

    /// The status register with the coincidence bit and mode bits filled in.
    pub fn read_lcd_status(&self) -> (r: u8)
        ensures
            r & 0x03 == self.fifo_mode_bits(),
            (r & STAT_LYC_EQ_LC != 0) == (self.y == self.y_compare),
            r & 0xF8 == self.lcd_status_reg & 0xF8,
    {
        let mode = self.fifo_mode.mode_bits();
        let lyc: u8 = if self.y == self.y_compare {
            STAT_LYC_EQ_LC
        } else {
            0
        };
        let st = self.lcd_status_reg;
        let base = st & 0xF8;
        let r = base | lyc | mode;
        proof {
            assert((st & 0xF8) & 0x07 == 0 && (st & 0xF8) & 0xF8 == st & 0xF8) by (bit_vector);
            assert(((base | lyc | mode) & 3 == mode) && ((((base | lyc | mode) & 4) != 0) == (lyc
                == 4)) && (base | lyc | mode) & 0xF8 == base & 0xF8) by (bit_vector)
                requires
                    base & 7 == 0,
                    lyc == 0 || lyc == 4,
                    mode < 4,
            ;
        }
        r
    }

    pub open spec fn fifo_mode_bits(&self) -> u8 {
        match self.fifo_mode {
            FifoMode::HBlank => 0,
            FifoMode::VBlank => 1,
            FifoMode::OamScan(_) => 2,
            FifoMode::Drawing(_) => 3,
        }
    }

    /// VRAM offset of the selected bank: bank 1 only in colour mode.
    pub fn get_current_vram_bank(&self) -> (r: u16)
        ensures
            r == if self.cgb_mode && self.vram_bank_register {
                0x2000u16
            } else {
                0u16
            },
    {
        if self.cgb_mode && self.vram_bank_register {
            0x2000
        } else {
            0
        }
    }

    /// One dot of the pixel pipeline: OAM scan or drawing, depending on the mode.
    pub fn render(&mut self, bus: &mut PpuBus)
        requires
            old(self).wf(),
        ensures
            final(self).wf(),
            final(self).y == old(self).y,
            final(self).cycle == old(self).cycle,
            final(self).paused_cycles == old(self).paused_cycles,
            final(self).lcd_control_reg == old(self).lcd_control_reg,
            old(bus).interrupts.status & INT_VBLANK == INT_VBLANK ==> final(bus).interrupts.status
                & INT_VBLANK == INT_VBLANK,
            old(self).fifo_mode is HBlank ==> final(self).fifo_mode is HBlank,
            old(self).fifo_mode is VBlank ==> final(self).fifo_mode is VBlank,
            old(self).fifo_mode is OamScan ==> final(self).fifo_mode is OamScan,
            old(self).fifo_mode is Drawing ==> final(self).fifo_mode is Drawing
                || (final(self).fifo_mode is HBlank && final(self).x == 160),
            !(old(self).fifo_mode is Drawing) ==> final(self).x == old(self).x,
            old(self).fifo_mode is Drawing ==> old(self).x <= final(self).x <= old(self).x + 1,
            old(self).fifo_mode is Drawing && final(self).x == old(self).x + 1 ==> ({
                let b = 4 * (160 * old(self).y + old(self).x);
                &&& exists|bg: u16, sp: u16|
                    final(self).frame@.subrange(b, b + 3) == #[trigger] final(self).mix_spec(bg, sp)
                &&& final(self).frame@[b + 3] == 0xFF
            }),
            !(old(self).fifo_mode is Drawing) ==> final(self).frame@ == old(self).frame@,
            old(self).fifo_mode is Drawing && !old(self).fifo_mode->Drawing_0.is_sprite && old(
                self,
            ).background_pixel_pipeline.n_pixels > 0 && old(self).lcd_control_reg & LCDC_OBJ_ENABLE
                == 0 && (old(self).fifo_mode->Drawing_0.is_window || old(self).lcd_control_reg
                & LCDC_WINDOW_ENABLE == 0) && old(self).x < 160 && old(self).y < 144 ==> {
                let b = 4 * (160 * old(self).y + old(self).x);
                &&& final(self).x == old(self).x + 1
                &&& final(self).frame@.subrange(b, b + 3) == final(self).mix_spec(
                    old(self).background_pixel_pipeline.fifo@[7],
                    old(self).sprite_pixel_pipeline.fifo@[7],
                )
                &&& final(self).frame@[b + 3] == 0xFF
            },
            old(self).fifo_mode is OamScan && old(self).fifo_mode->OamScan_0.oam_pointer <= 0x9C
                ==> ({
                let sc = old(self).fifo_mode->OamScan_0;
                let sc2 = final(self).fifo_mode->OamScan_0;
                let op = sc.oam_pointer as int;
                let sp = sc.secondary_oam_pointer as int;
                let height: int = if old(self).lcd_control_reg & LCDC_OBJ_SIZE != 0 {
                    16
                } else {
                    8
                };
                &&& final(self).fifo_mode is OamScan
                &&& (old(self).cycle % 2 == 0 ==> {
                    &&& sc2.oam_pointer == sc.oam_pointer
                    &&& sc2.secondary_oam_pointer == sc.secondary_oam_pointer
                    &&& sc2.is_visible == ((old(self).y + 256 - old(self).oam@[op] + 16) % 256 < height
                        && old(self).oam@[op + 1] > 0)
                    &&& final(self).secondary_oam@ == old(self).secondary_oam@
                })
                &&& (old(self).cycle % 2 == 1 ==> {
                    &&& sc2.oam_pointer == sc.oam_pointer + 4
                    &&& (sc.is_visible && sp <= 36 ==> sc2.secondary_oam_pointer == sp + 4
                        && final(self).secondary_oam@.subrange(sp, sp + 4) == old(self).oam@.subrange(
                        op,
                        op + 4,
                    ))
                    &&& (!(sc.is_visible && sp <= 36) ==> sc2.secondary_oam_pointer == sp
                        && final(self).secondary_oam@ == old(self).secondary_oam@)
                })
            }),
    {
        let mut fifo_mode = self.fifo_mode;
        match fifo_mode {
            FifoMode::OamScan(scan) => {
                let mut scan = scan;
                if scan.oam_pointer <= 0x9C {
                    if self.cycle % 2 == 0 {
                        // Even dot: is the entry's sprite on this line?
                        let sprite_y = self.oam[scan.oam_pointer];
                        let sprite_size: u8 = if self.lcd_control_reg & LCDC_OBJ_SIZE != 0 {
                            16
                        } else {
                            8
                        };
                        // Y is stored plus 16 so that a sprite can hide above the screen
                        let y_remainder = ((self.y as u16 + 256 - sprite_y as u16 + 16) % 256) as u8;
                        scan.is_visible = y_remainder < sprite_size && self.oam[scan.oam_pointer
                            + 1] > 0;
                    } else {
                        // Odd dot: copy a visible entry into the secondary OAM
                        if scan.is_visible && scan.secondary_oam_pointer <= 36 {
                            let mut k: usize = 0;
                            while k < 4
                                invariant
                                    self.wf(),
                                    scan.oam_pointer <= 0x9C,
                                    scan.secondary_oam_pointer <= 36,
                                    self.y == old(self).y,
                                    self.x == old(self).x,
                                    self.cycle == old(self).cycle,
                                    self.paused_cycles == old(self).paused_cycles,
                                    self.lcd_control_reg == old(self).lcd_control_reg,
                                    self.frame@ == old(self).frame@,
                                    self.oam@ == old(self).oam@,
                                    k <= 4,
                                    scan.oam_pointer == old(self).fifo_mode->OamScan_0.oam_pointer,
                                    scan.secondary_oam_pointer == old(
                                        self,
                                    ).fifo_mode->OamScan_0.secondary_oam_pointer,
                                    self.secondary_oam@.subrange(
                                        scan.secondary_oam_pointer as int,
                                        scan.secondary_oam_pointer + k,
                                    ) == old(self).oam@.subrange(
                                        scan.oam_pointer as int,
                                        scan.oam_pointer + k,
                                    ),
                                decreases 4 - k,
                            {
                                let b = self.oam[scan.oam_pointer + k];
                                self.secondary_oam.set(scan.secondary_oam_pointer + k, b);
                                k = k + 1;
                                proof {
                                    assert(self.secondary_oam@.subrange(
                                        scan.secondary_oam_pointer as int,
                                        scan.secondary_oam_pointer + k,
                                    ) =~= old(self).oam@.subrange(
                                        scan.oam_pointer as int,
                                        scan.oam_pointer + k,
                                    ));
                                }
                            }
                            scan.secondary_oam_pointer = scan.secondary_oam_pointer + 4;
                        }
                        scan.oam_pointer = scan.oam_pointer + 4;
                    }
                }
                fifo_mode = FifoMode::OamScan(scan);
            },
            FifoMode::Drawing(state) => {
                let mut state = state;
                let hblank = self.draw_dot(&mut state, bus);
                if hblank {
                    fifo_mode = FifoMode::HBlank;
                } else {
                    fifo_mode = FifoMode::Drawing(state);
                }
                proof {
                    if self.x == old(self).x + 1 {
                        let b = 4 * (160 * old(self).y + old(self).x);
                        let (bg, sp) = choose|bg: u16, sp: u16|
                            self.frame@.subrange(b, b + 3) == #[trigger] self.mix_spec(bg, sp);
                        let after = Ppu { fifo_mode, ..*self };
                        assert(after.mix_spec(bg, sp) == self.mix_spec(bg, sp));
                        let bg0 = old(self).background_pixel_pipeline.fifo@[7];
                        let sp0 = old(self).sprite_pixel_pipeline.fifo@[7];
                        assert(after.mix_spec(bg0, sp0) == self.mix_spec(bg0, sp0));
                    }
                }
            },
            _ => {},
        }
        self.fifo_mode = fifo_mode;
    }

    /// One dot of drawing; returns whether the line is complete (HBlank begins).
    #[verifier::rlimit(60)]
    pub fn draw_dot(&mut self, state: &mut DrawingState, bus: &mut PpuBus) -> (r: bool)
        requires
            old(self).wf(),
        ensures
            final(self).wf(),
            final(self).y == old(self).y,
            final(self).cycle == old(self).cycle,
            final(self).paused_cycles == old(self).paused_cycles,
            final(self).lcd_control_reg == old(self).lcd_control_reg,
            old(bus).interrupts.status & INT_VBLANK == INT_VBLANK ==> final(bus).interrupts.status
                & INT_VBLANK == INT_VBLANK,
            old(self).x <= final(self).x <= old(self).x + 1,
            r ==> final(self).x == 160,
            final(self).x == old(self).x ==> final(self).frame@ == old(self).frame@,
            // With a filled background FIFO, no sprite fetch and no window start, this dot
            // emits the mix of the two FIFOs' next pixels
            !old(state).is_sprite && old(self).background_pixel_pipeline.n_pixels > 0 && old(
                self,
            ).lcd_control_reg & LCDC_OBJ_ENABLE == 0 && (old(state).is_window || old(
                self,
            ).lcd_control_reg & LCDC_WINDOW_ENABLE == 0) && old(self).x < 160 && old(self).y < 144 ==> {
                let b = 4 * (160 * old(self).y + old(self).x);
                &&& final(self).x == old(self).x + 1
                &&& final(self).frame@.subrange(b, b + 3) == final(self).mix_spec(
                    old(self).background_pixel_pipeline.fifo@[7],
                    old(self).sprite_pixel_pipeline.fifo@[7],
                )
                &&& final(self).frame@[b + 3] == 0xFF
            },
            final(self).x == old(self).x + 1 ==> ({
                let b = 4 * (160 * old(self).y + old(self).x);
                &&& exists|bg: u16, sp: u16|
                    final(self).frame@.subrange(b, b + 3) == #[trigger] final(self).mix_spec(bg, sp)
                &&& final(self).frame@[b + 3] == 0xFF
                &&& forall|i: int|
                    0 <= i < FRAME_BYTES && !(b <= i < b + 4) ==> final(self).frame@[i] == old(
                        self,
                    ).frame@[i]
            }),
    {
        let ghost mut gb: u16 = 0;
        let ghost mut gs: u16 = 0;
        if self.y == self.window_y {
            self.window_y_flag = true;
        }
        // Window: once its line is reached and X passes its position, restart the fetcher on it
        if !state.is_window && self.lcd_control_reg & LCDC_WINDOW_ENABLE != 0 {
            if self.window_y_flag && self.x.wrapping_add(7) >= self.window_x {
                state.reset();
                state.is_window = true;
                state.fetcher_x = 0;
                self.background_pixel_pipeline.empty();
            }
        }
        // Sprites: a sprite whose X covers the current pixel interrupts background fetching
        if !state.is_sprite && self.lcd_control_reg & LCDC_OBJ_ENABLE != 0 {
            let mut index: usize = 0;
            while index < 10
                invariant
                    self.wf(),
                    index <= 10,
                    self.y == old(self).y,
                    self.cycle == old(self).cycle,
                    self.paused_cycles == old(self).paused_cycles,
                    self.lcd_control_reg == old(self).lcd_control_reg,
                    self.frame@ == old(self).frame@,
                    self.x == old(self).x,
                decreases 10 - index,
            {
                // X is stored plus 8 so that a sprite can hide left of the screen
                let x_remainder = self.x.wrapping_sub(self.secondary_oam[index * 4 + 1]).wrapping_add(8);
                if x_remainder < 8 {
                    state.reset();
                    state.is_sprite = true;
                    state.sprite_idx = (index * 4) as u8;
                    break;
                }
                index = index + 1;
            }
        }
        if state.sprite_idx > 36 {
            state.sprite_idx = 0;
        }
        match state.pixel_fetcher {
            PixelFetcherState::GetTile => {
                if state.cycle == 0 {
                    if state.is_sprite {
                        state.tile_idx = self.secondary_oam[state.sprite_idx as usize + 2];
                        state.tile_attr = self.secondary_oam[state.sprite_idx as usize + 3];
                    } else if state.is_window {
                        let x_index = state.fetcher_x % 32;
                        let y_index = self.window_y_counter / 8;
                        let tile_map_idx = (y_index as u16) * 32 + x_index as u16;
                        state.tile_idx = self.read_win_tile_index(tile_map_idx);
                        state.tile_attr = if self.cgb_mode {
                            self.read_win_tile_attributes(tile_map_idx)
                        } else {
                            0
                        };
                    } else {
                        let x_index = ((self.scroll_x / 8) as u16 + state.fetcher_x as u16) % 32;
                        let y_index = self.y.wrapping_add(self.scroll_y) / 8;
                        let tile_map_idx = (y_index as u16) * 32 + x_index;
                        state.tile_idx = self.read_bg_tile_index(tile_map_idx);
                        state.tile_attr = if self.cgb_mode {
                            self.read_bg_tile_attributes(tile_map_idx)
                        } else {
                            0
                        };
                    }
                    state.cycle = 1;
                } else {
                    state.advance_fetcher_state();
                }
            },
            PixelFetcherState::GetTileLow => {
                if state.cycle == 0 {
                    state.buffer = [0u16; 8];
                    self.fetcher_get_tile(state, false);
                } else {
                    state.advance_fetcher_state();
                }
            },
            PixelFetcherState::GetTileHigh => {
                if state.cycle == 0 {
                    self.fetcher_get_tile(state, true);
                } else {
                    state.advance_fetcher_state();
                }
            },
            PixelFetcherState::Push => {
                self.fetcher_push(state);
                state.advance_fetcher_state();
            },
        }
        if !self.background_pixel_pipeline.is_empty() && !state.is_sprite && self.x < 160 {
            let background_pixel = self.background_pixel_pipeline.pop();
            let sprite_pixel = self.sprite_pixel_pipeline.pop();
            let pixel = self.mix_pixel(background_pixel, sprite_pixel);
            let base: usize = ((self.y as usize) * FRAME_WIDTH + (self.x as usize)) * 4;
            if base + 3 < self.frame.len() {
                let ghost before = self.frame@;
                self.frame.set(base, pixel[0]);
                self.frame.set(base + 1, pixel[1]);
                self.frame.set(base + 2, pixel[2]);
                self.frame.set(base + 3, 0xFF);
                proof {
                    assert(self.frame@.subrange(base as int, base as int + 3) =~= pixel@);
                    gb = background_pixel;
                    gs = sprite_pixel;
                }
                self.x = self.x + 1;
                if self.x >= 160 {
                    // The line is done: HBlank begins
                    self.background_pixel_pipeline = PixelFifo::new();
                    self.sprite_pixel_pipeline = PixelFifo::new();
                    self.secondary_oam = vec![0u8; 40];
                    if state.is_window {
                        self.window_y_counter = self.window_y_counter.wrapping_add(1);
                    }
                    if self.lcd_status_reg & STAT_HBLANK_INTERRUPT_SOURCE != 0 {
                        let ghost status = bus.interrupts.status;
                        bus.request_interrupt(INT_LCD_STAT);
                        proof {
                            lemma_request_keeps_vblank(status);
                        }
                    }
                    // HDMA may copy a block during this HBlank
                    bus.set_hdma_hblank(true);
                    proof {
                        let b = 4 * (160 * old(self).y + old(self).x);
                        assert(self.frame@.subrange(b, b + 3) == self.mix_spec(gb, gs));
                    }
                    return true;
                }
            }
        }
        proof {
            if self.x == old(self).x + 1 {
                let b = 4 * (160 * old(self).y + old(self).x);
                assert(self.frame@.subrange(b, b + 3) == self.mix_spec(gb, gs));
            }
        }
        false
    }

    /// The Push step: flips and tags the fetched row, then hands it to a pixel FIFO.
    pub fn fetcher_push(&mut self, state: &mut DrawingState)
        requires
            old(self).wf(),
            old(state).sprite_idx <= 36,
        ensures
            final(self).wf(),
            final(state).sprite_idx == old(state).sprite_idx,
            final(state).pixel_fetcher == old(state).pixel_fetcher,
            final(self).y == old(self).y,
            final(self).x == old(self).x,
            final(self).cycle == old(self).cycle,
            final(self).paused_cycles == old(self).paused_cycles,
            final(self).lcd_control_reg == old(self).lcd_control_reg,
            final(state).buffer@ == pushed_row(*old(state)),
            !old(state).is_sprite ==> !final(state).is_sprite && final(state).is_window == old(
                state,
            ).is_window,
            final(self).frame@ == old(self).frame@,
            old(state).is_sprite ==> {
                &&& !final(state).is_sprite
                &&& (final(self).sprite_pixel_pipeline.fifo@, final(self).sprite_pixel_pipeline.n_pixels)
                    == drain_view(
                    load_view(old(self).sprite_pixel_pipeline.fifo@, pushed_row(*old(state))),
                    8,
                    if old(self).x == 0 && old(self).secondary_oam@[old(state).sprite_idx + 1] <= 8 {
                        (8 - old(self).secondary_oam@[old(state).sprite_idx + 1]) as nat
                    } else {
                        0
                    },
                )
                &&& final(self).background_pixel_pipeline == old(self).background_pixel_pipeline
            },
            !old(state).is_sprite && old(self).background_pixel_pipeline.n_pixels == 0 ==> {
                &&& (final(self).background_pixel_pipeline.fifo@,
                    final(self).background_pixel_pipeline.n_pixels) == drain_view(
                    load_view(old(self).background_pixel_pipeline.fifo@, pushed_row(*old(state))),
                    8,
                    if !old(state).is_window {
                        ((old(self).scroll_x + old(self).x) % 256 % 8) as nat
                    } else if old(self).x == 0 {
                        ((7 - old(self).window_x + 256) % 256 % 8) as nat
                    } else {
                        0
                    },
                )
                &&& final(state).fetcher_x == (old(state).fetcher_x + 1) % 256
            },
            !old(state).is_sprite && old(self).background_pixel_pipeline.n_pixels != 0
                ==> final(self).background_pixel_pipeline == old(self).background_pixel_pipeline,
            !old(state).is_sprite ==> final(self).sprite_pixel_pipeline == old(self).sprite_pixel_pipeline,
    {
        let ghost row = pushed_row(*state);
        let mut buf = state.buffer;
        if state.tile_attr & 0x20 != 0 {
            // X flip
            buf = [buf[7], buf[6], buf[5], buf[4], buf[3], buf[2], buf[1], buf[0]];
        }
        let tag: u16 = if state.is_sprite {
            state.tile_attr as u16 + (state.sprite_idx / 4) as u16 * 4096
        } else {
            state.tile_attr as u16
        };
        let ghost flipped = buf@;
        proof {
            assert(tag == if state.is_sprite {
                (state.tile_attr as int + (state.sprite_idx / 4) as int * 4096) as u16
            } else {
                state.tile_attr as u16
            });
        }
        let mut i: usize = 0;
        while i < 8
            invariant
                i <= 8,
                row == pushed_row(*old(state)),
                forall|k: int| 0 <= k < 8 ==> flipped[k] == (if old(state).tile_attr & 0x20 != 0 {
                    old(state).buffer@[7 - k]
                } else {
                    old(state).buffer@[k]
                }),
                forall|k: int| 0 <= k < i ==> buf@[k] == flipped[k] | tag,
                forall|k: int| i <= k < 8 ==> buf@[k] == flipped[k],
                tag == if old(state).is_sprite {
                    (old(state).tile_attr as int + (old(state).sprite_idx / 4) as int * 4096) as u16
                } else {
                    old(state).tile_attr as u16
                },
            decreases 8 - i,
        {
            buf[i] = buf[i] | tag;
            i = i + 1;
        }
        proof {
            assert(buf@ =~= row);
        }
        state.buffer = buf;
        if state.is_sprite {
            self.sprite_pixel_pipeline.load(buf);
            if self.x == 0 {
                // A sprite partly left of the screen loses its hidden columns
                let sprite_x = self.secondary_oam[state.sprite_idx as usize + 1];
                let hidden = if sprite_x <= 8 {
                    8 - sprite_x
                } else {
                    0
                };
                self.sprite_pixel_pipeline.drain(hidden);
            }
            state.is_sprite = false;
            // The sprite is done for this line
            self.secondary_oam.set(state.sprite_idx as usize + 1, 0);
        } else if self.background_pixel_pipeline.is_empty() {
            self.background_pixel_pipeline.load(buf);
            if !state.is_window {
                self.background_pixel_pipeline.drain(
                    ((self.scroll_x as u16 + self.x as u16) % 256 % 8) as u8,
                );
            } else if self.x == 0 {
                self.background_pixel_pipeline.drain(
                    ((7 + 256 - self.window_x as u16) % 256 % 8) as u8,
                );
            }
            state.fetcher_x = ((state.fetcher_x as u16 + 1) % 256) as u8;
        }
    }

    /// Whether the background pixel shows over the sprite pixel: a transparent sprite never
    /// shows; in colour mode the tile attribute's priority bit wins unless LCDC bit 0 is off;
    /// otherwise the sprite's behind-background bit lets an opaque background show.
    pub open spec fn shows_background(&self, bg: u16, sp: u16) -> bool {
        let background_priority = if self.cgb_mode {
            if self.lcd_control_reg & LCDC_BG_WINDOW_ENABLE_PRIORITY == 0 {
                false
            } else if bg & 0x80 == 0x80 {
                true
            } else {
                sp & 0x80 == 0x80
            }
        } else {
            sp & 0x80 == 0x80
        };
        (sp / 256) % 4 == 0 || (background_priority && (bg / 256) % 4 != 0)
    }

    /// The RGB colour of the output pixel for background candidate `bg` and sprite
    /// candidate `sp`.
    pub open spec fn mix_spec(&self, bg: u16, sp: u16) -> Seq<u8> {
        let sprite_palette = ((sp / 16) % 2) as int;
        let sprite_color = (sp / 256) % 4;
        let background_color = (bg / 256) % 4;
        if self.cgb_mode {
            if self.shows_background(bg, sp) {
                self.cgb_bg_palette.rgb_spec((bg % 8) as int, background_color as int)
            } else {
                self.cgb_obj_palette.rgb_spec((sp % 8) as int, sprite_color as int)
            }
        } else if self.shows_background(bg, sp) {
            if self.lcd_control_reg & LCDC_BG_WINDOW_ENABLE_PRIORITY != 0 {
                self.dmg_colorized_bg_palette[((self.dmg_bg_palette >> ((background_color as u8)
                    * 2)) % 4) as int]@
            } else {
                seq![0xFFu8, 0xFF, 0xFF]
            }
        } else {
            self.dmg_colorized_obj_palette[sprite_palette][((self.dmg_obj_palette[sprite_palette]
                >> ((sprite_color as u8) * 2)) % 4) as int]@
        }
    }

    /// The colour of one output pixel, from the background and sprite candidates.
    pub fn mix_pixel(&self, background_pixel: u16, sprite_pixel: u16) -> (r: [u8; 3])
        requires
            self.wf(),
        ensures
            r@ == self.mix_spec(background_pixel, sprite_pixel),
            !self.cgb_mode && (sprite_pixel / 256) % 4 == 0 && self.lcd_control_reg
                & LCDC_BG_WINDOW_ENABLE_PRIORITY != 0 ==> r == self.dmg_colorized_bg_palette[((
            self.dmg_bg_palette >> (((background_pixel / 256) % 4) as u8 * 2)) % 4) as int],
            !self.cgb_mode && (sprite_pixel / 256) % 4 == 0 && self.lcd_control_reg
                & LCDC_BG_WINDOW_ENABLE_PRIORITY == 0 ==> r@ == seq![0xFFu8, 0xFF, 0xFF],
            !self.cgb_mode && (sprite_pixel / 256) % 4 != 0 && sprite_pixel & 0x80 == 0 ==> r
                == self.dmg_colorized_obj_palette[((sprite_pixel / 16) % 2) as int][((
            self.dmg_obj_palette[((sprite_pixel / 16) % 2) as int] >> (((sprite_pixel / 256) % 4) as u8
                * 2)) % 4) as int],
    {
        let sprite_palette: usize = ((sprite_pixel / 16) % 2) as usize;
        let sprite_color = (sprite_pixel / 256) % 4;
        let background_color = (background_pixel / 256) % 4;
        let background_priority = if self.cgb_mode {
            if self.lcd_control_reg & LCDC_BG_WINDOW_ENABLE_PRIORITY == 0 {
                // Master priority off: sprites always win
                false
            } else if background_pixel & 0x80 == 0x80 {
                true
            } else {
                sprite_pixel & 0x80 == 0x80
            }
        } else {
            sprite_pixel & 0x80 == 0x80
        };
        let show_background = sprite_color == 0 || (background_priority && background_color != 0);
        if self.cgb_mode {
            if show_background {
                self.cgb_bg_palette.get_rgb((background_pixel % 8) as usize, background_color as usize)
            } else {
                self.cgb_obj_palette.get_rgb((sprite_pixel % 8) as usize, sprite_color as usize)
            }
        } else if show_background {
            if self.lcd_control_reg & LCDC_BG_WINDOW_ENABLE_PRIORITY != 0 {
                let index = (self.dmg_bg_palette >> ((background_color as u8) * 2)) % 4;
                self.dmg_colorized_bg_palette[index as usize]
            } else {
                // Background disabled: white
                [0xFF, 0xFF, 0xFF]
            }
        } else {
            let index = (self.dmg_obj_palette[sprite_palette] >> ((sprite_color as u8) * 2)) % 4;
            self.dmg_colorized_obj_palette[sprite_palette][index as usize]
        }
    }

    /// Reads one byte of background/window tile data, in the addressing mode that LCDC selects.
    pub fn read_bg_win_tile(&self, bank: u8, id: u8, offset: u8) -> (r: u8)
        requires
            self.wf(),
            bank < 2,
            offset < 16,
        ensures
            r == self.vram@[(if self.lcd_control_reg & LCDC_BG_WINDOW_TILE_DATA_AREA != 0 {
                (id as int) * 16
            } else if id < 0x80 {
                0x1000 + (id as int) * 16
            } else {
                0x800 + ((id as int) * 16) % 0x800
            }) + offset as int + (bank as int) * 0x2000],
    {
        if self.lcd_control_reg & LCDC_BG_WINDOW_TILE_DATA_AREA != 0 {
            self.read_obj_tile(bank, id, offset)
        } else if id < 0x80 {
            // Signed addressing: ids 0-127 from 0x9000
            self.vram[0x1000 + (id as usize) * 16 + offset as usize + (bank as usize) * 0x2000]
        } else {
            // Ids 128-255 from 0x8800
            self.vram[0x800 + ((id as usize) * 16) % 0x800 + offset as usize + (bank as usize) * 0x2000]
        }
    }

    /// Reads one byte of sprite tile data (unsigned addressing from 0x8000).
    pub fn read_obj_tile(&self, bank: u8, id: u8, offset: u8) -> (r: u8)
        requires
            self.wf(),
            bank < 2,
            offset < 16,
        ensures
            r == self.vram@[(id as int) * 16 + offset as int + (bank as int) * 0x2000],
    {
        self.vram[(id as usize) * 16 + offset as usize + (bank as usize) * 0x2000]
    }

    pub fn read_bg_tile_index(&self, id: u16) -> (r: u8)
        requires
            self.wf(),
            id < 0x400,
        ensures
            r == self.vram@[(if self.lcd_control_reg & LCDC_BG_TILE_MAP_AREA != 0 {
                0x1C00int
            } else {
                0x1800int
            }) + id as int],
    {
        if self.lcd_control_reg & LCDC_BG_TILE_MAP_AREA != 0 {
            self.vram[0x1C00 + id as usize]
        } else {
            self.vram[0x1800 + id as usize]
        }
    }

    pub fn read_win_tile_index(&self, id: u16) -> (r: u8)
        requires
            self.wf(),
            id < 0x400,
        ensures
            r == self.vram@[(if self.lcd_control_reg & LCDC_WINDOW_TILE_MAP_AREA != 0 {
                0x1C00int
            } else {
                0x1800int
            }) + id as int],
    {
        if self.lcd_control_reg & LCDC_WINDOW_TILE_MAP_AREA != 0 {
            self.vram[0x1C00 + id as usize]
        } else {
            self.vram[0x1800 + id as usize]
        }
    }

    pub fn read_bg_tile_attributes(&self, id: u16) -> (r: u8)
        requires
            self.wf(),
            id < 0x400,
        ensures
            r == self.vram@[(if self.lcd_control_reg & LCDC_BG_TILE_MAP_AREA != 0 {
                0x3C00int
            } else {
                0x3800int
            }) + id as int],
    {
        if self.lcd_control_reg & LCDC_BG_TILE_MAP_AREA != 0 {
            self.vram[0x3C00 + id as usize]
        } else {
            self.vram[0x3800 + id as usize]
        }
    }

    pub fn read_win_tile_attributes(&self, id: u16) -> (r: u8)
        requires
            self.wf(),
            id < 0x400,
        ensures
            r == self.vram@[(if self.lcd_control_reg & LCDC_WINDOW_TILE_MAP_AREA != 0 {
                0x3C00int
            } else {
                0x3800int
            }) + id as int],
    {
        if self.lcd_control_reg & LCDC_WINDOW_TILE_MAP_AREA != 0 {
            self.vram[0x3C00 + id as usize]
        } else {
            self.vram[0x3800 + id as usize]
        }
    }

    /// Fetches one bit plane of the current tile row into the fetcher buffer.
    pub fn fetcher_get_tile(&self, state: &mut DrawingState, hi: bool)
        requires
            self.wf(),
            old(state).sprite_idx <= 36,
        ensures
            final(state).sprite_idx == old(state).sprite_idx,
            final(state).pixel_fetcher == old(state).pixel_fetcher,
            final(state).is_sprite == old(state).is_sprite,
    {
        let plane: u8 = if hi {
            1
        } else {
            0
        };
        let weight: u16 = if hi {
            512
        } else {
            256
        };
        let bank: u8 = if self.cgb_mode {
            (state.tile_attr / 8) % 2
        } else {
            0
        };
        let mut tile_data: u8 = if state.is_sprite {
            let tall = self.lcd_control_reg & LCDC_OBJ_SIZE != 0;
            let height: u8 = if tall {
                16
            } else {
                8
            };
            let mut row = self.y.wrapping_sub(self.secondary_oam[state.sprite_idx as usize]).wrapping_add(
                16,
            ) % height;
            if state.tile_attr & 0x40 != 0 {
                // Y flip
                row = height - 1 - row;
            }
            // Tall sprites take the upper or lower tile of the pair
            let tile_id = if tall {
                (state.tile_idx & 0xFE) | (row / 8)
            } else {
                state.tile_idx
            };
            self.read_obj_tile(bank, tile_id, (row % 8) * 2 + plane)
        } else {
            let mut row = if state.is_window {
                self.window_y_counter % 8
            } else {
                self.y.wrapping_add(self.scroll_y) % 8
            };
            if state.tile_attr & 0x40 != 0 {
                row = 7 - row;
            }
            self.read_bg_win_tile(bank, state.tile_idx, row * 2 + plane)
        };
        let mut i: usize = 0;
        while i < 8
            invariant
                i <= 8,
                state.sprite_idx == old(state).sprite_idx,
                state.pixel_fetcher == old(state).pixel_fetcher,
                state.is_sprite == old(state).is_sprite,
                weight <= 512,
            decreases 8 - i,
        {
            let bit: u16 = if tile_data % 2 == 1 {
                weight
            } else {
                0
            };
            state.buffer[i] = state.buffer[i] | bit;
            tile_data = tile_data / 2;
            i = i + 1;
        }
        state.cycle = state.cycle.wrapping_add(1);
    }

}

} // verus!
