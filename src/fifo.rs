use vstd::prelude::*;

verus! {

/// An 8-slot pixel shift buffer. Each entry packs the attribute byte (bits 0-7),
/// the 2-bit colour index (bits 8-9) and, for sprites, the sprite slot (bits 12-15).
/// The next pixel out is the last slot.
#[derive(Clone, Copy, Debug)]
pub struct PixelFifo {
    pub fifo: [u16; 8],
    pub n_pixels: u8,
}

/// Whether a packed pixel is transparent (colour index 0).
pub open spec fn is_transparent(p: u16) -> bool {
    p & 0x300 == 0
}

/// The FIFO slots and count after taking one pixel out.
pub open spec fn pop_view(s: Seq<u16>, n: u8) -> (Seq<u16>, u8) {
    if n == 0 {
        (s, n)
    } else {
        (seq![0u16] + s.subrange(0, 7), (n - 1) as u8)
    }
}

/// The FIFO slots and count after taking `k` pixels out.
pub open spec fn drain_view(s: Seq<u16>, n: u8, k: nat) -> (Seq<u16>, u8)
    decreases k,
{
    if k == 0 {
        (s, n)
    } else {
        let prev = drain_view(s, n, (k - 1) as nat);
        pop_view(prev.0, prev.1)
    }
}

/// The FIFO slots after loading `v`: an opaque pixel already present stays.
pub open spec fn load_view(s: Seq<u16>, v: Seq<u16>) -> Seq<u16> {
    Seq::new(8, |i: int| if is_transparent(s[i]) { v[i] } else { s[i] })
}

impl PixelFifo {
    pub open spec fn wf(&self) -> bool {
        self.n_pixels <= 8
    }

    pub fn new() -> (r: Self)
        ensures
            r.wf(),
            r.n_pixels == 0,
            forall|i: int| 0 <= i < 8 ==> r.fifo@[i] == 0,
    {
        PixelFifo { fifo: [0u16; 8], n_pixels: 0 }
    }

    pub fn is_empty(&self) -> (r: bool)
        ensures
            r == (self.n_pixels == 0),
    {
        self.n_pixels == 0
    }

    /// Discards all pixels.
    pub fn empty(&mut self)
        ensures
            final(self).wf(),
            final(self).n_pixels == 0,
            forall|i: int| 0 <= i < 8 ==> final(self).fifo@[i] == 0,
    {
        self.n_pixels = 0;
        self.fifo = [0u16; 8];
    }

    /// Discards up to `n_pixels` pixels from the front.
    pub fn drain(&mut self, n_pixels: u8)
        requires
            old(self).wf(),
        ensures
            final(self).wf(),
            final(self).n_pixels == if old(self).n_pixels >= n_pixels {
                old(self).n_pixels - n_pixels
            } else {
                0
            },
            (final(self).fifo@, final(self).n_pixels) == drain_view(
                old(self).fifo@,
                old(self).n_pixels,
                n_pixels as nat,
            ),
    {
        let mut i: u8 = 0;
        while i < n_pixels
            invariant
                self.wf(),
                i <= n_pixels,
                self.n_pixels == if old(self).n_pixels >= i {
                    old(self).n_pixels - i
                } else {
                    0
                },
                (self.fifo@, self.n_pixels) == drain_view(old(self).fifo@, old(self).n_pixels, i as nat),
            decreases n_pixels - i,
        {
            let _ = self.pop();
            i = i + 1;
        }
    }

    /// Takes the next pixel out; an empty buffer hands out its last slot and keeps it.
    pub fn pop(&mut self) -> (r: u16)
        requires
            old(self).wf(),
        ensures
            final(self).wf(),
            r == old(self).fifo@[7],
            (final(self).fifo@, final(self).n_pixels) == pop_view(old(self).fifo@, old(self).n_pixels),
            old(self).n_pixels == 0 ==> *final(self) == *old(self),
            old(self).n_pixels > 0 ==> {
                &&& final(self).n_pixels == old(self).n_pixels - 1
                &&& final(self).fifo@[0] == 0
                &&& forall|i: int| 1 <= i < 8 ==> final(self).fifo@[i] == old(self).fifo@[i - 1]
            },
    {
        if self.n_pixels == 0 {
            self.fifo[7]
        } else {
            let res = self.fifo[7];
            let old_fifo = self.fifo;
            self.fifo = [
                0,
                old_fifo[0],
                old_fifo[1],
                old_fifo[2],
                old_fifo[3],
                old_fifo[4],
                old_fifo[5],
                old_fifo[6],
            ];
            self.n_pixels = self.n_pixels - 1;
            res
        }
    }

    /// Loads eight pixels; a pixel already present wins unless it is transparent.
    pub fn load(&mut self, value: [u16; 8])
        requires
            old(self).wf(),
        ensures
            final(self).wf(),
            final(self).n_pixels == 8,
            final(self).fifo@ == load_view(old(self).fifo@, value@),
            forall|i: int|
                0 <= i < 8 ==> final(self).fifo@[i] == if is_transparent(old(self).fifo@[i]) {
                    value@[i]
                } else {
                    old(self).fifo@[i]
                },
    {
        let mut i: usize = 0;
        while i < 8
            invariant
                0 <= i <= 8,
                forall|j: int|
                    0 <= j < i ==> self.fifo@[j] == if is_transparent(old(self).fifo@[j]) {
                        value@[j]
                    } else {
                        old(self).fifo@[j]
                    },
                forall|j: int| i <= j < 8 ==> self.fifo@[j] == old(self).fifo@[j],
            decreases 8 - i,
        {
            if self.fifo[i] & 0x300 == 0 {
                self.fifo[i] = value[i];
            }
            i = i + 1;
        }
        self.n_pixels = 8;
    }
}

/// Step of the background/sprite tile fetcher.
#[derive(Clone, Copy, Debug, PartialEq, Eq, Structural)]
pub enum PixelFetcherState {
    GetTile,
    GetTileLow,
    GetTileHigh,
    Push,
}

/// Progress of the OAM scan of one scanline.
#[derive(Clone, Copy, Debug, PartialEq, Eq, Structural)]
pub struct OamScanState {
    pub oam_pointer: usize,
    pub secondary_oam_pointer: usize,
    pub is_visible: bool,
}

impl OamScanState {
    pub fn new() -> (r: Self)
        ensures
            r.oam_pointer == 0 && r.secondary_oam_pointer == 0 && !r.is_visible,
    {
        OamScanState { oam_pointer: 0, secondary_oam_pointer: 0, is_visible: false }
    }
}

/// State of the pixel fetcher while a scanline is drawn.
#[derive(Clone, Copy, Debug)]
pub struct DrawingState {
    pub pixel_fetcher: PixelFetcherState,
    pub cycle: u8,
    pub fetcher_x: u8,
    pub is_window: bool,
    pub is_sprite: bool,
    pub sprite_idx: u8,
    pub tile_idx: u8,
    pub tile_attr: u8,
    pub buffer: [u16; 8],
}

impl DrawingState {
    pub fn new() -> (r: Self)
        ensures
            r.pixel_fetcher == PixelFetcherState::GetTile,
            r.cycle == 0 && r.fetcher_x == 0 && r.sprite_idx == 0,
            !r.is_window && !r.is_sprite,
    {
        DrawingState {
            pixel_fetcher: PixelFetcherState::GetTile,
            cycle: 0,
            fetcher_x: 0,
            is_window: false,
            is_sprite: false,
            sprite_idx: 0,
            tile_idx: 0,
            tile_attr: 0,
            buffer: [0u16; 8],
        }
    }

    /// Restarts the fetcher at its first step, keeping the window/sprite selection.
    pub fn reset(&mut self)
        ensures
            final(self).pixel_fetcher == PixelFetcherState::GetTile,
            final(self).cycle == 0,
            final(self).tile_idx == 0,
            final(self).fetcher_x == old(self).fetcher_x,
            final(self).is_window == old(self).is_window,
            final(self).is_sprite == old(self).is_sprite,
            final(self).sprite_idx == old(self).sprite_idx,
            final(self).tile_attr == old(self).tile_attr,
            forall|i: int| 0 <= i < 8 ==> final(self).buffer@[i] == 0,
    {
        self.pixel_fetcher = PixelFetcherState::GetTile;
        self.cycle = 0;
        self.tile_idx = 0;
        self.buffer = [0u16; 8];
    }

    /// Moves the fetcher to its next step.
    pub fn advance_fetcher_state(&mut self)
        ensures
            final(self).cycle == 0,
            old(self).pixel_fetcher == PixelFetcherState::GetTile ==> final(self).pixel_fetcher
                == PixelFetcherState::GetTileLow,
            old(self).pixel_fetcher == PixelFetcherState::GetTileLow ==> final(self).pixel_fetcher
                == PixelFetcherState::GetTileHigh,
            old(self).pixel_fetcher == PixelFetcherState::GetTileHigh ==> final(self).pixel_fetcher
                == PixelFetcherState::Push,
            old(self).pixel_fetcher == PixelFetcherState::Push ==> final(self).pixel_fetcher
                == PixelFetcherState::GetTile,
            final(self).fetcher_x == old(self).fetcher_x,
            final(self).is_window == old(self).is_window,
            final(self).is_sprite == old(self).is_sprite,
            final(self).sprite_idx == old(self).sprite_idx,
            final(self).tile_idx == old(self).tile_idx,
            final(self).tile_attr == old(self).tile_attr,
            final(self).buffer == old(self).buffer,
    {
        self.pixel_fetcher = match self.pixel_fetcher {
            PixelFetcherState::GetTile => PixelFetcherState::GetTileLow,
            PixelFetcherState::GetTileLow => PixelFetcherState::GetTileHigh,
            PixelFetcherState::GetTileHigh => PixelFetcherState::Push,
            PixelFetcherState::Push => PixelFetcherState::GetTile,
        };
        self.cycle = 0;
    }
}

/// Mode of the video controller within a scanline.
#[derive(Clone, Copy, Debug)]
pub enum FifoMode {
    HBlank,
    VBlank,
    OamScan(OamScanState),
    Drawing(DrawingState),
}

impl FifoMode {
    /// The 2-bit mode number that the LCD status register reports.
    pub fn mode_bits(&self) -> (r: u8)
        ensures
            r < 4,
            *self is HBlank ==> r == 0,
            *self is VBlank ==> r == 1,
            *self is OamScan ==> r == 2,
            *self is Drawing ==> r == 3,
    {
        match self {
            FifoMode::HBlank => 0,
            FifoMode::VBlank => 1,
            FifoMode::OamScan(_) => 2,
            FifoMode::Drawing(_) => 3,
        }
    }
}

/// CGB palette memory: 8 palettes of 4 colours, two bytes (5-5-5 RGB) each.
#[derive(Clone, Debug)]
pub struct CgbPalette {
    pub data: Vec<u8>,
    pub autoincrement: bool,
    pub index: usize,
}

/// Expands a 5-bit channel to 8 bits.
pub open spec fn expand5(c: u16) -> u8 {
    (((c % 32) * 8) + ((c % 32) / 4)) as u8
}

impl CgbPalette {
    pub open spec fn wf(&self) -> bool {
        self.data@.len() == 0x40 && self.index < 0x40
    }

    /// Palette memory filled with `fill`, index 0, no auto-increment.
    pub fn new(fill: u8) -> (r: Self)
        ensures
            r.wf(),
            r.index == 0 && !r.autoincrement,
    {
        CgbPalette { data: vec![fill; 0x40], autoincrement: false, index: 0 }
    }

    /// Writes the index register: bit 7 enables auto-increment, bits 0-5 are the index.
    pub fn write_spec(&mut self, data: u8)
        requires
            old(self).wf(),
        ensures
            final(self).wf(),
            final(self).data@ == old(self).data@,
            final(self).autoincrement == (data & 0x80 == 0x80),
            final(self).index == (data & 0x3F) as usize,
    {
        self.autoincrement = data & 0x80 == 0x80;
        self.index = (data % 64) as usize;
        proof {
            assert(data & 0x3F == data % 64) by (bit_vector);
        }
    }

    /// Writes the byte at the index, then advances the index if auto-increment is on.
    pub fn write_data(&mut self, data: u8)
        requires
            old(self).wf(),
        ensures
            final(self).wf(),
            final(self).data@ == old(self).data@.update(old(self).index as int, data),
            final(self).autoincrement == old(self).autoincrement,
            final(self).index == if old(self).autoincrement {
                (old(self).index + 1) % 0x40
            } else {
                old(self).index as int
            },
    {
        let i = self.index;
        self.data.set(i, data);
        if self.autoincrement {
            self.index = (self.index + 1) % 0x40;
        }
    }

    pub fn read_spec(&self) -> (r: u8)
        requires
            self.wf(),
        ensures
            r == (self.index as u8) | if self.autoincrement {
                0x80u8
            } else {
                0u8
            },
    {
        (self.index as u8) | if self.autoincrement {
            0x80u8
        } else {
            0u8
        }
    }

    /// Reads the byte at the index; reading never advances it.
    pub fn read_data(&self) -> (r: u8)
        requires
            self.wf(),
        ensures
            r == self.data@[self.index as int],
    {
        self.data[self.index]
    }

    /// The 8-bit RGB colour `color_index` of palette `palette_index`.
    pub open spec fn rgb_spec(&self, palette_index: int, color_index: int) -> Seq<u8> {
        let lo = self.data@[palette_index * 8 + color_index * 2] as u16;
        let hi = self.data@[palette_index * 8 + color_index * 2 + 1] as u16;
        let c = (hi * 256 + lo) as u16;
        seq![expand5(c), expand5(c / 32), expand5(c / 1024)]
    }

    /// The 8-bit RGB colour `color_index` of palette `palette_index`.
    pub fn get_rgb(&self, palette_index: usize, color_index: usize) -> (r: [u8; 3])
        requires
            self.wf(),
            palette_index < 8,
            color_index < 4,
        ensures
            r@ == self.rgb_spec(palette_index as int, color_index as int),
            ({
                let lo = self.data@[(palette_index * 8 + color_index * 2) as int] as u16;
                let hi = self.data@[(palette_index * 8 + color_index * 2 + 1) as int] as u16;
                let c = (hi * 256 + lo) as u16;
                &&& r@[0] == expand5(c)
                &&& r@[1] == expand5(c / 32)
                &&& r@[2] == expand5(c / 1024)
            }),
    {
        let i = palette_index * 8 + color_index * 2;
        let lo = self.data[i] as u16;
        let hi = self.data[i + 1] as u16;
        let c: u16 = hi * 256 + lo;
        let r5 = c % 32;
        let g5 = (c / 32) % 32;
        let b5 = (c / 1024) % 32;
        [(r5 * 8 + r5 / 4) as u8, (g5 * 8 + g5 / 4) as u8, (b5 * 8 + b5 / 4) as u8]
    }
}

} // verus!
