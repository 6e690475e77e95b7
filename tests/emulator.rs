use gband::bus::CpuBus;
use gband::Emulator;

fn blank_emulator() -> Emulator {
    let mut rom = vec![0u8; 0x8000];
    rom[0x14d] = 231;
    Emulator::new(&rom, None).ok().unwrap()
}

/// A console whose program is an endless `jr -2` at the entry point.
fn idle_emulator() -> Emulator {
    let mut rom = vec![0u8; 0x8000];
    rom[0x100] = 0x18;
    rom[0x101] = 0xFE;
    rom[0x14d] = 231;
    Emulator::new(&rom, None).ok().unwrap()
}

#[test]
fn one_frame_per_70224_clocks() {
    let mut emu = blank_emulator();
    let mut frames = 0;
    for i in 1..=70224 {
        if let Some(frame) = emu.clock() {
            frames += 1;
            assert_eq!(i, 70224);
            assert_eq!(frame.len(), 160 * 144 * 4);
        }
    }
    assert_eq!(frames, 1);
}

#[test]
fn one_frame_per_70224_clocks_with_lcd_on() {
    let mut emu = idle_emulator();
    emu.bus.write(0xFF40, 0x91);
    let mut frames = 0;
    for i in 1..=70224 {
        if emu.clock().is_some() {
            frames += 1;
            assert_eq!(i, 70224);
            assert_eq!(emu.bus.ppu.y, 0);
            assert_eq!(emu.bus.ppu.cycle, 0);
        }
    }
    assert_eq!(frames, 1);
    // The vertical blank was requested on the way
    assert_eq!(emu.bus.read(0xFF0F) & 0x01, 0x01);
}

#[test]
fn construction_errors() {
    assert!(Emulator::new(&[0u8; 0x100], None).is_err());
    let mut rom = vec![0u8; 0x8000];
    rom[0x14d] = 230;
    assert!(Emulator::new(&rom, None).is_err());
}

#[test]
fn joypad_register_is_active_low_per_group() {
    let mut emu = blank_emulator();
    emu.set_joypad(gband::JOYPAD_RIGHT | gband::JOYPAD_START);
    emu.bus.write(0xFF00, 0x20); // select the direction keys
    assert_eq!(emu.bus.read(0xFF00), 0x20 | 0x0E);
    emu.bus.write(0xFF00, 0x10); // select the action keys
    assert_eq!(emu.bus.read(0xFF00), 0x10 | 0x07);
    emu.bus.write(0xFF00, 0x30);
    assert_eq!(emu.bus.read(0xFF00), 0x30 | 0x0F);
}

#[test]
fn oam_dma_copies_and_blocks_conflicting_reads() {
    let mut emu = blank_emulator();
    emu.bus.wram[0x0005] = 0x77;
    emu.bus.write(0xFF46, 0xC0);
    // Work RAM is the source: reads there see 0xFF while high RAM stays reachable
    emu.bus.hram[0] = 0x11;
    assert_eq!(emu.bus.read(0xC005), 0xFF);
    assert_eq!(emu.bus.read(0xFF80), 0x11);
    for _ in 0..160 {
        emu.cpu.handle_oam_dma(&mut emu.bus);
    }
    assert!(emu.bus.oam_dma.cycle.is_none());
    assert_eq!(emu.bus.ppu.oam[5], 0x77);
    assert_eq!(emu.bus.read(0xC005), 0x77);
    assert!(CpuBus::check_oam_dma_bus_conflict(0x00, 0xA000));
    assert!(!CpuBus::check_oam_dma_bus_conflict(0x00, 0xC000));
    assert!(CpuBus::check_oam_dma_bus_conflict(0xC0, 0x8000));
}

#[test]
fn interrupt_registers_read_unused_bits_as_one() {
    let mut emu = blank_emulator();
    emu.bus.write(0xFF0F, 0x00);
    assert_eq!(emu.bus.read(0xFF0F), 0xE0);
    emu.bus.write(0xFFFF, 0xFF);
    assert_eq!(emu.bus.read(0xFFFF), 0xFF);
}

#[test]
fn hdma_registers() {
    let mut emu = blank_emulator();
    emu.bus.write(0xFF51, 0x12);
    emu.bus.write(0xFF52, 0x34);
    assert_eq!(emu.bus.get_hdma().source, 0x1234);
    emu.bus.write(0xFF55, 0x85);
    assert!(emu.bus.get_hdma().hblank_mode);
    assert_eq!(emu.bus.read(0xFF55), 0x05);
    emu.bus.write(0xFF55, 0x00);
    assert_eq!(emu.bus.read(0xFF55), 0x85);
}

#[test]
fn mem_dump_reads_a_range() {
    let mut emu = blank_emulator();
    emu.bus.wram[0] = 1;
    emu.bus.wram[1] = 2;
    assert_eq!(emu.mem_dump(0xC000, 0xC001), vec![1, 2]);
    assert_eq!(emu.mem_dump(0xC001, 0xC000).len(), 0);
    assert_eq!(emu.cpu().pc, 0x0100);
    assert!(emu.get_save_data().is_none());
}

#[test]
fn general_purpose_hdma_copies_blocks_to_vram() {
    let mut emu = blank_emulator();
    for i in 0..32 {
        emu.bus.wram[i] = i as u8 + 1;
    }
    emu.bus.write(0xFF51, 0xC0);
    emu.bus.write(0xFF52, 0x00);
    emu.bus.write(0xFF53, 0x00);
    emu.bus.write(0xFF54, 0x10);
    emu.bus.write(0xFF55, 0x01); // two blocks, general purpose
    emu.bus.run_hdma();
    assert_eq!(emu.bus.read(0xFF55), 0xFF);
    assert_eq!(emu.bus.ppu.vram[0x10], 1);
    assert_eq!(emu.bus.ppu.vram[0x2F], 32);
}

#[test]
fn hblank_hdma_copies_one_block_per_hblank() {
    let mut emu = blank_emulator();
    emu.bus.wram[0] = 9;
    emu.bus.wram[16] = 10;
    emu.bus.write(0xFF51, 0xC0);
    emu.bus.write(0xFF52, 0x00);
    emu.bus.write(0xFF53, 0x00);
    emu.bus.write(0xFF54, 0x00);
    emu.bus.write(0xFF55, 0x81); // two blocks, one per HBlank
    emu.bus.run_hdma();
    assert_eq!(emu.bus.ppu.vram[0], 0);
    emu.bus.ppu_bus.set_hdma_hblank(true);
    emu.bus.run_hdma();
    assert_eq!(emu.bus.ppu.vram[0], 9);
    assert_eq!(emu.bus.read(0xFF55), 0x00);
    emu.bus.run_hdma();
    assert_eq!(emu.bus.ppu.vram[16], 0);
    emu.bus.ppu_bus.set_hdma_hblank(true);
    emu.bus.run_hdma();
    assert_eq!(emu.bus.ppu.vram[16], 10);
    assert_eq!(emu.bus.read(0xFF55), 0xFF);
}

#[test]
fn background_tile_is_drawn_through_the_palette() {
    let mut emu = idle_emulator();
    // Tile 0: every row has low plane set, high plane clear: colour 1 everywhere
    for row in 0..8 {
        emu.bus.ppu.vram[row * 2] = 0xFF;
    }
    emu.bus.write(0xFF47, 0xE4); // identity palette
    emu.bus.write(0xFF40, 0x91); // LCD on, tile data at 0x8000, background on
    let mut frames = Vec::new();
    while frames.len() < 2 {
        if let Some(frame) = emu.clock() {
            frames.push(frame);
        }
    }
    let frame = &frames[1];
    assert_eq!(&frame[0..4], &[0xAA, 0xAA, 0xAA, 0xFF]);
    let last = (143 * 160 + 159) * 4;
    assert_eq!(&frame[last..last + 4], &[0xAA, 0xAA, 0xAA, 0xFF]);
}

#[test]
fn sprite_is_drawn_over_the_background() {
    let mut emu = idle_emulator();
    // Tile 1: colour 3 everywhere
    for i in 16..32 {
        emu.bus.ppu.vram[i] = 0xFF;
    }
    // Sprite 0 at screen (8, 16) using tile 1
    emu.bus.ppu.oam[0] = 16 + 16;
    emu.bus.ppu.oam[1] = 8 + 8;
    emu.bus.ppu.oam[2] = 1;
    emu.bus.ppu.oam[3] = 0;
    emu.bus.write(0xFF47, 0xE4);
    emu.bus.write(0xFF48, 0xE4);
    emu.bus.write(0xFF40, 0x93); // LCD on, sprites on, background on
    let mut frames = Vec::new();
    while frames.len() < 2 {
        if let Some(frame) = emu.clock() {
            frames.push(frame);
        }
    }
    let frame = &frames[1];
    let at = |x: usize, y: usize| {
        let i = (y * 160 + x) * 4;
        [frame[i], frame[i + 1], frame[i + 2]]
    };
    assert_eq!(at(10, 18), [0x00, 0x00, 0x00]);
    assert_eq!(at(0, 0), [0xFF, 0xFF, 0xFF]);
    assert_eq!(at(40, 18), [0xFF, 0xFF, 0xFF]);
}

#[test]
fn window_covers_the_right_half() {
    let mut emu = idle_emulator();
    // Tile 1: colour 3 everywhere; the window map (0x9C00) uses it
    for i in 16..32 {
        emu.bus.ppu.vram[i] = 0xFF;
    }
    for i in 0x1C00..0x2000 {
        emu.bus.ppu.vram[i] = 1;
    }
    emu.bus.write(0xFF47, 0xE4);
    emu.bus.write(0xFF4A, 0); // WY
    emu.bus.write(0xFF4B, 80 + 7); // WX
    emu.bus.write(0xFF40, 0xF1); // LCD, window map 0x9C00, window, tile data 0x8000, background
    let mut frames = Vec::new();
    while frames.len() < 2 {
        if let Some(frame) = emu.clock() {
            frames.push(frame);
        }
    }
    let frame = &frames[1];
    let at = |x: usize, y: usize| {
        let i = (y * 160 + x) * 4;
        [frame[i], frame[i + 1], frame[i + 2]]
    };
    assert_eq!(at(10, 10), [0xFF, 0xFF, 0xFF]);
    assert_eq!(at(100, 10), [0x00, 0x00, 0x00]);
    assert_eq!(at(159, 143), [0x00, 0x00, 0x00]);
}

#[test]
fn colour_mode_uses_palette_memory() {
    let mut rom = vec![0u8; 0x8000];
    rom[0x100] = 0x18;
    rom[0x101] = 0xFE;
    rom[0x143] = 0x80; // colour supported
    let mut checksum: u8 = 0;
    for b in &rom[0x134..0x14D] {
        checksum = checksum.wrapping_sub(*b).wrapping_sub(1);
    }
    rom[0x14d] = checksum;
    let mut emu = Emulator::new(&rom, None).ok().unwrap();
    assert!(emu.bus.cgb_mode);
    // Background palette 0, colour 0: pure green (0x03E0)
    emu.bus.write(0xFF68, 0x80);
    emu.bus.write(0xFF69, 0xE0);
    emu.bus.write(0xFF69, 0x03);
    emu.bus.write(0xFF40, 0x91);
    let mut frames = Vec::new();
    while frames.len() < 2 {
        if let Some(frame) = emu.clock() {
            frames.push(frame);
        }
    }
    assert_eq!(&frames[1][0..4], &[0x00, 0xFF, 0x00, 0xFF]);
}

#[test]
fn test() {
    let mut rom = [0u8; 0x150];
    rom[0x14d] = 231;
    let mut emu = Emulator::new(&rom, None).unwrap();

    for _ in 0..10 {
        emu.clock();
    }
}

#[test]
fn joypad_changes_after_the_select_write_are_seen() {
    let mut emu = blank_emulator();
    emu.bus.write(0xFF00, 0x20); // select the direction keys
    assert_eq!(emu.bus.read(0xFF00), 0x20 | 0x0F);
    emu.set_joypad(gband::JOYPAD_UP);
    assert_eq!(emu.bus.read(0xFF00), 0x20 | 0x0B);
    emu.set_joypad(0);
    assert_eq!(emu.bus.read(0xFF00), 0x20 | 0x0F);
}

#[test]
fn code_runs_from_cartridge_rom() {
    let mut rom = vec![0u8; 0x8000];
    rom[0x100] = 0x3E; // ld a, 0x42
    rom[0x101] = 0x42;
    rom[0x102] = 0xC3; // jp 0x0150
    rom[0x103] = 0x50;
    rom[0x104] = 0x01;
    rom[0x150] = 0x18; // jr -2
    rom[0x151] = 0xFE;
    rom[0x14d] = 231;
    let mut emu = Emulator::new(&rom, None).ok().unwrap();
    for _ in 0..64 {
        emu.cpu.clock(&mut emu.bus);
    }
    assert_eq!(emu.cpu.a, 0x42);
    assert!(emu.cpu.pc >= 0x150 && emu.cpu.pc <= 0x152);
}
