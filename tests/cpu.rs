use gband::Emulator;

fn mock_emulator() -> Emulator {
    let mut rom = vec![0u8; 0x200];
    rom[0x14d] = 231;
    Emulator::new(&rom, None).unwrap()
}

/// Executes `n` instructions; because of the fetch/execute overlap the last cycle of each
/// also fetches the next one.
fn execute_n(emu: &mut Emulator, n: usize) {
    for _ in 0..n {
        loop {
            if emu.cpu.cycles == 1 {
                emu.cpu.clock(&mut emu.bus);
                break;
            } else {
                emu.cpu.clock(&mut emu.bus);
            }
        }
    }
}

#[test]
fn test_ld_rr() {
    let mut emu = mock_emulator();

    emu.cpu.pc = 0xC000;
    emu.bus.wram[0] = 0x40; // B,B
    emu.bus.wram[1] = 0x41; // B,C
    emu.bus.wram[2] = 0x42; // B,D
    emu.bus.wram[3] = 0x43; // B,E
    emu.bus.wram[4] = 0x44; // B,H
    emu.bus.wram[5] = 0x45; // B,L
    emu.bus.wram[6] = 0x47; // B,A
    emu.bus.wram[7] = 0x78; // A,B
    emu.bus.wram[8] = 0x60; // H,B
    emu.bus.wram[9] = 0x6A; // L,D

    emu.cpu.b = 1;
    execute_n(&mut emu, 1);
    assert_eq!(emu.cpu.b, 1);

    emu.cpu.c = 2;
    execute_n(&mut emu, 1);
    assert_eq!(emu.cpu.b, 2);

    emu.cpu.d = 3;
    execute_n(&mut emu, 1);
    assert_eq!(emu.cpu.b, 3);

    emu.cpu.e = 4;
    execute_n(&mut emu, 1);
    assert_eq!(emu.cpu.b, 4);

    emu.cpu.h = 5;
    execute_n(&mut emu, 1);
    assert_eq!(emu.cpu.b, 5);

    emu.cpu.l = 6;
    execute_n(&mut emu, 1);
    assert_eq!(emu.cpu.b, 6);

    emu.cpu.a = 7;
    execute_n(&mut emu, 1);
    assert_eq!(emu.cpu.b, 7);

    emu.cpu.b = 20;
    execute_n(&mut emu, 1);
    assert_eq!(emu.cpu.a, 20);

    emu.cpu.b = 21;
    execute_n(&mut emu, 1);
    assert_eq!(emu.cpu.h, 21);

    emu.cpu.d = 30;
    execute_n(&mut emu, 1);
    assert_eq!(emu.cpu.l, 30);
}

#[test]
fn test_ld_r_imm() {
    let mut emu = mock_emulator();

    emu.cpu.pc = 0xC000;
    emu.bus.wram[0] = 0x06; // B,n
    emu.bus.wram[1] = 1;
    emu.bus.wram[2] = 0x3E; // A,n
    emu.bus.wram[3] = 255;

    execute_n(&mut emu, 2);
    assert_eq!(emu.cpu.b, 1);
    assert_eq!(emu.cpu.a, 255);
}

#[test]
fn test_ld_r_mem() {
    let mut emu = mock_emulator();

    emu.cpu.pc = 0xC000;
    emu.bus.wram[0] = 0xFA; // A,(nn)
    emu.bus.wram[1] = 0x00;
    emu.bus.wram[2] = 0xD0;
    emu.bus.wram[3] = 0x7E; // A,(HL)
    emu.bus.wram[0x1000] = 20;
    emu.bus.wram[0x1010] = 42;

    emu.cpu.h = 0xD0;
    emu.cpu.l = 0x10;

    execute_n(&mut emu, 1);
    assert_eq!(emu.cpu.a, 20);

    execute_n(&mut emu, 1);
    assert_eq!(emu.cpu.a, 42);
}

#[test]
fn test_ldh() {
    let mut emu = mock_emulator();

    emu.cpu.pc = 0xC000;
    emu.bus.wram[0] = 0xF2; // A,(0xFF00 + C)
    emu.bus.wram[1] = 0xF0; // A,(0xFF00 + n)
    emu.bus.wram[2] = 0xA0;
    emu.bus.hram[0x10] = 42; // At 0xFF80+0x10
    emu.bus.hram[0x20] = 69; // At 0xFF80+0x20
    emu.cpu.c = 0x90;

    execute_n(&mut emu, 1);
    assert_eq!(emu.cpu.a, 42);

    execute_n(&mut emu, 1);
    assert_eq!(emu.cpu.a, 69);
}

#[test]
fn test_ld16_r_imm() {
    let mut emu = mock_emulator();

    emu.cpu.pc = 0xC000;
    emu.bus.wram[0] = 0x01; // BC,nn
    emu.bus.wram[1] = 0x10; // lsb
    emu.bus.wram[2] = 0x20; // msb
    emu.bus.wram[3] = 0x11; // DE,nn
    emu.bus.wram[4] = 0x30; // lsb
    emu.bus.wram[5] = 0x40; // msb
    emu.bus.wram[6] = 0x21; // HL,nn
    emu.bus.wram[7] = 0x50; // lsb
    emu.bus.wram[8] = 0x60; // msb
    emu.bus.wram[9] = 0x31; // SP,nn
    emu.bus.wram[10] = 0x70; // lsb
    emu.bus.wram[11] = 0x80; // msb

    execute_n(&mut emu, 4);
    assert_eq!(emu.cpu.b, 0x20);
    assert_eq!(emu.cpu.c, 0x10);
    assert_eq!(emu.cpu.d, 0x40);
    assert_eq!(emu.cpu.e, 0x30);
    assert_eq!(emu.cpu.h, 0x60);
    assert_eq!(emu.cpu.l, 0x50);
    assert_eq!(emu.cpu.sp, 0x8070);
}

#[test]
fn test_push() {
    let mut emu = mock_emulator();

    emu.cpu.pc = 0xC000;
    emu.bus.wram[0] = 0xC5; // BC

    emu.cpu.sp = 0xC500;
    emu.cpu.b = 0x10;
    emu.cpu.c = 0x20;
    execute_n(&mut emu, 1);
    assert_eq!(emu.cpu.sp, 0xC4FE);
    assert_eq!(emu.bus.wram[0x4FF], 0x10);
    assert_eq!(emu.bus.wram[0x4FE], 0x20);
}

#[test]
fn test_pop() {
    let mut emu = mock_emulator();

    emu.cpu.pc = 0xC000;
    emu.bus.wram[0] = 0xC1; // BC
    emu.bus.wram[0x4FE] = 0x20;
    emu.bus.wram[0x4FF] = 0x10;

    emu.cpu.sp = 0xC4FE;
    execute_n(&mut emu, 1);
    assert_eq!(emu.cpu.sp, 0xC500);
    assert_eq!(emu.cpu.b, 0x10);
    assert_eq!(emu.cpu.c, 0x20);
}

#[test]
fn test_jump() {
    let mut emu = mock_emulator();

    emu.cpu.f = 0;
    emu.cpu.pc = 0xC000;
    emu.bus.wram[0] = 0xC3; // jp immediate
    emu.bus.wram[1] = 0x00;
    emu.bus.wram[2] = 0xD0;
    emu.bus.wram[0x1000] = 0xCA; // jp zero (fail)
    emu.bus.wram[0x1001] = 0x50;
    emu.bus.wram[0x1002] = 0xD0;
    emu.bus.wram[0x1003] = 0xC2; // jp non-zero
    emu.bus.wram[0x1004] = 0x50;
    emu.bus.wram[0x1005] = 0xD0;
    emu.bus.wram[0x1050] = 0x18; // jp relative
    emu.bus.wram[0x1051] = 0xEE; // -0x12 when signed, pc will be 0x1052 after this
    emu.bus.wram[0x1040] = 0x20; // jp relative non-zero
    emu.bus.wram[0x1041] = 0x1E;

    execute_n(&mut emu, 1);
    assert_eq!(emu.cpu.pc, 0xD000 + 1); // +1 because of fetch-execute overlap occured

    execute_n(&mut emu, 1);
    assert_eq!(emu.cpu.pc, 0xD003 + 1);

    execute_n(&mut emu, 1);
    assert_eq!(emu.cpu.pc, 0xD050 + 1);

    execute_n(&mut emu, 1);
    assert_eq!(emu.cpu.pc, 0xD040 + 1);

    execute_n(&mut emu, 1);
    assert_eq!(emu.cpu.pc, 0xD060 + 1);
}

/// Machine cycles from the fetch of the instruction at `pc` to the fetch of the next one.
fn cycles_of(emu: &mut Emulator) -> usize {
    // Fetch
    emu.cpu.clock(&mut emu.bus);
    let mut n = 1;
    while emu.cpu.cycles != 1 {
        emu.cpu.clock(&mut emu.bus);
        n += 1;
    }
    n
}

#[test]
fn nop_takes_one_cycle_and_call_six() {
    let mut emu = mock_emulator();
    emu.cpu.pc = 0xC000;
    emu.cpu.sp = 0xD000;
    emu.bus.wram[0] = 0x00;
    assert_eq!(emu.cpu.cycles, 0);
    emu.cpu.clock(&mut emu.bus);
    assert_eq!(emu.cpu.cycles, 1);

    let mut emu = mock_emulator();
    emu.cpu.pc = 0xC000;
    emu.cpu.sp = 0xD000;
    emu.bus.wram[0] = 0xCD; // call 0xC100
    emu.bus.wram[1] = 0x00;
    emu.bus.wram[2] = 0xC1;
    emu.cpu.clock(&mut emu.bus);
    assert_eq!(emu.cpu.cycles, 6);
    let mut n = 0;
    while emu.cpu.cycles != 0 {
        emu.cpu.clock(&mut emu.bus);
        n += 1;
        if emu.cpu.pc == 0xC101 {
            break;
        }
    }
    assert_eq!(n, 6);
    assert_eq!(emu.cpu.sp, 0xCFFE);
}

#[test]
fn conditional_jump_costs_bonus_only_when_taken() {
    // jp z, taken
    let mut emu = mock_emulator();
    emu.cpu.pc = 0xC000;
    emu.cpu.f = 0x80;
    emu.bus.wram[0] = 0xCA;
    emu.bus.wram[1] = 0x00;
    emu.bus.wram[2] = 0xC1;
    assert_eq!(cycles_of(&mut emu), 4);
    // jp z, not taken
    let mut emu = mock_emulator();
    emu.cpu.pc = 0xC000;
    emu.cpu.f = 0x00;
    emu.bus.wram[0] = 0xCA;
    emu.bus.wram[1] = 0x00;
    emu.bus.wram[2] = 0xC1;
    assert_eq!(cycles_of(&mut emu), 3);
    // call nz, taken: 3 + 3
    let mut emu = mock_emulator();
    emu.cpu.pc = 0xC000;
    emu.cpu.sp = 0xD000;
    emu.cpu.f = 0x00;
    emu.bus.wram[0] = 0xC4;
    emu.bus.wram[1] = 0x00;
    emu.bus.wram[2] = 0xC1;
    assert_eq!(cycles_of(&mut emu), 6);
    // ret c, not taken
    let mut emu = mock_emulator();
    emu.cpu.pc = 0xC000;
    emu.cpu.f = 0x00;
    emu.bus.wram[0] = 0xD8;
    assert_eq!(cycles_of(&mut emu), 2);
    // jr nc, taken: 2 + 1
    let mut emu = mock_emulator();
    emu.cpu.pc = 0xC000;
    emu.cpu.f = 0x00;
    emu.bus.wram[0] = 0x30;
    emu.bus.wram[1] = 0x10;
    assert_eq!(cycles_of(&mut emu), 3);
}

#[test]
fn vblank_is_serviced_before_lcd_stat() {
    let mut emu = mock_emulator();
    emu.cpu.pc = 0xC000;
    emu.cpu.sp = 0xD000;
    emu.cpu.interrupt_master_enable = true;
    emu.bus.write(0xFFFF, 0x1F);
    emu.bus.write(0xFF0F, 0x1F);
    emu.cpu.handle_interrupt(&mut emu.bus);
    assert_eq!(emu.cpu.pc, 0x0040);
    assert_eq!(emu.cpu.cycles, 5);
    assert!(!emu.cpu.interrupt_master_enable);
    assert_eq!(emu.bus.read(0xFF0F) & 0x1F, 0x1E);

    emu.cpu.interrupt_master_enable = true;
    emu.cpu.handle_interrupt(&mut emu.bus);
    assert_eq!(emu.cpu.pc, 0x0048);
    assert_eq!(emu.bus.read(0xFF0F) & 0x1F, 0x1C);
}

#[test]
fn pending_interrupt_wakes_halt_without_ime() {
    let mut emu = mock_emulator();
    emu.cpu.pc = 0xC000;
    emu.cpu.halted = true;
    emu.bus.write(0xFFFF, 0x04);
    emu.bus.write(0xFF0F, 0x04);
    emu.cpu.handle_interrupt(&mut emu.bus);
    assert!(!emu.cpu.halted);
    assert_eq!(emu.cpu.pc, 0xC000);
}

#[test]
fn halt_with_masked_pending_interrupt_triggers_halt_bug() {
    let mut emu = mock_emulator();
    emu.cpu.pc = 0xC000;
    emu.bus.wram[0] = 0x76; // halt
    emu.bus.wram[1] = 0x3C; // inc a
    emu.bus.write(0xFFFF, 0x01);
    emu.bus.write(0xFF0F, 0x01);
    emu.cpu.a = 0;
    execute_n(&mut emu, 1);
    assert!(!emu.cpu.halted);
    // The byte after HALT runs twice
    execute_n(&mut emu, 2);
    assert_eq!(emu.cpu.a, 2);
}

#[test]
fn alu_add_sets_carry_and_zero() {
    let mut emu = mock_emulator();
    emu.cpu.pc = 0xC000;
    emu.bus.wram[0] = 0xC6; // add a, n
    emu.bus.wram[1] = 0x01;
    emu.cpu.a = 0xFF;
    execute_n(&mut emu, 1);
    assert_eq!(emu.cpu.a, 0);
    assert_eq!(emu.cpu.f & 0xF0, 0x80 | 0x20 | 0x10);
}

#[test]
fn cb_swap_and_bit() {
    let mut emu = mock_emulator();
    emu.cpu.pc = 0xC000;
    emu.bus.wram[0] = 0xCB;
    emu.bus.wram[1] = 0x37; // swap a
    emu.bus.wram[2] = 0xCB;
    emu.bus.wram[3] = 0x47; // bit 0, a
    emu.cpu.a = 0x12;
    execute_n(&mut emu, 1);
    assert_eq!(emu.cpu.a, 0x21);
    execute_n(&mut emu, 1);
    assert_eq!(emu.cpu.f & 0x80, 0);
}
