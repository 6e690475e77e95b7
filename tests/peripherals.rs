use std::cell::RefCell;
use std::collections::VecDeque;
use std::rc::Rc;

use gband::decoder::Opcode;
use gband::fifo::{CgbPalette, PixelFifo};
use gband::inputs::{Button, Event, EventType, InitialInputs};
use gband::interrupt::{lowest_set_bit_index, InterruptState};
use gband::serial::{SerialPort, SerialTransport};
use gband::timer::TimerRegisters;

#[test]
fn timer_overflow_reloads_one_cycle_later() {
    let mut timer = TimerRegisters::new();
    timer.write(0xFF06, 0x42); // modulo
    timer.write(0xFF07, 0x05); // enabled, fastest clock (divider bit 3)
    timer.write(0xFF05, 0xFF);
    // Run until the falling edge that overflows the counter
    let mut n = 0;
    while timer.read(0xFF05) == 0xFF {
        assert!(!timer.clock());
        n += 1;
        assert!(n <= 4);
    }
    assert_eq!(timer.read(0xFF05), 0x00);
    // The interrupt and the reload come on the following clock
    assert!(timer.clock());
    assert_eq!(timer.read(0xFF05), 0x42);
    assert!(!timer.clock());
}

#[test]
fn counter_write_during_reload_cycle_is_ignored() {
    let mut timer = TimerRegisters::new();
    timer.write(0xFF06, 0x42);
    timer.write(0xFF07, 0x05);
    timer.write(0xFF05, 0xFF);
    while timer.read(0xFF05) == 0xFF {
        timer.clock();
    }
    assert!(timer.clock());
    timer.write(0xFF05, 0x10);
    assert_eq!(timer.read(0xFF05), 0x42);
}

#[test]
fn timer_registers_read_back() {
    let mut timer = TimerRegisters::new();
    timer.write(0xFF07, 0xFF);
    assert_eq!(timer.read(0xFF07), 0xFF);
    timer.write(0xFF07, 0x00);
    assert_eq!(timer.read(0xFF07), 0xF8);
    for _ in 0..64 {
        timer.clock();
    }
    assert_eq!(timer.read(0xFF04), 1);
    timer.write(0xFF04, 0x12);
    assert_eq!(timer.read(0xFF04), 0);
    assert_eq!(timer.get_mask(), 0x200);
}

#[test]
fn interrupt_priority_is_lowest_bit() {
    assert_eq!(lowest_set_bit_index(0x1F), 0);
    assert_eq!(lowest_set_bit_index(0x1E), 1);
    assert_eq!(lowest_set_bit_index(0x10), 4);
    let mut state = InterruptState::new();
    state.enable = 0x1F;
    state.request(0x04);
    assert_eq!(state.pending(), 0x04);
}

/// One end of an in-memory link cable.
struct Loopback {
    incoming: Rc<RefCell<VecDeque<u8>>>,
    outgoing: Rc<RefCell<VecDeque<u8>>>,
}

impl SerialTransport for Loopback {
    fn connect(&mut self) -> bool {
        true
    }

    fn is_connected(&self) -> bool {
        true
    }

    fn reset(&mut self) {}

    fn send(&mut self, data: u8) {
        self.outgoing.borrow_mut().push_back(data);
    }

    fn recv(&mut self) -> Option<u8> {
        self.incoming.borrow_mut().pop_front()
    }
}

#[test]
fn serial_ports_exchange_bytes_over_loopback() {
    let a_to_b = Rc::new(RefCell::new(VecDeque::new()));
    let b_to_a = Rc::new(RefCell::new(VecDeque::new()));
    let mut master = SerialPort::new();
    let mut slave = SerialPort::new();
    master.set_serial(Box::new(Loopback { incoming: b_to_a.clone(), outgoing: a_to_b.clone() }));
    slave.set_serial(Box::new(Loopback { incoming: a_to_b, outgoing: b_to_a }));
    master.set_buffer(0x12);
    slave.set_buffer(0x34);
    // Fast speed on both; master drives the clock
    slave.set_control(0x80 | 0x02);
    master.set_control(0x80 | 0x02 | 0x01);

    let mut master_done = None;
    let mut slave_done = None;
    for cycle in 0..200 {
        if master.clock() {
            assert!(master_done.is_none());
            master_done = Some(cycle);
        }
        if slave.clock() {
            assert!(slave_done.is_none());
            slave_done = Some(cycle);
        }
    }
    assert!(master_done.is_some());
    assert!(slave_done.is_some());
    assert_eq!(master.get_buffer(), 0x34);
    assert_eq!(slave.get_buffer(), 0x12);
    assert_eq!(master.get_control() & 0x80, 0);
    assert_eq!(slave.get_control() & 0x80, 0);
    // Eight bit-cycles of four machine cycles each, plus the one the master waited for a reply
    assert_eq!(slave_done, Some(8 * 4 - 1));
    assert_eq!(master_done, Some(9 * 4 - 1));
}

#[test]
fn serial_without_peer_never_completes() {
    let mut port = SerialPort::new();
    port.set_buffer(0x55);
    port.set_control(0x83);
    for _ in 0..1000 {
        assert!(!port.clock());
    }
    assert_eq!(port.get_buffer(), 0x55);
    assert_eq!(port.get_control(), 0x83 | 0x7C);
}

#[test]
fn pixel_fifo_pops_in_order_and_keeps_opaque_pixels() {
    let mut fifo = PixelFifo::new();
    assert!(fifo.is_empty());
    fifo.load([0x100, 0x200, 0x300, 0, 0, 0, 0, 0x101]);
    assert_eq!(fifo.pop(), 0x101);
    assert_eq!(fifo.n_pixels, 7);
    fifo.drain(2);
    assert_eq!(fifo.n_pixels, 5);
    assert_eq!(fifo.pop(), 0);
    // Loading over a partly filled FIFO keeps the opaque pixels already there
    fifo.load([0x3FF; 8]);
    assert_eq!(fifo.fifo[6], 0x300);
    assert_eq!(fifo.fifo[4], 0x100);
    assert_eq!(fifo.fifo[7], 0x3FF);
    assert_eq!(fifo.fifo[0], 0x3FF);
    fifo.empty();
    assert!(fifo.is_empty());
}

#[test]
fn cgb_palette_expands_555_colours() {
    let mut palette = CgbPalette::new(0);
    palette.write_spec(0x80 | 0x0A); // palette 1, colour 1, auto-increment
    palette.write_data(0x1F); // red = 31
    palette.write_data(0x7C); // blue = 31
    assert_eq!(palette.read_spec(), 0x80 | 0x0C);
    assert_eq!(palette.get_rgb(1, 1), [0xFF, 0x00, 0xFF]);
    palette.write_spec(0x0A);
    assert_eq!(palette.read_data(), 0x1F);
    palette.write_data(0x01);
    assert_eq!(palette.read_spec(), 0x0A);
    assert_eq!(palette.get_rgb(1, 1), [0x08, 0x00, 0xFF]);
}

#[test]
fn scripted_inputs_sort_by_frame_and_apply() {
    let events = vec![
        Event { frame: 5, ty: EventType::Released, buttons: vec![Button::A] },
        Event { frame: 1, ty: EventType::Pressed, buttons: vec![Button::A, Button::Start] },
        Event { frame: 5, ty: EventType::Pressed, buttons: vec![Button::Left] },
    ];
    let inputs = InitialInputs::sort_by_frame(events);
    let frames: Vec<usize> = inputs.0.iter().map(|e| e.frame).collect();
    assert_eq!(frames, vec![1, 5, 5]);
    // Events of one frame keep their order
    assert_eq!(inputs.0[1].ty, EventType::Released);
    let mut state = 0u8;
    for e in &inputs.0 {
        state = e.apply(state);
    }
    assert_eq!(state, gband::JOYPAD_START | gband::JOYPAD_LEFT);
    assert_eq!(Button::Down.joypad_bit(), 0x08);
}

#[test]
fn disassembly_walks_instruction_lengths() {
    let mut rom = vec![0u8; 0x8000];
    rom[0x14d] = 231;
    rom[0x00] = 0xC3; // jp 0x0150
    rom[0x01] = 0x50;
    rom[0x02] = 0x01;
    rom[0x03] = 0x18; // jr -2
    rom[0x04] = 0xFE;
    let emu = gband::Emulator::new(&rom, None).ok().unwrap();
    let listing = emu.disassemble(0, 0xFFFF);
    assert_eq!(listing[0].opcode, Opcode::JpImm);
    assert_eq!(listing[0].operand, 0x0150);
    assert_eq!(listing[1].addr, 3);
    assert_eq!(listing[1].opcode, Opcode::JpRel);
    assert_eq!(listing[1].operand, 0x0003);
    assert_eq!(listing[2].addr, 5);
}

#[test]
fn bit_step_completes_on_the_eighth_connected_bit() {
    let mut port = SerialPort::new();
    port.set_buffer(0x12);
    port.set_control(0x81);
    for i in 0..7 {
        assert!(!port.bit_step(true, Some(0x99)));
        assert_eq!(port.bit_cycle, i + 1);
    }
    assert!(port.bit_step(true, Some(0x00)));
    assert_eq!(port.get_buffer(), 0x99);
    assert_eq!(port.get_control() & 0x80, 0);
    assert_eq!(port.bit_cycle, 0);
}

#[test]
fn lost_link_restarts_the_bit_counter() {
    let mut port = SerialPort::new();
    port.set_buffer(0x12);
    port.set_control(0x81);
    assert!(!port.bit_step(true, Some(0x99)));
    assert!(!port.bit_step(true, None));
    assert_eq!(port.bit_cycle, 2);
    assert!(!port.bit_step(false, None));
    assert_eq!(port.bit_cycle, 0);
    assert_eq!(port.get_buffer(), 0x12);
    assert_eq!(port.get_control() & 0x80, 0x80);
}

#[test]
fn master_without_reply_waits_without_resending() {
    let mut port = SerialPort::new();
    port.set_control(0x81);
    assert!(!port.bit_step(true, None));
    assert!(port.skip_send);
    assert_eq!(port.bit_cycle, 0);
    assert!(!port.bit_step(true, Some(1)));
    assert!(!port.skip_send);
    assert_eq!(port.bit_cycle, 1);
}
