use vstd::prelude::*;

verus! {

/// Timer control bit: the counter runs.
pub const TIMER_ENABLED: u8 = 0x04;

/// Timer control bits that always read as 1.
pub const TIMER_UNUSED: u8 = 0xF8;

/// Divider bit that the clock-select field of `control` monitors.
pub open spec fn monitored_bit(control: u8) -> u16 {
    let sel = control & 0x03;
    if sel == 0 {
        0x200
    } else if sel == 1 {
        0x8
    } else if sel == 2 {
        0x20
    } else {
        0x80
    }
}

/// The divider, the programmable counter (TIMA), its modulo (TMA) and control (TAC).
#[derive(Clone, Copy, Debug, PartialEq, Eq, Structural)]
pub struct TimerRegisters {
    pub div: u16,
    pub counter: u8,
    pub modulo: u8,
    pub control: u8,
    pub tac_falling_edge_latch: bool,
    pub interrupt_cycle_countdown: u8,
}

impl TimerRegisters {
    /// The state after the divider takes the value `div`: a falling edge of
    /// "monitored bit and enabled" increments the counter, and an overflow arms the reload.
    pub open spec fn with_div(self, div: u16) -> TimerRegisters {
        let mask = monitored_bit(self.control);
        let latch = self.control & TIMER_ENABLED != 0 && div & mask == mask;
        let fell = !latch && self.tac_falling_edge_latch;
        TimerRegisters {
            div,
            counter: if fell {
                ((self.counter + 1) % 256) as u8
            } else {
                self.counter
            },
            interrupt_cycle_countdown: if fell && self.counter == 0xFF {
                2
            } else {
                self.interrupt_cycle_countdown
            },
            tac_falling_edge_latch: latch,
            ..self
        }
    }

    /// The state after the reload step that begins each clock.
    pub open spec fn reload_step(self) -> TimerRegisters {
        if self.interrupt_cycle_countdown == 2 {
            TimerRegisters {
                interrupt_cycle_countdown: 1,
                counter: if self.counter == 0 {
                    self.modulo
                } else {
                    self.counter
                },
                ..self
            }
        } else if self.interrupt_cycle_countdown == 1 {
            TimerRegisters { interrupt_cycle_countdown: 0, ..self }
        } else {
            self
        }
    }

    pub fn new() -> (r: Self)
        ensures
            r.div == 0 && r.counter == 0 && r.modulo == 0 && r.control == 0,
            !r.tac_falling_edge_latch && r.interrupt_cycle_countdown == 0,
    {
        TimerRegisters {
            div: 0,
            counter: 0,
            modulo: 0,
            control: 0,
            tac_falling_edge_latch: false,
            interrupt_cycle_countdown: 0,
        }
    }

    /// Advances the timer by one machine cycle (four divider ticks); returns whether the
    /// timer interrupt fires.
    pub fn clock(&mut self) -> (r: bool)
        ensures
            r == (old(self).interrupt_cycle_countdown == 2 && old(self).counter == 0),
            *final(self) == old(self).reload_step().with_div(
                ((old(self).div + 4) % 0x10000) as u16,
            ),
    {
        // A counter write during the reload cycle leaves it non-zero: then no interrupt fires
        let result = self.interrupt_cycle_countdown == 2 && self.counter == 0;
        if self.interrupt_cycle_countdown == 2 {
            self.interrupt_cycle_countdown = 1;
            if self.counter == 0 {
                self.counter = self.modulo;
            }
        } else if self.interrupt_cycle_countdown == 1 {
            self.interrupt_cycle_countdown = 0;
        }
        let div = self.div.wrapping_add(4);
        self.set_div(div);
        result
    }

    /// Writes a timer register.
    pub fn write(&mut self, addr: u16, data: u8)
        ensures
            addr == 0xFF04 ==> *final(self) == old(self).with_div(0),
            addr == 0xFF05 ==> *final(self) == (TimerRegisters {
                counter: if old(self).interrupt_cycle_countdown != 1 {
                    data
                } else {
                    old(self).counter
                },
                ..*old(self)
            }),
            addr == 0xFF06 ==> *final(self) == (TimerRegisters {
                modulo: data,
                counter: if old(self).interrupt_cycle_countdown == 1 {
                    data
                } else {
                    old(self).counter
                },
                ..*old(self)
            }),
            addr == 0xFF07 ==> *final(self) == (TimerRegisters { control: data & 0x07, ..*old(self) }),
            !(0xFF04 <= addr <= 0xFF07) ==> *final(self) == *old(self),
    {
        if addr == 0xFF04 {
            self.reset_div();
        } else if addr == 0xFF05 {
            // During the reload cycle the hardware reload wins over the write
            if self.interrupt_cycle_countdown != 1 {
                self.counter = data;
            }
        } else if addr == 0xFF06 {
            self.modulo = data;
            if self.interrupt_cycle_countdown == 1 {
                self.counter = data;
            }
        } else if addr == 0xFF07 {
            self.control = data & 0x07;
        }
    }

    /// Reads a timer register; `DIV` is the upper byte of the divider.
    pub fn read(&self, addr: u16) -> (r: u8)
        ensures
            addr == 0xFF04 ==> r == (self.div / 256) as u8,
            addr == 0xFF05 ==> r == self.counter,
            addr == 0xFF06 ==> r == self.modulo,
            addr == 0xFF07 ==> r == self.control | TIMER_UNUSED,
            !(0xFF04 <= addr <= 0xFF07) ==> r == 0xFF,
    {
        if addr == 0xFF04 {
            (self.div / 256) as u8
        } else if addr == 0xFF05 {
            self.counter
        } else if addr == 0xFF06 {
            self.modulo
        } else if addr == 0xFF07 {
            self.control | TIMER_UNUSED
        } else {
            0xFF
        }
    }

    /// Resets the divider to 0, which can itself produce a falling edge.
    pub fn reset_div(&mut self)
        ensures
            *final(self) == old(self).with_div(0),
    {
        self.set_div(0);
    }

    /// Divider bit monitored by the current clock select.
    pub fn get_mask(&self) -> (r: u16)
        ensures
            r == monitored_bit(self.control),
    {
        let sel = self.control & 0x03;
        if sel == 0 {
            0x200
        } else if sel == 1 {
            0x8
        } else if sel == 2 {
            0x20
        } else {
            0x80
        }
    }

    pub fn set_div(&mut self, div: u16)
        ensures
            *final(self) == old(self).with_div(div),
    {
        self.div = div;
        let mask = self.get_mask();
        let latch = self.control & TIMER_ENABLED != 0 && div & mask == mask;
        if !latch && self.tac_falling_edge_latch {
            // The interrupt comes one cycle late; meanwhile the counter reads 0
            if self.counter == 0xFF {
                self.interrupt_cycle_countdown = 2;
            }
            self.counter = self.counter.wrapping_add(1);
        }
        self.tac_falling_edge_latch = latch;
    }
}

} // verus!
