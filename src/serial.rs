use vstd::prelude::*;

verus! {

/// Control bit: this side drives the clock.
pub const SERIAL_MASTER: u8 = 0x01;

/// Control bit: fast clock speed.
pub const SERIAL_FAST: u8 = 0x02;

/// Control bits that always read as 1.
pub const SERIAL_UNUSED: u8 = 0x7C;

/// Control bit: a transfer is in progress.
pub const SERIAL_START: u8 = 0x80;

/// Bit-cycles in one byte transfer.
pub const N_BIT_CYCLES: u8 = 8;

/// Machine cycles per bit-cycle at normal speed (8192 Hz).
pub const CPU_CYCLES: u8 = 128;

/// Machine cycles per bit-cycle at fast speed (262144 Hz).
pub const CPU_CYCLES_FAST: u8 = 4;

/// The link-cable capability that a host provides to the serial port.
pub trait SerialTransport {
    /// Tries to establish the link; returns whether it is up.
    fn connect(&mut self) -> bool;

    /// Whether the link is up.
    fn is_connected(&self) -> bool;

    /// Drops the link.
    fn reset(&mut self);

    /// Sends one byte to the peer.
    fn send(&mut self, data: u8);

    /// Takes a byte from the peer, if one has arrived.
    fn recv(&mut self) -> Option<u8>;
}

/// A transport with no peer: it never connects.
pub struct NullSerialTransport;

impl SerialTransport for NullSerialTransport {
    fn connect(&mut self) -> bool {
        false
    }

    fn is_connected(&self) -> bool {
        false
    }

    fn reset(&mut self) {
    }

    fn send(&mut self, data: u8) {
    }

    fn recv(&mut self) -> Option<u8> {
        None
    }
}

/// The registers of a serial port.
pub struct SerialState {
    pub buffer: u8,
    pub control: u8,
    pub bit_cycle: u8,
    pub receive_latch: u8,
    pub skip_send: bool,
}

/// `s` with the resend-suppression flag set to `skip`.
pub open spec fn with_skip(s: SerialState, skip: bool) -> SerialState {
    SerialState { skip_send: skip, ..s }
}

/// One bit-cycle: the state after it and whether the byte transfer completed.
pub open spec fn bit_step_spec(s: SerialState, connected: bool, received: Option<u8>) -> (
    SerialState,
    bool,
) {
    if !connected {
        (SerialState { bit_cycle: 0, ..s }, false)
    } else if s.bit_cycle == 0 && received is None {
        (SerialState { skip_send: s.control & SERIAL_MASTER != 0 || s.skip_send, ..s }, false)
    } else {
        let latched = if s.bit_cycle == 0 {
            SerialState { skip_send: false, receive_latch: received->Some_0, ..s }
        } else {
            s
        };
        if latched.bit_cycle + 1 == N_BIT_CYCLES {
            (
                SerialState {
                    bit_cycle: 0,
                    buffer: latched.receive_latch,
                    control: latched.control & !SERIAL_START,
                    ..latched
                },
                true,
            )
        } else {
            (SerialState { bit_cycle: (latched.bit_cycle + 1) as u8, ..latched }, false)
        }
    }
}

/// The state after `n` bit-cycles on a link that stays up, the peer having sent `b`.
pub open spec fn connected_steps(s: SerialState, b: u8, n: nat) -> SerialState
    decreases n,
{
    if n == 0 {
        s
    } else {
        bit_step_spec(connected_steps(s, b, (n - 1) as nat), true, Some(b)).0
    }
}

/// On a link that stays up, a transfer started at bit 0 completes on its 8th bit-cycle:
/// the shift register then holds the peer's byte and the transfer flag is clear; none of
/// the earlier bit-cycles completes it.
pub proof fn lemma_transfer_takes_eight_bit_cycles(s: SerialState, b: u8)
    requires
        s.bit_cycle == 0,
    ensures
        forall|k: nat| k < 7 ==> !(#[trigger] bit_step_spec(connected_steps(s, b, k), true, Some(b))).1,
        bit_step_spec(connected_steps(s, b, 7), true, Some(b)).1,
        connected_steps(s, b, 8).buffer == b,
        connected_steps(s, b, 8).control == s.control & !SERIAL_START,
        connected_steps(s, b, 8).bit_cycle == 0,
{
    reveal_with_fuel(connected_steps, 9);
    assert forall|k: nat| k < 7 implies !(#[trigger] bit_step_spec(
        connected_steps(s, b, k),
        true,
        Some(b),
    )).1 by {
        assert(connected_steps(s, b, k).bit_cycle == k) by {
            reveal_with_fuel(connected_steps, 8);
        }
    }
}

/// The serial link port: an 8-bit shift register clocked over an external transport.
pub struct SerialPort {
    pub buffer: u8,
    pub control: u8,
    pub freq_downscale_cycle: u8,
    pub bit_cycle: u8,
    pub receive_latch: u8,
    pub serial_transport: Box<dyn SerialTransport>,
    pub skip_send: bool,
}

impl SerialPort {
    pub open spec fn wf(&self) -> bool {
        &&& self.freq_downscale_cycle < CPU_CYCLES
        &&& self.bit_cycle < N_BIT_CYCLES
    }

    /// Machine cycles per bit-cycle for a control value.
    pub open spec fn period(control: u8) -> u8 {
        if control & SERIAL_FAST != 0 {
            CPU_CYCLES_FAST
        } else {
            CPU_CYCLES
        }
    }

    /// A port with no transfer in progress, fast clock selected, and no peer.
    pub fn new() -> (r: Self)
        ensures
            r.wf(),
            r.buffer == 0,
            r.control == SERIAL_UNUSED | SERIAL_FAST,
            r.bit_cycle == 0,
    {
        SerialPort {
            buffer: 0,
            control: SERIAL_UNUSED | SERIAL_FAST,
            freq_downscale_cycle: 0,
            bit_cycle: 0,
            receive_latch: 0,
            serial_transport: Box::new(NullSerialTransport),
            skip_send: false,
        }
    }

    /// Clocks the port by one machine cycle; returns whether the serial interrupt fires.
    pub fn clock(&mut self) -> (r: bool)
        requires
            old(self).wf(),
        ensures
            final(self).wf(),
            old(self).freq_downscale_cycle + 1 < Self::period(old(self).control) ==> {
                &&& !r
                &&& final(self).freq_downscale_cycle == old(self).freq_downscale_cycle + 1
                &&& final(self).buffer == old(self).buffer
                &&& final(self).control == old(self).control
                &&& final(self).bit_cycle == old(self).bit_cycle
            },
            old(self).freq_downscale_cycle + 1 >= Self::period(old(self).control)
                ==> final(self).freq_downscale_cycle == 0,
            old(self).control & SERIAL_START == 0 ==> !r && final(self).buffer == old(self).buffer
                && final(self).control == old(self).control,
            r ==> {
                &&& old(self).control & SERIAL_START != 0
                &&& old(self).bit_cycle == N_BIT_CYCLES - 1
                &&& final(self).buffer == final(self).receive_latch
                &&& final(self).control == old(self).control & !SERIAL_START
                &&& final(self).bit_cycle == 0
            },
            // Each bit-tick of an active transfer is one bit_step on what the transport gave
            old(self).freq_downscale_cycle + 1 >= Self::period(old(self).control)
                && old(self).control & SERIAL_START != 0 ==> exists|
                connected: bool,
                received: Option<u8>,
                skip: bool,
            |
                #[trigger] bit_step_spec(with_skip(old(self).view(), skip), connected, received) == (
                final(self).view(),
                r,
            ),
            !(old(self).freq_downscale_cycle + 1 >= Self::period(old(self).control) && old(
                self,
            ).control & SERIAL_START != 0) ==> final(self).view() == old(self).view() && !r,
    {
        self.freq_downscale_cycle = self.freq_downscale_cycle + 1;
        let speed = if self.control & SERIAL_FAST != 0 {
            CPU_CYCLES_FAST
        } else {
            CPU_CYCLES
        };
        if self.freq_downscale_cycle >= speed {
            self.freq_downscale_cycle = 0;
            if self.control & SERIAL_START != 0 {
                assert(self.view() == old(self).view());
                self.run_transfer()
            } else {
                false
            }
        } else {
            false
        }
    }

    /// Replaces the transport that the port talks through.
    pub fn set_serial(&mut self, serial: Box<dyn SerialTransport>)
        requires
            old(self).wf(),
        ensures
            final(self).wf(),
            final(self).buffer == old(self).buffer,
            final(self).control == old(self).control,
            final(self).bit_cycle == old(self).bit_cycle,
    {
        self.serial_transport = serial;
    }

    /// The register state of the port, without its transport.
    pub open spec fn view(&self) -> SerialState {
        SerialState {
            buffer: self.buffer,
            control: self.control,
            bit_cycle: self.bit_cycle,
            receive_latch: self.receive_latch,
            skip_send: self.skip_send,
        }
    }

    /// One bit-cycle of an active transfer: exchanges through the transport, then hands the
    /// link state and the received byte to `bit_step`. Returns whether the byte completed.
    pub fn run_transfer(&mut self) -> (r: bool)
        requires
            old(self).wf(),
        ensures
            final(self).wf(),
            final(self).freq_downscale_cycle == old(self).freq_downscale_cycle,
            exists|connected: bool, received: Option<u8>, skip: bool|
                #[trigger] bit_step_spec(with_skip(old(self).view(), skip), connected, received) == (
                final(self).view(),
                r,
            ),
    {
        let mut received: Option<u8> = None;
        if self.bit_cycle == 0 {
            if !self.serial_transport.is_connected() {
                self.serial_transport.connect();
                self.skip_send = false;
            }
            if self.serial_transport.is_connected() {
                if self.control & SERIAL_MASTER != 0 {
                    // After a bit-cycle without reply the byte is not sent again
                    if !self.skip_send {
                        self.serial_transport.send(self.buffer);
                    }
                    received = self.serial_transport.recv();
                } else {
                    received = self.serial_transport.recv();
                    if received.is_some() {
                        self.serial_transport.send(self.buffer);
                    }
                }
            }
        }
        let connected = self.serial_transport.is_connected();
        if !connected {
            self.serial_transport.reset();
        }
        let ghost before = self.view();
        let r = self.bit_step(connected, received);
        assert(before == with_skip(old(self).view(), before.skip_send));
        assert(bit_step_spec(with_skip(old(self).view(), before.skip_send), connected, received) == (
        self.view(), r));
        r
    }

    /// The decisions of one bit-cycle, given whether the link is up after the exchange and
    /// the byte the peer sent (only looked at on the first bit).
    pub fn bit_step(&mut self, connected: bool, received: Option<u8>) -> (r: bool)
        requires
            old(self).wf(),
        ensures
            final(self).wf(),
            (final(self).view(), r) == bit_step_spec(old(self).view(), connected, received),
            final(self).freq_downscale_cycle == old(self).freq_downscale_cycle,
            !connected ==> !r && final(self).bit_cycle == 0 && final(self).buffer == old(self).buffer
                && final(self).control == old(self).control,
            connected && old(self).bit_cycle == 0 && received is None ==> {
                &&& !r
                &&& final(self).bit_cycle == 0
                &&& final(self).skip_send == (old(self).control & SERIAL_MASTER != 0
                    || old(self).skip_send)
            },
            r ==> final(self).buffer == final(self).receive_latch && final(self).control == old(
                self,
            ).control & !SERIAL_START && final(self).bit_cycle == 0 && old(self).bit_cycle
                == N_BIT_CYCLES - 1,
            !r ==> final(self).buffer == old(self).buffer && final(self).control == old(self).control,
    {
        if self.bit_cycle == 0 && connected {
            match received {
                Some(b) => {
                    self.skip_send = false;
                    self.receive_latch = b;
                },
                None => {
                    // The peer has not answered yet: the master waits without resending
                    if self.control & SERIAL_MASTER != 0 {
                        self.skip_send = true;
                    }
                    return false;
                },
            }
        }
        // Bits only count while the link stays up
        if connected {
            self.bit_cycle = self.bit_cycle + 1;
        } else {
            self.bit_cycle = 0;
        }
        if self.bit_cycle == N_BIT_CYCLES {
            self.bit_cycle = 0;
            self.buffer = self.receive_latch;
            self.control = self.control & !SERIAL_START;
            true
        } else {
            false
        }
    }

    pub fn set_buffer(&mut self, data: u8)
        requires
            old(self).wf(),
        ensures
            final(self).wf(),
            final(self).buffer == data,
            final(self).control == old(self).control,
            final(self).bit_cycle == old(self).bit_cycle,
    {
        self.buffer = data;
    }

    pub fn get_buffer(&self) -> (r: u8)
        ensures
            r == self.buffer,
    {
        self.buffer
    }

    /// Writes the control register; the unused bits stay set.
    pub fn set_control(&mut self, data: u8)
        requires
            old(self).wf(),
        ensures
            final(self).wf(),
            final(self).control == (data & (SERIAL_MASTER | SERIAL_FAST | SERIAL_START)) | SERIAL_UNUSED,
            final(self).buffer == old(self).buffer,
            final(self).bit_cycle == old(self).bit_cycle,
    {
        self.control = (data & (SERIAL_MASTER | SERIAL_FAST | SERIAL_START)) | SERIAL_UNUSED;
    }

    pub fn get_control(&self) -> (r: u8)
        ensures
            r == self.control,
    {
        self.control
    }
}

} // verus!
