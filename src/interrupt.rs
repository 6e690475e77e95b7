use vstd::prelude::*;

verus! {

/// Bit of the vertical-blank interrupt source.
pub const INT_VBLANK: u8 = 0x01;

/// Bit of the LCD status interrupt source.
pub const INT_LCD_STAT: u8 = 0x02;

/// Bit of the timer interrupt source.
pub const INT_TIMER: u8 = 0x04;

/// Bit of the serial link interrupt source.
pub const INT_SERIAL: u8 = 0x08;

/// Bit of the joypad interrupt source.
pub const INT_JOYPAD: u8 = 0x10;

/// Mask of the five meaningful interrupt bits.
pub const INT_MASK: u8 = 0x1F;

/// The enable mask (IE) and request mask (IF) of the interrupt controller.
#[derive(Clone, Copy, PartialEq, Eq, Structural)]
pub struct InterruptState {
    pub enable: u8,
    pub status: u8,
}

/// Index of the lowest set bit of a non-zero byte: the source that is serviced first.
pub open spec fn lowest_set_bit(p: u8) -> nat
    decreases p,
{
    if p == 0 || p % 2 == 1 {
        0
    } else {
        1 + lowest_set_bit(p / 2)
    }
}

/// The interrupt that is serviced when the given masks are pending, if any.
pub open spec fn serviced_interrupt(enable: u8, status: u8) -> Option<nat> {
    let pending = enable & status & INT_MASK;
    if pending == 0 {
        None
    } else {
        Some(lowest_set_bit(pending))
    }
}

impl InterruptState {
    pub fn new() -> (r: Self)
        ensures
            r.enable == 0,
            r.status == 0,
    {
        InterruptState { enable: 0, status: 0 }
    }

    /// Raises the request bits of `interrupt`.
    pub fn request(&mut self, interrupt: u8)
        ensures
            final(self).status == old(self).status | (interrupt & INT_MASK),
            final(self).enable == old(self).enable,
    {
        self.status = self.status | (interrupt & INT_MASK);
    }

    /// The set of interrupts that are both enabled and requested.
    pub fn pending(&self) -> (r: u8)
        ensures
            r == self.enable & self.status & INT_MASK,
    {
        self.enable & self.status & INT_MASK
    }
}

/// Two to the power `k`.
pub open spec fn two_pow(k: nat) -> nat
    decreases k,
{
    if k == 0 {
        1
    } else {
        2 * two_pow((k - 1) as nat)
    }
}

/// A non-zero value below `2^k` has its lowest set bit below `k`.
pub proof fn lemma_lowest_set_bit_bound(p: u8, k: nat)
    requires
        p != 0,
        p < two_pow(k),
    ensures
        lowest_set_bit(p) < k,
    decreases k,
{
    if k == 0 {
    } else if p % 2 == 1 {
    } else {
        lemma_lowest_set_bit_bound(p / 2, (k - 1) as nat);
    }
}

/// Index of the lowest set bit of `p`, which is the highest-priority pending source.
pub fn lowest_set_bit_index(p: u8) -> (r: u8)
    requires
        p != 0,
    ensures
        r as nat == lowest_set_bit(p),
        r < 8,
{
    proof {
        reveal_with_fuel(two_pow, 9);
        assert(two_pow(8) == 256);
        lemma_lowest_set_bit_bound(p, 8);
    }
    let mut v: u8 = p;
    let mut i: u8 = 0;
    while v % 2 == 0
        invariant
            v != 0,
            i as nat + lowest_set_bit(v) == lowest_set_bit(p),
            i as nat + lowest_set_bit(v) < 8,
            lowest_set_bit(v) < 8 - i,
        decreases v,
    {
        v = v / 2;
        i = i + 1;
    }
    i
}

} // verus!
