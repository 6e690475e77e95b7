use vstd::multiset::Multiset;
use vstd::prelude::*;

use crate::{
    JOYPAD_A, JOYPAD_B, JOYPAD_DOWN, JOYPAD_LEFT, JOYPAD_RIGHT, JOYPAD_SELECT, JOYPAD_START,
    JOYPAD_UP,
};

verus! {

broadcast use vstd::seq_lib::group_to_multiset_ensures;

/// A joypad button.
#[derive(Clone, Copy, Debug, PartialEq, Eq, Structural)]
pub enum Button {
    Start,
    Select,
    B,
    A,
    Down,
    Up,
    Left,
    Right,
}

/// The joypad bit of a button.
pub open spec fn button_bit(b: Button) -> u8 {
    match b {
        Button::Start => JOYPAD_START,
        Button::Select => JOYPAD_SELECT,
        Button::B => JOYPAD_B,
        Button::A => JOYPAD_A,
        Button::Down => JOYPAD_DOWN,
        Button::Up => JOYPAD_UP,
        Button::Left => JOYPAD_LEFT,
        Button::Right => JOYPAD_RIGHT,
    }
}

/// The joypad bits of a list of buttons.
pub open spec fn buttons_mask(s: Seq<Button>) -> u8
    decreases s.len(),
{
    if s.len() == 0 {
        0
    } else {
        buttons_mask(s.drop_last()) | button_bit(s.last())
    }
}

impl Button {
    /// The bit of this button in the joypad state.
    pub fn joypad_bit(&self) -> (r: u8)
        ensures
            r == button_bit(*self),
    {
        match self {
            Button::Start => JOYPAD_START,
            Button::Select => JOYPAD_SELECT,
            Button::B => JOYPAD_B,
            Button::A => JOYPAD_A,
            Button::Down => JOYPAD_DOWN,
            Button::Up => JOYPAD_UP,
            Button::Left => JOYPAD_LEFT,
            Button::Right => JOYPAD_RIGHT,
        }
    }
}

/// Whether an input event presses or releases its buttons.
#[derive(Clone, Copy, Debug, PartialEq, Eq, Structural)]
pub enum EventType {
    Pressed,
    Released,
}

/// Buttons pressed or released at a given frame.
#[derive(Clone, Debug)]
pub struct Event {
    pub frame: usize,
    pub ty: EventType,
    pub buttons: Vec<Button>,
}

impl Event {
    /// The joypad state after this event: its buttons set or cleared in `state`.
    pub fn apply(&self, state: u8) -> (r: u8)
        ensures
            self.ty == EventType::Pressed ==> r == state | buttons_mask(self.buttons@),
            self.ty == EventType::Released ==> r == state & !buttons_mask(self.buttons@),
    {
        let mut mask: u8 = 0;
        let mut i: usize = 0;
        while i < self.buttons.len()
            invariant
                i <= self.buttons@.len(),
                mask == buttons_mask(self.buttons@.subrange(0, i as int)),
            decreases self.buttons@.len() - i,
        {
            proof {
                let s = self.buttons@.subrange(0, i as int + 1);
                assert(s.drop_last() =~= self.buttons@.subrange(0, i as int));
            }
            mask = mask | self.buttons[i].joypad_bit();
            i = i + 1;
        }
        proof {
            assert(self.buttons@.subrange(0, self.buttons@.len() as int) =~= self.buttons@);
        }
        match self.ty {
            EventType::Pressed => state | mask,
            EventType::Released => state & !mask,
        }
    }
}

/// Whether events are in non-decreasing frame order.
pub open spec fn sorted_by_frame(s: Seq<Event>) -> bool {
    forall|i: int, j: int| 0 <= i < j < s.len() ==> s[i].frame <= s[j].frame
}

/// Scripted inputs replayed from the first frames of a session.
pub struct InitialInputs(pub Vec<Event>);

impl InitialInputs {
    /// Orders the events by frame; events of one frame keep their order.
    pub fn sort_by_frame(events: Vec<Event>) -> (r: InitialInputs)
        ensures
            sorted_by_frame(r.0@),
            r.0@.to_multiset() == events@.to_multiset(),
    {
        let mut rest = events;
        let mut out: Vec<Event> = Vec::new();
        while rest.len() > 0
            invariant
                sorted_by_frame(out@),
                out@.to_multiset().add(rest@.to_multiset()) == events@.to_multiset(),
            decreases rest@.len(),
        {
            let ghost before = rest@;
            let e = rest.remove(0);
            proof {
                assert(before.remove(0) == rest@);
            }
            let mut p: usize = 0;
            while p < out.len() && out[p].frame <= e.frame
                invariant
                    p <= out@.len(),
                    forall|k: int| 0 <= k < p ==> out@[k].frame <= e.frame,
                decreases out@.len() - p,
            {
                p = p + 1;
            }
            let ghost prev = out@;
            out.insert(p, e);
            proof {
                assert(out@ == prev.insert(p as int, e));
                assert forall|i: int, j: int| 0 <= i < j < out@.len() implies out@[i].frame
                    <= out@[j].frame by {
                    if j < p {
                    } else if j == p {
                    } else if i < p {
                        assert(out@[j] == prev[j - 1]);
                        if p < prev.len() {
                            assert(prev[p as int].frame > e.frame);
                            assert(prev[p as int].frame <= prev[j - 1].frame);
                        }
                    } else if i == p {
                        assert(prev[p as int].frame > e.frame);
                        assert(prev[p as int].frame <= prev[j - 1].frame || j - 1 == p);
                    } else {
                        assert(out@[i] == prev[i - 1]);
                        assert(out@[j] == prev[j - 1]);
                    }
                }
                vstd::seq_lib::to_multiset_insert(prev, p as int, e);
                assert(out@.to_multiset() == prev.to_multiset().insert(e));
                assert(before.to_multiset() == rest@.to_multiset().insert(e));
                assert(out@.to_multiset().add(rest@.to_multiset()) =~= prev.to_multiset().add(
                    before.to_multiset(),
                ));
            }
        }
        proof {
            assert(rest@.to_multiset() =~= Multiset::<Event>::empty());
            assert(out@.to_multiset().add(Multiset::<Event>::empty()) =~= out@.to_multiset());
        }
        InitialInputs(out)
    }
}

} // verus!
