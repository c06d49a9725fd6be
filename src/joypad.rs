use vstd::prelude::*;
use crate::mmu::Mmu;
use crate::{bit_set, check_bit};

verus! {

pub use crate::mmu::JOYP;

/// Interrupt raised when a button is down.
pub const JOYPAD_INTERRUPT_ID: u8 = 4;

/// The eight buttons.
#[derive(Clone, Copy, PartialEq, Eq, Structural, Debug)]
pub enum Button {
    Up,
    Down,
    Left,
    Right,
    A,
    B,
    Start,
    Select,
}

/// Line that a direction button pulls low: Right 0, Left 1, Up 2, Down 3.
pub open spec fn direction_line(b: Button) -> Option<u8> {
    match b {
        Button::Right => Some(0u8),
        Button::Left => Some(1u8),
        Button::Up => Some(2u8),
        Button::Down => Some(3u8),
        _ => None,
    }
}

/// Line that an action button pulls low: A 0, B 1, Select 2, Start 3.
pub open spec fn action_line(b: Button) -> Option<u8> {
    match b {
        Button::A => Some(0u8),
        Button::B => Some(1u8),
        Button::Select => Some(2u8),
        Button::Start => Some(3u8),
        _ => None,
    }
}

/// Whether a pressed button pulls line `k` low under the select bits of
/// `control` (bit 4 low selects directions, bit 5 low selects actions).
pub open spec fn pulled(pressed: Seq<Button>, control: u8, k: u8) -> bool {
    exists|i: int|
        0 <= i < pressed.len() && ((!bit_set(control, 4) && direction_line(#[trigger] pressed[i]) == Some(k))
            || (!bit_set(control, 5) && action_line(pressed[i]) == Some(k)))
}

/// The button nibble: line `k` reads 0 when pulled low, 1 otherwise.
pub open spec fn button_nibble(pressed: Seq<Button>, control: u8) -> u8 {
    ((if pulled(pressed, control, 0) { 0int } else { 1 }) + (if pulled(pressed, control, 1) {
        0int
    } else {
        2
    }) + (if pulled(pressed, control, 2) { 0int } else { 4 }) + (if pulled(pressed, control, 3) {
        0int
    } else {
        8
    })) as u8
}

/// RAM after the joypad latch took `pressed`: the button nibble driven into
/// the joypad register, and the joypad interrupt requested when any button
/// is down.
pub open spec fn joypad_memory(memory: Seq<u8>, pressed: Seq<Button>) -> Seq<u8> {
    let control = memory[0x7F00];
    let m = memory.update(0x7F00, (control & 0xF0) | (button_nibble(pressed, control) & 0x0F));
    if pressed.len() > 0 {
        m.update(0x7F0F, m[0x7F0F] | (1u8 << JOYPAD_INTERRUPT_ID))
    } else {
        m
    }
}

/// The joypad latch.
pub struct Joypad {}

impl Joypad {
    /// Whether button `i` of `pressed` pulls line `k` low.
    pub open spec fn pulls_at(pressed: Seq<Button>, directions: bool, actions: bool, i: int, k: u8) -> bool {
        (directions && direction_line(pressed[i]) == Some(k)) || (actions && action_line(pressed[i]) == Some(k))
    }

    /// Whether one of the first `n` buttons pulls line `k` low.
    pub open spec fn pulled_before(pressed: Seq<Button>, directions: bool, actions: bool, n: int, k: u8) -> bool {
        exists|i: int| 0 <= i < n && #[trigger] Joypad::pulls_at(pressed, directions, actions, i, k)
    }

    /// Drives the button lines of the joypad register from the buttons that
    /// are down, and requests the joypad interrupt if any is.
    pub fn update(mmu: &mut Mmu, pressed: &[Button])
        requires
            old(mmu).wf(),
        ensures
            final(mmu).wf(),
            final(mmu)@ == old(mmu)@.with_memory(joypad_memory(old(mmu)@.memory, pressed@)),
    {
        let control = mmu.get(JOYP);
        let directions = !check_bit(control, 4);
        let actions = !check_bit(control, 5);
        let mut low0 = false;
        let mut low1 = false;
        let mut low2 = false;
        let mut low3 = false;
        let mut i: usize = 0;
        while i < pressed.len()
            invariant
                i <= pressed@.len(),
                !directions == bit_set(control, 4),
                !actions == bit_set(control, 5),
                low0 == Joypad::pulled_before(pressed@, directions, actions, i as int, 0),
                low1 == Joypad::pulled_before(pressed@, directions, actions, i as int, 1),
                low2 == Joypad::pulled_before(pressed@, directions, actions, i as int, 2),
                low3 == Joypad::pulled_before(pressed@, directions, actions, i as int, 3),
            decreases pressed@.len() - i,
        {
            let button = pressed[i];
            let line: u8 = match button {
                Button::Right | Button::A => 0,
                Button::Left | Button::B => 1,
                Button::Up | Button::Select => 2,
                Button::Down | Button::Start => 3,
            };
            let is_direction = match button {
                Button::Right | Button::Left | Button::Up | Button::Down => true,
                _ => false,
            };
            let pulls = (is_direction && directions) || (!is_direction && actions);
            proof {
                assert forall|k: u8| k < 4 implies Joypad::pulled_before(pressed@, directions, actions, i + 1, k)
                    == (Joypad::pulled_before(pressed@, directions, actions, i as int, k) || (pulls && line == k)) by {
                    if pulls && line == k {
                        assert(Joypad::pulls_at(pressed@, directions, actions, i as int, k));
                    }
                    if Joypad::pulled_before(pressed@, directions, actions, i + 1, k) {
                        let w = choose|w: int| 0 <= w < i + 1 && Joypad::pulls_at(pressed@, directions, actions, w, k);
                        if w < i {
                            assert(Joypad::pulled_before(pressed@, directions, actions, i as int, k));
                        }
                    }
                    if Joypad::pulled_before(pressed@, directions, actions, i as int, k) {
                        let w = choose|w: int| 0 <= w < i && Joypad::pulls_at(pressed@, directions, actions, w, k);
                        assert(Joypad::pulls_at(pressed@, directions, actions, w, k));
                    }
                }
            }
            if pulls {
                if line == 0 {
                    low0 = true;
                } else if line == 1 {
                    low1 = true;
                } else if line == 2 {
                    low2 = true;
                } else {
                    low3 = true;
                }
            }
            i = i + 1;
        }
        proof {
            assert forall|k: u8| k < 4 implies Joypad::pulled_before(pressed@, directions, actions, pressed@.len() as int, k)
                == pulled(pressed@, control, k) by {
                if pulled(pressed@, control, k) {
                    let w = choose|w: int|
                        0 <= w < pressed@.len() && ((!bit_set(control, 4) && direction_line(#[trigger] pressed@[w]) == Some(k))
                            || (!bit_set(control, 5) && action_line(pressed@[w]) == Some(k)));
                    assert(Joypad::pulls_at(pressed@, directions, actions, w, k));
                }
                if Joypad::pulled_before(pressed@, directions, actions, pressed@.len() as int, k) {
                    let w = choose|w: int| 0 <= w < pressed@.len() && Joypad::pulls_at(pressed@, directions, actions, w, k);
                    assert(0 <= w < pressed@.len() && ((!bit_set(control, 4) && direction_line(pressed@[w]) == Some(k))
                            || (!bit_set(control, 5) && action_line(pressed@[w]) == Some(k))));
                }
            }
        }
        let nibble: u8 = (if low0 { 0u8 } else { 1u8 }) + (if low1 { 0u8 } else { 2u8 }) + (if low2 {
            0u8
        } else {
            4u8
        }) + (if low3 { 0u8 } else { 8u8 });
        mmu.set_joypad_buttons(nibble);
        if pressed.len() > 0 {
            mmu.request_interrupt(JOYPAD_INTERRUPT_ID);
        }
    }
}

} // verus!
