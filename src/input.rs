//! How raw key and button events from input devices become cycle steps.

use vstd::prelude::*;

use crate::command::Direction;

verus! {

/// The key bindings of the keyboard listener and whether the modifier key
/// is held.
pub struct KeyboardState {
    pub forward_key: u16,
    pub backward_key: u16,
    pub modifier_key: Option<u16>,
    pub modifier_pressed: bool,
}

/// Whether the modifier is held after an event: a configured modifier key
/// follows its own events, any other key leaves it as it was.
pub open spec fn modifier_after(s: KeyboardState, code: u16, value: i32) -> bool {
    match s.modifier_key {
        Some(m) if m == code => value != 0,
        _ => s.modifier_pressed,
    }
}

/// The step a key event asks for, given whether the modifier is held.
///
/// Only a transition from released to pressed (`value` 1) counts; releases
/// and autorepeats do not. Backward with the modifier is tested first, so
/// that a backward binding equal to the forward one is still reachable.
pub open spec fn key_action(s: KeyboardState, held: bool, code: u16, value: i32) -> Option<
    Direction,
> {
    if value != 1 {
        None
    } else if code == s.backward_key && held {
        Some(Direction::Backward)
    } else if code == s.forward_key {
        Some(Direction::Forward)
    } else if code == s.backward_key {
        Some(Direction::Backward)
    } else {
        None
    }
}

impl KeyboardState {
    /// Bindings with the modifier released.
    pub fn new(forward_key: u16, backward_key: u16, modifier_key: Option<u16>) -> (r: Self)
        ensures
            r == (KeyboardState {
                forward_key,
                backward_key,
                modifier_key,
                modifier_pressed: false,
            }),
    {
        KeyboardState { forward_key, backward_key, modifier_key, modifier_pressed: false }
    }

    /// Takes one key event (`value` 0 for a release, 1 for a press, 2 for an
    /// autorepeat) and gives the step it asks for. The modifier counts as
    /// held while its last event was not a release.
    pub fn on_key_event(&mut self, code: u16, value: i32) -> (r: Option<Direction>)
        ensures
            final(self).forward_key == old(self).forward_key,
            final(self).backward_key == old(self).backward_key,
            final(self).modifier_key == old(self).modifier_key,
            final(self).modifier_pressed == modifier_after(*old(self), code, value),
            r == key_action(*old(self), final(self).modifier_pressed, code, value),
    {
        if let Some(m) = self.modifier_key {
            if code == m {
                self.modifier_pressed = value != 0;
            }
        }
        if value != 1 {
            None
        } else if code == self.backward_key && self.modifier_pressed {
            Some(Direction::Backward)
        } else if code == self.forward_key {
            Some(Direction::Forward)
        } else if code == self.backward_key {
            Some(Direction::Backward)
        } else {
            None
        }
    }
}

/// The button bindings of the mouse listener.
#[derive(Debug, Clone, Copy, PartialEq, Eq, Structural)]
pub struct MouseBindings {
    pub forward_button: u16,
    pub backward_button: u16,
}

/// The step a button event asks for: presses only (`value` 1).
pub open spec fn button_action(b: MouseBindings, code: u16, value: i32) -> Option<Direction> {
    if value != 1 {
        None
    } else if code == b.forward_button {
        Some(Direction::Forward)
    } else if code == b.backward_button {
        Some(Direction::Backward)
    } else {
        None
    }
}

impl MouseBindings {
    /// Takes one button event and gives the step it asks for.
    pub fn on_button_event(&self, code: u16, value: i32) -> (r: Option<Direction>)
        ensures
            r == button_action(*self, code, value),
    {
        if value != 1 {
            None
        } else if code == self.forward_button {
            Some(Direction::Forward)
        } else if code == self.backward_button {
            Some(Direction::Backward)
        } else {
            None
        }
    }
}

/// Whether a device node name is one of the kernel's event devices.
pub open spec fn is_event_node(name: Seq<char>) -> bool {
    crate::text::has_prefix(name, "event"@)
}

/// Whether a device node name is one of the kernel's event devices
/// (`event0`, `event1`, ...).
pub fn is_event_node_name(name: &str) -> (r: bool)
    ensures
        r == is_event_node(name@),
{
    let n = crate::text::chars_of(name);
    let p = crate::text::chars_of("event");
    crate::text::starts_with(n.as_slice(), p.as_slice())
}

} // verus!
