//! The joypad: eight button states folded into two 4-bit nibbles, exposed
//! through one memory-mapped register whose bits are active-low.

use vstd::prelude::*;
use crate::interrupt::{Interrupt, InterruptHandler, spec_set_interrupt};

verus! {

/// Which nibble (or nibbles) the memory-mapped register currently presents.
#[derive(Clone, Copy, Debug, PartialEq, Eq, Structural)]
pub enum JoypadSelection {
    Buttons,
    Directions,
    Both,
    Neither,
}

/// The selection bits of the register, as stored internally (1 = selected;
/// the hardware wire is active-low, inverted on read and write).
pub open spec fn spec_selection_bits(s: JoypadSelection) -> u8 {
    match s {
        JoypadSelection::Buttons => 0x20,
        JoypadSelection::Directions => 0x10,
        JoypadSelection::Both => 0x30,
        JoypadSelection::Neither => 0x00,
    }
}

/// A flat snapshot of the eight host buttons, true = pressed.
#[derive(Clone, Copy, Debug, PartialEq, Eq, Structural)]
pub struct Controls {
    pub left: bool,
    pub right: bool,
    pub up: bool,
    pub down: bool,
    pub a: bool,
    pub b: bool,
    pub start: bool,
    pub select: bool,
}

/// The joypad state: the two pressed-key nibbles (1 = pressed internally)
/// and the current selection.
#[derive(Clone, Copy, Debug, PartialEq, Eq, Structural)]
pub struct Joypad {
    pub buttons: u8,
    pub directions: u8,
    pub selection: JoypadSelection,
}

/// The action-button nibble for a control snapshot: A, B, Select, Start in
/// bits 0 to 3.
pub open spec fn spec_buttons_nibble(c: Controls) -> u8 {
    ((if c.a { 1u8 } else { 0u8 }) + (if c.b { 2u8 } else { 0u8 })
        + (if c.select { 4u8 } else { 0u8 }) + (if c.start { 8u8 } else { 0u8 })) as u8
}

/// The direction nibble for a control snapshot: Right, Left, Up, Down in
/// bits 0 to 3.
pub open spec fn spec_directions_nibble(c: Controls) -> u8 {
    ((if c.right { 1u8 } else { 0u8 }) + (if c.left { 2u8 } else { 0u8 })
        + (if c.up { 4u8 } else { 0u8 }) + (if c.down { 8u8 } else { 0u8 })) as u8
}

/// Whether applying a control snapshot presses a key, within the currently
/// selected nibble, that was not pressed before.
pub open spec fn spec_new_press(j: Joypad, c: Controls) -> bool {
    match j.selection {
        JoypadSelection::Buttons => spec_buttons_nibble(c) & !j.buttons != 0,
        JoypadSelection::Directions => spec_directions_nibble(c) & !j.directions != 0,
        JoypadSelection::Both => (spec_buttons_nibble(c) | spec_directions_nibble(c)) & !(j.buttons
            | j.directions) != 0,
        JoypadSelection::Neither => false,
    }
}

/// The joypad after a control snapshot is applied.
pub open spec fn spec_joypad_apply(j: Joypad, c: Controls) -> Joypad {
    Joypad { buttons: spec_buttons_nibble(c), directions: spec_directions_nibble(c), ..j }
}

/// The byte the memory-mapped register presents: the selection bits and the
/// selected pressed-key nibble, all inverted (0 = selected, 0 = pressed).
pub open spec fn spec_joypad_byte(j: Joypad) -> u8 {
    !(spec_selection_bits(j.selection) | match j.selection {
        JoypadSelection::Buttons => j.buttons,
        JoypadSelection::Directions => j.directions,
        JoypadSelection::Both => j.buttons | j.directions,
        JoypadSelection::Neither => 0u8,
    })
}

/// The selection stored by a register write: only the two selection bits are
/// writable, and they arrive active-low.
pub open spec fn spec_joypad_select(v: u8) -> JoypadSelection {
    let bits = !v & 0x30;
    if bits == 0x30 {
        JoypadSelection::Both
    } else if bits == 0x20 {
        JoypadSelection::Buttons
    } else if bits == 0x10 {
        JoypadSelection::Directions
    } else {
        JoypadSelection::Neither
    }
}

impl Joypad {
    pub fn new() -> (j: Joypad)
        ensures
            j == (Joypad { buttons: 0, directions: 0, selection: JoypadSelection::Neither }),
    {
        Joypad { buttons: 0, directions: 0, selection: JoypadSelection::Neither }
    }

    /// Apply a host control snapshot, and signal the Joypad interrupt when a
    /// key within the current selection goes from released to pressed.
    pub fn set_from_controls(&mut self, controls: Controls, ih: &mut InterruptHandler)
        ensures
            *final(self) == spec_joypad_apply(*old(self), controls),
            *final(ih) == if spec_new_press(*old(self), controls) {
                spec_set_interrupt(*old(ih), Interrupt::Joypad)
            } else {
                *old(ih)
            },
    {
        let prev_buttons = self.buttons;
        let prev_directions = self.directions;

        let buttons = (if controls.a { 1u8 } else { 0u8 }) + (if controls.b { 2u8 } else { 0u8 })
            + (if controls.select { 4u8 } else { 0u8 }) + (if controls.start { 8u8 } else { 0u8 });
        self.buttons = buttons;

        let directions = (if controls.right { 1u8 } else { 0u8 }) + (if controls.left {
            2u8
        } else {
            0u8
        }) + (if controls.up { 4u8 } else { 0u8 }) + (if controls.down { 8u8 } else { 0u8 });
        self.directions = directions;

        let new_pressed = match self.selection {
            JoypadSelection::Buttons => self.buttons & !prev_buttons != 0,
            JoypadSelection::Directions => self.directions & !prev_directions != 0,
            JoypadSelection::Both => (self.buttons | self.directions) & !(prev_buttons
                | prev_directions) != 0,
            JoypadSelection::Neither => false,
        };
        if new_pressed {
            ih.set_interrupt(Interrupt::Joypad);
        }
    }

    /// Store the selection bits of a register write.
    pub fn write_select_bits(&mut self, value: u8)
        ensures
            *final(self) == (Joypad { selection: spec_joypad_select(value), ..*old(self) }),
    {
        let bits = !value & 0x30;
        self.selection = if bits == 0x30 {
            JoypadSelection::Both
        } else if bits == 0x20 {
            JoypadSelection::Buttons
        } else if bits == 0x10 {
            JoypadSelection::Directions
        } else {
            JoypadSelection::Neither
        };
    }

    /// The byte the memory-mapped register presents.
    pub fn as_u8(&self) -> (v: u8)
        ensures
            v == spec_joypad_byte(*self),
    {
        let selection_bits = match self.selection {
            JoypadSelection::Buttons => 0x20u8,
            JoypadSelection::Directions => 0x10u8,
            JoypadSelection::Both => 0x30u8,
            JoypadSelection::Neither => 0x00u8,
        };
        let keys = match self.selection {
            JoypadSelection::Buttons => self.buttons,
            JoypadSelection::Directions => self.directions,
            JoypadSelection::Both => self.buttons | self.directions,
            JoypadSelection::Neither => 0u8,
        };
        !(selection_bits | keys)
    }
}

} // verus!
