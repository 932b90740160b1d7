use vstd::prelude::*;

verus! {

pub const JOYPAD_BUTTON_A: u8 = 0b0000_0001;

pub const JOYPAD_BUTTON_B: u8 = 0b0000_0010;

pub const JOYPAD_SELECT: u8 = 0b0000_0100;

pub const JOYPAD_START: u8 = 0b0000_1000;

pub const JOYPAD_UP: u8 = 0b0001_0000;

pub const JOYPAD_DOWN: u8 = 0b0010_0000;

pub const JOYPAD_LEFT: u8 = 0b0100_0000;

pub const JOYPAD_RIGHT: u8 = 0b1000_0000;

/// Shift-register input device: while the strobe is high the shift index is
/// pinned to button A; reads return one button bit at a time and advance the
/// index when the strobe is low; past the eighth button reads return 1.
pub struct Joypad {
    pub strobe: bool,
    pub button_index: u8,
    pub button_status: u8,
}

impl Joypad {
    pub open spec fn read_m(j: Joypad) -> (u8, Joypad) {
        if j.button_index > 7 {
            (1u8, j)
        } else {
            let bit = ((j.button_status >> j.button_index) & 1) as u8;
            if !j.strobe {
                (bit, Joypad { button_index: (j.button_index + 1) as u8, ..j })
            } else {
                (bit, j)
            }
        }
    }

    pub open spec fn write_m(j: Joypad, data: u8) -> Joypad {
        let s = data & 1 == 1;
        if s {
            Joypad { strobe: true, button_index: 0, ..j }
        } else {
            Joypad { strobe: false, ..j }
        }
    }

    pub fn new() -> (r: Joypad)
        ensures
            r == (Joypad { strobe: false, button_index: 0, button_status: 0 }),
    {
        Joypad { strobe: false, button_index: 0, button_status: 0 }
    }

    pub fn read(&mut self) -> (r: u8)
        ensures
            (r, *final(self)) == Self::read_m(*old(self)),
    {
        if self.button_index > 7 {
            return 1;
        }
        let response = (self.button_status >> self.button_index) & 1;
        if !self.strobe {
            self.button_index = self.button_index + 1;
        }
        response
    }

    pub fn write(&mut self, data: u8)
        ensures
            *final(self) == Self::write_m(*old(self), data),
    {
        self.strobe = data & 1 == 1;
        if self.strobe {
            self.button_index = 0;
        }
    }

    pub fn set_button_pressed_status(&mut self, button: u8, pressed: bool)
        ensures
            pressed ==> *final(self) == (Joypad { button_status: old(self).button_status | button, ..*old(self) }),
            !pressed ==> *final(self) == (Joypad { button_status: old(self).button_status & !button, ..*old(self) }),
    {
        if pressed {
            self.button_status = self.button_status | button;
        } else {
            self.button_status = self.button_status & !button;
        }
    }
}

} // verus!
