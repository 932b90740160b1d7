use vstd::prelude::*;

verus! {

pub const STATUS_SPRITE_OVERFLOW: u8 = 0b0010_0000;

pub const STATUS_SPRITE_ZERO_HIT: u8 = 0b0100_0000;

pub const STATUS_VBLANK: u8 = 0b1000_0000;

/// Status register: sprite-overflow, sprite-zero-hit and vblank flags in the
/// top three bits; the low bits are left clear.
#[derive(Clone, Copy, Debug, PartialEq, Eq, Structural)]
pub struct StatusRegister {
    pub bits: u8,
}

impl StatusRegister {
    pub open spec fn spec_is_in_vblank(&self) -> bool {
        self.bits & STATUS_VBLANK != 0
    }

    pub fn new() -> (r: StatusRegister)
        ensures
            r == (StatusRegister { bits: 0 }),
    {
        StatusRegister { bits: 0 }
    }

    pub fn snapshot(&self) -> (r: u8)
        ensures
            r == self.bits,
    {
        self.bits
    }

    pub fn reset_vblank_status(&mut self)
        ensures
            *final(self) == (StatusRegister { bits: old(self).bits & !STATUS_VBLANK }),
    {
        self.bits = self.bits & !STATUS_VBLANK;
    }

    pub fn set_vblank_status(&mut self, condition: bool)
        ensures
            condition ==> *final(self) == (StatusRegister { bits: old(self).bits | STATUS_VBLANK }),
            !condition ==> *final(self) == (StatusRegister { bits: old(self).bits & !STATUS_VBLANK }),
    {
        if condition {
            self.bits = self.bits | STATUS_VBLANK;
        } else {
            self.bits = self.bits & !STATUS_VBLANK;
        }
    }

    pub fn set_sprite_zero_hit_status(&mut self, condition: bool)
        ensures
            condition ==> *final(self) == (StatusRegister { bits: old(self).bits | STATUS_SPRITE_ZERO_HIT }),
            !condition ==> *final(self) == (StatusRegister { bits: old(self).bits & !STATUS_SPRITE_ZERO_HIT }),
    {
        if condition {
            self.bits = self.bits | STATUS_SPRITE_ZERO_HIT;
        } else {
            self.bits = self.bits & !STATUS_SPRITE_ZERO_HIT;
        }
    }

    pub fn is_in_vblank(&self) -> (r: bool)
        ensures
            r == self.spec_is_in_vblank(),
    {
        self.bits & STATUS_VBLANK != 0
    }
}

} // verus!
