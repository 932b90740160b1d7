use vstd::prelude::*;

verus! {

pub const MASK_GREYSCALE: u8 = 0b0000_0001;

pub const MASK_LEFTMOST_BACKGROUND: u8 = 0b0000_0010;

pub const MASK_LEFTMOST_SPRITES: u8 = 0b0000_0100;

pub const MASK_BACKGROUND_RENDERING: u8 = 0b0000_1000;

pub const MASK_SPRITE_RENDERING: u8 = 0b0001_0000;

pub const MASK_EMPHASIZE_RED: u8 = 0b0010_0000;

pub const MASK_EMPHASIZE_GREEN: u8 = 0b0100_0000;

pub const MASK_EMPHASIZE_BLUE: u8 = 0b1000_0000;

/// Mask register: rendering enables and colour emphasis. A write retains the
/// byte exactly as given.
#[derive(Clone, Copy, Debug, PartialEq, Eq, Structural)]
pub struct MaskRegister {
    pub bits: u8,
}

impl MaskRegister {
    pub fn new() -> (r: MaskRegister)
        ensures
            r == (MaskRegister { bits: 0 }),
    {
        MaskRegister { bits: 0 }
    }

    pub fn is_grayscale(&self) -> (r: bool)
        ensures
            r == (self.bits & MASK_GREYSCALE != 0),
    {
        self.bits & MASK_GREYSCALE != 0
    }

    pub fn leftmost_8pxl_background(&self) -> (r: bool)
        ensures
            r == (self.bits & MASK_LEFTMOST_BACKGROUND != 0),
    {
        self.bits & MASK_LEFTMOST_BACKGROUND != 0
    }

    pub fn leftmost_8pxl_sprite(&self) -> (r: bool)
        ensures
            r == (self.bits & MASK_LEFTMOST_SPRITES != 0),
    {
        self.bits & MASK_LEFTMOST_SPRITES != 0
    }

    pub fn show_background(&self) -> (r: bool)
        ensures
            r == (self.bits & MASK_BACKGROUND_RENDERING != 0),
    {
        self.bits & MASK_BACKGROUND_RENDERING != 0
    }

    pub fn show_sprites(&self) -> (r: bool)
        ensures
            r == (self.bits & MASK_SPRITE_RENDERING != 0),
    {
        self.bits & MASK_SPRITE_RENDERING != 0
    }

    pub fn update(&mut self, data: u8)
        ensures
            *final(self) == (MaskRegister { bits: data }),
    {
        self.bits = data;
    }
}

} // verus!
