use vstd::prelude::*;

verus! {

pub const CTRL_NAMETABLE1: u8 = 0b0000_0001;

pub const CTRL_NAMETABLE2: u8 = 0b0000_0010;

pub const CTRL_VRAM_ADD_INCREMENT: u8 = 0b0000_0100;

pub const CTRL_SPRITE_PATTERN_ADDR: u8 = 0b0000_1000;

pub const CTRL_BACKGROUND_PATTERN_ADDR: u8 = 0b0001_0000;

pub const CTRL_SPRITE_SIZE: u8 = 0b0010_0000;

pub const CTRL_MASTER_SLAVE_SELECT: u8 = 0b0100_0000;

pub const CTRL_GENERATE_NMI: u8 = 0b1000_0000;

/// Control register: base nametable, address-increment step, pattern-table
/// selectors, sprite size and the vblank-interrupt enable. A write replaces
/// all eight bits.
#[derive(Clone, Copy, Debug, PartialEq, Eq, Structural)]
pub struct ControlRegister {
    pub bits: u8,
}

impl ControlRegister {
    pub open spec fn spec_vram_addr_increment(&self) -> u8 {
        if self.bits & CTRL_VRAM_ADD_INCREMENT == 0 {
            1u8
        } else {
            32u8
        }
    }

    pub open spec fn spec_generate_vblank_nmi(&self) -> bool {
        self.bits & CTRL_GENERATE_NMI != 0
    }

    pub fn new() -> (r: ControlRegister)
        ensures
            r == (ControlRegister { bits: 0 }),
    {
        ControlRegister { bits: 0 }
    }

    /// Step added to the address register by each data-port access.
    pub fn vram_addr_increment(&self) -> (r: u8)
        ensures
            r == self.spec_vram_addr_increment(),
    {
        if self.bits & CTRL_VRAM_ADD_INCREMENT == 0 {
            1
        } else {
            32
        }
    }

    /// Whether entering vblank raises the non-maskable interrupt.
    pub fn generate_vblank_nmi(&self) -> (r: bool)
        ensures
            r == self.spec_generate_vblank_nmi(),
    {
        self.bits & CTRL_GENERATE_NMI != 0
    }

    pub fn update(&mut self, data: u8)
        ensures
            *final(self) == (ControlRegister { bits: data }),
    {
        self.bits = data;
    }
}

} // verus!
