use vstd::prelude::*;

verus! {

/// The hardware's 32-entry length table, indexed by the 5-bit field in the
/// top bits of a channel's fourth register.
pub open spec fn spec_length_value(index: u8) -> u8 {
    match index & 0x1F {
        0 => 10u8,
        1 => 254u8,
        2 => 20u8,
        3 => 2u8,
        4 => 40u8,
        5 => 4u8,
        6 => 80u8,
        7 => 6u8,
        8 => 160u8,
        9 => 8u8,
        10 => 60u8,
        11 => 10u8,
        12 => 14u8,
        13 => 12u8,
        14 => 26u8,
        15 => 14u8,
        16 => 12u8,
        17 => 16u8,
        18 => 24u8,
        19 => 18u8,
        20 => 48u8,
        21 => 20u8,
        22 => 96u8,
        23 => 22u8,
        24 => 192u8,
        25 => 24u8,
        26 => 72u8,
        27 => 26u8,
        28 => 16u8,
        29 => 28u8,
        30 => 32u8,
        31 => 30u8,
        _ => 0u8,
    }
}

pub fn length_value(index: u8) -> (r: u8)
    ensures
        r == spec_length_value(index),
{
    proof {
        assert(index & 0x1F < 32) by (bit_vector);
    }
    match index & 0x1F {
        0 => 10,
        1 => 254,
        2 => 20,
        3 => 2,
        4 => 40,
        5 => 4,
        6 => 80,
        7 => 6,
        8 => 160,
        9 => 8,
        10 => 60,
        11 => 10,
        12 => 14,
        13 => 12,
        14 => 26,
        15 => 14,
        16 => 12,
        17 => 16,
        18 => 24,
        19 => 18,
        20 => 48,
        21 => 20,
        22 => 96,
        23 => 22,
        24 => 192,
        25 => 24,
        26 => 72,
        27 => 26,
        28 => 16,
        29 => 28,
        30 => 32,
        31 => 30,
        _ => 0,
    }
}

/// Per-channel down-counter that silences the channel at zero. Loaded from
/// the length table by the top five bits of a register write, decremented on
/// each half-frame clock unless halted, and forced to zero when the channel
/// is disabled.
#[derive(Clone, Copy, Debug, PartialEq, Eq, Structural)]
pub struct LengthCounter {
    pub counter: u8,
    pub halt: bool,
}

impl LengthCounter {
    pub open spec fn clock_m(l: LengthCounter) -> LengthCounter {
        if !l.halt && l.counter > 0 {
            LengthCounter { counter: (l.counter - 1) as u8, ..l }
        } else {
            l
        }
    }

    pub fn new() -> (r: LengthCounter)
        ensures
            r == (LengthCounter { counter: 0, halt: false }),
    {
        LengthCounter { counter: 0, halt: false }
    }

    /// Reload from the length table; the register byte's top five bits index it.
    pub fn set(&mut self, data: u8)
        ensures
            *final(self) == (LengthCounter { counter: spec_length_value((data >> 3) as u8), ..*old(self) }),
    {
        self.counter = length_value(data >> 3);
    }

    pub fn set_halt(&mut self, halt: bool)
        ensures
            *final(self) == (LengthCounter { halt, ..*old(self) }),
    {
        self.halt = halt;
    }

    /// One half-frame clock.
    pub fn clock(&mut self)
        ensures
            *final(self) == Self::clock_m(*old(self)),
    {
        if !self.halt && self.counter > 0 {
            self.counter = self.counter - 1;
        }
    }

    pub fn disable(&mut self)
        ensures
            *final(self) == (LengthCounter { counter: 0, ..*old(self) }),
    {
        self.counter = 0;
    }

    pub fn is_non_zero(&self) -> (r: bool)
        ensures
            r == (self.counter != 0),
    {
        self.counter != 0
    }
}

} // verus!
