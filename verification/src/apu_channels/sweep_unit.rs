use vstd::prelude::*;

verus! {

/// Pulse-channel sweep unit configuration, decoded from its register byte.
#[derive(Clone, Copy, Debug, PartialEq, Eq, Structural)]
pub struct SweepUnit {
    pub enabled: bool,
    pub divider_period: u8,
    pub is_negate: bool,
    pub shift_count: u8,
}

impl SweepUnit {
    pub open spec fn update_m(value: u8) -> SweepUnit {
        SweepUnit {
            enabled: value & 0b1000_0000 == 0b1000_0000,
            divider_period: (value & 0b0111_0000) >> 4,
            is_negate: value & 0b0000_1000 == 0b0000_1000,
            shift_count: value & 0b0000_0111,
        }
    }

    pub fn new() -> (r: SweepUnit)
        ensures
            r == (SweepUnit { enabled: false, divider_period: 0, is_negate: false, shift_count: 0 }),
    {
        SweepUnit { enabled: false, divider_period: 0, is_negate: false, shift_count: 0 }
    }

    pub fn update(&mut self, value: u8)
        ensures
            *final(self) == Self::update_m(value),
    {
        self.enabled = value & 0b1000_0000 == 0b1000_0000;
        self.divider_period = (value & 0b0111_0000) >> 4;
        self.is_negate = value & 0b0000_1000 == 0b0000_1000;
        self.shift_count = value & 0b0000_0111;
    }
}

} // verus!
