use vstd::prelude::*;

verus! {

/// Volume envelope shared by the pulse channels: a divider clocked on each
/// quarter-frame, a decay level in [0, 15], and a start flag set by any
/// write to the channel's fourth register.
#[derive(Clone, Copy, Debug, PartialEq, Eq, Structural)]
pub struct Envelope {
    pub constant_volume: u8,
    pub loop_envelope: bool,
    pub use_envelope: bool,
    pub start_flag: bool,
    pub decay_level: u8,
    pub divider: u8,
}

impl Envelope {
    pub open spec fn wf(&self) -> bool {
        self.decay_level <= 15 && self.constant_volume <= 15
    }

    /// One quarter-frame clock: a pending start reloads the decay level to 15
    /// and the divider; otherwise the divider counts down and, at zero, the
    /// decay level decrements or loops back to 15.
    pub open spec fn clock_m(e: Envelope) -> Envelope {
        if e.start_flag {
            Envelope { start_flag: false, decay_level: 15, divider: e.constant_volume, ..e }
        } else if e.divider == 0 {
            if e.decay_level == 0 {
                if e.loop_envelope {
                    Envelope { divider: e.constant_volume, decay_level: 15, ..e }
                } else {
                    Envelope { divider: e.constant_volume, ..e }
                }
            } else {
                Envelope { divider: e.constant_volume, decay_level: (e.decay_level - 1) as u8, ..e }
            }
        } else {
            Envelope { divider: (e.divider - 1) as u8, ..e }
        }
    }

    pub open spec fn write_m(e: Envelope, value: u8) -> Envelope {
        Envelope {
            loop_envelope: value & 0b0010_0000 != 0,
            use_envelope: value & 0b0001_0000 != 0,
            constant_volume: value & 0xF,
            ..e
        }
    }

    pub open spec fn spec_volume(&self) -> u8 {
        if self.use_envelope {
            self.decay_level
        } else {
            self.constant_volume
        }
    }

    pub fn new() -> (r: Envelope)
        ensures
            r == (Envelope {
                constant_volume: 0,
                loop_envelope: false,
                use_envelope: false,
                start_flag: false,
                decay_level: 0,
                divider: 0,
            }),
            r.wf(),
    {
        Envelope {
            constant_volume: 0,
            loop_envelope: false,
            use_envelope: false,
            start_flag: false,
            decay_level: 0,
            divider: 0,
        }
    }

    pub fn clock(&mut self)
        ensures
            *final(self) == Self::clock_m(*old(self)),
            old(self).wf() ==> final(self).wf(),
    {
        if self.start_flag {
            self.start_flag = false;
            self.decay_level = 15;
            self.divider = self.constant_volume;
        } else if self.divider == 0 {
            self.divider = self.constant_volume;
            if self.decay_level == 0 {
                if self.loop_envelope {
                    self.decay_level = 15;
                }
            } else {
                self.decay_level = self.decay_level - 1;
            }
        } else {
            self.divider = self.divider - 1;
        }
    }

    pub fn write_envelope(&mut self, value: u8)
        ensures
            *final(self) == Self::write_m(*old(self), value),
            old(self).wf() ==> final(self).wf(),
    {
        self.loop_envelope = value & 0b0010_0000 != 0;
        self.use_envelope = value & 0b0001_0000 != 0;
        self.constant_volume = value & 0xF;
        proof {
            assert(value & 0xF <= 15) by (bit_vector);
        }
    }

    /// Reported volume: the constant-volume field when envelope use is
    /// disabled, otherwise the current decay level.
    pub fn volume(&self) -> (r: u8)
        ensures
            r == self.spec_volume(),
    {
        if self.use_envelope {
            self.decay_level
        } else {
            self.constant_volume
        }
    }

    pub fn set_start_flag(&mut self)
        ensures
            *final(self) == (Envelope { start_flag: true, ..*old(self) }),
    {
        self.start_flag = true;
    }
}

} // verus!
