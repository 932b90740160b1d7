use vstd::prelude::*;
use crate::apu_channels::envelope::Envelope;
use crate::apu_channels::length_counter::LengthCounter;
use crate::apu_channels::length_counter::spec_length_value;
use crate::apu_channels::sweep_unit::SweepUnit;

verus! {

/// One bit of the selected duty waveform. The four patterns over the eight
/// sequence positions are 12.5%, 25%, 50% and 75% (25% negated) high.
pub open spec fn spec_duty_bit(duty: u8, sequence: u8) -> bool {
    match duty {
        0 => sequence == 7,
        1 => sequence >= 6,
        2 => sequence >= 4,
        _ => sequence < 6,
    }
}

pub fn duty_bit(duty: u8, sequence: u8) -> (r: bool)
    ensures
        r == spec_duty_bit(duty, sequence),
{
    match duty {
        0 => sequence == 7,
        1 => sequence >= 6,
        2 => sequence >= 4,
        _ => sequence < 6,
    }
}

/// Square-wave channel: a duty sequencer over eight positions, an 11-bit
/// timer clocked every other CPU cycle, a length counter, an envelope and a
/// sweep unit.
#[derive(Clone, Copy, Debug, PartialEq, Eq, Structural)]
pub struct PulseChannel {
    pub enabled: bool,
    pub length_counter: LengthCounter,
    pub envelope: Envelope,
    pub sweep_unit: SweepUnit,
    pub duty: u8,
    pub sequence: u8,
    pub timer_load: u16,
    pub timer: u16,
}

impl PulseChannel {
    pub open spec fn wf(&self) -> bool {
        &&& self.duty <= 3
        &&& self.sequence <= 7
        &&& self.timer_load <= 0x7FF
        &&& self.timer <= 0x7FF
        &&& self.envelope.wf()
    }

    pub open spec fn new_m() -> PulseChannel {
        PulseChannel {
            enabled: false,
            length_counter: LengthCounter { counter: 0, halt: false },
            envelope: Envelope {
                constant_volume: 0,
                loop_envelope: false,
                use_envelope: false,
                start_flag: false,
                decay_level: 0,
                divider: 0,
            },
            sweep_unit: SweepUnit { enabled: false, divider_period: 0, is_negate: false, shift_count: 0 },
            duty: 0,
            sequence: 0,
            timer_load: 0,
            timer: 0,
        }
    }

    pub open spec fn write_m(p: PulseChannel, addr: u16, data: u8) -> PulseChannel {
        if addr % 4 == 0 {
            PulseChannel {
                duty: data >> 6,
                envelope: Envelope::write_m(p.envelope, data),
                length_counter: LengthCounter { halt: data & 0b0010_0000 != 0, ..p.length_counter },
                ..p
            }
        } else if addr % 4 == 1 {
            PulseChannel { sweep_unit: SweepUnit::update_m(data), ..p }
        } else if addr % 4 == 2 {
            PulseChannel { timer_load: (p.timer_load & 0x0700) | (data as u16), ..p }
        } else {
            let lc = if p.enabled {
                LengthCounter { counter: spec_length_value((data >> 3) as u8), ..p.length_counter }
            } else {
                p.length_counter
            };
            PulseChannel {
                length_counter: lc,
                timer_load: (p.timer_load & 0xFF) | (((data as u16) & 0b111) << 8),
                sequence: 0,
                envelope: Envelope { start_flag: true, ..p.envelope },
                ..p
            }
        }
    }

    /// Output level in [0, 15]: the envelope volume gated by the duty bit at
    /// the current sequence position, a non-zero length counter and a timer
    /// period of at least 8; silent otherwise.
    pub open spec fn sample_m(p: PulseChannel) -> u8 {
        if spec_duty_bit(p.duty, p.sequence) && p.length_counter.counter != 0 && p.timer_load >= 8 {
            p.envelope.spec_volume()
        } else {
            0u8
        }
    }

    /// One timer clock (every other CPU cycle): at zero the timer reloads
    /// from the programmed period and the sequence position advances mod 8.
    pub open spec fn clock_timer_m(p: PulseChannel) -> PulseChannel {
        if p.timer == 0 {
            PulseChannel { timer: p.timer_load, sequence: (p.sequence + 1) as u8 & 7, ..p }
        } else {
            PulseChannel { timer: (p.timer - 1) as u16, ..p }
        }
    }

    pub fn new() -> (r: PulseChannel)
        ensures
            r == Self::new_m(),
            r.wf(),
    {
        PulseChannel {
            enabled: false,
            length_counter: LengthCounter::new(),
            envelope: Envelope::new(),
            sweep_unit: SweepUnit::new(),
            duty: 0,
            sequence: 0,
            timer_load: 0,
            timer: 0,
        }
    }

    pub fn write_register(&mut self, addr: u16, data: u8)
        ensures
            *final(self) == Self::write_m(*old(self), addr, data),
            old(self).wf() ==> final(self).wf(),
    {
        proof {
            assert(data >> 6 <= 3) by (bit_vector);
            assert((data as u16 & 0b111) << 8 <= 0x700) by (bit_vector);
            assert(forall|t: u16, d: u8| #[trigger] ((t & 0x0700) | (d as u16)) <= 0x7FF) by (bit_vector);
            assert(forall|t: u16, d: u8| t <= 0x7FF ==> #[trigger] ((t & 0xFF) | (((d as u16) & 0b111) << 8)) <= 0x7FF) by (bit_vector);
        }
        match addr % 4 {
            0 => {
                self.duty = data >> 6;
                self.envelope.write_envelope(data);
                self.length_counter.set_halt(data & 0b0010_0000 != 0);
            },
            1 => {
                self.sweep_unit.update(data);
            },
            2 => {
                self.timer_load = (self.timer_load & 0x0700) | (data as u16);
            },
            _ => {
                if self.enabled {
                    self.length_counter.set(data);
                }
                self.timer_load = (self.timer_load & 0xFF) | (((data as u16) & 0b111) << 8);
                self.sequence = 0;
                self.envelope.set_start_flag();
            },
        }
    }

    /// A silenced channel — length counter zero among the causes — outputs 0
    /// regardless of duty, timer and envelope settings.
    pub fn generate_sample(&self) -> (r: u8)
        ensures
            r == Self::sample_m(*self),
            self.length_counter.counter == 0 ==> r == 0,
    {
        if duty_bit(self.duty, self.sequence) && self.length_counter.is_non_zero() && self.timer_load >= 8 {
            self.envelope.volume()
        } else {
            0
        }
    }

    pub fn clock_timer(&mut self)
        requires
            old(self).wf(),
        ensures
            *final(self) == Self::clock_timer_m(*old(self)),
            final(self).wf(),
    {
        if self.timer == 0 {
            self.timer = self.timer_load;
            self.sequence = (self.sequence + 1) & 7;
            proof {
                assert(forall|s: u8| s <= 7 ==> #[trigger] ((s + 1) as u8 & 7) <= 7) by (bit_vector);
            }
        } else {
            self.timer = self.timer - 1;
        }
    }

    /// Quarter-frame clock forwarded to the envelope.
    pub fn clock_envelope(&mut self)
        ensures
            *final(self) == (PulseChannel { envelope: Envelope::clock_m(old(self).envelope), ..*old(self) }),
    {
        self.envelope.clock();
    }

    /// Half-frame clock forwarded to the length counter.
    pub fn clock_length_counter(&mut self)
        ensures
            *final(self) == (PulseChannel { length_counter: LengthCounter::clock_m(old(self).length_counter), ..*old(self) }),
    {
        self.length_counter.clock();
    }

    /// Disabling the channel forces its length counter to zero immediately.
    pub fn set_enabled(&mut self, value: bool)
        ensures
            value ==> *final(self) == (PulseChannel { enabled: true, ..*old(self) }),
            !value ==> *final(self) == (PulseChannel {
                enabled: false,
                length_counter: LengthCounter { counter: 0, ..old(self).length_counter },
                ..*old(self)
            }),
    {
        self.enabled = value;
        if !value {
            self.length_counter.disable();
        }
    }

    pub fn length_counter_active(&self) -> (r: bool)
        ensures
            r == (self.length_counter.counter != 0),
    {
        self.length_counter.is_non_zero()
    }
}

} // verus!
