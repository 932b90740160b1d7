use vstd::prelude::*;
use crate::apu_channels::envelope::Envelope;
use crate::apu_channels::length_counter::LengthCounter;
use crate::apu_channels::pulse_channel::PulseChannel;
use crate::apu_channels::triangle_channel::TriangleChannel;

verus! {

/// Sequencer-wide frame counter: a 4-step or 5-step mode, an
/// interrupt-inhibit flag and a pending-interrupt flag. Each sequencer step
/// clocks the quarter-frame units (envelopes, linear counter) and, on the
/// half-frame steps, the length counters of all three channels.
#[derive(Clone, Copy, Debug, PartialEq, Eq, Structural)]
pub struct FrameCounter {
    pub step: u8,
    pub mode_5step: bool,
    pub interrupt_inhibit: bool,
    pub frame_interrupt: bool,
}

impl FrameCounter {
    pub open spec fn wf(&self) -> bool {
        self.step < 5
    }

    /// Bit 7 selects the 5-step mode, bit 6 inhibits the frame interrupt;
    /// setting the inhibit clears a pending interrupt.
    pub open spec fn write_control_m(f: FrameCounter, value: u8) -> FrameCounter {
        let inhibit = value & 0b0100_0000 != 0;
        FrameCounter {
            mode_5step: value & 0b1000_0000 != 0,
            interrupt_inhibit: inhibit,
            frame_interrupt: if inhibit {
                false
            } else {
                f.frame_interrupt
            },
            ..f
        }
    }

    /// Whether the step just entered is a half-frame step: steps 1 and 3 of
    /// the 4-step cycle; steps 1, 3 and 4 of the 5-step cycle.
    pub open spec fn spec_is_half_frame(mode_5step: bool, step: u8) -> bool {
        if mode_5step {
            step == 1 || step == 3 || step == 4
        } else {
            step == 1 || step == 3
        }
    }

    /// One sequencer step over the frame counter and the three channels.
    pub open spec fn tick_m(
        f: FrameCounter,
        p1: PulseChannel,
        p2: PulseChannel,
        t: TriangleChannel,
    ) -> (FrameCounter, PulseChannel, PulseChannel, TriangleChannel) {
        let max_steps: u8 = if f.mode_5step {
            5
        } else {
            4
        };
        let step = ((f.step + 1) % max_steps as int) as u8;
        let p1a = PulseChannel { envelope: Envelope::clock_m(p1.envelope), ..p1 };
        let p2a = PulseChannel { envelope: Envelope::clock_m(p2.envelope), ..p2 };
        let ta = TriangleChannel::clock_linear_m(t);
        let (p1b, p2b, tb) = if Self::spec_is_half_frame(f.mode_5step, step) {
            (
                PulseChannel { length_counter: LengthCounter::clock_m(p1a.length_counter), ..p1a },
                PulseChannel { length_counter: LengthCounter::clock_m(p2a.length_counter), ..p2a },
                if !ta.control_flag && ta.length_counter > 0 {
                    TriangleChannel { length_counter: (ta.length_counter - 1) as u8, ..ta }
                } else {
                    ta
                },
            )
        } else {
            (p1a, p2a, ta)
        };
        let fb = FrameCounter {
            step,
            frame_interrupt: if !f.interrupt_inhibit {
                true
            } else {
                f.frame_interrupt
            },
            ..f
        };
        (fb, p1b, p2b, tb)
    }

    pub fn new() -> (r: FrameCounter)
        ensures
            r == (FrameCounter { step: 0, mode_5step: false, interrupt_inhibit: false, frame_interrupt: false }),
            r.wf(),
    {
        FrameCounter { step: 0, mode_5step: false, interrupt_inhibit: false, frame_interrupt: false }
    }

    pub fn write_control(&mut self, value: u8)
        ensures
            *final(self) == Self::write_control_m(*old(self), value),
            old(self).wf() ==> final(self).wf(),
    {
        self.mode_5step = value & 0b1000_0000 != 0;
        self.interrupt_inhibit = value & 0b0100_0000 != 0;
        if self.interrupt_inhibit {
            self.clear_frame_interrupt_flag();
        }
    }

    /// Advance one sequencer step, clocking the quarter-frame units every
    /// step and the length counters on half-frame steps; assert the frame
    /// interrupt when it is not inhibited.
    pub fn tick(
        &mut self,
        pulse1: &mut PulseChannel,
        pulse2: &mut PulseChannel,
        triangle: &mut TriangleChannel,
    )
        requires
            old(self).wf(),
        ensures
            (*final(self), *final(pulse1), *final(pulse2), *final(triangle)) == Self::tick_m(
                *old(self),
                *old(pulse1),
                *old(pulse2),
                *old(triangle),
            ),
            final(self).wf(),
    {
        let max_steps: u8 = if self.mode_5step {
            5
        } else {
            4
        };
        self.step = (self.step + 1) % max_steps;

        pulse1.clock_envelope();
        pulse2.clock_envelope();
        triangle.clock_linear_counter();

        let half_frame = if self.mode_5step {
            self.step == 1 || self.step == 3 || self.step == 4
        } else {
            self.step == 1 || self.step == 3
        };
        if half_frame {
            pulse1.clock_length_counter();
            pulse2.clock_length_counter();
            triangle.decrement_length_counter();
        }

        if !self.interrupt_inhibit {
            self.trigger_frame_interrupt();
        }
    }

    fn clear_frame_interrupt_flag(&mut self)
        ensures
            *final(self) == (FrameCounter { frame_interrupt: false, ..*old(self) }),
    {
        self.frame_interrupt = false;
    }

    fn trigger_frame_interrupt(&mut self)
        ensures
            *final(self) == (FrameCounter { frame_interrupt: true, ..*old(self) }),
    {
        self.frame_interrupt = true;
    }

    pub fn is_interrupt_inhibit(&self) -> (r: bool)
        ensures
            r == self.interrupt_inhibit,
    {
        self.interrupt_inhibit
    }
}

} // verus!
