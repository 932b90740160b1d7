use vstd::prelude::*;
use crate::apu_channels::frame_counter::FrameCounter;
use crate::apu_channels::pulse_channel::PulseChannel;
use crate::apu_channels::triangle_channel::TriangleChannel;

verus! {

/// CPU (and APU) clock rate of the NTSC console, in Hz.
pub const APU_CLOCK_RATE: u32 = 1_789_773;

/// Output sample rate, in Hz.
pub const APU_SAMPLE_RATE: u32 = 44_100;

/// CPU cycles between frame-counter sequencer steps.
pub const FRAME_COUNTER_PERIOD: u16 = 7457;

/// Abstract state of the audio unit: the three channels, the frame counter,
/// the drained-on-read sample buffer, and the dividers that schedule timer
/// clocks, sequencer steps and output samples.
#[verifier::ext_equal]
pub struct ApuV {
    pub pulse1: PulseChannel,
    pub pulse2: PulseChannel,
    pub triangle: TriangleChannel,
    pub frame_counter: FrameCounter,
    pub buffer: Seq<i16>,
    pub odd_cycle: bool,
    pub frame_divider: u16,
    pub sample_acc: u32,
}

impl ApuV {
    pub open spec fn wf(self) -> bool {
        &&& self.pulse1.wf()
        &&& self.pulse2.wf()
        &&& self.frame_counter.wf()
        &&& self.frame_divider < FRAME_COUNTER_PERIOD
        &&& self.sample_acc < APU_CLOCK_RATE
    }

    pub open spec fn init() -> ApuV {
        ApuV {
            pulse1: PulseChannel::new_m(),
            pulse2: PulseChannel::new_m(),
            triangle: TriangleChannel::new_m(),
            frame_counter: FrameCounter { step: 0, mode_5step: false, interrupt_inhibit: false, frame_interrupt: false },
            buffer: Seq::empty(),
            odd_cycle: false,
            frame_divider: 0,
            sample_acc: 0,
        }
    }
}

/// Audio unit: two pulse channels, one triangle channel, the frame counter
/// and an accumulator-based downsampler filling the sample buffer.
pub struct Apu {
    pub pulse1: PulseChannel,
    pub pulse2: PulseChannel,
    pub triangle: TriangleChannel,
    pub frame_counter: FrameCounter,
    pub buffer: Vec<i16>,
    pub odd_cycle: bool,
    pub frame_divider: u16,
    pub sample_acc: u32,
}

impl View for Apu {
    type V = ApuV;

    open spec fn view(&self) -> ApuV {
        ApuV {
            pulse1: self.pulse1,
            pulse2: self.pulse2,
            triangle: self.triangle,
            frame_counter: self.frame_counter,
            buffer: self.buffer@,
            odd_cycle: self.odd_cycle,
            frame_divider: self.frame_divider,
            sample_acc: self.sample_acc,
        }
    }
}

impl Apu {
    /// Equal-weighted digital mix of the three channel levels, scaled to the
    /// output sample range.
    pub open spec fn mixed_m(a: ApuV) -> i16 {
        ((PulseChannel::sample_m(a.pulse1) + PulseChannel::sample_m(a.pulse2)
            + TriangleChannel::sample_m(a.triangle)) * 455) as i16
    }

    /// One APU tick (one CPU cycle): the triangle sequencer advances every
    /// cycle, the pulse timers every other cycle; every
    /// `FRAME_COUNTER_PERIOD` cycles the frame counter steps; the sample
    /// accumulator advances by the sample rate and emits one mixed sample
    /// each time it crosses the clock rate.
    pub open spec fn tick_m(a: ApuV) -> ApuV {
        let a1 = ApuV { triangle: TriangleChannel::tick_sequencer_m(a.triangle), ..a };
        let a2 = if a1.odd_cycle {
            ApuV {
                pulse1: PulseChannel::clock_timer_m(a1.pulse1),
                pulse2: PulseChannel::clock_timer_m(a1.pulse2),
                odd_cycle: false,
                ..a1
            }
        } else {
            ApuV { odd_cycle: true, ..a1 }
        };
        let a3 = if a2.frame_divider + 1 == FRAME_COUNTER_PERIOD {
            let (fc, p1, p2, t) = FrameCounter::tick_m(a2.frame_counter, a2.pulse1, a2.pulse2, a2.triangle);
            ApuV { frame_counter: fc, pulse1: p1, pulse2: p2, triangle: t, frame_divider: 0, ..a2 }
        } else {
            ApuV { frame_divider: (a2.frame_divider + 1) as u16, ..a2 }
        };
        let acc = a3.sample_acc + APU_SAMPLE_RATE;
        if acc >= APU_CLOCK_RATE {
            ApuV {
                sample_acc: (acc - APU_CLOCK_RATE) as u32,
                buffer: a3.buffer.push(Self::mixed_m(a3)),
                ..a3
            }
        } else {
            ApuV { sample_acc: acc as u32, ..a3 }
        }
    }

    /// Register dispatch: the three channel register groups, the master
    /// enable at 0x4015 (disabling forces a length counter to zero), and the
    /// frame-counter control at 0x4017; other addresses are ignored.
    pub open spec fn write_m(a: ApuV, addr: u16, data: u8) -> ApuV {
        if 0x4000 <= addr && addr <= 0x4003 {
            ApuV { pulse1: PulseChannel::write_m(a.pulse1, addr, data), ..a }
        } else if 0x4004 <= addr && addr <= 0x4007 {
            ApuV { pulse2: PulseChannel::write_m(a.pulse2, addr, data), ..a }
        } else if 0x4008 <= addr && addr <= 0x400B {
            ApuV { triangle: TriangleChannel::write_m(a.triangle, addr, data), ..a }
        } else if addr == 0x4015 {
            let p1 = if data & 0b0000_0001 != 0 {
                PulseChannel { enabled: true, ..a.pulse1 }
            } else {
                PulseChannel {
                    enabled: false,
                    length_counter: crate::apu_channels::length_counter::LengthCounter {
                        counter: 0,
                        ..a.pulse1.length_counter
                    },
                    ..a.pulse1
                }
            };
            let p2 = if data & 0b0000_0010 != 0 {
                PulseChannel { enabled: true, ..a.pulse2 }
            } else {
                PulseChannel {
                    enabled: false,
                    length_counter: crate::apu_channels::length_counter::LengthCounter {
                        counter: 0,
                        ..a.pulse2.length_counter
                    },
                    ..a.pulse2
                }
            };
            let t = if data & 0b0000_0100 != 0 {
                TriangleChannel { enabled: true, ..a.triangle }
            } else {
                TriangleChannel { enabled: false, length_counter: 0, ..a.triangle }
            };
            ApuV { pulse1: p1, pulse2: p2, triangle: t, ..a }
        } else if addr == 0x4017 {
            ApuV { frame_counter: FrameCounter::write_control_m(a.frame_counter, data), ..a }
        } else {
            a
        }
    }

    /// 0x4015 reads report which channels have a live length counter and
    /// whether a frame interrupt is pending; every other address in the
    /// window is write-only and reads as zero.
    pub open spec fn read_m(a: ApuV, addr: u16) -> u8 {
        if addr == 0x4015 {
            (if a.pulse1.length_counter.counter != 0 { 0b0000_0001u8 } else { 0u8 })
            | (if a.pulse2.length_counter.counter != 0 { 0b0000_0010u8 } else { 0u8 })
            | (if a.triangle.length_counter != 0 { 0b0000_0100u8 } else { 0u8 })
            | (if a.frame_counter.frame_interrupt { 0b0100_0000u8 } else { 0u8 })
        } else {
            0u8
        }
    }

    pub fn new() -> (r: Apu)
        ensures
            r@ == ApuV::init(),
            r@.wf(),
    {
        let a = Apu {
            pulse1: PulseChannel::new(),
            pulse2: PulseChannel::new(),
            triangle: TriangleChannel::new(),
            frame_counter: FrameCounter::new(),
            buffer: Vec::new(),
            odd_cycle: false,
            frame_divider: 0,
            sample_acc: 0,
        };
        proof {
            assert(a@ =~= ApuV::init());
        }
        a
    }

    pub fn tick(&mut self)
        requires
            old(self)@.wf(),
        ensures
            final(self)@ == Self::tick_m(old(self)@),
            final(self)@.wf(),
    {
        self.triangle.tick_sequencer();
        if self.odd_cycle {
            self.pulse1.clock_timer();
            self.pulse2.clock_timer();
            self.odd_cycle = false;
        } else {
            self.odd_cycle = true;
        }
        if self.frame_divider + 1 == FRAME_COUNTER_PERIOD {
            self.frame_divider = 0;
            self.frame_counter.tick(&mut self.pulse1, &mut self.pulse2, &mut self.triangle);
        } else {
            self.frame_divider = self.frame_divider + 1;
        }
        let acc = self.sample_acc + APU_SAMPLE_RATE;
        if acc >= APU_CLOCK_RATE {
            self.sample_acc = acc - APU_CLOCK_RATE;
            let s = self.generate_sample();
            self.buffer.push(s);
        } else {
            self.sample_acc = acc;
        }
        proof {
            assert(self@ =~= Self::tick_m(old(self)@));
        }
    }

    /// The mixed output level of the three channels as one signed sample.
    pub fn generate_sample(&self) -> (r: i16)
        requires
            self@.wf(),
        ensures
            r == Self::mixed_m(self@),
    {
        let p1 = self.pulse1.generate_sample() as i16;
        let p2 = self.pulse2.generate_sample() as i16;
        let t = self.triangle.sample_level() as i16;
        (p1 + p2 + t) * 455
    }

    /// Drain the sample buffer: returns everything accumulated since the
    /// last call and leaves the buffer empty.
    pub fn take_samples(&mut self) -> (r: Vec<i16>)
        ensures
            r@ == old(self)@.buffer,
            final(self)@ == (ApuV { buffer: Seq::empty(), ..old(self)@ }),
    {
        let mut out: Vec<i16> = Vec::new();
        core::mem::swap(&mut out, &mut self.buffer);
        proof {
            assert(self@ =~= (ApuV { buffer: Seq::<i16>::empty(), ..old(self)@ }));
        }
        out
    }

    /// Whether the frame counter holds a pending interrupt.
    pub fn irq_pending(&self) -> (r: bool)
        ensures
            r == self.frame_counter.frame_interrupt,
    {
        self.frame_counter.frame_interrupt
    }

    pub fn write_register(&mut self, addr: u16, data: u8)
        requires
            old(self)@.wf(),
        ensures
            final(self)@ == Self::write_m(old(self)@, addr, data),
            final(self)@.wf(),
    {
        if 0x4000 <= addr && addr <= 0x4003 {
            self.pulse1.write_register(addr, data);
        } else if 0x4004 <= addr && addr <= 0x4007 {
            self.pulse2.write_register(addr, data);
        } else if 0x4008 <= addr && addr <= 0x400B {
            self.triangle.write_register(addr, data);
        } else if addr == 0x4015 {
            self.pulse1.set_enabled(data & 0b0000_0001 != 0);
            self.pulse2.set_enabled(data & 0b0000_0010 != 0);
            self.triangle.set_enabled(data & 0b0000_0100 != 0);
        } else if addr == 0x4017 {
            self.frame_counter.write_control(data);
        }
        proof {
            assert(self@ =~= Self::write_m(old(self)@, addr, data));
        }
    }

    pub fn read_register(&self, addr: u16) -> (r: u8)
        ensures
            r == Self::read_m(self@, addr),
    {
        if addr == 0x4015 {
            let b0: u8 = if self.pulse1.length_counter.is_non_zero() { 0b0000_0001 } else { 0 };
            let b1: u8 = if self.pulse2.length_counter.is_non_zero() { 0b0000_0010 } else { 0 };
            let b2: u8 = if self.triangle.get_length_counter() != 0 { 0b0000_0100 } else { 0 };
            let b6: u8 = if self.frame_counter.frame_interrupt { 0b0100_0000 } else { 0 };
            b0 | b1 | b2 | b6
        } else {
            0
        }
    }
}

} // verus!
