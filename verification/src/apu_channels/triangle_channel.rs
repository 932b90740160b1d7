use vstd::prelude::*;
use crate::apu_channels::length_counter::length_value;
use crate::apu_channels::length_counter::spec_length_value;

verus! {

/// The 32-step bidirectional ramp the triangle sequencer walks: it rises
/// 0..=15 over the first sixteen positions and falls 15..=0 over the rest.
pub open spec fn spec_triangle_wave(step: u16) -> u8 {
    let s = step % 32;
    if s < 16 {
        s as u8
    } else {
        (31 - s) as u8
    }
}

pub fn triangle_wave(step: u16) -> (r: u8)
    ensures
        r == spec_triangle_wave(step),
{
    let s = step % 32;
    if s < 16 {
        s as u8
    } else {
        (31 - s) as u8
    }
}

/// Triangle channel: a 32-step ramp sequencer driven by a timer that is
/// clocked every CPU cycle and reloads from the programmed period, a length
/// counter, and a linear counter reloaded or decremented on each
/// quarter-frame clock.
#[derive(Clone, Copy, Debug, PartialEq, Eq, Structural)]
pub struct TriangleChannel {
    pub enabled: bool,
    pub length_counter: u8,
    pub timer: u16,
    pub timer_reload: u16,
    pub sequence: u8,
    pub linear_counter: u8,
    pub linear_counter_reload: u8,
    pub control_flag: bool,
    pub linear_reload_flag: bool,
}

impl TriangleChannel {
    pub open spec fn new_m() -> TriangleChannel {
        TriangleChannel {
            enabled: false,
            length_counter: 0,
            timer: 0,
            timer_reload: 0,
            sequence: 0,
            linear_counter: 0,
            linear_counter_reload: 0,
            control_flag: false,
            linear_reload_flag: false,
        }
    }

    pub open spec fn write_m(t: TriangleChannel, addr: u16, data: u8) -> TriangleChannel {
        if addr == 0x4008 {
            TriangleChannel {
                control_flag: data & 0b1000_0000 != 0,
                linear_counter_reload: data & 0b0111_1111,
                ..t
            }
        } else if addr == 0x400A {
            TriangleChannel { timer_reload: (t.timer_reload & 0xFF00) | (data as u16), ..t }
        } else if addr == 0x400B {
            TriangleChannel {
                timer_reload: (t.timer_reload & 0x00FF) | (((data as u16) & 0b111) << 8),
                length_counter: if t.enabled {
                    spec_length_value((data >> 3) as u8)
                } else {
                    t.length_counter
                },
                linear_reload_flag: true,
                ..t
            }
        } else {
            t
        }
    }

    /// Output level in [0, 15]: the ramp entry at the sequencer position, or
    /// silence when the channel is disabled or either counter is zero.
    pub open spec fn sample_m(t: TriangleChannel) -> u8 {
        if !t.enabled || t.length_counter == 0 || t.linear_counter == 0 {
            0u8
        } else {
            spec_triangle_wave(t.sequence as u16)
        }
    }

    /// One CPU cycle of the sequencer clock: the timer counts down and, at
    /// zero, reloads from the programmed period and advances the ramp
    /// position mod 32 while the length and linear counters are live.
    pub open spec fn tick_sequencer_m(t: TriangleChannel) -> TriangleChannel {
        if t.timer == 0 {
            let seq = if t.length_counter > 0 && t.linear_counter > 0 {
                (vstd::wrapping::u8_specs::wrapping_add(t.sequence, 1) % 32) as u8
            } else {
                t.sequence
            };
            TriangleChannel { timer: t.timer_reload, sequence: seq, ..t }
        } else {
            TriangleChannel { timer: (t.timer - 1) as u16, ..t }
        }
    }

    /// Quarter-frame clock for the linear counter: reload when flagged,
    /// otherwise count down; the reload flag persists only under the control
    /// flag.
    pub open spec fn clock_linear_m(t: TriangleChannel) -> TriangleChannel {
        let lin = if t.linear_reload_flag {
            t.linear_counter_reload
        } else if t.linear_counter > 0 {
            (t.linear_counter - 1) as u8
        } else {
            t.linear_counter
        };
        let flag = if !t.control_flag {
            false
        } else {
            t.linear_reload_flag
        };
        TriangleChannel { linear_counter: lin, linear_reload_flag: flag, ..t }
    }

    pub fn new() -> (r: TriangleChannel)
        ensures
            r == Self::new_m(),
    {
        TriangleChannel {
            enabled: false,
            length_counter: 0,
            timer: 0,
            timer_reload: 0,
            sequence: 0,
            linear_counter: 0,
            linear_counter_reload: 0,
            control_flag: false,
            linear_reload_flag: false,
        }
    }

    pub fn write_register(&mut self, addr: u16, data: u8)
        ensures
            *final(self) == Self::write_m(*old(self), addr, data),
    {
        if addr == 0x4008 {
            self.control_flag = data & 0b1000_0000 != 0;
            self.linear_counter_reload = data & 0b0111_1111;
        } else if addr == 0x400A {
            self.timer_reload = (self.timer_reload & 0xFF00) | (data as u16);
        } else if addr == 0x400B {
            self.timer_reload = (self.timer_reload & 0x00FF) | (((data as u16) & 0b111) << 8);
            if self.enabled {
                self.length_counter = length_value(data >> 3);
            }
            self.linear_reload_flag = true;
        }
    }

    /// One sequencer clock; unlike the pulse timer this runs every CPU
    /// cycle. At timer zero the programmed period is reloaded and the ramp
    /// position advances while the length and linear counters are live.
    pub fn tick_sequencer(&mut self)
        ensures
            *final(self) == Self::tick_sequencer_m(*old(self)),
    {
        if self.timer == 0 {
            self.timer = self.timer_reload;
            if self.length_counter > 0 && self.linear_counter > 0 {
                self.sequence = self.sequence.wrapping_add(1) % 32;
            }
        } else {
            self.timer = self.timer - 1;
        }
    }

    /// Disabling the channel forces its length counter to zero immediately.
    pub fn set_enabled(&mut self, enabled: bool)
        ensures
            enabled ==> *final(self) == (TriangleChannel { enabled: true, ..*old(self) }),
            !enabled ==> *final(self) == (TriangleChannel { enabled: false, length_counter: 0, ..*old(self) }),
    {
        self.enabled = enabled;
        if !enabled {
            self.length_counter = 0;
        }
    }

    /// Half-frame clock: count down unless halted by the control flag.
    pub fn decrement_length_counter(&mut self)
        ensures
            !old(self).control_flag && old(self).length_counter > 0 ==> *final(self) == (TriangleChannel {
                length_counter: (old(self).length_counter - 1) as u8,
                ..*old(self)
            }),
            old(self).control_flag || old(self).length_counter == 0 ==> *final(self) == *old(self),
    {
        if !self.control_flag && self.length_counter > 0 {
            self.length_counter = self.length_counter - 1;
        }
    }

    pub fn get_length_counter(&self) -> (r: u8)
        ensures
            r == self.length_counter,
    {
        self.length_counter
    }

    pub fn clock_linear_counter(&mut self)
        ensures
            *final(self) == Self::clock_linear_m(*old(self)),
    {
        if self.linear_reload_flag {
            self.linear_counter = self.linear_counter_reload;
        } else if self.linear_counter > 0 {
            self.linear_counter = self.linear_counter - 1;
        }
        if !self.control_flag {
            self.linear_reload_flag = false;
        }
    }

    /// A silenced channel — disabled, length counter zero or linear counter
    /// zero — outputs 0 regardless of the sequencer position.
    pub fn sample_level(&self) -> (r: u8)
        ensures
            r == Self::sample_m(*self),
    {
        if !self.enabled || self.length_counter == 0 || self.linear_counter == 0 {
            return 0;
        }
        triangle_wave(self.sequence as u16)
    }
}

/// One full cycle of the triangle sequencer yields the ramp
/// 0,1,...,15,15,14,...,0 in order and then repeats: the entry at position
/// `i` rises with `i` over the first half, mirrors it over the second, and
/// the whole pattern has period 32.
pub proof fn lemma_triangle_wave_cycle(i: u16)
    ensures
        i % 32 < 16 ==> spec_triangle_wave(i) == i % 32,
        i % 32 >= 16 ==> spec_triangle_wave(i) == 31 - i % 32,
        i < 0xFFE0 ==> spec_triangle_wave((i + 32) as u16) == spec_triangle_wave(i),
{
    if i < 0xFFE0 {
        let j = (i + 32) as u16;
        assert(j % 32 == i % 32) by (bit_vector)
            requires
                j == i + 32,
                i < 0xFFE0,
        ;
    }
}

} // verus!
