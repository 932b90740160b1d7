use nes_core::apu::Apu;
use nes_core::apu_channels::envelope::Envelope;
use nes_core::apu_channels::frame_counter::FrameCounter;
use nes_core::apu_channels::pulse_channel::PulseChannel;
use nes_core::apu_channels::triangle_channel::TriangleChannel;

#[test]
fn test_pulse_silent_with_zero_length_counter() {
    // A pulse channel whose length counter is zero outputs silence whatever
    // the duty, timer and envelope settings say.
    let mut pulse = PulseChannel::new();
    pulse.set_enabled(true);
    pulse.write_register(0x4000, 0b1111_1111); // 75% duty, loud constant volume
    pulse.write_register(0x4002, 0xFF); // timer period well above 8
    pulse.write_register(0x4003, 0b0000_0000);
    pulse.set_enabled(false); // forces the length counter to zero
    for _ in 0..16 {
        assert_eq!(pulse.generate_sample(), 0);
        pulse.clock_timer();
    }
}

#[test]
fn test_pulse_audible_when_gates_open() {
    let mut pulse = PulseChannel::new();
    pulse.set_enabled(true);
    // 50% duty, constant volume 9, halt set so the length counter stays.
    pulse.write_register(0x4000, 0b1010_1001);
    pulse.write_register(0x4002, 0x40); // period 0x40 >= 8
    pulse.write_register(0x4003, 0b0000_1000); // load length counter, reset sequence
    // Sequence position 0 is low for the 50% duty; positions 4..=7 are high.
    assert_eq!(pulse.generate_sample(), 0);
    for _ in 0..4 {
        // Timer reload is 0x40; the sequence advances only when the timer
        // hits zero, so force it by clocking through a full period.
        for _ in 0..0x41 {
            pulse.clock_timer();
        }
    }
    assert_eq!(pulse.generate_sample(), 9);
}

#[test]
fn test_triangle_ramp_sequence() {
    // Over one full 32-step cycle the audible triangle emits
    // 0,1,...,15,15,14,...,0 in order, then repeats.
    let mut tri = TriangleChannel::new();
    tri.set_enabled(true);
    tri.write_register(0x4008, 0x7F); // linear counter reload, no halt... control clear
    tri.write_register(0x400B, 0b0000_1000); // load length counter, set reload flag
    tri.clock_linear_counter(); // linear counter picks up the reload
    let mut expected: Vec<u8> = (0..=15).collect();
    expected.extend((0..=15).rev());
    let mut got = Vec::new();
    got.push(tri.sample_level());
    for _ in 0..63 {
        tri.tick_sequencer();
        got.push(tri.sample_level());
    }
    assert_eq!(&got[0..32], &expected[..]);
    assert_eq!(&got[32..64], &expected[..]); // repeats
}

#[test]
fn test_triangle_silent_when_disabled_or_zero_counters() {
    let mut tri = TriangleChannel::new();
    // Fresh channel: disabled, counters zero.
    assert_eq!(tri.sample_level(), 0);
    tri.set_enabled(true);
    // Length counter still zero: silent.
    assert_eq!(tri.sample_level(), 0);
    tri.write_register(0x400B, 0b0000_1000);
    // Linear counter still zero: silent.
    assert_eq!(tri.sample_level(), 0);
    tri.write_register(0x4008, 0x10);
    tri.clock_linear_counter();
    tri.tick_sequencer(); // position 1 of the ramp
    assert_eq!(tri.sample_level(), 1);
    tri.set_enabled(false); // forces the length counter to zero
    assert_eq!(tri.sample_level(), 0);
}

#[test]
fn test_envelope_decay_and_loop() {
    let mut env = Envelope::new();
    env.write_envelope(0b0001_0000); // use envelope, divider period 0
    env.set_start_flag();
    env.clock(); // start: decay level 15
    assert_eq!(env.volume(), 15);
    for expected in (0..=14).rev() {
        env.clock();
        assert_eq!(env.volume(), expected);
    }
    env.clock(); // at zero without loop: stays
    assert_eq!(env.volume(), 0);
}

#[test]
fn test_frame_counter_half_frame_steps() {
    // 4-step mode: the length counters are clocked on steps 1 and 3.
    let mut fc = FrameCounter::new();
    let mut p1 = PulseChannel::new();
    let mut p2 = PulseChannel::new();
    let mut tri = TriangleChannel::new();
    tri.set_enabled(true);
    tri.write_register(0x400B, 0b0000_1000); // length counter from the table
    let start = tri.get_length_counter();
    assert!(start > 2);
    fc.tick(&mut p1, &mut p2, &mut tri); // step 1: half frame
    assert_eq!(tri.get_length_counter(), start - 1);
    fc.tick(&mut p1, &mut p2, &mut tri); // step 2: quarter only
    assert_eq!(tri.get_length_counter(), start - 1);
    fc.tick(&mut p1, &mut p2, &mut tri); // step 3: half frame
    assert_eq!(tri.get_length_counter(), start - 2);
    fc.tick(&mut p1, &mut p2, &mut tri); // step 0: quarter only
    assert_eq!(tri.get_length_counter(), start - 2);
}

#[test]
fn test_frame_counter_interrupt_inhibit() {
    let mut fc = FrameCounter::new();
    let mut p1 = PulseChannel::new();
    let mut p2 = PulseChannel::new();
    let mut tri = TriangleChannel::new();
    fc.tick(&mut p1, &mut p2, &mut tri);
    assert!(fc.frame_interrupt);
    fc.write_control(0b0100_0000); // setting inhibit clears the pending interrupt
    assert!(fc.is_interrupt_inhibit());
    assert!(!fc.frame_interrupt);
    fc.tick(&mut p1, &mut p2, &mut tri);
    assert!(!fc.frame_interrupt);
}

#[test]
fn test_channel_status_read() {
    let mut apu = Apu::new();
    assert_eq!(apu.read_register(0x4015), 0);
    apu.write_register(0x4015, 0b0000_0111); // enable all three channels
    apu.write_register(0x4003, 0b0000_1000); // pulse 1 length counter
    apu.write_register(0x400B, 0b0000_1000); // triangle length counter
    let status = apu.read_register(0x4015);
    assert_eq!(status & 0b0000_0001, 0b0000_0001);
    assert_eq!(status & 0b0000_0010, 0);
    assert_eq!(status & 0b0000_0100, 0b0000_0100);
    // Disabling a channel forces its length counter to zero immediately.
    apu.write_register(0x4015, 0b0000_0110);
    let status2 = apu.read_register(0x4015);
    assert_eq!(status2 & 0b0000_0001, 0);
}

#[test]
fn test_take_samples_drains_buffer() {
    let mut apu = Apu::new();
    // 1789773 / 44100 is about 40.6: ticking 41 cycles crosses the
    // accumulator threshold at least once.
    for _ in 0..41 {
        apu.tick();
    }
    let samples = apu.take_samples();
    assert!(samples.len() >= 1);
    let again = apu.take_samples();
    assert_eq!(again.len(), 0);
}

#[test]
fn test_irq_pending_tracks_frame_interrupt() {
    let mut apu = Apu::new();
    assert!(!apu.irq_pending());
    // Run the divider up to a full frame-counter step.
    for _ in 0..7457 {
        apu.tick();
    }
    assert!(apu.irq_pending());
    apu.write_register(0x4017, 0b0100_0000);
    assert!(!apu.irq_pending());
}

#[test]
fn test_triangle_period_divides_sequencer_rate() {
    // With a programmed period of 3 the sequencer advances one ramp step
    // every four CPU cycles: countdown 3,2,1 then reload-and-step.
    let mut tri = TriangleChannel::new();
    tri.set_enabled(true);
    tri.write_register(0x4008, 0x7F);
    tri.write_register(0x400A, 0x03);
    tri.write_register(0x400B, 0b0000_1000);
    tri.clock_linear_counter();
    assert_eq!(tri.sample_level(), 0);
    tri.tick_sequencer(); // timer was 0: reload to 3 and step
    assert_eq!(tri.sample_level(), 1);
    for _ in 0..3 {
        tri.tick_sequencer(); // counting down: no step
        assert_eq!(tri.sample_level(), 1);
    }
    tri.tick_sequencer(); // hit zero again: step
    assert_eq!(tri.sample_level(), 2);
}
