pub mod envelope;
pub mod frame_counter;
pub mod length_counter;
pub mod pulse_channel;
pub mod sweep_unit;
pub mod triangle_channel;
