pub mod audio_source;
pub mod block;
pub mod deinterleave;
pub mod oscilloscope;
pub mod plugin_frame;

pub use audio_source::AudioSource;
pub use block::{count_sample, PEAK_BLOCK_LENGTH, VECTOR_BLOCK_LENGTH, WAVEFORM_BLOCK_LENGTH};
pub use deinterleave::deinterleave;
pub use oscilloscope::{OscCalcBuffer, OscilloscopeSendData, SampleSign};
pub use plugin_frame::{plugin_frame, ring_segment, split_channels, PluginRingReader};
