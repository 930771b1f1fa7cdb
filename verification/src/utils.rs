pub mod color;
pub mod data_struct;
pub mod ringbuffer;
pub mod spectrogram_buffer;
pub mod spectrum_buffer;

pub use color::{hue_sector, lut_hues, sector_parts, ColorPart, HueSector};
pub use data_struct::RawData;
pub use ringbuffer::RingBuffer;
pub use spectrogram_buffer::{SpectrogramCalcBuffer, SPECTROGRAM_FFT_SIZE, SPECTROGRAM_HOP};
pub use spectrum_buffer::{SpectrumCalcBuffer, SPECTRUM_FRAME, SPECTRUM_HALF};
