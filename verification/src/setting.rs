pub mod audio_device;
pub mod meter;
pub mod module;
pub mod oscilloscope;
pub mod spectrogram;
pub mod spectrum;
pub mod stereogram;
pub mod theme;
pub mod vectorscope;
pub mod waveform;

pub use audio_device::{AudioDevice, AudioDeviceSetting};
pub use meter::{default_meters, meter_enabled, MeterList};
pub use module::{insert_row_index, move_item, Location, ModuleList};
pub use oscilloscope::{OscilloscopeCycle, OscilloscopeSetting};
pub use spectrogram::{SpectrogramCurve, SpectrogramMode, SpectrogramOrientation};
pub use spectrum::{SpectrumChannel, SpectrumFreqLine, SpectrumFreqReadout, SpectrumMode, SpectrumSwitch};
pub use stereogram::{StereogramColor, StereogramMode, StereogramPolarity};
pub use theme::ThemeType;
pub use vectorscope::{VectorscopeColor, VectorscopeMode, VectorscopePolarity};
pub use waveform::{WaveformChannel, WaveformHistory, WaveformMode, WaveformSetting};
