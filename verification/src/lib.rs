pub mod audio;
pub mod setting;
pub mod settings;
pub mod utils;

pub use audio::AudioSource;
pub use settings::Settings;
