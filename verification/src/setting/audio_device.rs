use vstd::prelude::*;

verus! {

/// Where the audio that the meters show comes from.
#[derive(Clone, Copy, Debug, PartialEq, Eq, Structural)]
pub enum AudioDevice {
    OutputCapture,
    PluginCapture,
    InputCapture,
}

impl Default for AudioDevice {
    fn default() -> (res: Self)
        ensures
            res == AudioDevice::OutputCapture,
    {
        AudioDevice::OutputCapture
    }
}

/// The chosen audio device.
#[derive(Clone, Copy, Debug, PartialEq, Eq, Structural)]
pub struct AudioDeviceSetting {
    pub device: AudioDevice,
}

impl Default for AudioDeviceSetting {
    fn default() -> (res: Self)
        ensures
            res.device == AudioDevice::OutputCapture,
    {
        AudioDeviceSetting { device: AudioDevice::default() }
    }
}

} // verus!
