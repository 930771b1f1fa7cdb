use vstd::prelude::*;

verus! {

/// A source of audio frames that can be started and stopped.
pub trait AudioSource {
    /// The name shown for the source.
    fn get_name(&self) -> String;

    /// Starts delivering audio.
    fn start(&mut self);

    /// Stops delivering audio.
    fn stop(&mut self);
}

} // verus!
