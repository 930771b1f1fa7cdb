use vstd::prelude::*;

verus! {

/// The meters that can be placed in the window.
#[derive(Clone, Copy, Debug, PartialEq, Eq, Structural)]
pub enum MeterList {
    Waveform,
    Spectrogram,
    Vectorscope,
    Oscilloscope,
    Spectrum,
    Peak,
    GPUTest,
}

/// The name under which a meter is shown.
pub open spec fn meter_name(meter: MeterList) -> Seq<char> {
    match meter {
        MeterList::Waveform => "Waveform"@,
        MeterList::Spectrogram => "Spectrogram"@,
        MeterList::Vectorscope => "Vectorscope"@,
        MeterList::Oscilloscope => "Oscilloscope"@,
        MeterList::Spectrum => "Spectrum"@,
        MeterList::Peak => "Peak"@,
        MeterList::GPUTest => "GPUTest"@,
    }
}

impl MeterList {
    /// The name under which the meter is shown.
    pub fn to_string(&self) -> (res: String)
        ensures
            res@ == meter_name(*self),
    {
        match self {
            MeterList::Waveform => "Waveform".to_string(),
            MeterList::Spectrogram => "Spectrogram".to_string(),
            MeterList::Vectorscope => "Vectorscope".to_string(),
            MeterList::Oscilloscope => "Oscilloscope".to_string(),
            MeterList::Spectrum => "Spectrum".to_string(),
            MeterList::Peak => "Peak".to_string(),
            MeterList::GPUTest => "GPUTest".to_string(),
        }
    }
}

/// The meter layout of a first start: every meter but the test one in the
/// first list (the meters that are off), none in the second (those shown).
pub fn default_meters() -> (res: Vec<Vec<MeterList>>)
    ensures
        res@.len() == 2,
        res@[0]@ == seq![
            MeterList::Waveform,
            MeterList::Spectrogram,
            MeterList::Vectorscope,
            MeterList::Oscilloscope,
            MeterList::Spectrum,
            MeterList::Peak,
        ],
        res@[1]@ == Seq::<MeterList>::empty(),
{
    let off = vec![
        MeterList::Waveform,
        MeterList::Spectrogram,
        MeterList::Vectorscope,
        MeterList::Oscilloscope,
        MeterList::Spectrum,
        MeterList::Peak,
    ];
    let on: Vec<MeterList> = Vec::new();
    let mut res: Vec<Vec<MeterList>> = Vec::new();
    res.push(off);
    res.push(on);
    res
}

/// Whether `meter` is among the meters shown, the second list of `meters`;
/// the audio callback computes only what the shown meters need.
pub fn meter_enabled(meters: &Vec<Vec<MeterList>>, meter: MeterList) -> (res: bool)
    requires
        meters@.len() >= 2,
    ensures
        res == meters@[1]@.contains(meter),
{
    let shown = &meters[1];
    assert(shown@ == meters@[1]@);
    let mut i: usize = 0;
    while i < shown.len()
        invariant
            i <= shown@.len(),
            meters@.len() >= 2,
            shown@ == meters@[1]@,
            forall|j: int| 0 <= j < i ==> shown@[j] != meter,
        decreases shown@.len() - i,
    {
        if shown[i] == meter {
            assert(shown@[i as int] == meter);
            return true;
        }
        i = i + 1;
    }
    false
}

} // verus!
