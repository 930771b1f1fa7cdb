use crate::setting::oscilloscope::{OscilloscopeCycle, OscilloscopeSetting};
use vstd::prelude::*;

verus! {

/// Samples the oscilloscope collects before it shows them when it does not
/// follow the pitch, and the fewest it shows in the multi-cycle mode.
pub const OSCILLOSCOPE_FRAME: usize = 2400;

/// Samples after which the oscilloscope shows what it has whatever the
/// cycle, so that the buffer cannot grow without end.
pub const OSCILLOSCOPE_MAX_FRAME: usize = 4096;

/// The sign of the sample `m` when no sample was kept yet, and of the
/// product of the last kept sample and `m` afterwards; `Unordered` for a
/// product that compares with nothing (not a number).
#[derive(Clone, Copy, Debug, PartialEq, Eq, Structural)]
pub enum SampleSign {
    Positive,
    Zero,
    Negative,
    Unordered,
}

/// A frame for the oscilloscope to show: its length and its samples.
#[derive(Debug, Clone)]
pub struct OscilloscopeSendData<T> {
    pub len: usize,
    pub data: Vec<T>,
}

/// The samples the oscilloscope is collecting, the last sample kept to find
/// zero crossings, and which half cycle it is in.
#[derive(Debug, Clone)]
pub struct OscCalcBuffer<T> {
    pub raw: Vec<T>,
    pub last: Option<T>,
    pub even_turn: bool,
    pub first_turn: bool,
}

/// The state of an oscilloscope buffer, as values.
pub struct OscModel<T> {
    pub raw: Seq<T>,
    pub last: Option<T>,
    pub even_turn: bool,
    pub first_turn: bool,
}

/// An empty buffer that has seen no sample.
pub open spec fn osc_cleared<T>() -> OscModel<T> {
    OscModel { raw: Seq::empty(), last: None, even_turn: false, first_turn: false }
}

/// Takes sample `m` when the oscilloscope follows the pitch: before a
/// positive sample nothing is kept; then every sample of the same sign or
/// zero is kept, a change of sign is kept and flips the half cycle (and, for
/// a single cycle, marks the first cycle as begun when it ends an even half),
/// and a sample that compares with nothing is dropped.
pub open spec fn osc_track<T>(s: OscModel<T>, m: T, sign: SampleSign, cycle: OscilloscopeCycle) -> OscModel<T> {
    match s.last {
        None => if sign == SampleSign::Positive {
            OscModel { raw: s.raw.push(m), last: Some(m), ..s }
        } else {
            s
        },
        Some(_) => match sign {
            SampleSign::Positive => OscModel { raw: s.raw.push(m), last: Some(m), ..s },
            SampleSign::Zero => OscModel { raw: s.raw.push(m), ..s },
            SampleSign::Negative => OscModel {
                raw: s.raw.push(m),
                last: Some(m),
                even_turn: !s.even_turn,
                first_turn: if cycle == OscilloscopeCycle::Single {
                    s.first_turn || s.even_turn
                } else {
                    s.first_turn
                },
            },
            SampleSign::Unordered => s,
        },
    }
}

/// What one sample does: the state after it, and the frame shown, if any.
/// Following the pitch, a frame is shown at the end of a whole cycle (after
/// at least `OSCILLOSCOPE_FRAME` samples in the multi-cycle mode, after the
/// first cycle in the single-cycle mode), or when `OSCILLOSCOPE_MAX_FRAME`
/// samples are held; otherwise every `OSCILLOSCOPE_FRAME` samples. Showing a
/// frame empties the buffer.
pub open spec fn osc_step<T>(s: OscModel<T>, m: T, sign: SampleSign, setting: OscilloscopeSetting) -> (OscModel<T>, Option<(nat, Seq<T>)>) {
    if setting.follow_pitch {
        let t = osc_track(s, m, sign, setting.cycle);
        let cycle_done = match setting.cycle {
            OscilloscopeCycle::Multi => t.raw.len() >= OSCILLOSCOPE_FRAME && t.even_turn,
            OscilloscopeCycle::Single => t.first_turn && t.even_turn,
        };
        if cycle_done || t.raw.len() >= OSCILLOSCOPE_MAX_FRAME {
            (osc_cleared(), Some((t.raw.len(), t.raw)))
        } else {
            (t, None)
        }
    } else {
        let raw = s.raw.push(m);
        if raw.len() >= OSCILLOSCOPE_FRAME {
            (osc_cleared(), Some((OSCILLOSCOPE_FRAME as nat, raw)))
        } else {
            (OscModel { raw, ..s }, None)
        }
    }
}

impl<T: Copy> OscCalcBuffer<T> {
    /// The buffer as values.
    pub open spec fn model(&self) -> OscModel<T> {
        OscModel { raw: self.raw@, last: self.last, even_turn: self.even_turn, first_turn: self.first_turn }
    }

    /// An empty buffer that has seen no sample.
    pub fn new() -> (res: Self)
        ensures
            res.model() == osc_cleared::<T>(),
    {
        OscCalcBuffer { raw: Vec::new(), last: None, even_turn: false, first_turn: false }
    }

    /// Empties the buffer and forgets the last sample and the half cycle.
    pub fn clear(&mut self)
        ensures
            final(self).model() == osc_cleared::<T>(),
    {
        self.raw.clear();
        self.last = None;
        self.even_turn = false;
        self.first_turn = false;
    }

    /// Takes one sample `m`; `sign` is the sign of `m` when no sample was
    /// kept yet and of the last kept sample times `m` afterwards. Returns the
    /// frame to show, if this sample completes one.
    pub fn step(&mut self, m: T, sign: SampleSign, setting: OscilloscopeSetting) -> (res: Option<OscilloscopeSendData<T>>)
        ensures
            ({
                let (next, out) = osc_step(old(self).model(), m, sign, setting);
                &&& final(self).model() == next
                &&& match res {
                    Some(d) => out == Some((d.len as nat, d.data@)),
                    None => out is None,
                }
            }),
    {
        if setting.follow_pitch {
            match self.last {
                None => {
                    if sign == SampleSign::Positive {
                        self.raw.push(m);
                        self.last = Some(m);
                    }
                },
                Some(_) => {
                    match sign {
                        SampleSign::Positive => {
                            self.raw.push(m);
                            self.last = Some(m);
                        },
                        SampleSign::Zero => {
                            self.raw.push(m);
                        },
                        SampleSign::Negative => {
                            self.raw.push(m);
                            self.last = Some(m);
                            if setting.cycle == OscilloscopeCycle::Single && self.even_turn {
                                self.first_turn = true;
                            }
                            self.even_turn = !self.even_turn;
                        },
                        SampleSign::Unordered => {},
                    }
                },
            }
            let cycle_done = match setting.cycle {
                OscilloscopeCycle::Multi => self.raw.len() >= OSCILLOSCOPE_FRAME && self.even_turn,
                OscilloscopeCycle::Single => self.first_turn && self.even_turn,
            };
            if cycle_done || self.raw.len() >= OSCILLOSCOPE_MAX_FRAME {
                let mut data: Vec<T> = Vec::new();
                std::mem::swap(&mut data, &mut self.raw);
                let len = data.len();
                self.clear();
                Some(OscilloscopeSendData { len, data })
            } else {
                None
            }
        } else {
            self.raw.push(m);
            if self.raw.len() >= OSCILLOSCOPE_FRAME {
                let mut data: Vec<T> = Vec::new();
                std::mem::swap(&mut data, &mut self.raw);
                self.clear();
                Some(OscilloscopeSendData { len: OSCILLOSCOPE_FRAME, data })
            } else {
                None
            }
        }
    }
}

/// The buffer never holds `OSCILLOSCOPE_MAX_FRAME` samples after a sample
/// when following the pitch, nor `OSCILLOSCOPE_FRAME` otherwise, as long as
/// it held fewer before; every frame shown when following the pitch holds at
/// most `OSCILLOSCOPE_MAX_FRAME` samples.
pub proof fn law_oscilloscope_buffer_bounded<T>(
    s: OscModel<T>,
    m: T,
    sign: SampleSign,
    setting: OscilloscopeSetting,
)
    requires
        setting.follow_pitch ==> s.raw.len() < OSCILLOSCOPE_MAX_FRAME,
        !setting.follow_pitch ==> s.raw.len() < OSCILLOSCOPE_FRAME,
    ensures
        setting.follow_pitch ==> osc_step(s, m, sign, setting).0.raw.len() < OSCILLOSCOPE_MAX_FRAME,
        !setting.follow_pitch ==> osc_step(s, m, sign, setting).0.raw.len() < OSCILLOSCOPE_FRAME,
        setting.follow_pitch ==> (osc_step(s, m, sign, setting).1 matches Some((n, d)) ==> n
            == d.len() && d.len() <= OSCILLOSCOPE_MAX_FRAME),
        setting.follow_pitch ==> osc_step(s, m, sign, setting).0.raw.len() < 4096,
        !setting.follow_pitch ==> osc_step(s, m, sign, setting).0.raw.len() < 2400,
        !setting.follow_pitch ==> (osc_step(s, m, sign, setting).1 matches Some((n, d)) ==> n == 2400
            && d.len() == 2400),
{
}

/// Following the pitch, a sample is dropped only before the first positive
/// sample or when it compares with nothing; every other sample is kept or
/// ends up in the frame shown.
pub proof fn law_oscilloscope_keeps_samples<T>(
    s: OscModel<T>,
    m: T,
    sign: SampleSign,
    setting: OscilloscopeSetting,
)
    requires
        setting.follow_pitch,
        sign != SampleSign::Unordered,
        s.last is Some || sign == SampleSign::Positive,
    ensures
        ({
            let (next, out) = osc_step(s, m, sign, setting);
            match out {
                Some((_, d)) => d == s.raw.push(m) && next.raw.len() == 0 && next.last is None
                    && !next.even_turn && !next.first_turn,
                None => next.raw == s.raw.push(m),
            }
        }),
{
}

/// Following the pitch, the last kept sample, against which the next
/// sample's sign is taken, changes only at a sample of the same sign or of
/// the opposite sign: a sample whose product with it is zero is kept but
/// leaves it as it was, and a sample that compares with nothing changes
/// nothing.
pub proof fn law_oscilloscope_last_sample<T>(
    s: OscModel<T>,
    m: T,
    sign: SampleSign,
    setting: OscilloscopeSetting,
)
    requires
        setting.follow_pitch,
        s.last is Some,
    ensures
        ({
            let (next, out) = osc_step(s, m, sign, setting);
            out is None ==> {
                &&& (sign == SampleSign::Zero ==> next.last == s.last && next.raw == s.raw.push(m)
                    && next.even_turn == s.even_turn && next.first_turn == s.first_turn)
                &&& (sign == SampleSign::Positive ==> next.last == Some(m) && next.raw == s.raw.push(m)
                    && next.even_turn == s.even_turn && next.first_turn == s.first_turn)
                &&& (sign == SampleSign::Negative ==> next.last == Some(m) && next.raw == s.raw.push(m)
                    && next.even_turn == !s.even_turn)
                &&& (sign == SampleSign::Unordered ==> next.raw == s.raw && next.last == s.last
                    && next.even_turn == s.even_turn && next.first_turn == s.first_turn)
            }
        }),
{
}

/// Following the pitch, nothing is kept before the first positive sample,
/// which starts the buffer and becomes the last kept sample.
pub proof fn law_oscilloscope_starts_at_positive<T>(
    s: OscModel<T>,
    m: T,
    sign: SampleSign,
    setting: OscilloscopeSetting,
)
    requires
        setting.follow_pitch,
        s.last is None,
        s.raw.len() + 1 < OSCILLOSCOPE_MAX_FRAME,
        !(s.first_turn && s.even_turn),
        !(s.raw.len() + 1 >= OSCILLOSCOPE_FRAME && s.even_turn),
    ensures
        ({
            let (next, out) = osc_step(s, m, sign, setting);
            &&& out is None
            &&& sign == SampleSign::Positive ==> next.raw == s.raw.push(m) && next.last == Some(m)
            &&& sign != SampleSign::Positive ==> next.raw == s.raw && next.last is None
        }),
{
}

/// Following the pitch, a change of sign flips the half cycle whatever
/// happens to the frame: the frame is shown either right at it, or the
/// buffer goes on with the other half cycle. In the multi-cycle mode a frame
/// is shown exactly when the buffer reaches `OSCILLOSCOPE_MAX_FRAME` samples
/// or holds at least `OSCILLOSCOPE_FRAME` samples at the end of a whole
/// cycle; in the single-cycle mode, at the end of the second half cycle
/// after the first cycle began, or at `OSCILLOSCOPE_MAX_FRAME`.
pub proof fn law_oscilloscope_frames_at_cycles<T>(
    s: OscModel<T>,
    m: T,
    setting: OscilloscopeSetting,
)
    requires
        setting.follow_pitch,
        s.last is Some,
    ensures
        ({
            let (next, out) = osc_step(s, m, SampleSign::Negative, setting);
            let len = s.raw.len() + 1;
            &&& setting.cycle == OscilloscopeCycle::Multi ==> (out is Some <==> (len >= OSCILLOSCOPE_MAX_FRAME
                || (len >= OSCILLOSCOPE_FRAME && !s.even_turn)))
            &&& setting.cycle == OscilloscopeCycle::Single ==> (out is Some <==> (len >= OSCILLOSCOPE_MAX_FRAME
                || ((s.first_turn || s.even_turn) && !s.even_turn)))
            &&& out is None ==> next.even_turn == !s.even_turn
        }),
{
}

/// Following the pitch, a kept sample without a change of sign shows the
/// frame exactly when the buffer reaches 4096 samples, or, in the
/// multi-cycle mode, holds at least 2400 at the end of a whole cycle, or,
/// in the single-cycle mode, the first cycle has begun and a whole cycle
/// has ended.
pub proof fn law_oscilloscope_frames_without_sign_change<T>(
    s: OscModel<T>,
    m: T,
    sign: SampleSign,
    setting: OscilloscopeSetting,
)
    requires
        setting.follow_pitch,
        s.last is Some,
        sign == SampleSign::Positive || sign == SampleSign::Zero,
    ensures
        ({
            let out = osc_step(s, m, sign, setting).1;
            let len = s.raw.len() + 1;
            &&& setting.cycle == OscilloscopeCycle::Multi ==> (out is Some <==> (len >= 4096 || (len
                >= 2400 && s.even_turn)))
            &&& setting.cycle == OscilloscopeCycle::Single ==> (out is Some <==> (len >= 4096 || (
            s.first_turn && s.even_turn)))
        }),
{
}

/// Without following the pitch every sample is kept, whatever its sign,
/// and a frame of exactly `OSCILLOSCOPE_FRAME` samples is shown as soon as
/// the buffer holds that many.
pub proof fn law_oscilloscope_plain_mode<T>(
    s: OscModel<T>,
    m: T,
    sign: SampleSign,
    setting: OscilloscopeSetting,
)
    requires
        !setting.follow_pitch,
        s.raw.len() < OSCILLOSCOPE_FRAME,
    ensures
        ({
            let (next, out) = osc_step(s, m, sign, setting);
            &&& s.raw.len() + 1 == OSCILLOSCOPE_FRAME ==> out == Some((OSCILLOSCOPE_FRAME as nat, s.raw.push(m)))
                && next.raw.len() == 0
            &&& s.raw.len() + 1 < OSCILLOSCOPE_FRAME ==> out is None && next.raw == s.raw.push(m)
        }),
{
}

} // verus!
