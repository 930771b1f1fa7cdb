use crate::utils::data_struct::RawData;
use vstd::prelude::*;

verus! {

/// Samples in one spectrum frame.
pub const SPECTRUM_FRAME: usize = 2048;

/// Samples by which the two spectrum buffers are offset: the second half
/// of every frame of one buffer also starts a frame of the other.
pub const SPECTRUM_HALF: usize = 1024;

/// One sample of each of the four signals.
pub open spec fn push4<T>(d: RawData<T>, v: (T, T, T, T)) -> (Seq<T>, Seq<T>, Seq<T>, Seq<T>) {
    (d.l@.push(v.0), d.r@.push(v.1), d.m@.push(v.2), d.s@.push(v.3))
}

/// The four signals of `d`.
pub open spec fn signals<T>(d: RawData<T>) -> (Seq<T>, Seq<T>, Seq<T>, Seq<T>) {
    (d.l@, d.r@, d.m@, d.s@)
}

/// The two half-overlapping buffers of the spectrum; `ab` says which one is
/// being filled (the one holding whole frames), the other receives the
/// second half of each of its frames.
#[derive(Debug, Clone, Default)]
pub struct SpectrumCalcBuffer<T> {
    pub ab: bool,
    pub a: RawData<T>,
    pub b: RawData<T>,
}

/// Each signal of a buffer gains the matching component of a sample:
/// left, right, mid and side, in that order.
pub proof fn law_push4_matches_signals<T>(d: RawData<T>, v: (T, T, T, T))
    ensures
        push4(d, v).0 == d.l@.push(v.0),
        push4(d, v).1 == d.r@.push(v.1),
        push4(d, v).2 == d.m@.push(v.2),
        push4(d, v).3 == d.s@.push(v.3),
        push4(d, v).2.last() == v.2,
        push4(d, v).3.last() == v.3,
{
}

/// Buffer `b` is filled while `ab` is false and `a` while it is true; the
/// other one receives the second halves. A frame holds 2048 samples and the
/// other buffer starts its frame 1024 samples in.
pub proof fn law_buffer_roles<T>(x: SpectrumCalcBuffer<T>)
    ensures
        !x.ab ==> x.current() == x.b && x.other() == x.a,
        x.ab ==> x.current() == x.a && x.other() == x.b,
        SPECTRUM_FRAME == 2048 && SPECTRUM_HALF == 1024,
{
}

impl<T> SpectrumCalcBuffer<T> {
    /// The buffer being filled.
    pub open spec fn current(&self) -> RawData<T> {
        if self.ab {
            self.a
        } else {
            self.b
        }
    }

    /// The other buffer.
    pub open spec fn other(&self) -> RawData<T> {
        if self.ab {
            self.b
        } else {
            self.a
        }
    }

    /// Two empty buffers, `b` being filled.
    pub fn new() -> (res: Self)
        ensures
            !res.ab,
            signals(res.a) == (Seq::<T>::empty(), Seq::<T>::empty(), Seq::<T>::empty(), Seq::<T>::empty()),
            signals(res.b) == (Seq::<T>::empty(), Seq::<T>::empty(), Seq::<T>::empty(), Seq::<T>::empty()),
    {
        SpectrumCalcBuffer { ab: false, a: RawData::new(), b: RawData::new() }
    }

    /// The window positions of the next sample: its position in the frame
    /// being filled, and, from the middle of that frame on, its position in
    /// the frame the other buffer is starting.
    pub fn slots(&self) -> (res: (usize, Option<usize>))
        ensures
            res.0 == self.current().l@.len(),
            res.1 == (if res.0 >= SPECTRUM_HALF {
                Some((res.0 - SPECTRUM_HALF) as usize)
            } else {
                None
            }),
    {
        let index = if self.ab {
            self.a.l.len()
        } else {
            self.b.l.len()
        };
        if index >= SPECTRUM_HALF {
            (index, Some(index - SPECTRUM_HALF))
        } else {
            (index, None)
        }
    }

    /// Takes one sample of each signal, windowed for its positions as
    /// `slots` gives them: `other` goes to the other buffer exactly when
    /// `slots` gives a second position. When the frame being filled holds
    /// `SPECTRUM_FRAME` samples it is handed out and that buffer starts
    /// again empty.
    pub fn push(&mut self, current: (T, T, T, T), other: Option<(T, T, T, T)>) -> (res: Option<RawData<T>>)
        requires
            other is Some <==> old(self).current().l@.len() >= SPECTRUM_HALF,
        ensures
            final(self).ab == old(self).ab,
            signals(final(self).other()) == (match other {
                Some(v) => push4(old(self).other(), v),
                None => signals(old(self).other()),
            }),
            ({
                let filled = push4(old(self).current(), current);
                match res {
                    Some(frame) => {
                        &&& filled.0.len() >= SPECTRUM_FRAME
                        &&& signals(frame) == filled
                        &&& signals(final(self).current()) == (Seq::<T>::empty(), Seq::<T>::empty(), Seq::<T>::empty(), Seq::<T>::empty())
                    },
                    None => {
                        &&& filled.0.len() < SPECTRUM_FRAME
                        &&& signals(final(self).current()) == filled
                    },
                }
            }),
            match other {
                Some(v) => {
                    &&& final(self).other().l@ == old(self).other().l@.push(v.0)
                    &&& final(self).other().r@ == old(self).other().r@.push(v.1)
                    &&& final(self).other().m@ == old(self).other().m@.push(v.2)
                    &&& final(self).other().s@ == old(self).other().s@.push(v.3)
                },
                None => {
                    &&& final(self).other().l@ == old(self).other().l@
                    &&& final(self).other().r@ == old(self).other().r@
                    &&& final(self).other().m@ == old(self).other().m@
                    &&& final(self).other().s@ == old(self).other().s@
                },
            },
            match res {
                Some(frame) => {
                    &&& frame.l@ == old(self).current().l@.push(current.0)
                    &&& frame.r@ == old(self).current().r@.push(current.1)
                    &&& frame.m@ == old(self).current().m@.push(current.2)
                    &&& frame.s@ == old(self).current().s@.push(current.3)
                },
                None => {
                    &&& final(self).current().l@ == old(self).current().l@.push(current.0)
                    &&& final(self).current().r@ == old(self).current().r@.push(current.1)
                    &&& final(self).current().m@ == old(self).current().m@.push(current.2)
                    &&& final(self).current().s@ == old(self).current().s@.push(current.3)
                },
            },
    {
        if self.ab {
            if let Some(v) = other {
                self.b.l.push(v.0);
                self.b.r.push(v.1);
                self.b.m.push(v.2);
                self.b.s.push(v.3);
            }
            self.a.l.push(current.0);
            self.a.r.push(current.1);
            self.a.m.push(current.2);
            self.a.s.push(current.3);
            if self.a.l.len() >= SPECTRUM_FRAME {
                let mut frame = RawData::new();
                std::mem::swap(&mut frame, &mut self.a);
                Some(frame)
            } else {
                None
            }
        } else {
            if let Some(v) = other {
                self.a.l.push(v.0);
                self.a.r.push(v.1);
                self.a.m.push(v.2);
                self.a.s.push(v.3);
            }
            self.b.l.push(current.0);
            self.b.r.push(current.1);
            self.b.m.push(current.2);
            self.b.s.push(current.3);
            if self.b.l.len() >= SPECTRUM_FRAME {
                let mut frame = RawData::new();
                std::mem::swap(&mut frame, &mut self.b);
                Some(frame)
            } else {
                None
            }
        }
    }

    /// Empties both buffers, as when the spectrum is turned off.
    pub fn clear(&mut self)
        ensures
            final(self).ab == old(self).ab,
            signals(final(self).a) == (Seq::<T>::empty(), Seq::<T>::empty(), Seq::<T>::empty(), Seq::<T>::empty()),
            signals(final(self).b) == (Seq::<T>::empty(), Seq::<T>::empty(), Seq::<T>::empty(), Seq::<T>::empty()),
    {
        self.a.clear();
        self.b.clear();
    }
}

} // verus!
