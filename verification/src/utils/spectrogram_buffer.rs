use std::collections::VecDeque;
use vstd::prelude::*;

verus! {

/// Samples between the starts of two successive spectrogram frames.
pub const SPECTROGRAM_HOP: usize = 256;

/// Samples in one spectrogram frame, the size of its FFT.
pub const SPECTROGRAM_FFT_SIZE: usize = 2048;

/// What one sample does to the open frames: an empty buffer opens a frame
/// holding the sample; otherwise the sample is appended to every open frame,
/// a new empty frame opens once the newest one holds a hop of samples, and
/// the oldest frame is handed out once it holds a whole FFT's worth.
pub open spec fn push_sample_spec<T>(frames: Seq<Seq<T>>, x: T) -> (Seq<Seq<T>>, Option<Seq<T>>) {
    if frames.len() == 0 {
        (seq![seq![x]], None)
    } else {
        let appended = Seq::new(frames.len(), |i: int| frames[i].push(x));
        let grown = if appended.last().len() >= SPECTROGRAM_HOP {
            appended.push(Seq::<T>::empty())
        } else {
            appended
        };
        if grown[0].len() >= SPECTROGRAM_FFT_SIZE {
            (grown.drop_first(), Some(grown[0]))
        } else {
            (grown, None)
        }
    }
}

/// The open frames and the frames handed out, in order, after feeding
/// `samples` one by one into an empty buffer.
pub open spec fn run_spec<T>(samples: Seq<T>) -> (Seq<Seq<T>>, Seq<Seq<T>>)
    decreases samples.len(),
{
    if samples.len() == 0 {
        (Seq::empty(), Seq::empty())
    } else {
        let (frames, done) = run_spec(samples.drop_last());
        let (next, out) = push_sample_spec(frames, samples.last());
        match out {
            Some(frame) => (next, done.push(frame)),
            None => (next, done),
        }
    }
}

/// The overlapping frames of the spectrogram that are still being filled.
#[derive(Debug, Clone)]
pub struct SpectrogramCalcBuffer<T> {
    frames: VecDeque<Vec<T>>,
}

impl<T> View for SpectrogramCalcBuffer<T> {
    type V = Seq<Seq<T>>;

    closed spec fn view(&self) -> Seq<Seq<T>> {
        Seq::new(self.frames@.len(), |i: int| self.frames@[i]@)
    }
}

impl<T: Copy> Default for SpectrogramCalcBuffer<T> {
    fn default() -> (res: Self)
        ensures
            res@ == Seq::<Seq<T>>::empty(),
    {
        Self::new()
    }
}

impl<T: Copy> SpectrogramCalcBuffer<T> {
    /// No open frame.
    pub fn new() -> (res: Self)
        ensures
            res@ == Seq::<Seq<T>>::empty(),
    {
        let res = SpectrogramCalcBuffer { frames: VecDeque::new() };
        assert(res@ =~= Seq::<Seq<T>>::empty());
        res
    }

    /// Drops every open frame.
    pub fn clear(&mut self)
        ensures
            final(self)@ == Seq::<Seq<T>>::empty(),
    {
        self.frames.clear();
        assert(self@ =~= Seq::<Seq<T>>::empty());
    }

    /// The number of open frames.
    pub fn len(&self) -> (res: usize)
        ensures
            res == self@.len(),
    {
        self.frames.len()
    }

    /// Feeds one sample; returns the oldest frame when it is complete.
    pub fn push_sample(&mut self, x: T) -> (res: Option<Vec<T>>)
        ensures
            ({
                let (next, out) = push_sample_spec(old(self)@, x);
                &&& final(self)@ == next
                &&& match res {
                    Some(v) => out == Some(v@),
                    None => out is None,
                }
            }),
    {
        let ghost old_frames = self@;
        let n = self.frames.len();
        if n == 0 {
            let mut v: Vec<T> = Vec::new();
            v.push(x);
            self.frames.push_back(v);
            assert(self@ =~= seq![seq![x]]);
            return None;
        }
        let ghost appended = Seq::new(old_frames.len(), |i: int| old_frames[i].push(x));
        let mut i: usize = 0;
        while i < n
            invariant
                n == old_frames.len(),
                appended == Seq::new(old_frames.len(), |i: int| old_frames[i].push(x)),
                i <= n,
                self.frames@.len() == n,
                forall|j: int| 0 <= j < n - i ==> #[trigger] self.frames@[j]@ == old_frames[i + j],
                forall|j: int| 0 <= j < i ==> #[trigger] self.frames@[n - i + j]@ == appended[j],
            decreases n - i,
        {
            let ghost before = self.frames@;
            let mut frame = self.frames.pop_front().unwrap();
            frame.push(x);
            self.frames.push_back(frame);
            assert forall|j: int| 0 <= j < n - (i + 1) implies #[trigger] self.frames@[j]@ == old_frames[i + 1 + j] by {
                assert(self.frames@[j] == before[j + 1]);
            }
            assert forall|j: int| 0 <= j < i + 1 implies #[trigger] self.frames@[n - (i + 1) + j]@ == appended[j] by {
                if j < i {
                    assert(self.frames@[n - (i + 1) + j] == before[n - i + j]);
                }
            }
            i = i + 1;
        }
        assert forall|j: int| 0 <= j < n implies #[trigger] self@[j] == appended[j] by {
            assert(self.frames@[n - n + j]@ == appended[j]);
        }
        assert(self@ =~= appended);
        if self.frames[n - 1].len() >= SPECTROGRAM_HOP {
            self.frames.push_back(Vec::new());
            assert(self@ =~= appended.push(Seq::<T>::empty()));
        }
        if self.frames[0].len() >= SPECTROGRAM_FFT_SIZE {
            let ghost grown = self@;
            let first = self.frames.pop_front().unwrap();
            assert(self@ =~= grown.drop_first());
            Some(first)
        } else {
            None
        }
    }
}

/// The shape of the frames after `n > 0` samples: with `e` frames handed
/// out and `f` open, open frame `i` holds the samples from `HOP * (e + i)`
/// on, the newest holds fewer than a hop, and the oldest fewer than an FFT.
pub open spec fn frames_shape<T>(samples: Seq<T>, frames: Seq<Seq<T>>, done: Seq<Seq<T>>) -> bool {
    let n = samples.len() as int;
    let e = done.len() as int;
    let f = frames.len() as int;
    let hop = SPECTROGRAM_HOP as int;
    let size = SPECTROGRAM_FFT_SIZE as int;
    &&& f >= 1
    &&& forall|i: int| 0 <= i < f ==> #[trigger] frames[i] == samples.subrange(hop * (e + i), n)
    &&& hop * (e + f - 1) <= n < hop * (e + f)
    &&& n - hop * e < size
    &&& (e > 0 ==> hop * (e - 1) + size <= n)
    &&& forall|k: int| 0 <= k < e ==> #[trigger] done[k] == samples.subrange(hop * k, hop * k + size)
}

proof fn lemma_run_shape<T>(samples: Seq<T>)
    requires
        samples.len() > 0,
    ensures
        frames_shape(samples, run_spec(samples).0, run_spec(samples).1),
    decreases samples.len(),
{
    let prefix = samples.drop_last();
    let x = samples.last();
    let (frames, done) = run_spec(prefix);
    let n = prefix.len() as int;
    let hop = SPECTROGRAM_HOP as int;
    let size = SPECTROGRAM_FFT_SIZE as int;
    if n == 0 {
        assert(frames.len() == 0);
        assert(done.len() == 0);
        assert(run_spec(samples).0 == seq![seq![x]]);
        assert(run_spec(samples).0[0] =~= samples.subrange(0, 1));
    } else {
        lemma_run_shape(prefix);
        let e = done.len() as int;
        let f = frames.len() as int;
        let appended = Seq::new(frames.len(), |i: int| frames[i].push(x));
        assert forall|i: int| 0 <= i < f implies #[trigger] appended[i] == samples.subrange(
            hop * (e + i),
            n + 1,
        ) by {
            assert(frames[i] == prefix.subrange(hop * (e + i), n));
            assert(appended[i] =~= samples.subrange(hop * (e + i), n + 1));
        }
        let grown = if appended.last().len() >= SPECTROGRAM_HOP {
            appended.push(Seq::<T>::empty())
        } else {
            appended
        };
        let g = grown.len() as int;
        assert(appended.last() == appended[f - 1]);
        assert(forall|i: int| 0 <= i < g ==> #[trigger] grown[i] == samples.subrange(hop * (e + i), n + 1)) by {
            if appended.last().len() >= SPECTROGRAM_HOP {
                assert(n + 1 == hop * (e + f));
                assert(grown[f] =~= samples.subrange(hop * (e + f), n + 1));
            }
        }
        assert(hop * (e + g - 1) <= n + 1 < hop * (e + g));
        assert(grown[0] == samples.subrange(hop * e, n + 1));
        let (next, out) = push_sample_spec(frames, x);
        assert forall|k: int| 0 <= k < e implies #[trigger] done[k] == samples.subrange(hop * k, hop * k + size) by {
            assert(done[k] == prefix.subrange(hop * k, hop * k + size));
            assert(prefix.subrange(hop * k, hop * k + size) =~= samples.subrange(hop * k, hop * k + size));
        }
        if grown[0].len() >= SPECTROGRAM_FFT_SIZE {
            assert(n + 1 - hop * e == size);
            assert(next == grown.drop_first());
            assert(out == Some(grown[0]));
            let done2 = done.push(grown[0]);
            assert(run_spec(samples) == (next, done2));
            assert forall|i: int| 0 <= i < g - 1 implies #[trigger] next[i] == samples.subrange(
                hop * (e + 1 + i),
                n + 1,
            ) by {
                assert(next[i] == grown[i + 1]);
            }
            assert forall|k: int| 0 <= k < e + 1 implies #[trigger] done2[k] == samples.subrange(
                hop * k,
                hop * k + size,
            ) by {
                if k < e {
                    assert(done2[k] == done[k]);
                }
            }
        } else {
            assert(run_spec(samples) == (next, done));
        }
    }
}

/// Feeding samples one by one into an empty buffer hands out, in order,
/// exactly the frames of `SPECTROGRAM_FFT_SIZE` consecutive samples that
/// start at every multiple of `SPECTROGRAM_HOP`, as soon as each is
/// complete.
pub proof fn law_frames_overlap_by_hop<T>(samples: Seq<T>)
    ensures
        ({
            let done = run_spec(samples).1;
            &&& forall|k: int|
                0 <= k < done.len() ==> #[trigger] done[k] == samples.subrange(
                    SPECTROGRAM_HOP * k,
                    SPECTROGRAM_HOP * k + SPECTROGRAM_FFT_SIZE,
                )
            &&& SPECTROGRAM_HOP * done.len() + SPECTROGRAM_FFT_SIZE > samples.len()
            &&& forall|k: int|
                0 <= k < done.len() ==> #[trigger] done[k].len() == 2048 && done[k][0] == samples[256 * k]
            &&& 256 * done.len() + 2048 > samples.len()
        }),
{
    if samples.len() > 0 {
        lemma_run_shape(samples);
    }
}

} // verus!
