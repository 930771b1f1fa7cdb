use vstd::prelude::*;

verus! {

/// The samples written into a ring of `buffer.len()` slots since the last
/// read: from `last` up to `this`, going round the end when `this` does not
/// lie after `last`.
pub open spec fn ring_segment_spec<T>(buffer: Seq<T>, last: int, this: int) -> Seq<T> {
    if this > last {
        buffer.subrange(last, this)
    } else {
        buffer.subrange(last, buffer.len() as int) + buffer.subrange(0, this)
    }
}

/// Copies the samples written into the ring `buffer` between the read
/// positions `last` and `this`.
pub fn ring_segment<T: Copy>(buffer: &[T], last: usize, this: usize) -> (res: Vec<T>)
    requires
        last <= buffer@.len(),
        this <= buffer@.len(),
    ensures
        res@ == ring_segment_spec(buffer@, last as int, this as int),
{
    let mut res: Vec<T> = Vec::new();
    let len = buffer.len();
    let end = if this > last { this } else { len };
    let mut i = last;
    while i < end
        invariant
            last <= i <= end <= len,
            len == buffer@.len(),
            res@ == buffer@.subrange(last as int, i as int),
        decreases end - i,
    {
        res.push(buffer[i]);
        i = i + 1;
        assert(res@ =~= buffer@.subrange(last as int, i as int));
    }
    if this <= last {
        let ghost head = res@;
        let mut j: usize = 0;
        while j < this
            invariant
                j <= this <= len,
                len == buffer@.len(),
                res@ == head + buffer@.subrange(0, j as int),
            decreases this - j,
        {
            res.push(buffer[j]);
            j = j + 1;
            assert(res@ =~= head + buffer@.subrange(0, j as int));
        }
    }
    res
}

/// Splits interleaved-by-halves samples into the left channel (the first
/// half, rounded down) and the right channel (the rest).
pub fn split_channels<T>(samples: Vec<T>) -> (res: Vec<Vec<T>>)
    ensures
        res@.len() == 2,
        res@[0]@ == samples@.subrange(0, (samples@.len() / 2) as int),
        res@[1]@ == samples@.subrange((samples@.len() / 2) as int, samples@.len() as int),
{
    let mut left = samples;
    let half = left.len() / 2;
    let right = left.split_off(half);
    let mut res: Vec<Vec<T>> = Vec::new();
    res.push(left);
    res.push(right);
    res
}

/// One read of the plugin's ring: the two channels of the samples written
/// since the read position `last`, and the read position for the next read.
pub fn plugin_frame<T: Copy>(buffer: &[T], last: usize, this: usize) -> (res: (Vec<Vec<T>>, usize))
    requires
        last <= buffer@.len(),
        this <= buffer@.len(),
    ensures
        res.0@.len() == 2,
        res.0@[0]@ + res.0@[1]@ == ring_segment_spec(buffer@, last as int, this as int),
        res.0@[0]@.len() == ring_segment_spec(buffer@, last as int, this as int).len() / 2,
        res.1 == this,
{
    let samples = ring_segment(buffer, last, this);
    let ghost all = samples@;
    let channels = split_channels(samples);
    assert(channels@[0]@ + channels@[1]@ =~= all);
    (channels, this)
}

/// Where the next read of the plugin's ring starts: the write position seen
/// at the last read, zero before the first.
#[derive(Debug, Clone, Copy, PartialEq, Eq, Structural)]
pub struct PluginRingReader {
    pub last: usize,
}

impl PluginRingReader {
    /// A reader that has read nothing yet.
    pub fn new() -> (res: Self)
        ensures
            res.last == 0,
    {
        PluginRingReader { last: 0 }
    }

    /// Reads the ring `buffer` whose write position is now `this`: returns
    /// the left and right channels of the samples written since the last
    /// read (the first half and the rest), and moves the read position to
    /// `this`.
    pub fn read<T: Copy>(&mut self, buffer: &[T], this: usize) -> (res: Vec<Vec<T>>)
        requires
            old(self).last <= buffer@.len(),
            this <= buffer@.len(),
        ensures
            final(self).last == this,
            res@.len() == 2,
            ({
                let seg = ring_segment_spec(buffer@, old(self).last as int, this as int);
                &&& res@[0]@ == seg.subrange(0, (seg.len() / 2) as int)
                &&& res@[1]@ == seg.subrange((seg.len() / 2) as int, seg.len() as int)
            }),
    {
        let samples = ring_segment(buffer, self.last, this);
        let channels = split_channels(samples);
        self.last = this;
        channels
    }
}

/// A read takes the samples from the last read position on, in ring
/// order, up to the write position: sample `i` of the read is slot
/// `(last + i) % len` of the ring, going round once when the write position
/// does not lie after the read position.
pub proof fn law_read_in_ring_order<T>(buffer: Seq<T>, last: int, this: int)
    requires
        buffer.len() > 0,
        0 <= last <= buffer.len(),
        0 <= this <= buffer.len(),
    ensures
        ring_segment_spec(buffer, last, this).len() == (if this > last {
            this - last
        } else {
            buffer.len() - last + this
        }),
        forall|i: int|
            0 <= i < ring_segment_spec(buffer, last, this).len() ==> #[trigger] ring_segment_spec(buffer, last, this)[i]
                == buffer[(last + i) % (buffer.len() as int)],
{
    let n = buffer.len() as int;
    let seg = ring_segment_spec(buffer, last, this);
    assert forall|i: int| 0 <= i < seg.len() implies #[trigger] seg[i] == buffer[(last + i) % n] by {
        if last + i < n {
            vstd::arithmetic::div_mod::lemma_small_mod((last + i) as nat, n as nat);
        } else {
            vstd::arithmetic::div_mod::lemma_small_mod((last + i - n) as nat, n as nat);
            vstd::arithmetic::div_mod::lemma_mod_sub_multiples_vanish(last + i, n);
        }
    }
}

/// Reading from `a` to `b` and then from `b` to `c` yields the samples of
/// one read from `a` to `c`, none lost and none twice, as long as the write
/// position does not pass `a` again: both without wrapping round the end,
/// and with the wrap in either read.
pub proof fn law_consecutive_reads_join<T>(buffer: Seq<T>, a: int, b: int, c: int)
    requires
        0 <= a <= buffer.len(),
        0 <= b <= buffer.len(),
        0 <= c <= buffer.len(),
        (a < b < c) || (b <= a && b < c <= a) || (c <= a < b),
    ensures
        ring_segment_spec(buffer, a, b) + ring_segment_spec(buffer, b, c) == ring_segment_spec(
            buffer,
            a,
            c,
        ),
{
    assert(ring_segment_spec(buffer, a, b) + ring_segment_spec(buffer, b, c) =~= ring_segment_spec(
        buffer,
        a,
        c,
    ));
}

} // verus!
