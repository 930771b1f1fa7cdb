use vstd::arithmetic::div_mod::lemma_fundamental_div_mod;
use vstd::prelude::*;

verus! {

/// `channel` holds, in order, every sample of channel `j` of the interleaved
/// `data` of `channels` channels: the samples at `j`, `j + channels`,
/// `j + 2 * channels`, ... below `data.len()`.
pub open spec fn is_channel<T>(data: Seq<T>, channels: int, j: int, channel: Seq<T>) -> bool {
    &&& channel.len() * channels + j >= data.len()
    &&& (channel.len() == 0 || (channel.len() - 1) * channels + j < data.len())
    &&& forall|t: int| 0 <= t < channel.len() ==> #[trigger] channel[t] == data[t * channels + j]
}

/// The samples of channel `j` of the interleaved `data`.
fn channel_of<T: Copy>(data: &[T], channels: usize, j: usize) -> (res: Vec<T>)
    requires
        channels > 0,
        j < channels,
    ensures
        is_channel(data@, channels as int, j as int, res@),
{
    let len = data.len();
    let mut res: Vec<T> = Vec::new();
    let mut k = j;
    if k > len {
        k = len;
    }
    let ghost mut count: int = 0;
    while k < len
        invariant
            len == data@.len(),
            channels > 0,
            j < channels,
            count == res@.len(),
            k <= len,
            j + count * channels < len ==> k == j + count * channels,
            j + count * channels >= len ==> k == len,
            count == 0 || (count - 1) * channels + j < len,
            forall|t: int| 0 <= t < count ==> #[trigger] res@[t] == data@[t * channels + j],
        decreases len - k,
    {
        assert(k == j + count * channels);
        res.push(data[k]);
        proof {
            assert((count + 1) * channels == count * channels + channels) by (nonlinear_arith);
            count = count + 1;
        }
        if len - k > channels {
            k = k + channels;
        } else {
            k = len;
        }
    }
    proof {
        if count * channels + j < len {
            assert(k == j + count * channels);
        }
        assert(count >= 0);
        assert(count * channels >= 0) by (nonlinear_arith)
            requires
                count >= 0,
                channels > 0,
        ;
    }
    res
}

/// Splits interleaved samples into one list per channel, as an audio input
/// delivers them; a short last frame gives its samples to the first channels.
pub fn deinterleave<T: Copy>(data: &[T], channels: usize) -> (res: Vec<Vec<T>>)
    requires
        channels > 0,
    ensures
        res@.len() == channels,
        forall|j: int| 0 <= j < channels ==> is_channel(data@, channels as int, j, #[trigger] res@[j]@),
{
    let mut res: Vec<Vec<T>> = Vec::new();
    let mut j: usize = 0;
    while j < channels
        invariant
            channels > 0,
            j <= channels,
            res@.len() == j,
            forall|i: int| 0 <= i < j ==> is_channel(data@, channels as int, i, #[trigger] res@[i]@),
        decreases channels - j,
    {
        let channel = channel_of(data, channels, j);
        res.push(channel);
        j = j + 1;
    }
    res
}

/// Splitting into channels loses no sample: sample `i` of the interleaved
/// data is sample `i / channels` of channel `i % channels`.
pub proof fn law_every_sample_lands<T>(data: Seq<T>, channels: int, chans: Seq<Seq<T>>, i: int)
    requires
        channels > 0,
        chans.len() == channels,
        forall|j: int| 0 <= j < channels ==> is_channel(data, channels, j, #[trigger] chans[j]),
        0 <= i < data.len(),
    ensures
        i / channels < chans[i % channels].len(),
        chans[i % channels][i / channels] == data[i],
{
    lemma_fundamental_div_mod(i, channels);
    let j = i % channels;
    let t = i / channels;
    let c = chans[j];
    assert(is_channel(data, channels, j, c));
    assert(t * channels == channels * t) by (nonlinear_arith);
    assert(t < c.len()) by (nonlinear_arith)
        requires
            c.len() * channels + j >= data.len(),
            t * channels + j == i,
            i < data.len(),
            channels > 0,
    ;
    assert(c[t] == data[t * channels + j]);
}

} // verus!
