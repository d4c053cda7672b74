//! Interleaving decoded audio channels and handing samples to the output
//! device, with silence where the device asks for more than is queued.
//!
//! The sample type is a parameter: the device plays 32-bit floats, and the
//! logic here only moves samples around.

use vstd::prelude::*;
use vstd::arithmetic::div_mod::lemma_fundamental_div_mod_converse;

verus! {

/// Channel count of the output: the device's, capped at two. Further input
/// channels are dropped, not mixed down.
pub open spec fn output_channel_count(device_channels: int) -> int {
    if device_channels < 2 {
        device_channels
    } else {
        2
    }
}

/// `sample_count` frames of the first `channel_count` channels, interleaved:
/// the sample of channel `c` at frame `i` stands at `i * channel_count + c`.
pub open spec fn interleaved<S>(channels: Seq<Seq<S>>, channel_count: nat, sample_count: nat) -> Seq<S> {
    Seq::new(
        sample_count * channel_count,
        |k: int| channels[k % (channel_count as int)][k / (channel_count as int)],
    )
}

/// The per-channel sample sequences of a decoded audio frame.
pub open spec fn channel_views<S>(input: Seq<Vec<S>>) -> Seq<Seq<S>> {
    input.map_values(|v: Vec<S>| v@)
}

/// Each of the first `channel_count` channels holds at least as many
/// samples as the first channel.
pub open spec fn channels_cover<S>(input: Seq<Vec<S>>, channel_count: int) -> bool {
    &&& 1 <= input.len()
    &&& channel_count <= input.len()
    &&& forall|c: int| 0 <= c < channel_count ==> #[trigger] input[c]@.len() >= input[0]@.len()
}

proof fn lemma_index_split(i: int, c: int, d: int)
    requires
        0 <= c < d,
        0 <= i,
    ensures
        (i * d + c) % d == c,
        (i * d + c) / d == i,
{
    lemma_fundamental_div_mod_converse(i * d + c, d, i, c);
}

/// Interleaves the first `channel_count` channels of `input`, taking as
/// many frames as the first channel holds.
pub fn interleave_channels<S: Copy>(input: &Vec<Vec<S>>, channel_count: usize) -> (r: Vec<S>)
    requires
        channels_cover(input@, channel_count as int),
    ensures
        r@ == interleaved(
            channel_views(input@),
            channel_count as nat,
            input@[0]@.len(),
        ),
{
    let sample_count = input[0].len();
    let ghost chans = channel_views(input@);
    let mut out: Vec<S> = Vec::new();
    let mut i: usize = 0;
    while i < sample_count
        invariant
            channels_cover(input@, channel_count as int),
            chans == channel_views(input@),
            sample_count == input@[0]@.len(),
            i <= sample_count,
            out@.len() == i * channel_count,
            forall|k: int|
                0 <= k < out@.len() ==> #[trigger] out@[k] == chans[k % (channel_count as int)][k
                    / (channel_count as int)],
        decreases sample_count - i,
    {
        let mut c: usize = 0;
        while c < channel_count
            invariant
                channels_cover(input@, channel_count as int),
                chans == channel_views(input@),
                sample_count == input@[0]@.len(),
                i < sample_count,
                c <= channel_count,
                out@.len() == i * channel_count + c,
                forall|k: int|
                    0 <= k < out@.len() ==> #[trigger] out@[k] == chans[k % (channel_count as int)][k
                        / (channel_count as int)],
            decreases channel_count - c,
        {
            proof {
                lemma_index_split(i as int, c as int, channel_count as int);
                assert(input@[c as int]@.len() >= sample_count);
            }
            let sample = input[c][i];
            out.push(sample);
            c += 1;
        }
        proof {
            assert(out@.len() == (i + 1) * channel_count) by (nonlinear_arith)
                requires
                    out@.len() == i * channel_count + channel_count,
            ;
        }
        i += 1;
    }
    let ghost n = sample_count as nat;
    assert(out@ =~= interleaved(chans, channel_count as nat, n));
    out
}

/// In an interleaved buffer of `n` frames and `c` channels, the buffer
/// holds `n * c` samples and the sample of channel `ch` at frame `i`
/// stands at `i * c + ch`: each channel keeps its own order.
pub proof fn lemma_interleaving_keeps_channel_order<S>(
    channels: Seq<Seq<S>>,
    c: nat,
    n: nat,
    i: int,
    ch: int,
)
    requires
        0 <= i < n,
        0 <= ch < c,
    ensures
        interleaved(channels, c, n).len() == n * c,
        0 <= i * c + ch < n * c,
        interleaved(channels, c, n)[i * c + ch] == channels[ch][i],
{
    lemma_index_split(i, ch, c as int);
    assert(i * c + ch < n * c) by (nonlinear_arith)
        requires
            0 <= i < n,
            0 <= ch < c,
    ;
    assert(0 <= i * c) by (nonlinear_arith)
        requires
            0 <= i,
    ;
}

/// Samples queued for the output device, oldest first. The device's output
/// thread drains it from the front; the decoding side appends at the back.
pub struct ExampleAudioRenderer<S> {
    samples: Vec<S>,
}

impl<S> View for ExampleAudioRenderer<S> {
    type V = Seq<S>;

    closed spec fn view(&self) -> Seq<S> {
        self.samples@
    }
}

/// What the device plays when it asks for `n` samples: the queued samples
/// first, then silence for the slots the queue cannot fill.
pub open spec fn played<S>(pending: Seq<S>, n: nat, silence: S) -> Seq<S> {
    Seq::new(n, |k: int| if k < pending.len() { pending[k] } else { silence })
}

/// What stays queued after the device took `n` samples.
pub open spec fn leftover<S>(pending: Seq<S>, n: nat) -> Seq<S> {
    if pending.len() <= n {
        Seq::empty()
    } else {
        pending.subrange(n as int, pending.len() as int)
    }
}

impl<S: Copy> ExampleAudioRenderer<S> {
    /// A renderer with nothing queued.
    pub fn new() -> (r: Self)
        ensures
            r@ == Seq::<S>::empty(),
    {
        ExampleAudioRenderer { samples: Vec::new() }
    }

    /// Number of samples queued.
    pub fn pending_len(&self) -> (r: usize)
        ensures
            r == self@.len(),
    {
        self.samples.len()
    }

    /// Fills the device's buffer `out` from the front of the queue. Where
    /// the queue holds fewer samples than `out`, the rest of `out` is
    /// `silence`: an underrun is played as silence, not as stale data.
    pub fn callback(&mut self, out: &mut [S], silence: S)
        ensures
            final(out)@ == played(old(self)@, old(out)@.len(), silence),
            final(self)@ == leftover(old(self)@, old(out)@.len()),
    {
        let n = out.len();
        let ghost pending = self.samples@;
        if self.samples.len() < n {
            let mut j: usize = 0;
            while j < n
                invariant
                    out@.len() == n,
                    j <= n,
                    forall|k: int| 0 <= k < j ==> #[trigger] out@[k] == silence,
                decreases n - j,
            {
                out[j] = silence;
                j += 1;
            }
        }
        let mut leftovers: Vec<S> = Vec::new();
        let mut i: usize = 0;
        while i < self.samples.len()
            invariant
                self.samples@ == pending,
                out@.len() == n,
                i <= pending.len(),
                forall|k: int| 0 <= k < n && k < i ==> #[trigger] out@[k] == pending[k],
                forall|k: int|
                    0 <= k < n && i <= k && pending.len() <= k ==> #[trigger] out@[k] == silence,
                pending.len() < n ==> forall|k: int| i <= k < n ==> #[trigger] out@[k] == silence,
                leftovers@ == (if i <= n {
                    Seq::<S>::empty()
                } else {
                    pending.subrange(n as int, i as int)
                }),
            decreases pending.len() - i,
        {
            let sample = self.samples[i];
            if i < n {
                out[i] = sample;
            } else {
                leftovers.push(sample);
                assert(leftovers@ =~= pending.subrange(n as int, i + 1));
            }
            i += 1;
        }
        assert(out@ =~= played(pending, n as nat, silence));
        assert(leftovers@ =~= leftover(pending, n as nat));
        self.samples = leftovers;
    }
}

/// Appends one decoded audio frame to the device's queue, interleaved over
/// the device's channel count capped at two. Channels beyond that count are
/// dropped.
pub fn enqueue_audio_samples<S: Copy>(
    renderer: &mut ExampleAudioRenderer<S>,
    device_channels: u8,
    input_samples: &Vec<Vec<S>>,
)
    requires
        channels_cover(input_samples@, output_channel_count(device_channels as int)),
    ensures
        final(renderer)@ == old(renderer)@ + interleaved(
            channel_views(input_samples@),
            output_channel_count(device_channels as int) as nat,
            input_samples@[0]@.len(),
        ),
{
    let output_channels: u8 = if device_channels < 2 {
        device_channels
    } else {
        2
    };
    let mut output = interleave_channels(input_samples, output_channels as usize);
    renderer.samples.append(&mut output);
}

} // verus!
