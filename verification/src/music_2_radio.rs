//! The integer side of rendering a song as radio: where the rendition is
//! written, the rate it is resampled to, how decoded frames accumulate, and how
//! the interleaved stereo samples split into their two channels.

use vstd::prelude::*;
use crate::mp3::{mp3_end, mp3_frames, next_frame, open_mp3, pending_frames, stream_end, Mp3End};

verus! {

/// The sample rate of a radio rendition, in hertz.
pub const TARGET_SAMPLE_RATE: u32 = 8096;

/// The file a song's radio rendition is written to.
pub open spec fn radio_output_path_spec(song_name: Seq<char>) -> Seq<char> {
    "../radio_out/radio_"@ + song_name + ".wav"@
}

/// The file a song's radio rendition is written to: `../radio_out/radio_<song>.wav`.
pub fn radio_output_path(song_name: &str) -> (res: String)
    ensures
        res@ == radio_output_path_spec(song_name@),
{
    let mut path = String::from_str("../radio_out/radio_");
    path.append(song_name);
    path.append(".wav");
    path
}

/// The audio decoded from a song so far: its interleaved samples, and the
/// channel count and sample rate of the last frame read.
pub struct DecodedAudio {
    pub samples: Vec<i16>,
    pub channels: usize,
    pub sample_rate: i32,
}

impl DecodedAudio {
    /// Nothing decoded yet: no samples, two channels, rate zero.
    pub fn new() -> (res: DecodedAudio)
        ensures
            res.samples@ == Seq::<i16>::empty(),
            res.channels == 2,
            res.sample_rate == 0,
    {
        DecodedAudio { samples: Vec::new(), channels: 2, sample_rate: 0 }
    }

    /// Adds a decoded frame: its samples follow those before, and its channel
    /// count and rate become those of the song.
    pub fn add_frame(&mut self, data: Vec<i16>, sample_rate: i32, channels: usize)
        ensures
            final(self).samples@ == old(self).samples@ + data@,
            final(self).channels == channels,
            final(self).sample_rate == sample_rate,
    {
        let mut data = data;
        self.samples.append(&mut data);
        self.channels = channels;
        self.sample_rate = sample_rate;
    }
}

/// The samples at even positions of an interleaved stereo stream: the left channel.
pub open spec fn left_channel(samples: Seq<i16>) -> Seq<i16> {
    Seq::new(((samples.len() + 1) / 2) as nat, |k: int| samples[2 * k])
}

/// The samples at odd positions of an interleaved stereo stream: the right channel.
pub open spec fn right_channel(samples: Seq<i16>) -> Seq<i16> {
    Seq::new((samples.len() / 2) as nat, |k: int| samples[2 * k + 1])
}

/// Splits interleaved stereo samples into the left channel (even positions)
/// and the right channel (odd positions).
pub fn deinterleave(samples: &[i16]) -> (res: (Vec<i16>, Vec<i16>))
    ensures
        res.0@ == left_channel(samples@),
        res.1@ == right_channel(samples@),
{
    let mut left: Vec<i16> = Vec::new();
    let mut right: Vec<i16> = Vec::new();
    let n = samples.len();
    let mut i: usize = 0;
    while i < n
        invariant
            n == samples@.len(),
            i <= n,
            left@ == left_channel(samples@.take(i as int)),
            right@ == right_channel(samples@.take(i as int)),
        decreases n - i,
    {
        let ghost before = samples@.take(i as int);
        let ghost after = samples@.take(i + 1);
        if i % 2 == 0 {
            left.push(samples[i]);
            assert(left@ =~= left_channel(after));
            assert(right@ =~= right_channel(after));
        } else {
            right.push(samples[i]);
            assert(left@ =~= left_channel(after));
            assert(right@ =~= right_channel(after));
        }
        i = i + 1;
    }
    assert(samples@.take(n as int) =~= samples@);
    (left, right)
}

/// Two channels interleaved into one stream, left sample first.
pub open spec fn interleaved(left: Seq<i16>, right: Seq<i16>) -> Seq<i16> {
    Seq::new(left.len() + right.len(), |i: int| if i % 2 == 0 { left[i / 2] } else { right[i / 2] })
}

/// Splitting a stream into its channels loses nothing: interleaving the two
/// channels again gives the stream back.
pub proof fn lemma_channels_interleave_back(samples: Seq<i16>)
    ensures
        interleaved(left_channel(samples), right_channel(samples)) == samples,
{
    let l = left_channel(samples);
    let r = right_channel(samples);
    assert(l.len() + r.len() == samples.len());
    assert forall|i: int| 0 <= i < samples.len() implies #[trigger] interleaved(l, r)[i] == samples[i] by {
        if i % 2 == 0 {
            assert(2 * (i / 2) == i);
        } else {
            assert(2 * (i / 2) + 1 == i);
        }
    }
    assert(interleaved(l, r) =~= samples);
}

/// The samples of a run of decoded frames, one frame after another.
pub open spec fn frame_samples(frames: Seq<(Seq<i16>, i32, usize)>) -> Seq<i16>
    decreases frames.len(),
{
    if frames.len() == 0 {
        Seq::empty()
    } else {
        frame_samples(frames.drop_last()) + frames.last().0
    }
}

/// The channel count of a song: that of its last frame, two when it has none.
pub open spec fn frame_channels(frames: Seq<(Seq<i16>, i32, usize)>) -> usize {
    if frames.len() == 0 {
        2
    } else {
        frames.last().2
    }
}

/// The sample rate of a song: that of its last frame, zero when it has none.
pub open spec fn frame_rate(frames: Seq<(Seq<i16>, i32, usize)>) -> i32 {
    if frames.len() == 0 {
        0
    } else {
        frames.last().1
    }
}

/// Decodes a whole MP3 song, frame by frame, until the decoder stops. A song
/// that ends cleanly gives all its frames' samples in order, with the channel
/// count and rate of its last frame; a decoder error gives `Failed`.
pub fn decode_song(bytes: Vec<u8>) -> (res: Result<DecodedAudio, Mp3End>)
    ensures
        mp3_end(bytes@) == Mp3End::Eof ==> (res matches Ok(audio) && {
            &&& audio.samples@ == frame_samples(mp3_frames(bytes@))
            &&& audio.channels == frame_channels(mp3_frames(bytes@))
            &&& audio.sample_rate == frame_rate(mp3_frames(bytes@))
        }),
        mp3_end(bytes@) == Mp3End::Failed ==> res == Err::<DecodedAudio, Mp3End>(Mp3End::Failed),
{
    let ghost all = mp3_frames(bytes@);
    let ghost end = mp3_end(bytes@);
    let mut decoder = open_mp3(bytes);
    let mut audio = DecodedAudio::new();
    let ghost mut k: int = 0;
    loop
        invariant
            all == mp3_frames(bytes@),
            end == mp3_end(bytes@),
            0 <= k <= all.len(),
            pending_frames(decoder) == all.skip(k),
            stream_end(decoder) == end,
            audio.samples@ == frame_samples(all.take(k)),
            audio.channels == frame_channels(all.take(k)),
            audio.sample_rate == frame_rate(all.take(k)),
        decreases all.len() - k,
    {
        match next_frame(&mut decoder) {
            Ok(frame) => {
                proof {
                    assert(all.take(k + 1).drop_last() =~= all.take(k));
                    assert(all.take(k + 1).last() == all[k]);
                    assert(all.skip(k)[0] == all[k]);
                    assert(all.skip(k).drop_first() =~= all.skip(k + 1));
                    k = k + 1;
                }
                audio.add_frame(frame.data, frame.sample_rate, frame.channels);
            },
            Err(e) => {
                assert(all.skip(k).len() == 0);
                assert(all.take(k) =~= all);
                if e == Mp3End::Eof {
                    return Ok(audio);
                } else {
                    return Err(e);
                }
            },
        }
    }
}

/// The decoded samples are the frames' samples in decode order: no frames give
/// none, one frame gives its own, and a frame decoded after others adds its
/// samples after theirs.
pub proof fn lemma_frame_samples_in_order(frames: Seq<(Seq<i16>, i32, usize)>, frame: (Seq<i16>, i32, usize))
    ensures
        frame_samples(Seq::<(Seq<i16>, i32, usize)>::empty()) == Seq::<i16>::empty(),
        frame_samples(seq![frame]) == frame.0,
        frame_samples(frames.push(frame)) == frame_samples(frames) + frame.0,
        frame_samples(frames.push(frame)).len() == frame_samples(frames).len() + frame.0.len(),
{
    assert(frames.push(frame).drop_last() =~= frames);
    assert(seq![frame].drop_last() =~= Seq::<(Seq<i16>, i32, usize)>::empty());
    assert(Seq::<i16>::empty() + frame.0 =~= frame.0);
}

/// The samples of the first frames of a song are a prefix of the song's
/// samples: decoding more frames only adds samples at the end.
pub proof fn lemma_frame_samples_prefix(frames: Seq<(Seq<i16>, i32, usize)>, k: int)
    requires
        0 <= k <= frames.len(),
    ensures
        frame_samples(frames.take(k)).len() <= frame_samples(frames).len(),
        frame_samples(frames).take(frame_samples(frames.take(k)).len() as int) == frame_samples(frames.take(k)),
    decreases frames.len() - k,
{
    if k == frames.len() {
        assert(frames.take(k) =~= frames);
        assert(frame_samples(frames).take(frame_samples(frames).len() as int) =~= frame_samples(frames));
    } else {
        lemma_frame_samples_prefix(frames, k + 1);
        let a = frames.take(k);
        let b = frames.take(k + 1);
        assert(b.drop_last() =~= a);
        let sa = frame_samples(a);
        let sb = frame_samples(b);
        assert(sb == sa + b.last().0);
        assert(sb.take(sa.len() as int) =~= sa);
        let all = frame_samples(frames);
        assert(all.take(sa.len() as int) =~= all.take(sb.len() as int).take(sa.len() as int));
    }
}

/// A song's channel count and rate are those of its last frame decoded, and
/// two channels at rate zero when it has no frame.
pub proof fn lemma_frame_format_is_last(frames: Seq<(Seq<i16>, i32, usize)>, frame: (Seq<i16>, i32, usize))
    ensures
        frame_channels(Seq::<(Seq<i16>, i32, usize)>::empty()) == 2,
        frame_rate(Seq::<(Seq<i16>, i32, usize)>::empty()) == 0,
        frame_channels(frames.push(frame)) == frame.2,
        frame_rate(frames.push(frame)) == frame.1,
{
}

/// The channel split takes samples alternately, left first: the two channels
/// hold every sample between them, the left one as many as the right or one
/// more, and two more samples at the end of an even-length stream add one to
/// each channel.
pub proof fn lemma_channels_alternate(samples: Seq<i16>, a: i16, b: i16)
    ensures
        left_channel(samples).len() + right_channel(samples).len() == samples.len(),
        left_channel(samples).len() == right_channel(samples).len()
            || left_channel(samples).len() == right_channel(samples).len() + 1,
        samples.len() % 2 == 0 ==> left_channel(samples + seq![a, b]) == left_channel(samples).push(a),
        samples.len() % 2 == 0 ==> right_channel(samples + seq![a, b]) == right_channel(samples).push(b),
{
    let t = samples + seq![a, b];
    if samples.len() % 2 == 0 {
        let n = samples.len() as int;
        assert((t.len() + 1) / 2 == (n + 1) / 2 + 1);
        assert(t.len() / 2 == n / 2 + 1);
        assert forall|k: int| 0 <= k < (n + 1) / 2 implies #[trigger] t[2 * k] == samples[2 * k] by {}
        assert(t[2 * ((n + 1) / 2)] == a);
        assert(left_channel(t) =~= left_channel(samples).push(a));
        assert forall|k: int| 0 <= k < n / 2 implies #[trigger] t[2 * k + 1] == samples[2 * k + 1] by {}
        assert(t[2 * (n / 2) + 1] == b);
        assert(right_channel(t) =~= right_channel(samples).push(b));
    }
}

/// Different songs are rendered to different files.
pub proof fn lemma_radio_paths_distinct(a: Seq<char>, b: Seq<char>)
    ensures
        radio_output_path_spec(a) == radio_output_path_spec(b) ==> a == b,
{
    let p = "../radio_out/radio_"@;
    let w = ".wav"@;
    if radio_output_path_spec(a) == radio_output_path_spec(b) {
        assert((p + a + w).len() == (p + b + w).len());
        assert(a.len() == b.len());
        assert((p + a + w).subrange(p.len() as int, (p.len() + a.len()) as int) =~= a);
        assert((p + b + w).subrange(p.len() as int, (p.len() + b.len()) as int) =~= b);
    }
}

} // verus!
