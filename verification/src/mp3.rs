//! MP3 decoding of a song held in memory, by the `minimp3` decoder.

use vstd::prelude::*;

verus! {

#[verifier::external_type_specification]
#[verifier::external_body]
#[verifier::reject_recursive_types(R)]
pub struct ExMp3Decoder<R>(minimp3::Decoder<R>);

#[verifier::external_type_specification]
#[verifier::external_body]
#[verifier::reject_recursive_types(T)]
pub struct ExCursor<T>(std::io::Cursor<T>);

/// A decoded frame: its interleaved samples, sample rate in hertz, and channel count.
pub struct Mp3Frame {
    pub data: Vec<i16>,
    pub sample_rate: i32,
    pub channels: usize,
}

/// How a decode ends once its frames are read: at the end of the bytes, or on
/// a decoder error.
#[derive(Clone, Copy, Debug, PartialEq, Eq, Structural)]
pub enum Mp3End {
    Eof,
    Failed,
}

/// The frames, as (samples, sample rate, channels), that `minimp3` decodes from
/// these bytes, in order, before its first error.
pub uninterp spec fn mp3_frames(bytes: Seq<u8>) -> Seq<(Seq<i16>, i32, usize)>;

/// The first error `minimp3` reports on these bytes, after their frames.
pub uninterp spec fn mp3_end(bytes: Seq<u8>) -> Mp3End;

/// The frames a decoder has yet to yield, in order, before its first error.
pub uninterp spec fn pending_frames(decoder: minimp3::Decoder<std::io::Cursor<Vec<u8>>>) -> Seq<(Seq<i16>, i32, usize)>;

/// The first error a decoder reports once its pending frames are read.
pub uninterp spec fn stream_end(decoder: minimp3::Decoder<std::io::Cursor<Vec<u8>>>) -> Mp3End;

/// Calls `minimp3::Decoder::new` on a `std::io::Cursor` over the bytes.
///
/// Trusted: the decoder's pending frames and final error are those that
/// `minimp3` decodes from the bytes (`mp3_frames`, `mp3_end`). Decoding in
/// memory is a function of the bytes alone.
#[verifier::external_body]
pub(crate) fn open_mp3(bytes: Vec<u8>) -> (res: minimp3::Decoder<std::io::Cursor<Vec<u8>>>)
    ensures
        pending_frames(res) == mp3_frames(bytes@),
        stream_end(res) == mp3_end(bytes@),
{
    minimp3::Decoder::new(std::io::Cursor::new(bytes))
}

/// Calls `minimp3::Decoder::next_frame`, keeping a frame's samples, rate and
/// channel count, and telling `Error::Eof` apart from every other error.
///
/// Trusted: while frames are pending, the call yields the first of them and the
/// rest stay pending, with the same final error; once none is pending, the
/// call reports the final error. Nothing is said of the decoder after an error.
#[verifier::external_body]
pub(crate) fn next_frame(decoder: &mut minimp3::Decoder<std::io::Cursor<Vec<u8>>>) -> (res: Result<Mp3Frame, Mp3End>)
    ensures
        pending_frames(*old(decoder)).len() > 0 ==> {
            &&& res matches Ok(f) && (f.data@, f.sample_rate, f.channels) == pending_frames(*old(decoder))[0]
            &&& pending_frames(*final(decoder)) == pending_frames(*old(decoder)).drop_first()
            &&& stream_end(*final(decoder)) == stream_end(*old(decoder))
        },
        pending_frames(*old(decoder)).len() == 0 ==> res == Err::<Mp3Frame, Mp3End>(stream_end(*old(decoder))),
{
    match decoder.next_frame() {
        Ok(frame) => Ok(Mp3Frame { data: frame.data, sample_rate: frame.sample_rate, channels: frame.channels }),
        Err(minimp3::Error::Eof) => Err(Mp3End::Eof),
        Err(_) => Err(Mp3End::Failed),
    }
}

} // verus!
