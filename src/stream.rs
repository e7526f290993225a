//! Stream configuration and the per-frame downmix of interleaved input.
use vstd::prelude::*;
use crate::manager::ManagerError;

verus! {

/// The sample rate the application prefers, within what a device supports.
pub const PREFERRED_SAMPLE_RATE: u32 = 40000;

/// One input configuration range a device reports.
#[derive(Debug, Clone, Copy, PartialEq, Eq, Structural)]
pub struct ConfigRange {
    pub channels: u16,
    pub min_sample_rate: u32,
    pub max_sample_rate: u32,
    /// Bytes per sample of the range's sample format.
    pub sample_size: usize,
}

/// The configuration a stream is opened with.
#[derive(Debug, Clone, Copy, PartialEq, Eq, Structural)]
pub struct StreamSettings {
    pub channels: u16,
    pub sample_rate: u32,
    pub sample_size: usize,
}

/// The layout of a float WAV file that records a stream.
#[derive(Debug, Clone, Copy, PartialEq, Eq, Structural)]
pub struct WavFormat {
    pub channels: u16,
    pub sample_rate: u32,
    pub bits_per_sample: u16,
}

/// Errors of building and running an input stream.
#[derive(Debug, Clone)]
pub enum StreamError {
    NoConfigAvailable,
    ManagerError(ManagerError),
    SupportedStreamConfigsError(String),
    BuildStreamError(String),
    PlayStreamError(String),
}

/// The preferred rate raised to at least `min`, then capped at `max`.
pub open spec fn clamped_rate(min: u32, max: u32) -> u32 {
    let raised = if min >= PREFERRED_SAMPLE_RATE { min } else { PREFERRED_SAMPLE_RATE };
    if raised <= max { raised } else { max }
}

/// The settings chosen from a configuration range.
pub open spec fn settings_of(range: ConfigRange) -> StreamSettings {
    StreamSettings {
        channels: range.channels,
        sample_rate: clamped_rate(range.min_sample_rate, range.max_sample_rate),
        sample_size: range.sample_size,
    }
}

/// Picks the first configuration range the device reports and the sample rate
/// nearest the preferred one that it supports. Fails with `NoConfigAvailable`
/// when the device reports none.
pub fn config(ranges: &Vec<ConfigRange>) -> (r: Result<StreamSettings, StreamError>)
    ensures
        r is Err <==> ranges@.len() == 0,
        r is Err ==> r->Err_0 == StreamError::NoConfigAvailable,
        r is Ok ==> r->Ok_0 == settings_of(ranges@[0]),
{
    if ranges.len() == 0 {
        return Err(StreamError::NoConfigAvailable);
    }
    let range = ranges[0];
    let raised = if range.min_sample_rate >= PREFERRED_SAMPLE_RATE {
        range.min_sample_rate
    } else {
        PREFERRED_SAMPLE_RATE
    };
    let sample_rate = if raised <= range.max_sample_rate {
        raised
    } else {
        range.max_sample_rate
    };
    Ok(StreamSettings { channels: range.channels, sample_rate, sample_size: range.sample_size })
}

/// The WAV layout that records a stream opened with `settings`: every frame is
/// downmixed to one `f32` sample, so the file is mono with 32-bit float samples
/// at the stream's rate.
pub fn wav_format(settings: &StreamSettings) -> (r: WavFormat)
    ensures
        r.channels == 1,
        r.sample_rate == settings.sample_rate,
        r.bits_per_sample == 32,
{
    WavFormat { channels: 1, sample_rate: settings.sample_rate, bits_per_sample: 32 }
}

/// Frame `i` of interleaved `data` with `channels` samples per frame.
pub open spec fn frame_of<T>(data: Seq<T>, channels: nat, i: int) -> Seq<T> {
    data.subrange(i * channels, (i + 1) * channels)
}

/// `sample` is what `mean` returns on a frame that holds `frame`.
pub open spec fn mean_of<T, F: Fn(&[T]) -> T>(mean: F, frame: Seq<T>, sample: T) -> bool {
    exists|f: &[T]| f@ == frame && #[trigger] mean.ensures((f,), sample)
}

/// Reduces interleaved `data` to one sample per complete frame of `channels`
/// samples, each the value of `mean` on that frame, in frame order. A trailing
/// partial frame is ignored.
pub fn downmix<T, F: Fn(&[T]) -> T>(data: &[T], channels: usize, mean: &F) -> (r: Vec<T>)
    requires
        channels > 0,
        forall|frame: &[T]| frame@.len() == channels ==> #[trigger] mean.requires((frame,)),
    ensures
        r@.len() == data@.len() as int / channels as int,
        forall|i: int|
            0 <= i < r@.len() ==> #[trigger] mean_of(
                *mean,
                frame_of(data@, channels as nat, i),
                r@[i],
            ),
{
    let len = data.len();
    let mut out: Vec<T> = Vec::with_capacity(len / channels);
    let mut start: usize = 0;
    while channels <= len - start
        invariant
            start <= len,
            len == data@.len(),
            channels > 0,
            start == out@.len() * channels,
            forall|frame: &[T]| frame@.len() == channels ==> #[trigger] mean.requires((frame,)),
            forall|i: int|
                0 <= i < out@.len() ==> #[trigger] mean_of(
                    *mean,
                    frame_of(data@, channels as nat, i),
                    out@[i],
                ),
        decreases len - start,
    {
        let end = start + channels;
        let frame = &data[start..end];
        let sample = mean(frame);
        proof {
            let k = out@.len() as int;
            assert((k + 1) * channels == k * channels + channels) by (nonlinear_arith);
            assert(frame@ == frame_of(data@, channels as nat, k));
            assert(mean_of(*mean, frame_of(data@, channels as nat, k), sample));
        }
        out.push(sample);
        proof {
            let k = out@.len() as int;
            assert(k * channels == (k - 1) * channels + channels) by (nonlinear_arith);
        }
        start = end;
    }
    proof {
        let n = out@.len() as int;
        let c = channels as int;
        let l = len as int;
        assert(n * c <= l < n * c + c);
        assert(n == l / c) by (nonlinear_arith)
            requires
                n * c <= l < n * c + c,
                c > 0,
        ;
    }
    out
}

} // verus!
