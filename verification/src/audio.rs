//! WAVE formats, and the reading of a WAVE header through `hound`.

use vstd::prelude::*;

verus! {

/// How the samples of a WAVE file are stored.
#[derive(Clone, Copy, Debug, PartialEq, Eq, Structural)]
pub enum SampleKind {
    /// PCM integers.
    Int,
    /// IEEE floating point numbers.
    Float,
}

/// The format of the audio data of a WAVE file.
#[derive(Clone, Copy, Debug, PartialEq, Eq, Structural)]
pub struct WavFormat {
    pub channels: u16,
    pub sample_rate: u32,
    pub bits_per_sample: u16,
    pub sample_kind: SampleKind,
}

/// The format in which synthesized speech is sent back: one channel of 32-bit
/// floating point samples at the engine's rate (a negative rate wraps, as the
/// `as` cast does).
pub fn speech_wav_format(sample_rate: i32) -> (r: WavFormat)
    ensures
        r.channels == 1,
        r.sample_rate == sample_rate as u32,
        r.bits_per_sample == 32,
        r.sample_kind == SampleKind::Float,
{
    WavFormat {
        channels: 1,
        sample_rate: #[verifier::truncate] (sample_rate as u32),
        bits_per_sample: 32,
        sample_kind: SampleKind::Float,
    }
}

/// Whether the samples of a file in this format are mixed down to one
/// channel before recognition: only when there is more than one channel.
pub fn mixes_down(format: &WavFormat) -> (r: bool)
    ensures
        r == (format.channels > 1),
{
    format.channels > 1
}

#[verifier::external_type_specification]
#[verifier::external_body]
#[verifier::reject_recursive_types(T)]
pub struct ExCursor<T>(std::io::Cursor<T>);

#[verifier::external_type_specification]
#[verifier::external_body]
#[verifier::reject_recursive_types(R)]
pub struct ExWavReader<R>(hound::WavReader<R>);

#[verifier::external_type_specification]
#[verifier::external_body]
pub struct ExHoundError(hound::Error);

/// Whether `hound::WavReader::new` accepts these bytes as the start of a WAVE
/// file (a RIFF/WAVE header, a supported fmt chunk, and a data chunk whose
/// length fits the format).
pub uninterp spec fn wav_header_accepted(bytes: Seq<u8>) -> bool;

/// The format that hound reads from the header of these bytes: channels,
/// sample rate, bits per sample, and whether the samples are floating point.
pub uninterp spec fn wav_header_format(bytes: Seq<u8>) -> (u16, u32, u16, bool);

/// The format as the tuple that `wav_header_format` names.
pub open spec fn format_tuple(format: WavFormat) -> (u16, u32, u16, bool) {
    (
        format.channels,
        format.sample_rate,
        format.bits_per_sample,
        format.sample_kind == SampleKind::Float,
    )
}

/// Calls `hound::WavReader::new` on the bytes and reads the spec of the new
/// reader with `hound::WavReader::spec`. Claimed: a reader is returned
/// exactly when hound accepts the bytes; its format is the one hound reads
/// from the header, a function of the bytes alone, with at least one channel
/// and at least one bit per sample (hound refuses a header with zero channels
/// or zero bits). What the reader yields as samples is left unsaid here.
#[verifier::external_body]
pub(crate) fn wav_reader_new(bytes: Vec<u8>) -> (r: Result<
    (hound::WavReader<std::io::Cursor<Vec<u8>>>, WavFormat),
    hound::Error,
>)
    ensures
        r is Ok <==> wav_header_accepted(bytes@),
        r matches Ok(p) ==> wav_header_format(bytes@) == format_tuple(p.1),
        r matches Ok(p) ==> p.1.channels >= 1 && p.1.bits_per_sample >= 1,
{
    match hound::WavReader::new(std::io::Cursor::new(bytes)) {
        Ok(reader) => {
            let s = reader.spec();
            let kind = match s.sample_format {
                hound::SampleFormat::Int => SampleKind::Int,
                hound::SampleFormat::Float => SampleKind::Float,
            };
            let (channels, sample_rate, bits_per_sample) = (s.channels, s.sample_rate, s.bits_per_sample);
            Ok((reader, WavFormat { channels, sample_rate, bits_per_sample, sample_kind: kind }))
        },
        Err(e) => Err(e),
    }
}

/// The samples that hound's reader yields as `i32` for these bytes, in file
/// order: `Some(value)` for a sample it reads, `None` for one it fails to read.
pub uninterp spec fn wav_int_samples(bytes: Seq<u8>) -> Seq<Option<i32>>;

/// Reads the samples of the WAVE file in these bytes with
/// `hound::WavReader::samples::<i32>`, keeping each sample's outcome.
/// Claimed: the result is hound's sample sequence for the bytes, which
/// depends on the bytes alone; the bytes are a header hound accepts.
#[verifier::external_body]
pub(crate) fn read_int_samples(bytes: Vec<u8>) -> (r: Vec<Option<i32>>)
    requires
        wav_header_accepted(bytes@),
    ensures
        r@ == wav_int_samples(bytes@),
{
    match hound::WavReader::new(std::io::Cursor::new(bytes)) {
        Ok(mut reader) => reader.samples::<i32>().map(|s| s.ok()).collect(),
        Err(_) => Vec::new(),
    }
}

/// The value used for a sample: its value, or 0 where it could not be read.
pub open spec fn sample_value(sample: Option<i32>) -> i32 {
    match sample {
        Some(v) => v,
        None => 0,
    }
}

/// The number of samples per frame: the channel count when the samples are
/// mixed down, else 1.
pub open spec fn frame_width(channels: u16) -> nat {
    if channels > 1 {
        channels as nat
    } else {
        1
    }
}

/// The samples grouped into frames of `frame_width(channels)` values; a last
/// frame that would be short is dropped.
pub open spec fn frames_of(samples: Seq<Option<i32>>, channels: u16) -> Seq<Seq<i32>> {
    let w = frame_width(channels);
    Seq::new(
        samples.len() / w,
        |k: int| Seq::new(w, |j: int| sample_value(samples[k * w + j])),
    )
}

/// Framing keeps every readable sample's decoded value and puts 0 for an
/// unreadable one: value `j` of frame `k` is sample `k * w + j`, where `w` is
/// the channel count when there are several channels and 1 otherwise; the
/// frames cover all but fewer than `w` trailing samples.
pub proof fn lemma_frames_keep_samples(samples: Seq<Option<i32>>, channels: u16, k: int, j: int)
    ensures
        ({
            let w: int = if channels > 1 {
                channels as int
            } else {
                1
            };
            let f = frames_of(samples, channels);
            &&& f.len() * w <= samples.len() < f.len() * w + w
            &&& 0 <= k < f.len() && 0 <= j < w ==> {
                &&& f[k].len() == w
                &&& k * w + j < samples.len()
                &&& samples[k * w + j] matches Some(v) ==> f[k][j] == v
                &&& samples[k * w + j] is None ==> f[k][j] == 0
            }
        }),
{
    let w: int = if channels > 1 {
        channels as int
    } else {
        1
    };
    let f = frames_of(samples, channels);
    let n = samples.len() as int;
    assert(f.len() == n / w);
    assert((n / w) * w <= n < (n / w) * w + w) by (nonlinear_arith)
        requires
            w >= 1,
            n >= 0,
    ;
    if 0 <= k < f.len() && 0 <= j < w {
        assert(k * w + j < n) by (nonlinear_arith)
            requires
                0 <= k < n / w,
                0 <= j < w,
                (n / w) * w <= n,
                w >= 1,
        ;
    }
}

/// Groups integer samples into frames, counting an unreadable sample as 0.
pub fn int_frames(samples: &Vec<Option<i32>>, channels: u16) -> (r: Vec<Vec<i32>>)
    ensures
        r.deep_view() == frames_of(samples@, channels),
{
    let width: usize = if channels > 1 {
        channels as usize
    } else {
        1
    };
    let n = samples.len();
    let ghost w = frame_width(channels);
    let mut frames: Vec<Vec<i32>> = Vec::new();
    let mut pos: usize = 0;
    assert(frames.len() * w == 0) by (nonlinear_arith)
        requires
            frames.len() == 0,
    ;
    while n - pos >= width
        invariant
            width == w,
            w >= 1,
            n == samples.len(),
            pos <= n,
            pos == frames.len() * w,
            forall|k: int|
                0 <= k < frames.len() ==> #[trigger] frames@[k]@ == Seq::new(
                    w,
                    |j: int| sample_value(samples@[k * w + j]),
                ),
        decreases n - pos,
    {
        let mut frame: Vec<i32> = Vec::new();
        let mut j: usize = 0;
        while j < width
            invariant
                width == w,
                pos + width <= n,
                n == samples.len(),
                j <= width,
                frame@.len() == j,
                forall|i: int| 0 <= i < j ==> frame@[i] == sample_value(samples@[pos + i]),
            decreases width - j,
        {
            let v = match samples[pos + j] {
                Some(x) => x,
                None => 0,
            };
            frame.push(v);
            j = j + 1;
        }
        let ghost k = frames.len() as int;
        proof {
            assert(frame@ =~= Seq::new(w, |i: int| sample_value(samples@[k * w + i])));
        }
        frames.push(frame);
        proof {
            assert((k + 1) * w == k * w + w) by (nonlinear_arith);
        }
        pos = pos + width;
    }
    proof {
        let f = frames.len() as int;
        assert(f * w <= n && n < f * w + w);
        assert(f == n as int / w as int) by (nonlinear_arith)
            requires
                f * w <= n,
                n < f * w + w,
                w >= 1,
                f >= 0,
        ;
        let target = frames_of(samples@, channels);
        assert(target.len() == f);
        assert forall|k: int| 0 <= k < f implies frames.deep_view()[k] == target[k] by {
            assert(frames@[k].deep_view() =~= frames@[k]@);
        }
        assert(frames.deep_view() =~= target);
    }
    frames
}

} // verus!
