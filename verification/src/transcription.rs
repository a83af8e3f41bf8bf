//! Speech-to-text requests: the availability of the recognizer, the upload
//! field that carries the audio, and the reading of the uploaded WAVE file.

use vstd::prelude::*;
use crate::audio::{
    format_tuple, frames_of, int_frames, read_int_samples, wav_header_accepted, wav_header_format,
    wav_int_samples, wav_reader_new, SampleKind, WavFormat,
};
use crate::refusal::Refusal;
use crate::text::text_eq;

verus! {

/// A transcription is refused when no recognizer is loaded.
pub fn require_recognizer(available: bool) -> (r: Result<(), Refusal>)
    ensures
        available ==> r == Ok::<(), Refusal>(()),
        !available ==> r == Err::<(), Refusal>(Refusal::SpeechToTextUnavailable),
{
    if available {
        Ok(())
    } else {
        Err(Refusal::SpeechToTextUnavailable)
    }
}

/// Whether an upload field carries the audio: only the field named `file`.
pub fn is_audio_field(name: Option<&str>) -> (r: bool)
    ensures
        r == (name is Some && name->0@ == "file"@),
{
    match name {
        Some(n) => text_eq(n, "file"),
        None => false,
    }
}

/// The audio kept after one more upload field: the field's contents when it
/// is the audio field and its contents could be read, else the audio kept
/// so far (so the last readable `file` field wins).
pub fn next_audio(kept: Vec<u8>, is_audio: bool, contents: Option<Vec<u8>>) -> (r: Vec<u8>)
    ensures
        r@ == (if is_audio && contents is Some {
            contents->0@
        } else {
            kept@
        }),
{
    if is_audio {
        match contents {
            Some(bytes) => bytes,
            None => kept,
        }
    } else {
        kept
    }
}

/// An uploaded WAVE file whose header was read.
pub struct WavUpload {
    /// The reader, positioned at the first sample.
    pub reader: hound::WavReader<std::io::Cursor<Vec<u8>>>,
    /// The format of the samples.
    pub format: WavFormat,
    /// For integer samples, the samples grouped into frames (one frame per
    /// sample where they are not mixed down), an unreadable sample counting
    /// as 0; none for floating point samples, which are read from `reader`.
    pub int_frames: Option<Vec<Vec<i32>>>,
}

/// Opens the uploaded audio: refused when there is none, or when its WAVE
/// header cannot be read.
pub fn open_upload(audio: Vec<u8>) -> (r: Result<WavUpload, Refusal>)
    ensures
        audio@.len() == 0 ==> r matches Err(Refusal::MissingAudioFile),
        audio@.len() > 0 ==> (r is Ok <==> wav_header_accepted(audio@)),
        audio@.len() > 0 && !wav_header_accepted(audio@) ==> r matches Err(Refusal::InvalidWav),
        r matches Ok(u) ==> wav_header_format(audio@) == format_tuple(u.format),
        r matches Ok(u) ==> u.format.channels >= 1 && u.format.bits_per_sample >= 1,
        r matches Ok(u) ==> match u.int_frames {
            Some(f) => u.format.sample_kind == SampleKind::Int && f.deep_view() == frames_of(
                wav_int_samples(audio@),
                u.format.channels,
            ),
            None => u.format.sample_kind == SampleKind::Float,
        },
{
    if audio.len() == 0 {
        return Err(Refusal::MissingAudioFile);
    }
    let copy = audio.clone();
    assert(copy@ =~= audio@);
    match wav_reader_new(audio) {
        Ok((reader, format)) => {
            let frames = match format.sample_kind {
                SampleKind::Int => Some(int_frames(&read_int_samples(copy), format.channels)),
                SampleKind::Float => None,
            };
            Ok(WavUpload { reader, format, int_frames: frames })
        },
        Err(_) => Err(Refusal::InvalidWav),
    }
}

/// The text of a recognition result; empty where there is none.
pub fn transcript_text(result: Option<String>) -> (r: String)
    ensures
        r@ == (match result {
            Some(t) => t@,
            None => Seq::<char>::empty(),
        }),
{
    match result {
        Some(t) => t,
        None => String::new(),
    }
}

} // verus!
