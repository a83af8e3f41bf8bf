//! The ways a request is turned down, with the HTTP status and message of each.

use vstd::prelude::*;

verus! {

/// A request that the service turns down.
#[derive(Clone, Copy, Debug, PartialEq, Eq, Structural)]
pub enum Refusal {
    /// A transcription was asked for but no speech-to-text model is loaded.
    SpeechToTextUnavailable,
    /// The transcription upload held no audio.
    MissingAudioFile,
    /// The uploaded audio is not a WAVE file that can be read.
    InvalidWav,
    /// A synthesis was asked for but no text-to-speech model is present.
    TextToSpeechUnavailable,
    /// No engine could be loaded for the language of the voice.
    EngineUnavailable,
    /// The engine produced no audio.
    SynthesisFailed,
}

impl Refusal {
    /// The HTTP status code of the refusal.
    pub open spec fn status_code(self) -> u16 {
        match self {
            Refusal::SpeechToTextUnavailable => 404,
            Refusal::MissingAudioFile => 400,
            Refusal::InvalidWav => 400,
            Refusal::TextToSpeechUnavailable => 404,
            Refusal::EngineUnavailable => 500,
            Refusal::SynthesisFailed => 500,
        }
    }

    /// The text of the response body.
    pub open spec fn message_text(self) -> Seq<char> {
        match self {
            Refusal::SpeechToTextUnavailable => "STT service is not available"@,
            Refusal::MissingAudioFile => "No file"@,
            Refusal::InvalidWav => "Invalid WAV"@,
            Refusal::TextToSpeechUnavailable => "TTS service is not available"@,
            Refusal::EngineUnavailable => "Engine failed to load"@,
            Refusal::SynthesisFailed => "TTS Generation failed"@,
        }
    }

    /// The HTTP status code of the refusal.
    pub fn status(&self) -> (r: u16)
        ensures
            r == self.status_code(),
    {
        match self {
            Refusal::SpeechToTextUnavailable => 404,
            Refusal::MissingAudioFile => 400,
            Refusal::InvalidWav => 400,
            Refusal::TextToSpeechUnavailable => 404,
            Refusal::EngineUnavailable => 500,
            Refusal::SynthesisFailed => 500,
        }
    }

    /// The text of the response body.
    pub fn message(&self) -> (r: &'static str)
        ensures
            r@ == self.message_text(),
    {
        match self {
            Refusal::SpeechToTextUnavailable => "STT service is not available",
            Refusal::MissingAudioFile => "No file",
            Refusal::InvalidWav => "Invalid WAV",
            Refusal::TextToSpeechUnavailable => "TTS service is not available",
            Refusal::EngineUnavailable => "Engine failed to load",
            Refusal::SynthesisFailed => "TTS Generation failed",
        }
    }
}

} // verus!
