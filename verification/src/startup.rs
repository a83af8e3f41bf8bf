//! Start-up decisions: where the models come from, which are usable, and
//! whether the server may run.

use vstd::prelude::*;

verus! {

/// The two models the service can run with.
#[derive(Clone, Copy, Debug, PartialEq, Eq, Structural)]
pub enum Model {
    /// The Kokoro text-to-speech model.
    Kokoro,
    /// The Parakeet speech-to-text model.
    Parakeet,
}

impl Model {
    /// The file whose presence in the model directory shows that the model
    /// is installed.
    pub open spec fn marker_text(self) -> Seq<char> {
        match self {
            Model::Kokoro => "model.onnx"@,
            Model::Parakeet => "encoder.int8.onnx"@,
        }
    }

    /// The default name of the model directory, under the models directory.
    pub open spec fn directory_text(self) -> Seq<char> {
        match self {
            Model::Kokoro => "kokoro-multi-lang-v1_0"@,
            Model::Parakeet => "sherpa-onnx-nemo-parakeet-tdt-0.6b-v3-int8"@,
        }
    }

    /// The archive that `--auto` installs the model from.
    pub open spec fn archive_text(self) -> Seq<char> {
        match self {
            Model::Kokoro => "https://github.com/eja/s2s/releases/download/models/kokoro-multi-lang-v1_0.tar.bz2"@,
            Model::Parakeet => "https://github.com/eja/s2s/releases/download/models/sherpa-onnx-nemo-parakeet-tdt-0.6b-v3-int8.tar.bz2"@,
        }
    }

    /// The name of the model in messages.
    pub open spec fn label_text(self) -> Seq<char> {
        match self {
            Model::Kokoro => "Kokoro TTS"@,
            Model::Parakeet => "Parakeet STT"@,
        }
    }

    /// The file whose presence shows that the model is installed.
    pub fn marker_file(&self) -> (r: &'static str)
        ensures
            r@ == self.marker_text(),
    {
        match self {
            Model::Kokoro => "model.onnx",
            Model::Parakeet => "encoder.int8.onnx",
        }
    }

    /// The default name of the model directory.
    pub fn default_directory(&self) -> (r: &'static str)
        ensures
            r@ == self.directory_text(),
    {
        match self {
            Model::Kokoro => "kokoro-multi-lang-v1_0",
            Model::Parakeet => "sherpa-onnx-nemo-parakeet-tdt-0.6b-v3-int8",
        }
    }

    /// The archive that `--auto` installs the model from.
    pub fn archive_url(&self) -> (r: &'static str)
        ensures
            r@ == self.archive_text(),
    {
        match self {
            Model::Kokoro => "https://github.com/eja/s2s/releases/download/models/kokoro-multi-lang-v1_0.tar.bz2",
            Model::Parakeet => "https://github.com/eja/s2s/releases/download/models/sherpa-onnx-nemo-parakeet-tdt-0.6b-v3-int8.tar.bz2",
        }
    }

    /// The name of the model in messages.
    pub fn label(&self) -> (r: &'static str)
        ensures
            r@ == self.label_text(),
    {
        match self {
            Model::Kokoro => "Kokoro TTS",
            Model::Parakeet => "Parakeet STT",
        }
    }
}

/// Every model is installed from the asset of the `models` release of
/// eja/s2s named after its default directory, as a `.tar.bz2` archive; the
/// default directories are `kokoro-multi-lang-v1_0` and
/// `sherpa-onnx-nemo-parakeet-tdt-0.6b-v3-int8`, found by their `model.onnx`
/// and `encoder.int8.onnx` files.
pub proof fn lemma_archive_is_release_asset(model: Model)
    ensures
        model == Model::Kokoro ==> model.directory_text() == "kokoro-multi-lang-v1_0"@
            && model.marker_text() == "model.onnx"@,
        model == Model::Parakeet ==> model.directory_text()
            == "sherpa-onnx-nemo-parakeet-tdt-0.6b-v3-int8"@ && model.marker_text()
            == "encoder.int8.onnx"@,
        model.archive_text() == "https://github.com/eja/s2s/releases/download/models/"@
            + model.directory_text() + ".tar.bz2"@,
{
    reveal_strlit("https://github.com/eja/s2s/releases/download/models/");
    reveal_strlit(".tar.bz2");
    reveal_strlit("kokoro-multi-lang-v1_0");
    reveal_strlit("sherpa-onnx-nemo-parakeet-tdt-0.6b-v3-int8");
    reveal_strlit("https://github.com/eja/s2s/releases/download/models/kokoro-multi-lang-v1_0.tar.bz2");
    reveal_strlit("https://github.com/eja/s2s/releases/download/models/sherpa-onnx-nemo-parakeet-tdt-0.6b-v3-int8.tar.bz2");
    assert(model.archive_text() =~= "https://github.com/eja/s2s/releases/download/models/"@
        + model.directory_text() + ".tar.bz2"@);
}

/// Whether a model should be downloaded: only when it is missing and
/// automatic installation was asked for.
pub fn needs_download(found: bool, auto: bool) -> (r: bool)
    ensures
        r == (!found && auto),
{
    !found && auto
}

/// Whether a model is usable after the install step: it was found, or it was
/// missing, `--auto` was given and the install succeeded.
pub fn model_available(found: bool, auto: bool, installed: bool) -> (r: bool)
    ensures
        r == (found || (auto && installed)),
{
    if needs_download(found, auto) {
        installed
    } else {
        found
    }
}

/// Whether the server may run: at least one of the two services is present.
pub fn can_serve(has_tts: bool, has_stt: bool) -> (r: bool)
    ensures
        r == (has_tts || has_stt),
{
    has_tts || has_stt
}

/// Calls `reqwest::StatusCode::is_success` on the status with this number.
/// Claimed: the status is a success exactly when its number lies in
/// 200..=299, as the `http` crate's source computes it.
#[verifier::external_body]
fn status_is_success(code: u16) -> (r: bool)
    requires
        100 <= code <= 999,
    ensures
        r == (200 <= code <= 299),
{
    match reqwest::StatusCode::from_u16(code) {
        Ok(status) => status.is_success(),
        Err(_) => false,
    }
}

/// Whether a download answered with this HTTP status may be unpacked: only a
/// success status (a number outside 100..=999 is no status at all).
pub fn download_status_ok(code: u16) -> (r: bool)
    ensures
        r == (200 <= code <= 299),
{
    if 100 <= code && code <= 999 {
        status_is_success(code)
    } else {
        false
    }
}

} // verus!
