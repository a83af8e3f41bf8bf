use s2s::startup::{can_serve, download_status_ok, model_available, needs_download, Model};

#[test]
fn download_only_missing_models_with_auto() {
    assert!(needs_download(false, true));
    assert!(!needs_download(true, true));
    assert!(!needs_download(false, false));
    assert!(!needs_download(true, false));
}

#[test]
fn model_availability_after_install() {
    assert!(model_available(true, false, false));
    assert!(model_available(true, true, false));
    assert!(model_available(false, true, true));
    assert!(!model_available(false, true, false));
    assert!(!model_available(false, false, true));
}

#[test]
fn server_runs_with_at_least_one_model() {
    assert!(can_serve(true, true));
    assert!(can_serve(true, false));
    assert!(can_serve(false, true));
    assert!(!can_serve(false, false));
}

#[test]
fn download_needs_success_status() {
    assert!(download_status_ok(200));
    assert!(download_status_ok(204));
    assert!(download_status_ok(299));
    assert!(!download_status_ok(199));
    assert!(!download_status_ok(300));
    assert!(!download_status_ok(404));
    assert!(!download_status_ok(500));
    assert!(!download_status_ok(99));
    assert!(!download_status_ok(1000));
}

#[test]
fn model_files_and_sources() {
    assert_eq!(Model::Kokoro.marker_file(), "model.onnx");
    assert_eq!(Model::Parakeet.marker_file(), "encoder.int8.onnx");
    assert_eq!(Model::Kokoro.default_directory(), "kokoro-multi-lang-v1_0");
    assert_eq!(Model::Parakeet.default_directory(), "sherpa-onnx-nemo-parakeet-tdt-0.6b-v3-int8");
    assert_eq!(Model::Kokoro.label(), "Kokoro TTS");
    assert_eq!(Model::Parakeet.label(), "Parakeet STT");
    assert!(Model::Kokoro.archive_url().ends_with("/kokoro-multi-lang-v1_0.tar.bz2"));
    assert!(Model::Parakeet.archive_url().ends_with("/sherpa-onnx-nemo-parakeet-tdt-0.6b-v3-int8.tar.bz2"));
}
