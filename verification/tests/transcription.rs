use s2s::audio::{int_frames, mixes_down, speech_wav_format, SampleKind, WavFormat};
use s2s::refusal::Refusal;
use s2s::transcription::{is_audio_field, next_audio, open_upload, require_recognizer, transcript_text};

fn wav(channels: u16, sample_rate: u32, samples: &[i16]) -> Vec<u8> {
    let spec = hound::WavSpec {
        channels,
        sample_rate,
        bits_per_sample: 16,
        sample_format: hound::SampleFormat::Int,
    };
    let mut buf = std::io::Cursor::new(Vec::new());
    let mut writer = hound::WavWriter::new(&mut buf, spec).unwrap();
    for &s in samples {
        writer.write_sample(s).unwrap();
    }
    writer.finalize().unwrap();
    buf.into_inner()
}

#[test]
fn transcription_refused_without_recognizer() {
    assert_eq!(require_recognizer(false), Err(Refusal::SpeechToTextUnavailable));
    assert_eq!(require_recognizer(true), Ok(()));
    assert_eq!(Refusal::SpeechToTextUnavailable.status(), 404);
    assert_eq!(Refusal::SpeechToTextUnavailable.message(), "STT service is not available");
}

#[test]
fn only_the_file_field_carries_audio() {
    assert!(is_audio_field(Some("file")));
    assert!(!is_audio_field(Some("files")));
    assert!(!is_audio_field(Some("model")));
    assert!(!is_audio_field(Some("")));
    assert!(!is_audio_field(None));
}

#[test]
fn empty_upload_is_missing_file() {
    let r = open_upload(Vec::new());
    assert!(matches!(r, Err(Refusal::MissingAudioFile)));
    assert_eq!(Refusal::MissingAudioFile.status(), 400);
    assert_eq!(Refusal::MissingAudioFile.message(), "No file");
}

#[test]
fn garbage_upload_is_invalid_wav() {
    let r = open_upload(b"this is not a wave file".to_vec());
    assert!(matches!(r, Err(Refusal::InvalidWav)));
    assert_eq!(Refusal::InvalidWav.status(), 400);
    assert_eq!(Refusal::InvalidWav.message(), "Invalid WAV");
}

#[test]
fn wave_upload_reports_its_format() {
    let bytes = wav(2, 16000, &[1, -1, 2, -2]);
    let upload = open_upload(bytes).ok().unwrap();
    assert_eq!(
        upload.format,
        WavFormat { channels: 2, sample_rate: 16000, bits_per_sample: 16, sample_kind: SampleKind::Int }
    );
    assert!(mixes_down(&upload.format));
    assert_eq!(upload.int_frames, Some(vec![vec![1, -1], vec![2, -2]]));
}

#[test]
fn mono_upload_is_not_mixed() {
    let upload = open_upload(wav(1, 22050, &[5, 6])).ok().unwrap();
    assert_eq!(upload.format.channels, 1);
    assert_eq!(upload.format.sample_rate, 22050);
    assert!(!mixes_down(&upload.format));
    assert_eq!(upload.int_frames, Some(vec![vec![5], vec![6]]));
}

#[test]
fn truncated_wave_is_invalid() {
    let mut bytes = wav(1, 16000, &[1, 2, 3]);
    bytes.truncate(20);
    assert!(matches!(open_upload(bytes), Err(Refusal::InvalidWav)));
}

#[test]
fn transcript_defaults_to_empty() {
    assert_eq!(transcript_text(Some("hello world".to_string())), "hello world");
    assert_eq!(transcript_text(None), "");
}

#[test]
fn speech_is_sent_as_mono_float() {
    let f = speech_wav_format(24000);
    assert_eq!(
        f,
        WavFormat { channels: 1, sample_rate: 24000, bits_per_sample: 32, sample_kind: SampleKind::Float }
    );
    assert_eq!(speech_wav_format(-1).sample_rate, u32::MAX);
}

#[test]
fn last_readable_file_field_wins() {
    let kept = next_audio(Vec::new(), true, Some(vec![1, 2]));
    assert_eq!(kept, vec![1, 2]);
    let kept = next_audio(kept, false, Some(vec![9]));
    assert_eq!(kept, vec![1, 2]);
    let kept = next_audio(kept, true, None);
    assert_eq!(kept, vec![1, 2]);
    let kept = next_audio(kept, true, Some(vec![3]));
    assert_eq!(kept, vec![3]);
}

#[test]
fn float_wave_upload_reports_float_format() {
    let spec = hound::WavSpec { channels: 1, sample_rate: 8000, bits_per_sample: 32, sample_format: hound::SampleFormat::Float };
    let mut buf = std::io::Cursor::new(Vec::new());
    let mut writer = hound::WavWriter::new(&mut buf, spec).unwrap();
    writer.write_sample(0.5f32).unwrap();
    writer.finalize().unwrap();
    let upload = open_upload(buf.into_inner()).ok().unwrap();
    assert_eq!(
        upload.format,
        WavFormat { channels: 1, sample_rate: 8000, bits_per_sample: 32, sample_kind: SampleKind::Float }
    );
    assert!(upload.int_frames.is_none());
}

#[test]
fn frames_drop_a_short_tail_and_zero_unread_samples() {
    let samples = vec![Some(1), None, Some(3), Some(4), Some(5)];
    assert_eq!(int_frames(&samples, 2), vec![vec![1, 0], vec![3, 4]]);
    assert_eq!(int_frames(&samples, 1), vec![vec![1], vec![0], vec![3], vec![4], vec![5]]);
    assert_eq!(int_frames(&samples, 3), vec![vec![1, 0, 3]]);
    assert_eq!(int_frames(&Vec::new(), 2), Vec::<Vec<i32>>::new());
}
