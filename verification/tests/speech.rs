use s2s::refusal::Refusal;
use s2s::speech::{
    default_voice, language_for_voice, plan_speech, synthesis_outcome, EngineCache, Language,
    SpeechRequest,
};
use s2s::voices::VoiceTable;

fn request(voice: Option<&str>) -> SpeechRequest {
    SpeechRequest { input: "Hello".to_string(), voice: voice.map(|v| v.to_string()) }
}

#[test]
fn language_follows_voice_prefix() {
    let cases = [
        ("af_alloy", Language::AmericanEnglish, "en-us"),
        ("am_adam", Language::AmericanEnglish, "en-us"),
        ("bf_alice", Language::BritishEnglish, "en-gb"),
        ("bm_daniel", Language::BritishEnglish, "en-gb"),
        ("ef_dora", Language::Spanish, "es"),
        ("ff_siwis", Language::French, "fr"),
        ("hf_alpha", Language::Hindi, "hi"),
        ("im_nicola", Language::Italian, "it"),
        ("jf_alpha", Language::Japanese, "ja"),
        ("pm_santa", Language::BrazilianPortuguese, "pt-br"),
        ("zf_xiaobei", Language::Chinese, "zh"),
        ("xx_other", Language::AmericanEnglish, "en-us"),
        ("", Language::AmericanEnglish, "en-us"),
    ];
    for (voice, lang, code) in cases {
        let l = language_for_voice(voice);
        assert_eq!(l, lang, "voice {}", voice);
        assert_eq!(l.code(), code);
    }
}

#[test]
fn lexicon_files_per_language() {
    assert_eq!(Language::AmericanEnglish.lexicon_file(), Some("lexicon-us-en.txt"));
    assert_eq!(Language::BritishEnglish.lexicon_file(), Some("lexicon-gb-en.txt"));
    assert_eq!(Language::Chinese.lexicon_file(), Some("lexicon-zh.txt"));
    assert_eq!(Language::Spanish.lexicon_file(), None);
    assert_eq!(Language::Japanese.lexicon_file(), None);
}

#[test]
fn language_slots_are_distinct() {
    let all = [
        Language::AmericanEnglish,
        Language::BritishEnglish,
        Language::Spanish,
        Language::French,
        Language::Hindi,
        Language::Italian,
        Language::Japanese,
        Language::BrazilianPortuguese,
        Language::Chinese,
    ];
    let mut seen: Vec<usize> = all.iter().map(|l| l.slot()).collect();
    seen.sort();
    seen.dedup();
    assert_eq!(seen.len(), 9);
}

#[test]
fn speech_refused_without_tts_model() {
    let table = VoiceTable::kokoro();
    let r = plan_speech(false, &table, &request(Some("af_bella")));
    assert!(matches!(r, Err(Refusal::TextToSpeechUnavailable)));
    assert_eq!(Refusal::TextToSpeechUnavailable.status(), 404);
    assert_eq!(Refusal::TextToSpeechUnavailable.message(), "TTS service is not available");
}

#[test]
fn speech_without_voice_uses_default() {
    assert_eq!(default_voice(), "af_alloy");
    let table = VoiceTable::kokoro();
    let plan = plan_speech(true, &table, &request(None)).ok().unwrap();
    assert_eq!(plan.voice, "af_alloy");
    assert_eq!(plan.speaker, 0);
    assert_eq!(plan.language, Language::AmericanEnglish);
}

#[test]
fn speech_with_named_voice() {
    let table = VoiceTable::kokoro();
    let plan = plan_speech(true, &table, &request(Some("zm_yunxi"))).ok().unwrap();
    assert_eq!(plan.voice, "zm_yunxi");
    assert_eq!(plan.speaker, 50);
    assert_eq!(plan.language, Language::Chinese);
    let plan = plan_speech(true, &table, &request(Some("bf_emma"))).ok().unwrap();
    assert_eq!(plan.speaker, 21);
    assert_eq!(plan.language, Language::BritishEnglish);
}

#[test]
fn speech_with_unknown_voice() {
    let table = VoiceTable::kokoro();
    let plan = plan_speech(true, &table, &request(Some("jx_unknown"))).ok().unwrap();
    assert_eq!(plan.voice, "jx_unknown");
    assert_eq!(plan.speaker, 0);
    assert_eq!(plan.language, Language::Japanese);
}

#[test]
fn engine_cache_keeps_loaded_engines() {
    let mut cache: EngineCache<u32> = EngineCache::new();
    assert!(!cache.is_loaded(Language::French));
    assert!(matches!(cache.engine(Language::French), Err(Refusal::EngineUnavailable)));
    cache.install(Language::French, None);
    assert!(!cache.is_loaded(Language::French));
    cache.install(Language::French, Some(7));
    assert!(cache.is_loaded(Language::French));
    assert_eq!(*cache.engine(Language::French).ok().unwrap(), 7);
    assert!(!cache.is_loaded(Language::Spanish));
    cache.install(Language::French, None);
    assert_eq!(*cache.engine(Language::French).ok().unwrap(), 7);
    cache.install(Language::Chinese, Some(9));
    assert_eq!(*cache.engine(Language::Chinese).ok().unwrap(), 9);
    assert_eq!(*cache.engine(Language::French).ok().unwrap(), 7);
}

#[test]
fn engine_refusal_is_server_error() {
    assert_eq!(Refusal::EngineUnavailable.status(), 500);
    assert_eq!(Refusal::EngineUnavailable.message(), "Engine failed to load");
}

#[test]
fn synthesis_outcome_refuses_missing_audio() {
    assert_eq!(synthesis_outcome(Some(3u8)), Ok(3u8));
    let r: Result<u8, Refusal> = synthesis_outcome(None);
    assert_eq!(r, Err(Refusal::SynthesisFailed));
    assert_eq!(Refusal::SynthesisFailed.status(), 500);
    assert_eq!(Refusal::SynthesisFailed.message(), "TTS Generation failed");
}
