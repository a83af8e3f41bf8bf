//! Text-to-speech requests: the language of a voice, the plan of a request,
//! and the per-language engine cache.

use vstd::prelude::*;
use crate::refusal::Refusal;
use crate::voices::{
    kokoro_voice_names, lemma_kokoro_speaker_ids, speaker_ids, speaker_of, VoiceTable,
};

verus! {

/// The languages of the Kokoro model, one engine each.
#[derive(Clone, Copy, Debug, PartialEq, Eq, Structural)]
pub enum Language {
    AmericanEnglish,
    BritishEnglish,
    Spanish,
    French,
    Hindi,
    Italian,
    Japanese,
    BrazilianPortuguese,
    Chinese,
}

/// The language of a voice, told by the first letter of its name; American
/// English where the letter is not one of the known prefixes.
pub open spec fn language_of(voice: Seq<char>) -> Language {
    if voice.len() == 0 {
        Language::AmericanEnglish
    } else if voice[0] == 'a' {
        Language::AmericanEnglish
    } else if voice[0] == 'b' {
        Language::BritishEnglish
    } else if voice[0] == 'e' {
        Language::Spanish
    } else if voice[0] == 'f' {
        Language::French
    } else if voice[0] == 'h' {
        Language::Hindi
    } else if voice[0] == 'i' {
        Language::Italian
    } else if voice[0] == 'j' {
        Language::Japanese
    } else if voice[0] == 'p' {
        Language::BrazilianPortuguese
    } else if voice[0] == 'z' {
        Language::Chinese
    } else {
        Language::AmericanEnglish
    }
}

/// The language whose engine speaks with `voice`.
pub fn language_for_voice(voice: &str) -> (r: Language)
    ensures
        r == language_of(voice@),
{
    if voice.unicode_len() == 0 {
        return Language::AmericanEnglish;
    }
    let c = voice.get_char(0);
    if c == 'a' {
        Language::AmericanEnglish
    } else if c == 'b' {
        Language::BritishEnglish
    } else if c == 'e' {
        Language::Spanish
    } else if c == 'f' {
        Language::French
    } else if c == 'h' {
        Language::Hindi
    } else if c == 'i' {
        Language::Italian
    } else if c == 'j' {
        Language::Japanese
    } else if c == 'p' {
        Language::BrazilianPortuguese
    } else if c == 'z' {
        Language::Chinese
    } else {
        Language::AmericanEnglish
    }
}

/// The language of a voice depends on its first character alone, through the
/// README's prefix table: `a` American English, `b` British English, `e`
/// Spanish, `f` French, `h` Hindi, `i` Italian, `j` Japanese, `p` Brazilian
/// Portuguese, `z` Chinese; any other first character, or an empty name,
/// gives American English.
pub proof fn lemma_language_by_first_letter(voice: Seq<char>, other: Seq<char>)
    ensures
        voice.len() > 0 && other.len() > 0 && voice[0] == other[0] ==> language_of(voice)
            == language_of(other),
        voice.len() == 0 ==> language_of(voice) == Language::AmericanEnglish,
        voice.len() > 0 && voice[0] == 'a' ==> language_of(voice) == Language::AmericanEnglish,
        voice.len() > 0 && voice[0] == 'b' ==> language_of(voice) == Language::BritishEnglish,
        voice.len() > 0 && voice[0] == 'e' ==> language_of(voice) == Language::Spanish,
        voice.len() > 0 && voice[0] == 'f' ==> language_of(voice) == Language::French,
        voice.len() > 0 && voice[0] == 'h' ==> language_of(voice) == Language::Hindi,
        voice.len() > 0 && voice[0] == 'i' ==> language_of(voice) == Language::Italian,
        voice.len() > 0 && voice[0] == 'j' ==> language_of(voice) == Language::Japanese,
        voice.len() > 0 && voice[0] == 'p' ==> language_of(voice)
            == Language::BrazilianPortuguese,
        voice.len() > 0 && voice[0] == 'z' ==> language_of(voice) == Language::Chinese,
        voice.len() > 0 && voice[0] != 'a' && voice[0] != 'b' && voice[0] != 'e' && voice[0]
            != 'f' && voice[0] != 'h' && voice[0] != 'i' && voice[0] != 'j' && voice[0] != 'p'
            && voice[0] != 'z' ==> language_of(voice) == Language::AmericanEnglish,
{
}

/// Each language is configured with its own code: `en-us`, `en-gb`, `es`,
/// `fr`, `hi`, `it`, `ja`, `pt-br`, `zh`; and only the two English languages
/// and Chinese have a lexicon file (`lexicon-us-en.txt`, `lexicon-gb-en.txt`,
/// `lexicon-zh.txt`), every other language none.
pub proof fn lemma_language_configuration(lang: Language)
    ensures
        lang == Language::AmericanEnglish ==> lang.code_text() == "en-us"@ && lang.lexicon_text()
            == Some("lexicon-us-en.txt"@),
        lang == Language::BritishEnglish ==> lang.code_text() == "en-gb"@ && lang.lexicon_text()
            == Some("lexicon-gb-en.txt"@),
        lang == Language::Spanish ==> lang.code_text() == "es"@,
        lang == Language::French ==> lang.code_text() == "fr"@,
        lang == Language::Hindi ==> lang.code_text() == "hi"@,
        lang == Language::Italian ==> lang.code_text() == "it"@,
        lang == Language::Japanese ==> lang.code_text() == "ja"@,
        lang == Language::BrazilianPortuguese ==> lang.code_text() == "pt-br"@,
        lang == Language::Chinese ==> lang.code_text() == "zh"@ && lang.lexicon_text() == Some(
            "lexicon-zh.txt"@,
        ),
        lang.lexicon_text() is Some <==> (lang == Language::AmericanEnglish || lang
            == Language::BritishEnglish || lang == Language::Chinese),
{
}

/// Number of languages, and so of engine slots.
pub const LANGUAGE_COUNT: usize = 9;

impl Language {
    /// The language code that the engine is configured with.
    pub open spec fn code_text(self) -> Seq<char> {
        match self {
            Language::AmericanEnglish => "en-us"@,
            Language::BritishEnglish => "en-gb"@,
            Language::Spanish => "es"@,
            Language::French => "fr"@,
            Language::Hindi => "hi"@,
            Language::Italian => "it"@,
            Language::Japanese => "ja"@,
            Language::BrazilianPortuguese => "pt-br"@,
            Language::Chinese => "zh"@,
        }
    }

    /// The lexicon file of the language in the model directory, if it has one.
    pub open spec fn lexicon_text(self) -> Option<Seq<char>> {
        match self {
            Language::AmericanEnglish => Some("lexicon-us-en.txt"@),
            Language::BritishEnglish => Some("lexicon-gb-en.txt"@),
            Language::Chinese => Some("lexicon-zh.txt"@),
            _ => None,
        }
    }

    /// The engine slot of the language.
    pub open spec fn slot_index(self) -> nat {
        match self {
            Language::AmericanEnglish => 0,
            Language::BritishEnglish => 1,
            Language::Spanish => 2,
            Language::French => 3,
            Language::Hindi => 4,
            Language::Italian => 5,
            Language::Japanese => 6,
            Language::BrazilianPortuguese => 7,
            Language::Chinese => 8,
        }
    }

    /// The language code that the engine is configured with.
    pub fn code(&self) -> (r: &'static str)
        ensures
            r@ == self.code_text(),
    {
        match self {
            Language::AmericanEnglish => "en-us",
            Language::BritishEnglish => "en-gb",
            Language::Spanish => "es",
            Language::French => "fr",
            Language::Hindi => "hi",
            Language::Italian => "it",
            Language::Japanese => "ja",
            Language::BrazilianPortuguese => "pt-br",
            Language::Chinese => "zh",
        }
    }

    /// The lexicon file of the language in the model directory, if it has one.
    pub fn lexicon_file(&self) -> (r: Option<&'static str>)
        ensures
            match r {
                Some(f) => self.lexicon_text() == Some(f@),
                None => self.lexicon_text() is None,
            },
    {
        match self {
            Language::AmericanEnglish => Some("lexicon-us-en.txt"),
            Language::BritishEnglish => Some("lexicon-gb-en.txt"),
            Language::Chinese => Some("lexicon-zh.txt"),
            _ => None,
        }
    }

    /// The engine slot of the language.
    pub fn slot(&self) -> (r: usize)
        ensures
            r == self.slot_index(),
            r < LANGUAGE_COUNT,
    {
        match self {
            Language::AmericanEnglish => 0,
            Language::BritishEnglish => 1,
            Language::Spanish => 2,
            Language::French => 3,
            Language::Hindi => 4,
            Language::Italian => 5,
            Language::Japanese => 6,
            Language::BrazilianPortuguese => 7,
            Language::Chinese => 8,
        }
    }
}

/// Distinct languages have distinct engine slots.
pub proof fn lemma_slot_index_injective(a: Language, b: Language)
    ensures
        a.slot_index() == b.slot_index() ==> a == b,
{
}

/// A text-to-speech request: the text, and the voice if one was named.
pub struct SpeechRequest {
    pub input: String,
    pub voice: Option<String>,
}

/// What a text-to-speech request is served with.
pub struct SpeechPlan {
    /// The voice that speaks.
    pub voice: String,
    /// The speaker id of the voice in the model.
    pub speaker: i32,
    /// The language whose engine speaks.
    pub language: Language,
}

/// The voice used where a request names none.
pub open spec fn default_voice_text() -> Seq<char> {
    "af_alloy"@
}

/// The voice of a request: the one it names, else the default voice.
pub open spec fn requested_voice(voice: Option<String>) -> Seq<char> {
    match voice {
        Some(v) => v@,
        None => default_voice_text(),
    }
}

/// The voice used where a request names none.
pub fn default_voice() -> (r: String)
    ensures
        r@ == default_voice_text(),
{
    String::from_str("af_alloy")
}

/// Plans a text-to-speech request: refused when no text-to-speech model is
/// present; otherwise the voice is the requested one or the default, the
/// speaker is that voice's id in the table (0 for a voice it lacks), and the
/// language follows the voice's first letter.
pub fn plan_speech(tts_available: bool, voices: &VoiceTable, request: &SpeechRequest) -> (r:
    Result<SpeechPlan, Refusal>)
    ensures
        !tts_available ==> r == Err::<SpeechPlan, Refusal>(Refusal::TextToSpeechUnavailable),
        tts_available ==> match r {
            Ok(plan) => {
                &&& plan.voice@ == requested_voice(request.voice)
                &&& plan.speaker == speaker_of(voices@, plan.voice@)
                &&& plan.language == language_of(plan.voice@)
            },
            Err(_) => false,
        },
{
    if !tts_available {
        return Err(Refusal::TextToSpeechUnavailable);
    }
    let voice = match &request.voice {
        Some(v) => v.clone(),
        None => default_voice(),
    };
    let speaker = voices.speaker_id(voice.as_str());
    let language = language_for_voice(voice.as_str());
    Ok(SpeechPlan { voice, speaker, language })
}

/// With the Kokoro table, a voice that the catalogue lacks speaks with the
/// speaker of the default voice.
pub proof fn lemma_unknown_voice_speaks_as_default(voice: Seq<char>)
    requires
        !kokoro_voice_names().contains(voice),
    ensures
        speaker_of(speaker_ids(kokoro_voice_names()), voice) == speaker_of(
            speaker_ids(kokoro_voice_names()),
            default_voice_text(),
        ),
{
    lemma_kokoro_speaker_ids(0);
    assert(kokoro_voice_names()[0] == default_voice_text());
}

/// The outcome of a synthesis: the audio, or a refusal where the engine
/// produced none.
pub fn synthesis_outcome<A>(audio: Option<A>) -> (r: Result<A, Refusal>)
    ensures
        match audio {
            Some(a) => r == Ok::<A, Refusal>(a),
            None => r == Err::<A, Refusal>(Refusal::SynthesisFailed),
        },
{
    match audio {
        Some(a) => Ok(a),
        None => Err(Refusal::SynthesisFailed),
    }
}

/// The content of engine slot `i`; slots past the end are empty.
spec fn slot_value<E>(slots: Seq<Option<E>>, i: nat) -> Option<E> {
    if i < slots.len() {
        slots[i as int]
    } else {
        None
    }
}

/// The speech engines loaded so far, at most one per language.
pub struct EngineCache<E> {
    slots: Vec<Option<E>>,
}

impl<E> EngineCache<E> {
    /// The engine loaded for `lang`, if any.
    pub closed spec fn loaded(&self, lang: Language) -> Option<E> {
        slot_value(self.slots@, lang.slot_index())
    }

    /// A cache with no engine loaded.
    pub fn new() -> (r: Self)
        ensures
            forall|lang: Language| #[trigger] r.loaded(lang) is None,
    {
        let mut slots: Vec<Option<E>> = Vec::new();
        let mut i: usize = 0;
        while i < LANGUAGE_COUNT
            invariant
                i <= LANGUAGE_COUNT,
                slots.len() == i,
                forall|j: int| 0 <= j < i ==> slots@[j] is None,
            decreases LANGUAGE_COUNT - i,
        {
            slots.push(None);
            i = i + 1;
        }
        EngineCache { slots }
    }

    /// Whether an engine is loaded for `lang`.
    pub fn is_loaded(&self, lang: Language) -> (r: bool)
        ensures
            r == self.loaded(lang) is Some,
    {
        let idx = lang.slot();
        if idx < self.slots.len() {
            match &self.slots[idx] {
                Some(_) => true,
                None => false,
            }
        } else {
            false
        }
    }

    /// Records the outcome of loading an engine for `lang`: a loaded engine
    /// is kept; a failed load leaves the cache as it was.
    pub fn install(&mut self, lang: Language, engine: Option<E>)
        ensures
            final(self).loaded(lang) == (if engine is Some {
                engine
            } else {
                old(self).loaded(lang)
            }),
            forall|other: Language|
                other != lang ==> #[trigger] final(self).loaded(other) == old(self).loaded(other),
    {
        let idx = lang.slot();
        let ghost start = self.slots@;
        while self.slots.len() <= idx
            invariant
                idx == lang.slot_index(),
                forall|i: nat| #[trigger] slot_value(self.slots@, i) == slot_value(start, i),
            decreases idx + 1 - self.slots.len(),
        {
            let ghost before = self.slots@;
            self.slots.push(None);
            proof {
                assert forall|i: nat| #[trigger] slot_value(self.slots@, i) == slot_value(start, i) by {
                    assert(slot_value(before, i) == slot_value(start, i));
                    if i < before.len() {
                        assert(self.slots@[i as int] == before[i as int]);
                    }
                }
            }
        }
        let ghost mid = self.slots@;
        match engine {
            Some(e) => {
                self.slots.set(idx, Some(e));
                proof {
                    assert forall|other: Language| other != lang implies #[trigger] self.loaded(
                        other,
                    ) == old(self).loaded(other) by {
                        lemma_slot_index_injective(other, lang);
                        assert(slot_value(mid, other.slot_index()) == slot_value(start, other.slot_index()));
                    }
                }
            },
            None => {
                proof {
                    assert forall|other: Language| #[trigger] self.loaded(other) == old(self).loaded(other) by {
                        assert(slot_value(mid, other.slot_index()) == slot_value(start, other.slot_index()));
                    }
                }
            },
        }
    }

    /// The engine loaded for `lang`, or a refusal where none is.
    pub fn engine(&self, lang: Language) -> (r: Result<&E, Refusal>)
        ensures
            match r {
                Ok(e) => self.loaded(lang) == Some(*e),
                Err(x) => self.loaded(lang) is None && x == Refusal::EngineUnavailable,
            },
    {
        let idx = lang.slot();
        if idx < self.slots.len() {
            match &self.slots[idx] {
                Some(e) => Ok(e),
                None => Err(Refusal::EngineUnavailable),
            }
        } else {
            Err(Refusal::EngineUnavailable)
        }
    }
}

} // verus!
