//! The Kokoro voice catalogue, the table from voice name to speaker id, and
//! the alphabetical voice listing.

use vstd::prelude::*;
use crate::text::{
    distinct_texts, lemma_ascending_unique, lemma_lex_irreflexive, lemma_lex_transitive,
    lemma_texts_of_sorted, lex_lt, find_text, holds_text, lemma_holds_text_push, sorted_distinct,
    strictly_sorted, texts,
};

verus! {

/// The voices of the Kokoro multi-language model, in the order of their
/// speaker ids.
pub open spec fn kokoro_voice_names() -> Seq<Seq<char>> {
    seq![
        "af_alloy"@, "af_aoede"@, "af_bella"@, "af_heart"@, "af_jessica"@, "af_kore"@,
        "af_nicole"@, "af_nova"@, "af_river"@, "af_sarah"@, "af_sky"@, "am_adam"@,
        "am_echo"@, "am_eric"@, "am_fenrir"@, "am_liam"@, "am_michael"@, "am_onyx"@,
        "am_puck"@, "am_santa"@, "bf_alice"@, "bf_emma"@, "bf_isabella"@, "bf_lily"@,
        "bm_daniel"@, "bm_fable"@, "bm_george"@, "bm_lewis"@, "ef_dora"@, "em_alex"@,
        "ff_siwis"@, "hf_alpha"@, "hf_beta"@, "hm_omega"@, "hm_psi"@, "if_sara"@,
        "im_nicola"@, "jf_alpha"@, "jf_gongitsune"@, "jf_nezumi"@, "jf_tebukuro"@,
        "jm_kumo"@, "pf_dora"@, "pm_alex"@, "pm_santa"@, "zf_xiaobei"@, "zf_xiaoni"@,
        "zf_xiaoxiao"@, "zf_xiaoyi"@, "zm_yunjian"@, "zm_yunxi"@, "zm_yunxia"@,
        "zm_yunyang"@,
    ]
}

/// The Kokoro voice names, in the order of their speaker ids.
pub fn kokoro_voices() -> (r: Vec<String>)
    ensures
        texts(r@) == kokoro_voice_names(),
{
    let names: Vec<&str> = vec![
        "af_alloy", "af_aoede", "af_bella", "af_heart", "af_jessica", "af_kore",
        "af_nicole", "af_nova", "af_river", "af_sarah", "af_sky", "am_adam",
        "am_echo", "am_eric", "am_fenrir", "am_liam", "am_michael", "am_onyx",
        "am_puck", "am_santa", "bf_alice", "bf_emma", "bf_isabella", "bf_lily",
        "bm_daniel", "bm_fable", "bm_george", "bm_lewis", "ef_dora", "em_alex",
        "ff_siwis", "hf_alpha", "hf_beta", "hm_omega", "hm_psi", "if_sara",
        "im_nicola", "jf_alpha", "jf_gongitsune", "jf_nezumi", "jf_tebukuro",
        "jm_kumo", "pf_dora", "pm_alex", "pm_santa", "zf_xiaobei", "zf_xiaoni",
        "zf_xiaoxiao", "zf_xiaoyi", "zm_yunjian", "zm_yunxi", "zm_yunxia",
        "zm_yunyang",
    ];
    assert(Seq::new(names@.len(), |i: int| names@[i]@) =~= kokoro_voice_names());
    let mut out: Vec<String> = Vec::new();
    for i in 0..names.len()
        invariant
            Seq::new(names@.len(), |j: int| names@[j]@) == kokoro_voice_names(),
            out@.len() == i,
            forall|j: int| 0 <= j < i ==> out@[j]@ == names@[j]@,
    {
        out.push(String::from_str(names[i]));
    }
    assert(texts(out@) =~= kokoro_voice_names());
    out
}

/// Consecutive strings are in increasing order, so all are.
pub proof fn lemma_chain_sorted(v: Seq<Seq<char>>)
    requires
        forall|i: int| 0 <= i < v.len() - 1 ==> lex_lt(#[trigger] v[i], v[i + 1]),
    ensures
        forall|p: int, q: int| 0 <= p < q < v.len() ==> lex_lt(v[p], v[q]),
    decreases v.len(),
{
    if v.len() > 1 {
        let rest = v.drop_last();
        assert forall|i: int| 0 <= i < rest.len() - 1 implies lex_lt(#[trigger] rest[i], rest[i + 1]) by {
            assert(rest[i] == v[i] && rest[i + 1] == v[i + 1]);
        }
        lemma_chain_sorted(rest);
        assert forall|p: int, q: int| 0 <= p < q < v.len() implies lex_lt(v[p], v[q]) by {
            if q < v.len() - 1 {
                assert(rest[p] == v[p] && rest[q] == v[q]);
            } else if p < q - 1 {
                assert(rest[p] == v[p] && rest[q - 1] == v[q - 1]);
                lemma_lex_transitive(v[p], v[q - 1], v[q]);
            }
        }
    }
}

/// The Kokoro voices are listed in strictly increasing order.
pub proof fn lemma_kokoro_voices_sorted()
    ensures
        forall|p: int, q: int|
            0 <= p < q < kokoro_voice_names().len() ==> lex_lt(
                kokoro_voice_names()[p],
                kokoro_voice_names()[q],
            ),
{
        reveal_strlit("af_alloy");
        reveal_strlit("af_aoede");
        reveal_strlit("af_bella");
        reveal_strlit("af_heart");
        reveal_strlit("af_jessica");
        reveal_strlit("af_kore");
        reveal_strlit("af_nicole");
        reveal_strlit("af_nova");
        reveal_strlit("af_river");
        reveal_strlit("af_sarah");
        reveal_strlit("af_sky");
        reveal_strlit("am_adam");
        reveal_strlit("am_echo");
        reveal_strlit("am_eric");
        reveal_strlit("am_fenrir");
        reveal_strlit("am_liam");
        reveal_strlit("am_michael");
        reveal_strlit("am_onyx");
        reveal_strlit("am_puck");
        reveal_strlit("am_santa");
        reveal_strlit("bf_alice");
        reveal_strlit("bf_emma");
        reveal_strlit("bf_isabella");
        reveal_strlit("bf_lily");
        reveal_strlit("bm_daniel");
        reveal_strlit("bm_fable");
        reveal_strlit("bm_george");
        reveal_strlit("bm_lewis");
        reveal_strlit("ef_dora");
        reveal_strlit("em_alex");
        reveal_strlit("ff_siwis");
        reveal_strlit("hf_alpha");
        reveal_strlit("hf_beta");
        reveal_strlit("hm_omega");
        reveal_strlit("hm_psi");
        reveal_strlit("if_sara");
        reveal_strlit("im_nicola");
        reveal_strlit("jf_alpha");
        reveal_strlit("jf_gongitsune");
        reveal_strlit("jf_nezumi");
        reveal_strlit("jf_tebukuro");
        reveal_strlit("jm_kumo");
        reveal_strlit("pf_dora");
        reveal_strlit("pm_alex");
        reveal_strlit("pm_santa");
        reveal_strlit("zf_xiaobei");
        reveal_strlit("zf_xiaoni");
        reveal_strlit("zf_xiaoxiao");
        reveal_strlit("zf_xiaoyi");
        reveal_strlit("zm_yunjian");
        reveal_strlit("zm_yunxi");
        reveal_strlit("zm_yunxia");
        reveal_strlit("zm_yunyang");
        reveal_with_fuel(lex_lt, 12);
    let v = kokoro_voice_names();
        assert(lex_lt(v[0], v[1]));
        assert(lex_lt(v[1], v[2]));
        assert(lex_lt(v[2], v[3]));
        assert(lex_lt(v[3], v[4]));
        assert(lex_lt(v[4], v[5]));
        assert(lex_lt(v[5], v[6]));
        assert(lex_lt(v[6], v[7]));
        assert(lex_lt(v[7], v[8]));
        assert(lex_lt(v[8], v[9]));
        assert(lex_lt(v[9], v[10]));
        assert(lex_lt(v[10], v[11]));
        assert(lex_lt(v[11], v[12]));
        assert(lex_lt(v[12], v[13]));
        assert(lex_lt(v[13], v[14]));
        assert(lex_lt(v[14], v[15]));
        assert(lex_lt(v[15], v[16]));
        assert(lex_lt(v[16], v[17]));
        assert(lex_lt(v[17], v[18]));
        assert(lex_lt(v[18], v[19]));
        assert(lex_lt(v[19], v[20]));
        assert(lex_lt(v[20], v[21]));
        assert(lex_lt(v[21], v[22]));
        assert(lex_lt(v[22], v[23]));
        assert(lex_lt(v[23], v[24]));
        assert(lex_lt(v[24], v[25]));
        assert(lex_lt(v[25], v[26]));
        assert(lex_lt(v[26], v[27]));
        assert(lex_lt(v[27], v[28]));
        assert(lex_lt(v[28], v[29]));
        assert(lex_lt(v[29], v[30]));
        assert(lex_lt(v[30], v[31]));
        assert(lex_lt(v[31], v[32]));
        assert(lex_lt(v[32], v[33]));
        assert(lex_lt(v[33], v[34]));
        assert(lex_lt(v[34], v[35]));
        assert(lex_lt(v[35], v[36]));
        assert(lex_lt(v[36], v[37]));
        assert(lex_lt(v[37], v[38]));
        assert(lex_lt(v[38], v[39]));
        assert(lex_lt(v[39], v[40]));
        assert(lex_lt(v[40], v[41]));
        assert(lex_lt(v[41], v[42]));
        assert(lex_lt(v[42], v[43]));
        assert(lex_lt(v[43], v[44]));
        assert(lex_lt(v[44], v[45]));
        assert(lex_lt(v[45], v[46]));
        assert(lex_lt(v[46], v[47]));
        assert(lex_lt(v[47], v[48]));
        assert(lex_lt(v[48], v[49]));
        assert(lex_lt(v[49], v[50]));
        assert(lex_lt(v[50], v[51]));
        assert(lex_lt(v[51], v[52]));
    lemma_chain_sorted(v);
}

/// Each Kokoro voice has its position in the catalogue as speaker id, and
/// only the catalogue's voices have one.
pub proof fn lemma_kokoro_speaker_ids(i: int)
    requires
        0 <= i < kokoro_voice_names().len(),
    ensures
        speaker_ids(kokoro_voice_names()).contains_key(kokoro_voice_names()[i]),
        speaker_ids(kokoro_voice_names())[kokoro_voice_names()[i]] == i,
        forall|k: Seq<char>|
            speaker_ids(kokoro_voice_names()).contains_key(k) <==> kokoro_voice_names().contains(k),
{
    let v = kokoro_voice_names();
    lemma_kokoro_voices_sorted();
    assert forall|p: int, q: int| 0 <= p < q < v.len() implies v[p] != v[q] by {
        lemma_lex_irreflexive(v[p]);
    }
    lemma_speaker_id_is_position(v, i);
    lemma_speaker_ids_domain(v);
}

/// The Kokoro model's 53 voices, each with its speaker id in the model
/// (the index of the voice in the model's voices file); no other voice has
/// an id.
pub proof fn lemma_kokoro_voice_ids()
    ensures
        kokoro_voice_names().len() == 53,
        speaker_of(speaker_ids(kokoro_voice_names()), "af_alloy"@) == 0,
        speaker_of(speaker_ids(kokoro_voice_names()), "af_aoede"@) == 1,
        speaker_of(speaker_ids(kokoro_voice_names()), "af_bella"@) == 2,
        speaker_of(speaker_ids(kokoro_voice_names()), "af_heart"@) == 3,
        speaker_of(speaker_ids(kokoro_voice_names()), "af_jessica"@) == 4,
        speaker_of(speaker_ids(kokoro_voice_names()), "af_kore"@) == 5,
        speaker_of(speaker_ids(kokoro_voice_names()), "af_nicole"@) == 6,
        speaker_of(speaker_ids(kokoro_voice_names()), "af_nova"@) == 7,
        speaker_of(speaker_ids(kokoro_voice_names()), "af_river"@) == 8,
        speaker_of(speaker_ids(kokoro_voice_names()), "af_sarah"@) == 9,
        speaker_of(speaker_ids(kokoro_voice_names()), "af_sky"@) == 10,
        speaker_of(speaker_ids(kokoro_voice_names()), "am_adam"@) == 11,
        speaker_of(speaker_ids(kokoro_voice_names()), "am_echo"@) == 12,
        speaker_of(speaker_ids(kokoro_voice_names()), "am_eric"@) == 13,
        speaker_of(speaker_ids(kokoro_voice_names()), "am_fenrir"@) == 14,
        speaker_of(speaker_ids(kokoro_voice_names()), "am_liam"@) == 15,
        speaker_of(speaker_ids(kokoro_voice_names()), "am_michael"@) == 16,
        speaker_of(speaker_ids(kokoro_voice_names()), "am_onyx"@) == 17,
        speaker_of(speaker_ids(kokoro_voice_names()), "am_puck"@) == 18,
        speaker_of(speaker_ids(kokoro_voice_names()), "am_santa"@) == 19,
        speaker_of(speaker_ids(kokoro_voice_names()), "bf_alice"@) == 20,
        speaker_of(speaker_ids(kokoro_voice_names()), "bf_emma"@) == 21,
        speaker_of(speaker_ids(kokoro_voice_names()), "bf_isabella"@) == 22,
        speaker_of(speaker_ids(kokoro_voice_names()), "bf_lily"@) == 23,
        speaker_of(speaker_ids(kokoro_voice_names()), "bm_daniel"@) == 24,
        speaker_of(speaker_ids(kokoro_voice_names()), "bm_fable"@) == 25,
        speaker_of(speaker_ids(kokoro_voice_names()), "bm_george"@) == 26,
        speaker_of(speaker_ids(kokoro_voice_names()), "bm_lewis"@) == 27,
        speaker_of(speaker_ids(kokoro_voice_names()), "ef_dora"@) == 28,
        speaker_of(speaker_ids(kokoro_voice_names()), "em_alex"@) == 29,
        speaker_of(speaker_ids(kokoro_voice_names()), "ff_siwis"@) == 30,
        speaker_of(speaker_ids(kokoro_voice_names()), "hf_alpha"@) == 31,
        speaker_of(speaker_ids(kokoro_voice_names()), "hf_beta"@) == 32,
        speaker_of(speaker_ids(kokoro_voice_names()), "hm_omega"@) == 33,
        speaker_of(speaker_ids(kokoro_voice_names()), "hm_psi"@) == 34,
        speaker_of(speaker_ids(kokoro_voice_names()), "if_sara"@) == 35,
        speaker_of(speaker_ids(kokoro_voice_names()), "im_nicola"@) == 36,
        speaker_of(speaker_ids(kokoro_voice_names()), "jf_alpha"@) == 37,
        speaker_of(speaker_ids(kokoro_voice_names()), "jf_gongitsune"@) == 38,
        speaker_of(speaker_ids(kokoro_voice_names()), "jf_nezumi"@) == 39,
        speaker_of(speaker_ids(kokoro_voice_names()), "jf_tebukuro"@) == 40,
        speaker_of(speaker_ids(kokoro_voice_names()), "jm_kumo"@) == 41,
        speaker_of(speaker_ids(kokoro_voice_names()), "pf_dora"@) == 42,
        speaker_of(speaker_ids(kokoro_voice_names()), "pm_alex"@) == 43,
        speaker_of(speaker_ids(kokoro_voice_names()), "pm_santa"@) == 44,
        speaker_of(speaker_ids(kokoro_voice_names()), "zf_xiaobei"@) == 45,
        speaker_of(speaker_ids(kokoro_voice_names()), "zf_xiaoni"@) == 46,
        speaker_of(speaker_ids(kokoro_voice_names()), "zf_xiaoxiao"@) == 47,
        speaker_of(speaker_ids(kokoro_voice_names()), "zf_xiaoyi"@) == 48,
        speaker_of(speaker_ids(kokoro_voice_names()), "zm_yunjian"@) == 49,
        speaker_of(speaker_ids(kokoro_voice_names()), "zm_yunxi"@) == 50,
        speaker_of(speaker_ids(kokoro_voice_names()), "zm_yunxia"@) == 51,
        speaker_of(speaker_ids(kokoro_voice_names()), "zm_yunyang"@) == 52,
{
    lemma_kokoro_speaker_ids(0);
    lemma_kokoro_speaker_ids(1);
    lemma_kokoro_speaker_ids(2);
    lemma_kokoro_speaker_ids(3);
    lemma_kokoro_speaker_ids(4);
    lemma_kokoro_speaker_ids(5);
    lemma_kokoro_speaker_ids(6);
    lemma_kokoro_speaker_ids(7);
    lemma_kokoro_speaker_ids(8);
    lemma_kokoro_speaker_ids(9);
    lemma_kokoro_speaker_ids(10);
    lemma_kokoro_speaker_ids(11);
    lemma_kokoro_speaker_ids(12);
    lemma_kokoro_speaker_ids(13);
    lemma_kokoro_speaker_ids(14);
    lemma_kokoro_speaker_ids(15);
    lemma_kokoro_speaker_ids(16);
    lemma_kokoro_speaker_ids(17);
    lemma_kokoro_speaker_ids(18);
    lemma_kokoro_speaker_ids(19);
    lemma_kokoro_speaker_ids(20);
    lemma_kokoro_speaker_ids(21);
    lemma_kokoro_speaker_ids(22);
    lemma_kokoro_speaker_ids(23);
    lemma_kokoro_speaker_ids(24);
    lemma_kokoro_speaker_ids(25);
    lemma_kokoro_speaker_ids(26);
    lemma_kokoro_speaker_ids(27);
    lemma_kokoro_speaker_ids(28);
    lemma_kokoro_speaker_ids(29);
    lemma_kokoro_speaker_ids(30);
    lemma_kokoro_speaker_ids(31);
    lemma_kokoro_speaker_ids(32);
    lemma_kokoro_speaker_ids(33);
    lemma_kokoro_speaker_ids(34);
    lemma_kokoro_speaker_ids(35);
    lemma_kokoro_speaker_ids(36);
    lemma_kokoro_speaker_ids(37);
    lemma_kokoro_speaker_ids(38);
    lemma_kokoro_speaker_ids(39);
    lemma_kokoro_speaker_ids(40);
    lemma_kokoro_speaker_ids(41);
    lemma_kokoro_speaker_ids(42);
    lemma_kokoro_speaker_ids(43);
    lemma_kokoro_speaker_ids(44);
    lemma_kokoro_speaker_ids(45);
    lemma_kokoro_speaker_ids(46);
    lemma_kokoro_speaker_ids(47);
    lemma_kokoro_speaker_ids(48);
    lemma_kokoro_speaker_ids(49);
    lemma_kokoro_speaker_ids(50);
    lemma_kokoro_speaker_ids(51);
    lemma_kokoro_speaker_ids(52);
}

/// The alphabetical listing of the Kokoro voices is the catalogue itself, in
/// its order: any strictly sorted sequence holding exactly the voices that
/// have a speaker id is the catalogue.
pub proof fn lemma_kokoro_listing(listing: Seq<String>)
    requires
        strictly_sorted(listing),
        forall|k: Seq<char>|
            holds_text(listing, k) <==> speaker_ids(kokoro_voice_names()).contains_key(k),
    ensures
        texts(listing) == kokoro_voice_names(),
{
    let v = kokoro_voice_names();
    lemma_kokoro_voices_sorted();
    lemma_speaker_ids_domain(v);
    lemma_texts_of_sorted(listing);
    assert forall|k: Seq<char>| texts(listing).contains(k) <==> v.contains(k) by {
        assert(holds_text(listing, k) <==> texts(listing).contains(k));
        assert(holds_text(listing, k) <==> speaker_ids(v).contains_key(k));
        assert(speaker_ids(v).contains_key(k) <==> v.contains(k));
    }
    lemma_ascending_unique(texts(listing), v);
}

/// Speaker ids as collecting `(voice, position)` pairs into a map gives them:
/// each voice maps to the position of its last occurrence (a position that
/// does not fit an `i32` wraps as the `as` cast does).
pub open spec fn speaker_ids(voices: Seq<Seq<char>>) -> Map<Seq<char>, i32>
    decreases voices.len(),
{
    if voices.len() == 0 {
        Map::empty()
    } else {
        speaker_ids(voices.drop_last()).insert(voices.last(), (voices.len() - 1) as i32)
    }
}

/// The speaker id that a table gives `voice`: its entry, or 0 where it has none.
pub open spec fn speaker_of(table: Map<Seq<char>, i32>, voice: Seq<char>) -> i32 {
    if table.contains_key(voice) {
        table[voice]
    } else {
        0
    }
}

/// No voice appears twice in the list.
pub open spec fn no_repeats(voices: Seq<Seq<char>>) -> bool {
    forall|p: int, q: int| 0 <= p < q < voices.len() ==> voices[p] != voices[q]
}

/// The voices that have a speaker id are exactly those of the list.
pub proof fn lemma_speaker_ids_domain(voices: Seq<Seq<char>>)
    ensures
        forall|k: Seq<char>| speaker_ids(voices).contains_key(k) <==> voices.contains(k),
    decreases voices.len(),
{
    if voices.len() > 0 {
        let rest = voices.drop_last();
        lemma_speaker_ids_domain(rest);
        assert forall|k: Seq<char>| speaker_ids(voices).contains_key(k) <==> voices.contains(k) by {
            if voices.contains(k) && k != voices.last() {
                let q = choose|q: int| 0 <= q < voices.len() && voices[q] == k;
                assert(rest[q] == k);
            }
            if rest.contains(k) {
                let q = choose|q: int| 0 <= q < rest.len() && rest[q] == k;
                assert(voices[q] == k);
            }
            assert(voices[voices.len() - 1] == voices.last());
        }
    }
}

/// In a list without repeats, a voice's speaker id is its position.
pub proof fn lemma_speaker_id_is_position(voices: Seq<Seq<char>>, i: int)
    requires
        no_repeats(voices),
        0 <= i < voices.len(),
        voices.len() <= 0x8000_0000,
    ensures
        speaker_ids(voices).contains_key(voices[i]),
        speaker_ids(voices)[voices[i]] == i,
    decreases voices.len(),
{
    if i < voices.len() - 1 {
        let rest = voices.drop_last();
        lemma_speaker_id_is_position(rest, i);
        assert(rest[i] == voices[i]);
        assert(voices.last() != voices[i]);
    }
}

/// Map from voice name to the speaker id of the TTS model.
pub struct VoiceTable {
    names: Vec<String>,
    ids: Vec<i32>,
}

/// The slot of `names` that holds `k`.
spec fn slot_of(names: Seq<String>, k: Seq<char>) -> int {
    choose|i: int| 0 <= i < names.len() && names[i]@ == k
}

proof fn lemma_slot_of(names: Seq<String>, i: int)
    requires
        distinct_texts(names),
        0 <= i < names.len(),
    ensures
        slot_of(names, names[i]@) == i,
{
    let k = names[i]@;
    assert(exists|j: int| 0 <= j < names.len() && names[j]@ == k);
    let j = slot_of(names, k);
    assert(names[j]@ == k);
}

/// The map that parallel name and id sequences describe.
spec fn table_map(names: Seq<String>, ids: Seq<i32>) -> Map<Seq<char>, i32> {
    Map::new(|k: Seq<char>| holds_text(names, k), |k: Seq<char>| ids[slot_of(names, k)])
}

impl VoiceTable {
    #[verifier::type_invariant]
    spec fn well_formed(self) -> bool {
        &&& self.names.len() == self.ids.len()
        &&& distinct_texts(self.names@)
    }

    /// The table as a map from voice name to speaker id.
    pub closed spec fn entries(&self) -> Map<Seq<char>, i32> {
        table_map(self.names@, self.ids@)
    }

    /// Builds the table from a list of voices, giving each voice its position
    /// in the list as speaker id (the last position where a voice repeats).
    pub fn from_names(voices: &Vec<String>) -> (r: VoiceTable)
        ensures
            r@ == speaker_ids(texts(voices@)),
    {
        let mut names: Vec<String> = Vec::new();
        let mut ids: Vec<i32> = Vec::new();
        let n = voices.len();
        let ghost all = texts(voices@);
        for i in 0..n
            invariant
                n == voices.len(),
                all == texts(voices@),
                names.len() == ids.len(),
                distinct_texts(names@),
                forall|k: Seq<char>|
                    holds_text(names@, k) <==> speaker_ids(all.take(i as int)).contains_key(k),
                forall|q: int|
                    0 <= q < names.len() ==> speaker_ids(all.take(i as int))[names@[q]@]
                        == ids@[q],
        {
            let name = &voices[i];
            let id = #[verifier::truncate] (i as i32);
            let ghost before = speaker_ids(all.take(i as int));
            let ghost old_names = names@;
            let ghost old_ids = ids@;
            proof {
                assert(all.take(i + 1).drop_last() =~= all.take(i as int));
                assert(all.take(i + 1).last() == name@);
                assert(speaker_ids(all.take(i + 1)) == before.insert(name@, id));
            }
            match find_text(&names, name.as_str()) {
                Some(p) => {
                    ids.set(p, id);
                    proof {
                        assert(names@[p as int]@ == name@);
                        assert forall|k: Seq<char>|
                            holds_text(names@, k) <==> speaker_ids(
                                all.take(i + 1),
                            ).contains_key(k) by {
                            assert(holds_text(names@, k) <==> before.contains_key(k));
                        }
                        assert forall|q: int| 0 <= q < names.len() implies speaker_ids(
                            all.take(i + 1),
                        )[names@[q]@] == ids@[q] by {
                            if q != p {
                                assert(names@[q]@ != name@);
                            }
                        }
                    }
                },
                None => {
                    names.push(name.clone());
                    ids.push(id);
                    proof {
                        lemma_holds_text_push(old_names, *name);
                        assert forall|k: Seq<char>|
                            holds_text(names@, k) <==> speaker_ids(
                                all.take(i + 1),
                            ).contains_key(k) by {
                            assert(holds_text(old_names, k) <==> before.contains_key(k));
                        }
                        assert forall|p: int, q: int|
                            0 <= p < names.len() && 0 <= q < names.len() && p != q implies names@[p]@
                            != names@[q]@ by {
                            if p == old_names.len() {
                                assert(!holds_text(old_names, name@));
                                assert(names@[q] == old_names[q]);
                            } else if q == old_names.len() {
                                assert(names@[p] == old_names[p]);
                            } else {
                                assert(names@[p] == old_names[p]);
                                assert(names@[q] == old_names[q]);
                            }
                        }
                        assert forall|q: int| 0 <= q < names.len() implies speaker_ids(
                            all.take(i + 1),
                        )[names@[q]@] == ids@[q] by {
                            if q < old_names.len() {
                                assert(names@[q] == old_names[q]);
                                assert(names@[q]@ != name@);
                            }
                        }
                    }
                },
            }
        }
        let table = VoiceTable { names, ids };
        proof {
            assert(all.take(n as int) =~= all);
            let m = speaker_ids(all);
            assert(speaker_ids(all.take(n as int)) == m);
            assert forall|k: Seq<char>| #[trigger] m.contains_key(k) implies table.entries()[k]
                == m[k] by {
                assert(speaker_ids(all.take(n as int)).contains_key(k));
                assert(holds_text(table.names@, k));
                let q = choose|q: int| 0 <= q < table.names@.len() && table.names@[q]@ == k;
                lemma_slot_of(table.names@, q);
            }
            assert forall|k: Seq<char>| #[trigger] table.entries().contains_key(k) implies m.contains_key(k) by {
                assert(holds_text(table.names@, k));
                assert(speaker_ids(all.take(n as int)).contains_key(k));
            }
            assert(table.entries() =~= m);
        }
        table
    }

    /// The table of the Kokoro voices.
    pub fn kokoro() -> (r: VoiceTable)
        ensures
            r@ == speaker_ids(kokoro_voice_names()),
    {
        VoiceTable::from_names(&kokoro_voices())
    }

    /// The speaker id of `voice`, or 0 where the table does not hold it.
    pub fn speaker_id(&self, voice: &str) -> (r: i32)
        ensures
            r == speaker_of(self@, voice@),
    {
        proof {
            use_type_invariant(self);
        }
        match find_text(&self.names, voice) {
            Some(p) => {
                proof {
                    lemma_slot_of(self.names@, p as int);
                }
                self.ids[p]
            },
            None => 0,
        }
    }

    /// The voice names of the table, sorted alphabetically.
    pub fn sorted_names(&self) -> (r: Vec<String>)
        ensures
            strictly_sorted(r@),
            forall|k: Seq<char>| holds_text(r@, k) <==> self@.contains_key(k),
    {
        sorted_distinct(&self.names)
    }
}

impl View for VoiceTable {
    type V = Map<Seq<char>, i32>;

    open spec fn view(&self) -> Map<Seq<char>, i32> {
        self.entries()
    }
}

} // verus!
