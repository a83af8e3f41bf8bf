use s2s::text::{sorted_distinct, text_before, text_eq};
use s2s::voices::{kokoro_voices, VoiceTable};

fn strings(items: &[&str]) -> Vec<String> {
    items.iter().map(|s| s.to_string()).collect()
}

#[test]
fn kokoro_catalogue_has_all_voices() {
    let voices = kokoro_voices();
    assert_eq!(voices.len(), 53);
    assert_eq!(voices[0], "af_alloy");
    assert_eq!(voices[11], "am_adam");
    assert_eq!(voices[52], "zm_yunyang");
}

#[test]
fn kokoro_speaker_ids_are_positions() {
    let table = VoiceTable::kokoro();
    let voices = kokoro_voices();
    for (i, v) in voices.iter().enumerate() {
        assert_eq!(table.speaker_id(v), i as i32);
    }
    assert_eq!(table.speaker_id("af_bella"), 2);
    assert_eq!(table.speaker_id("zm_yunxi"), 50);
}

#[test]
fn unknown_voice_gets_speaker_zero() {
    let table = VoiceTable::kokoro();
    assert_eq!(table.speaker_id("xx_nobody"), 0);
    assert_eq!(table.speaker_id(""), 0);
    assert_eq!(table.speaker_id("AF_ALLOY"), 0);
}

#[test]
fn voice_listing_is_alphabetical() {
    let table = VoiceTable::kokoro();
    let listing = table.sorted_names();
    let mut expected = kokoro_voices();
    expected.sort();
    assert_eq!(listing, expected);
    assert_eq!(listing.len(), 53);
    assert_eq!(listing[0], "af_alloy");
    assert_eq!(listing[1], "af_aoede");
    assert_eq!(listing[52], "zm_yunyang");
}

#[test]
fn repeated_voice_takes_its_last_position() {
    let table = VoiceTable::from_names(&strings(&["b", "a", "b"]));
    assert_eq!(table.speaker_id("b"), 2);
    assert_eq!(table.speaker_id("a"), 1);
    assert_eq!(table.speaker_id("c"), 0);
    assert_eq!(table.sorted_names(), strings(&["a", "b"]));
}

#[test]
fn empty_table_lists_nothing() {
    let table = VoiceTable::from_names(&Vec::new());
    assert!(table.sorted_names().is_empty());
    assert_eq!(table.speaker_id("af_alloy"), 0);
}

#[test]
fn sorting_keeps_each_text_once() {
    let sorted = sorted_distinct(&strings(&["pear", "apple", "fig", "apple", "", "app"]));
    assert_eq!(sorted, strings(&["", "app", "apple", "fig", "pear"]));
}

#[test]
fn text_order_is_lexicographic() {
    assert!(text_before("a", "b"));
    assert!(!text_before("b", "a"));
    assert!(text_before("", "a"));
    assert!(!text_before("a", ""));
    assert!(text_before("zm_yunxi", "zm_yunxia"));
    assert!(!text_before("zm_yunxia", "zm_yunxi"));
    assert!(!text_before("same", "same"));
    assert!(text_before("B", "a"));
}

#[test]
fn text_equality_compares_characters() {
    assert!(text_eq("file", "file"));
    assert!(!text_eq("file", "files"));
    assert!(!text_eq("file", "fila"));
    assert!(text_eq("", ""));
}
