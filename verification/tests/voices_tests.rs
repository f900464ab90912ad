use voice_assistant::voices::{all_voice_names, get_voice, voice_at, VOICE_COUNT};

#[test]
fn known_voices_are_found() {
    let bella = get_voice("af_bella").unwrap();
    assert_eq!(bella.speaker_id, 2);
    assert_eq!(bella.espeak_code, "en-us");
    assert_eq!(bella.language, "American English");
    let emma = get_voice("bf_emma").unwrap();
    assert_eq!((emma.speaker_id, emma.espeak_code, emma.language), (21, "en-gb", "British English"));
    let siwis = get_voice("ff_siwis").unwrap();
    assert_eq!((siwis.speaker_id, siwis.espeak_code, siwis.language), (30, "fr-fr", "French"));
    let last = get_voice("zm_yunyang").unwrap();
    assert_eq!((last.speaker_id, last.espeak_code, last.language), (52, "cmn", "Mandarin Chinese"));
}

#[test]
fn unknown_voices_are_not_found() {
    assert!(get_voice("").is_none());
    assert!(get_voice("af_bell").is_none());
    assert!(get_voice("af_bella ").is_none());
    assert!(get_voice("AF_BELLA").is_none());
}

#[test]
fn every_name_leads_to_its_place() {
    let names = all_voice_names();
    assert_eq!(names.len(), VOICE_COUNT);
    for (i, name) in names.iter().enumerate() {
        let voice = get_voice(name).unwrap();
        assert_eq!(voice.speaker_id as usize, i);
        assert_eq!(voice.espeak_code, voice_at(i).espeak_code);
    }
    let mut sorted = names.clone();
    sorted.sort();
    assert_eq!(sorted, names);
}

#[test]
fn languages_follow_the_speaker_number() {
    let expected = [
        (0, "en-us", "American English"),
        (19, "en-us", "American English"),
        (20, "en-gb", "British English"),
        (27, "en-gb", "British English"),
        (28, "es", "Spanish"),
        (29, "es", "Spanish"),
        (30, "fr-fr", "French"),
        (31, "hi", "Hindi"),
        (34, "hi", "Hindi"),
        (35, "it", "Italian"),
        (36, "it", "Italian"),
        (37, "ja", "Japanese"),
        (41, "ja", "Japanese"),
        (42, "pt-br", "Portuguese BR"),
        (44, "pt-br", "Portuguese BR"),
        (45, "cmn", "Mandarin Chinese"),
        (52, "cmn", "Mandarin Chinese"),
    ];
    for (id, code, language) in expected {
        let voice = voice_at(id);
        assert_eq!(voice.speaker_id as usize, id);
        assert_eq!(voice.espeak_code, code);
        assert_eq!(voice.language, language);
    }
}
