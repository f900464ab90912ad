use voice_assistant::transcript::{clean_command, interpret_transcription};

#[test]
fn text_without_wake_word_setting_is_trimmed() {
    assert_eq!(interpret_transcription("  What time is it? ", None), Some("What time is it?".to_string()));
    assert_eq!(interpret_transcription("   ", None), None);
    assert_eq!(interpret_transcription("", Some("jarvis")), None);
}

#[test]
fn text_without_the_wake_word_is_ignored() {
    assert_eq!(interpret_transcription("What time is it?", Some("jarvis")), None);
}

#[test]
fn wake_word_is_taken_out_in_any_case() {
    assert_eq!(
        interpret_transcription("Hey JARVIS, what time is it?", Some("Jarvis")),
        Some("hey , what time is it?".to_string())
    );
    assert_eq!(
        interpret_transcription("Jarvis, Lights On.", Some("jarvis")),
        Some("lights on.".to_string())
    );
}

#[test]
fn wake_word_alone_becomes_a_greeting() {
    assert_eq!(interpret_transcription("Jarvis!", Some("jarvis")), Some("Hello".to_string()));
    assert_eq!(interpret_transcription(" jarvis jarvis ", Some("JARVIS")), Some("Hello".to_string()));
}

#[test]
fn clean_command_strips_leading_noise() {
    assert_eq!(clean_command(", ...  play music  "), "play music");
    assert_eq!(clean_command("play, music!"), "play, music!");
    assert_eq!(clean_command(" ?! "), "Hello");
    assert_eq!(clean_command(""), "Hello");
    assert_eq!(clean_command("\u{2003}~x"), "x");
}
