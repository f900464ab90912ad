use voice_assistant::config::{
    detect_provider, effective_provider, effective_stt_language, has_nvidia_gpu, tts_language,
    tts_lexicon, InterruptMode, Lexicon, Platform, Provider, ThreadCounts,
};

#[test]
fn provider_names() {
    assert_eq!(Provider::Cpu.as_sherpa_provider(), "cpu");
    assert_eq!(Provider::Cuda.as_sherpa_provider(), "cuda");
    assert_eq!(Provider::CoreMl.as_sherpa_provider(), "coreml");
}

#[test]
fn defaults() {
    assert_eq!(Provider::default(), Provider::Cpu);
    assert_eq!(InterruptMode::default(), InterruptMode::Wait);
}

#[test]
fn provider_detection() {
    assert_eq!(detect_provider(Platform::MacOs, false), Provider::CoreMl);
    assert_eq!(detect_provider(Platform::MacOs, true), Provider::CoreMl);
    assert_eq!(detect_provider(Platform::Linux, true), Provider::Cuda);
    assert_eq!(detect_provider(Platform::Linux, false), Provider::Cpu);
    assert_eq!(detect_provider(Platform::Other, true), Provider::Cpu);
}

#[test]
fn one_device_file_is_enough() {
    assert!(!has_nvidia_gpu(&[]));
    assert!(!has_nvidia_gpu(&[false, false, false]));
    assert!(has_nvidia_gpu(&[false, false, true]));
    assert!(has_nvidia_gpu(&[true, false]));
}

#[test]
fn specific_provider_wins() {
    assert_eq!(effective_provider(Some(Provider::Cuda), Some(Provider::CoreMl), Provider::Cpu), Provider::Cuda);
    assert_eq!(effective_provider(None, Some(Provider::CoreMl), Provider::Cpu), Provider::CoreMl);
    assert_eq!(effective_provider(None, None, Provider::Cuda), Provider::Cuda);
}

#[test]
fn thread_counts_on_a_six_core_machine() {
    let mut counts = ThreadCounts { num_threads: 0, vad_threads: 0, stt_threads: 0, tts_threads: 0 };
    counts.normalize_thread_counts(6, Provider::Cpu, Provider::Cpu);
    assert_eq!(counts, ThreadCounts { num_threads: 2, vad_threads: 1, stt_threads: 2, tts_threads: 2 });
}

#[test]
fn thread_counts_under_cuda() {
    let mut counts = ThreadCounts { num_threads: 0, vad_threads: 0, stt_threads: 0, tts_threads: 0 };
    counts.normalize_thread_counts(12, Provider::Cuda, Provider::Cpu);
    assert_eq!(counts, ThreadCounts { num_threads: 1, vad_threads: 1, stt_threads: 1, tts_threads: 1 });
    let mut chosen = ThreadCounts { num_threads: 4, vad_threads: 0, stt_threads: 0, tts_threads: 3 };
    chosen.normalize_thread_counts(12, Provider::Cuda, Provider::Cpu);
    assert_eq!(chosen, ThreadCounts { num_threads: 4, vad_threads: 1, stt_threads: 1, tts_threads: 3 });
}

#[test]
fn thread_counts_on_small_machines() {
    let mut counts = ThreadCounts { num_threads: 0, vad_threads: 2, stt_threads: 0, tts_threads: 0 };
    counts.normalize_thread_counts(2, Provider::Cpu, Provider::CoreMl);
    assert_eq!(counts, ThreadCounts { num_threads: 1, vad_threads: 2, stt_threads: 1, tts_threads: 1 });
}

#[test]
fn thread_counts_for_this_machine() {
    let mut counts = ThreadCounts { num_threads: 0, vad_threads: 0, stt_threads: 0, tts_threads: 0 };
    let cores = counts.normalize_for_host(Provider::Cpu, Provider::Cpu);
    assert!(cores >= 1);
    let mut expected = ThreadCounts { num_threads: 0, vad_threads: 0, stt_threads: 0, tts_threads: 0 };
    expected.normalize_thread_counts(cores, Provider::Cpu, Provider::Cpu);
    assert_eq!(counts, expected);
}

#[test]
fn auto_language_becomes_empty() {
    assert_eq!(effective_stt_language("auto"), "");
    assert_eq!(effective_stt_language("AUTO"), "");
    assert_eq!(effective_stt_language("AuTo"), "");
    assert_eq!(effective_stt_language("en"), "en");
    assert_eq!(effective_stt_language("auto "), "auto ");
    assert_eq!(effective_stt_language(""), "");
}

#[test]
fn language_codes_of_voices() {
    assert_eq!(tts_language("ef_dora"), "es");
    assert_eq!(tts_language("em_alex"), "es");
    assert_eq!(tts_language("ff_siwis"), "fr");
    assert_eq!(tts_language("fm_x"), "");
    assert_eq!(tts_language("hm_psi"), "hi");
    assert_eq!(tts_language("if_sara"), "it");
    assert_eq!(tts_language("jm_kumo"), "ja");
    assert_eq!(tts_language("pf_dora"), "pt-br");
    assert_eq!(tts_language("af_bella"), "");
    assert_eq!(tts_language("zf_xiaobei"), "");
    assert_eq!(tts_language("e"), "");
    assert_eq!(tts_language(""), "");
}

#[test]
fn lexicons_of_voices() {
    assert_eq!(tts_lexicon("af_bella"), Lexicon::UsEnglish);
    assert_eq!(tts_lexicon("am_adam"), Lexicon::UsEnglish);
    assert_eq!(tts_lexicon("bf_emma"), Lexicon::GbEnglish);
    assert_eq!(tts_lexicon("bm_lewis"), Lexicon::GbEnglish);
    assert_eq!(tts_lexicon("zm_yunxi"), Lexicon::UsEnglishAndChinese);
    assert_eq!(tts_lexicon("ef_dora"), Lexicon::NoLexicon);
    assert_eq!(tts_lexicon("a"), Lexicon::UsEnglish);
    assert_eq!(tts_lexicon(""), Lexicon::UsEnglish);
    assert_eq!(tts_lexicon("\u{e9}"), Lexicon::NoLexicon);
}
