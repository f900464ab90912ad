use voice_assistant::device::{
    find_best_config, negotiate_input, negotiate_output, ConfigRange, NegotiationError,
    SampleEncoding, StreamChoice,
};

fn fixed(rate: u32) -> ConfigRange {
    ConfigRange { channels: 1, min_sample_rate: rate, max_sample_rate: rate, encoding: SampleEncoding::Float32 }
}

#[test]
fn offered_rate_is_selected_exactly() {
    let configs = vec![fixed(8000), fixed(16000), fixed(44100)];
    assert_eq!(
        find_best_config(&configs, 16000),
        Ok(StreamChoice { index: 1, channels: 1, sample_rate: 16000 })
    );
}

#[test]
fn rate_between_two_offers_falls_back_to_the_first_offer() {
    let configs = vec![fixed(8000), fixed(16000), fixed(44100)];
    assert_eq!(
        find_best_config(&configs, 22050),
        Ok(StreamChoice { index: 0, channels: 1, sample_rate: 8000 })
    );
    assert_eq!(find_best_config(&configs, 22050), find_best_config(&configs, 22050));
}

#[test]
fn rate_below_the_first_range_is_clamped_to_its_minimum() {
    let configs = vec![
        ConfigRange { channels: 2, min_sample_rate: 32000, max_sample_rate: 48000, encoding: SampleEncoding::Float32 },
        fixed(96000),
    ];
    assert_eq!(
        find_best_config(&configs, 16000),
        Ok(StreamChoice { index: 0, channels: 2, sample_rate: 32000 })
    );
    assert_eq!(
        find_best_config(&configs, 64000),
        Ok(StreamChoice { index: 0, channels: 2, sample_rate: 48000 })
    );
    assert_eq!(
        find_best_config(&configs, 44100),
        Ok(StreamChoice { index: 0, channels: 2, sample_rate: 44100 })
    );
}

#[test]
fn unusable_configs_are_passed_over() {
    let configs = vec![
        ConfigRange { channels: 6, min_sample_rate: 16000, max_sample_rate: 16000, encoding: SampleEncoding::Float32 },
        ConfigRange { channels: 1, min_sample_rate: 16000, max_sample_rate: 16000, encoding: SampleEncoding::Other },
        ConfigRange { channels: 2, min_sample_rate: 44100, max_sample_rate: 48000, encoding: SampleEncoding::Float32 },
    ];
    assert_eq!(
        find_best_config(&configs, 16000),
        Ok(StreamChoice { index: 2, channels: 2, sample_rate: 44100 })
    );
}

#[test]
fn no_usable_config_is_an_error() {
    let none: Vec<ConfigRange> = Vec::new();
    assert_eq!(find_best_config(&none, 16000), Err(NegotiationError::NoFloatConfig));
    let configs = vec![
        ConfigRange { channels: 3, min_sample_rate: 16000, max_sample_rate: 16000, encoding: SampleEncoding::Float32 },
        ConfigRange { channels: 1, min_sample_rate: 16000, max_sample_rate: 16000, encoding: SampleEncoding::Other },
    ];
    assert_eq!(find_best_config(&configs, 16000), Err(NegotiationError::NoFloatConfig));
    assert_eq!(negotiate_input(&configs, 16000), Err(NegotiationError::NoFloatConfig));
    assert_eq!(negotiate_output(Some(48000), &configs, 24000), Err(NegotiationError::NoFloatConfig));
    assert_eq!(negotiate_output(None, &configs, 24000), Err(NegotiationError::NoFloatConfig));
}

#[test]
fn input_needs_resampling_when_rates_differ() {
    let configs = vec![fixed(48000)];
    let choice = negotiate_input(&configs, 16000).unwrap();
    assert_eq!(choice.config.sample_rate, 48000);
    assert!(choice.needs_resampling);
    let same = negotiate_input(&configs, 48000).unwrap();
    assert!(!same.needs_resampling);
}

#[test]
fn output_prefers_the_default_rate() {
    let configs = vec![
        ConfigRange { channels: 2, min_sample_rate: 8000, max_sample_rate: 96000, encoding: SampleEncoding::Float32 },
    ];
    let choice = negotiate_output(Some(44100), &configs, 24000).unwrap();
    assert_eq!(choice.device_sample_rate, 44100);
    assert_eq!(choice.config, StreamChoice { index: 0, channels: 2, sample_rate: 44100 });
    assert!(choice.needs_resampling);
    let fallback = negotiate_output(None, &configs, 48000).unwrap();
    assert_eq!(fallback.device_sample_rate, 48000);
    assert!(!fallback.needs_resampling);
    let narrow = vec![fixed(22050)];
    let clamped = negotiate_output(None, &narrow, 24000).unwrap();
    assert_eq!(clamped.device_sample_rate, 22050);
    assert_eq!(clamped.config.sample_rate, 22050);
}

#[test]
fn empty_range_is_chosen_as_it_stands() {
    let configs = vec![
        ConfigRange { channels: 1, min_sample_rate: 48000, max_sample_rate: 44100, encoding: SampleEncoding::Float32 },
        fixed(16000),
    ];
    assert_eq!(
        find_best_config(&configs, 16000),
        Ok(StreamChoice { index: 1, channels: 1, sample_rate: 16000 })
    );
    assert_eq!(
        find_best_config(&configs, 8000),
        Ok(StreamChoice { index: 0, channels: 1, sample_rate: 48000 })
    );
    assert_eq!(
        find_best_config(&configs, 96000),
        Ok(StreamChoice { index: 0, channels: 1, sample_rate: 44100 })
    );
}
