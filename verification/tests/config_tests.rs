use speedy_stt::config::{
    parse_bool, parse_milli, parse_u64, parse_usize, Config, ConfigError,
};

#[test]
fn parse_u64_accepts_digits() {
    assert_eq!(parse_u64("0"), Some(0));
    assert_eq!(parse_u64("42"), Some(42));
    assert_eq!(parse_u64("0042"), Some(42));
    assert_eq!(parse_u64("18446744073709551615"), Some(u64::MAX));
}

#[test]
fn parse_u64_rejects_junk_and_overflow() {
    assert_eq!(parse_u64(""), None);
    assert_eq!(parse_u64("12a"), None);
    assert_eq!(parse_u64("+3"), None);
    assert_eq!(parse_u64("-3"), None);
    assert_eq!(parse_u64(" 3"), None);
    assert_eq!(parse_u64("18446744073709551616"), None);
}

#[test]
fn parse_usize_bounds() {
    assert_eq!(parse_usize("8"), Some(8));
    assert_eq!(parse_usize(""), None);
}

#[test]
fn parse_bool_is_exact() {
    assert_eq!(parse_bool("true"), Some(true));
    assert_eq!(parse_bool("false"), Some(false));
    assert_eq!(parse_bool("TRUE"), None);
    assert_eq!(parse_bool("1"), None);
    assert_eq!(parse_bool(""), None);
}

#[test]
fn parse_milli_whole_numbers() {
    assert_eq!(parse_milli("1"), Some(1000));
    assert_eq!(parse_milli("0"), Some(0));
    assert_eq!(parse_milli("12"), Some(12_000));
}

#[test]
fn parse_milli_fractions() {
    assert_eq!(parse_milli("1.5"), Some(1500));
    assert_eq!(parse_milli("0.25"), Some(250));
    assert_eq!(parse_milli("2.345"), Some(2345));
    // Digits below one thousandth are dropped.
    assert_eq!(parse_milli("2.3456"), Some(2345));
    assert_eq!(parse_milli(".5"), Some(500));
    assert_eq!(parse_milli("5."), Some(5000));
    assert_eq!(parse_milli("0.001"), Some(1));
}

#[test]
fn parse_milli_rejects_malformed() {
    assert_eq!(parse_milli(""), None);
    assert_eq!(parse_milli("."), None);
    assert_eq!(parse_milli("a.b"), None);
    assert_eq!(parse_milli("1.2.3"), None);
    assert_eq!(parse_milli("-1.5"), None);
    assert_eq!(parse_milli("1e3"), None);
}

fn good_config() -> Result<Config, ConfigError> {
    Config::from_values(
        "1.5",
        "ggml-base.en.bin".to_string(),
        "en".to_string(),
        "4",
        "ctrl".to_string(),
        "space".to_string(),
        "true",
        "false",
        "info".to_string(),
        "30",
    )
}

#[test]
fn config_happy_path() {
    let c = good_config().unwrap();
    assert_eq!(c.volume_boost_milli, 1500);
    assert_eq!(c.whisper_model, "ggml-base.en.bin");
    assert_eq!(c.whisper_language, "en");
    assert_eq!(c.whisper_threads, 4);
    assert_eq!(c.hotkey_modifier, "ctrl");
    assert_eq!(c.hotkey_key, "space");
    assert!(c.enable_sound_feedback);
    assert!(!c.log_to_file);
    assert_eq!(c.log_level, "info");
    assert_eq!(c.model_unload_delay_secs, 30);
    assert_eq!(c.model_path(), "./assets/models/ggml-base.en.bin");
}

#[test]
fn config_reports_first_bad_value() {
    let e = Config::from_values(
        "fast",
        "m".to_string(),
        "en".to_string(),
        "x",
        "".to_string(),
        "a".to_string(),
        "x",
        "x",
        "info".to_string(),
        "x",
    );
    assert_eq!(e.unwrap_err(), ConfigError::InvalidVolumeBoost);

    let e = Config::from_values(
        "1.0",
        "m".to_string(),
        "en".to_string(),
        "x",
        "".to_string(),
        "a".to_string(),
        "x",
        "x",
        "info".to_string(),
        "x",
    );
    assert_eq!(e.unwrap_err(), ConfigError::InvalidWhisperThreads);

    let e = Config::from_values(
        "1.0",
        "m".to_string(),
        "en".to_string(),
        "2",
        "".to_string(),
        "a".to_string(),
        "yes",
        "x",
        "info".to_string(),
        "x",
    );
    assert_eq!(e.unwrap_err(), ConfigError::InvalidSoundFeedback);

    let e = Config::from_values(
        "1.0",
        "m".to_string(),
        "en".to_string(),
        "2",
        "".to_string(),
        "a".to_string(),
        "true",
        "x",
        "info".to_string(),
        "x",
    );
    assert_eq!(e.unwrap_err(), ConfigError::InvalidLogToFile);

    let e = Config::from_values(
        "1.0",
        "m".to_string(),
        "en".to_string(),
        "2",
        "".to_string(),
        "a".to_string(),
        "true",
        "false",
        "info".to_string(),
        "soon",
    );
    assert_eq!(e.unwrap_err(), ConfigError::InvalidUnloadDelay);
}
