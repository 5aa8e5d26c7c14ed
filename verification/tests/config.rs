use std::time::Duration;

use ghostwriter::config::{
    build, clamp_temperature, env_secs, env_value, file_settings, parse_u64, resolve, ConfigFile,
    Settings, DEFAULT_TEMPERATURE_BITS,
};

fn bits(t: f32) -> Option<u32> {
    Some(t.to_bits())
}

#[test]
fn defaults_resolve() {
    let c = build(None, None, None, None, None).unwrap();
    assert_eq!(c.base_url, "http://hyper03:8002/v1");
    assert_eq!(c.model, "hemmingway-1");
    assert_eq!(f32::from_bits(c.temperature_bits), 0.3);
    assert_eq!(Duration::new(c.timeout.secs, c.timeout.subsec_nanos), Duration::from_secs(900));
    assert_eq!(Duration::new(c.idle_timeout.secs, c.idle_timeout.subsec_nanos), Duration::from_secs(60));
}

#[test]
fn build_applies_and_validates_overrides() {
    let c = build(
        Some("http://box:9/v1/".into()),
        Some("m".into()),
        bits(9.0),
        Some(2),
        Some(0),
    )
    .unwrap();
    assert_eq!(c.base_url, "http://box:9/v1");
    assert_eq!(f32::from_bits(c.temperature_bits), 2.0); // clamped into 0.0..2.0
    assert_eq!(Duration::new(c.timeout.secs, c.timeout.subsec_nanos), Duration::from_secs(2));
    assert_eq!(Duration::new(c.idle_timeout.secs, c.idle_timeout.subsec_nanos), Duration::from_secs(1)); // floored at 1
    assert!(build(Some("ftp://box".into()), None, None, None, None).is_err());
    assert!(build(None, Some(String::new()), None, None, None).is_err());
    assert!(build(None, None, bits(f32::NAN), None, None).is_err());
    assert!(build(None, None, bits(f32::INFINITY), None, None).is_err());
}

/// An idle kill that can never fire before the overall deadline is a dead
/// knob; it is refused at startup.
#[test]
fn idle_must_lose_the_race_to_timeout() {
    assert!(build(None, None, None, Some(30), Some(60)).is_err());
    assert!(build(None, None, None, Some(60), Some(60)).is_err());
    assert!(build(None, None, None, Some(61), Some(60)).is_ok());
}

#[test]
fn build_error_messages_name_the_fault() {
    assert_eq!(
        build(Some("ftp://box//".into()), None, None, None, None).unwrap_err(),
        "base_url must start with http:// or https://: ftp://box"
    );
    assert_eq!(
        build(None, Some(String::new()), None, None, None).unwrap_err(),
        "model must not be empty"
    );
    assert_eq!(
        build(None, None, bits(f32::NAN), None, None).unwrap_err(),
        format!("temperature must be a finite number: {}", f32::NAN)
    );
    assert_eq!(
        build(None, None, bits(f32::NEG_INFINITY), None, None).unwrap_err(),
        format!("temperature must be a finite number: {}", f32::NEG_INFINITY)
    );
    assert_eq!(
        build(None, None, bits(f32::INFINITY), None, None).unwrap_err(),
        "temperature must be a finite number: inf"
    );
    assert_eq!(
        build(None, None, None, Some(30), Some(60)).unwrap_err(),
        format!(
            "idle_timeout ({:?}) must be shorter than timeout ({:?}): the idle kill would never fire before the overall deadline",
            Duration::from_secs(60),
            Duration::from_secs(30)
        )
    );
    // The base URL is checked first, even when every other field is bad.
    assert!(build(Some("box".into()), Some(String::new()), bits(f32::NAN), Some(1), Some(5))
        .unwrap_err()
        .starts_with("base_url"));
}

#[test]
fn https_and_every_trailing_slash() {
    let c = build(Some("https://box/v1///".into()), None, None, None, None).unwrap();
    assert_eq!(c.base_url, "https://box/v1");
    assert!(build(Some("https:/box".into()), None, None, None, None).is_err());
    assert!(build(Some("/".into()), None, None, None, None).is_err());
}

#[test]
fn temperature_clamp_follows_f32_clamp() {
    for t in [0.0f32, -0.0, 0.3, 1.0, 2.0, 2.5, -1.0, 1e30, -1e30, f32::INFINITY, f32::NEG_INFINITY, f32::MIN_POSITIVE, -f32::MIN_POSITIVE] {
        assert_eq!(
            clamp_temperature(t.to_bits()),
            t.clamp(0.0, 2.0).to_bits(),
            "clamp of {t}"
        );
    }
    assert!(f32::from_bits(clamp_temperature(f32::NAN.to_bits())).is_nan());
    let c = build(None, None, bits(-3.0), None, None).unwrap();
    assert_eq!(f32::from_bits(c.temperature_bits), 0.0);
    assert_eq!(DEFAULT_TEMPERATURE_BITS, 0.3f32.to_bits());
}

#[test]
fn parse_u64_follows_from_str() {
    for s in ["0", "7", "+7", "00012", "18446744073709551615", "18446744073709551616", "", "+", "-1", " 5", "5 ", "1_000", "12a", "+-3", "99999999999999999999999"] {
        assert_eq!(parse_u64(s), s.parse::<u64>().ok(), "parse of {s:?}");
    }
}

#[test]
fn environment_values() {
    assert_eq!(env_value(Some("x".into())), Some("x".to_string()));
    assert_eq!(env_value(Some(String::new())), None);
    assert_eq!(env_value(None), None);
    assert_eq!(env_secs("GHOSTWRITER_TIMEOUT_SECS", None), Ok(None));
    assert_eq!(env_secs("GHOSTWRITER_TIMEOUT_SECS", Some("120".into())), Ok(Some(120)));
    assert_eq!(
        env_secs("GHOSTWRITER_TIMEOUT_SECS", Some("soon".into())),
        Err("GHOSTWRITER_TIMEOUT_SECS is not a number: soon".to_string())
    );
    assert_eq!(
        env_secs("GHOSTWRITER_IDLE_TIMEOUT_SECS", Some(String::new())),
        Err("GHOSTWRITER_IDLE_TIMEOUT_SECS is not a number: ".to_string())
    );
}

#[test]
fn explicit_config_must_exist() {
    let err = file_settings(true, "/tmp/ghostwriter-no-such-config.toml", ConfigFile::NotFound)
        .unwrap_err();
    assert!(err.contains("does not exist"), "unexpected error: {err}");
    assert_eq!(err, "config file /tmp/ghostwriter-no-such-config.toml does not exist");
}

#[test]
fn missing_default_file_keeps_the_defaults() {
    let s = file_settings(false, "/home/u/.config/ghostwriter/config.toml", ConfigFile::NotFound)
        .unwrap();
    assert!(s.base_url.is_none() && s.model.is_none() && s.timeout_secs.is_none());
    assert!(file_settings(false, "", ConfigFile::NoPath).unwrap().model.is_none());
    assert_eq!(
        file_settings(false, "c.toml", ConfigFile::Unreadable("permission denied".into())).unwrap_err(),
        "reading config file c.toml failed: permission denied"
    );
    assert_eq!(
        file_settings(true, "c.toml", ConfigFile::Unparseable("unknown field `mode1`".into())).unwrap_err(),
        "parsing config file c.toml failed: unknown field `mode1`"
    );
}

#[test]
fn environment_overrides_the_file() {
    let mut file = Settings::empty();
    file.model = Some("file-model".into());
    file.base_url = Some("http://file/v1".into());
    file.timeout_secs = Some(100);
    let mut env = Settings::empty();
    env.model = Some("env-model".into());
    env.idle_timeout_secs = Some(10);
    let c = resolve(env, file).unwrap();
    assert_eq!(c.model, "env-model");
    assert_eq!(c.base_url, "http://file/v1");
    assert_eq!(c.timeout.secs, 100);
    assert_eq!(c.idle_timeout.secs, 10);
    assert_eq!(c.temperature_bits, DEFAULT_TEMPERATURE_BITS);
}

/// A resolved configuration fed back through `build` comes out unchanged.
#[test]
fn rebuilding_a_resolved_config_is_a_fixpoint() {
    let c = build(Some("https://a/b/".into()), Some("m".into()), bits(7.5), Some(0), None);
    assert!(c.is_err()); // idle 60 >= timeout 1
    let c = build(Some("https://a/b/".into()), Some("m".into()), bits(7.5), Some(90), Some(3)).unwrap();
    let again = build(
        Some(c.base_url.clone()),
        Some(c.model.clone()),
        Some(c.temperature_bits),
        Some(c.timeout.secs),
        Some(c.idle_timeout.secs),
    )
    .unwrap();
    assert_eq!(again.base_url, c.base_url);
    assert_eq!(again.model, c.model);
    assert_eq!(again.temperature_bits, c.temperature_bits);
    assert_eq!(again.timeout, c.timeout);
    assert_eq!(again.idle_timeout, c.idle_timeout);
}
