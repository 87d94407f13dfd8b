use handyx::config::{AppConfig, EngineType, Secrets, ShortcutMode};

fn sample_config() -> AppConfig {
    AppConfig::default()
}

#[test]
fn engine_names_parse_loosely() {
    assert_eq!(EngineType::from_str_loose("groq"), Some(EngineType::GroqTurbo));
    assert_eq!(EngineType::from_str_loose("  GROQ-Turbo \n"), Some(EngineType::GroqTurbo));
    assert_eq!(EngineType::from_str_loose("whisper"), Some(EngineType::GroqTurbo));
    assert_eq!(EngineType::from_str_loose("Moonshine-English"), Some(EngineType::MoonshineEn));
    assert_eq!(EngineType::from_str_loose("en"), Some(EngineType::MoonshineEn));
    assert_eq!(EngineType::from_str_loose("moonshine_es"), Some(EngineType::MoonshineEs));
    assert_eq!(EngineType::from_str_loose("ES"), Some(EngineType::MoonshineEs));
    assert_eq!(EngineType::from_str_loose("moonshine"), None);
    assert_eq!(EngineType::from_str_loose(""), None);
}

#[test]
fn engine_rotation_cycles_through_three() {
    let e = EngineType::GroqTurbo;
    assert_eq!(e.next(), EngineType::MoonshineEn);
    assert_eq!(e.next().next(), EngineType::MoonshineEs);
    assert_eq!(e.next().next().next(), EngineType::GroqTurbo);
}

#[test]
fn engine_labels() {
    assert_eq!(EngineType::GroqTurbo.badge_label(), "Groq Turbo (Auto)");
    assert_eq!(EngineType::MoonshineEn.badge_label(), "Moonshine (EN)");
    assert_eq!(EngineType::MoonshineEs.badge_label(), "Moonshine (ES)");
    assert_eq!(EngineType::GroqTurbo.display_name(), "Groq Whisper Turbo (Auto)");
    assert_eq!(EngineType::MoonshineEs.display_name(), "Moonshine Base (Español)");
    assert_eq!(EngineType::MoonshineEn.variant_name(), "MoonshineEn");
    assert_eq!(EngineType::MoonshineEs.config_name(), "moonshine-es");
    for e in [EngineType::GroqTurbo, EngineType::MoonshineEn, EngineType::MoonshineEs] {
        assert_eq!(EngineType::from_str_loose(&e.config_name()), Some(e));
    }
}

#[test]
fn shortcut_modes() {
    assert_eq!(ShortcutMode::default(), ShortcutMode::Hybrid);
    assert_eq!(ShortcutMode::from_name("hold"), Some(ShortcutMode::Hold));
    assert_eq!(ShortcutMode::from_name("HOLD"), None);
    assert_eq!(ShortcutMode::from_str_ci("HOLD"), Some(ShortcutMode::Hold));
    assert_eq!(ShortcutMode::from_str_ci("tap"), None);
    assert_eq!(
        ShortcutMode::Toggle.display_name(),
        "Toggle (Press to start, press to stop)"
    );
}

#[test]
fn defaults_match_the_readme() {
    let c = sample_config();
    assert_eq!(c.engine, EngineType::GroqTurbo);
    assert_eq!(c.groq_model, "whisper-large-v3-turbo");
    assert_eq!(c.shortcut, "<Control><Shift>space");
    assert_eq!(c.shortcut_mode, ShortcutMode::Hybrid);
    assert_eq!(c.paste_method, "auto");
    assert_eq!(c.audio_sample_rate, 16000);
    assert!(c.auto_paste);
    assert_eq!(c.paste_delay_ms, 60);
    assert!(c.pause_media_on_record);
    assert!(c.enable_ai_polish);
    assert_eq!(c.openrouter_model, "openai/gpt-5.6-luna");
    assert!(c.save_history && c.save_audio);
    assert!(c.history_dir.is_none());
    assert!(c.groq_api_key.is_empty() && c.openrouter_api_key.is_empty());
}

#[test]
fn paths_of_the_configuration() {
    let base = AppConfig::base_dir(Some("/home/ana"));
    assert_eq!(base, "/home/ana/.config/handyx");
    assert_eq!(AppConfig::base_dir(None), "./.config/handyx");
    assert_eq!(AppConfig::config_path(&base), "/home/ana/.config/handyx/config.toml");
    assert_eq!(AppConfig::secrets_path(&base), "/home/ana/.config/handyx/secrets.toml");
    assert_eq!(AppConfig::legacy_dir(Some("/home/ana")), "/home/ana/.config/hadyx");
    assert!(AppConfig::should_migrate(true, false));
    assert!(!AppConfig::should_migrate(true, true));
    assert!(!AppConfig::should_migrate(false, false));
}

#[test]
fn load_takes_keys_from_secrets_then_environment() {
    let secrets = Secrets { groq_api_key: "gsk_secret".to_string(), openrouter_api_key: "  ".to_string() };
    let c = AppConfig::load(None, &secrets, Some("gsk_env"), Some("sk-or-env"));
    assert_eq!(c.groq_api_key, "gsk_secret");
    assert_eq!(c.openrouter_api_key, "sk-or-env");
    assert_eq!(c.engine, EngineType::GroqTurbo);

    let mut parsed = AppConfig::default();
    parsed.groq_api_key = "gsk_config".to_string();
    parsed.engine = EngineType::MoonshineEs;
    let c = AppConfig::load(Some(parsed), &secrets, Some("gsk_env"), None);
    assert_eq!(c.groq_api_key, "gsk_config");
    assert_eq!(c.openrouter_api_key, "");
    assert_eq!(c.engine, EngineType::MoonshineEs);
}

#[test]
fn load_secrets_defaults_to_empty() {
    let s = AppConfig::load_secrets(None);
    assert!(s.groq_api_key.is_empty() && s.openrouter_api_key.is_empty());
    let s = AppConfig::load_secrets(Some(Secrets { groq_api_key: "a".into(), openrouter_api_key: "b".into() }));
    assert_eq!(s.groq_api_key, "a");
    assert_eq!(s.openrouter_api_key, "b");
}

#[test]
fn saving_keeps_keys_that_load_back() {
    let mut c = AppConfig::default();
    c.groq_api_key = "gsk_new".to_string();
    c.openrouter_api_key = "   ".to_string();
    let existing = Secrets { groq_api_key: "gsk_old".into(), openrouter_api_key: "sk-or-old".into() };
    let saved = c.merged_secrets(existing);
    assert_eq!(saved.groq_api_key, "gsk_new");
    assert_eq!(saved.openrouter_api_key, "sk-or-old");
    let loaded = AppConfig::load(Some(c), &saved, None, None);
    assert_eq!(loaded.groq_api_key, "gsk_new");
    assert_eq!(loaded.openrouter_api_key, "sk-or-old");
}

#[test]
fn default_value_functions() {
    assert_eq!(handyx::config::default_groq_model(), "whisper-large-v3-turbo");
    assert_eq!(handyx::config::default_shortcut(), "<Control><Shift>space");
    assert_eq!(handyx::config::default_paste_method(), "auto");
    assert_eq!(handyx::config::default_sample_rate(), 16000);
    assert_eq!(handyx::config::default_paste_delay(), 60);
    assert_eq!(handyx::config::default_openrouter_model(), "openai/gpt-5.6-luna");
    assert!(handyx::config::default_true());
}

#[test]
fn engine_keywords_are_exact() {
    assert_eq!(EngineType::from_keyword("groq"), Some(EngineType::GroqTurbo));
    assert_eq!(EngineType::from_keyword("moonshine-spanish"), Some(EngineType::MoonshineEs));
    assert_eq!(EngineType::from_keyword("GROQ"), None);
    assert_eq!(EngineType::from_keyword(" groq"), None);
}
