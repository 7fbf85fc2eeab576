use openclaw_linux::encoding::{hex_encode, token_from_random};
use openclaw_linux::env::{Env, join_path};
use openclaw_linux::logging::{LogLevel, resolve_level};
use openclaw_linux::settings::{AppSettings, CURRENT_ONBOARDING_VERSION};

fn env_of(vars: &[(&str, &str)]) -> Env {
    let mut env = Env::empty();
    for (k, v) in vars {
        env.push(k.to_string(), v.to_string());
    }
    env
}

#[test]
fn onboarding_is_due_until_marked_seen() {
    let mut settings = AppSettings::default();
    assert!(settings.should_show_onboarding());
    settings.mark_onboarding_seen();
    assert!(!settings.should_show_onboarding());
    assert_eq!(settings.onboarding_version, CURRENT_ONBOARDING_VERSION);
    assert!(settings.canvas_enabled);
}

#[test]
fn settings_file_lives_in_the_state_dir() {
    assert_eq!(AppSettings::path(&env_of(&[("OPENCLAW_STATE_DIR", "/s")])), "/s/linux-app.json");
    assert_eq!(AppSettings::path(&env_of(&[("HOME", "/h")])), "/h/.openclaw/linux-app.json");
}

#[test]
fn log_level_from_environment() {
    assert_eq!(resolve_level(&Env::empty()), LogLevel::Info);
    assert_eq!(resolve_level(&env_of(&[("OPENCLAW_LOG_LEVEL", " DEBUG ")])), LogLevel::Debug);
    assert_eq!(resolve_level(&env_of(&[("OPENCLAW_LOG_LEVEL", "Warning")])), LogLevel::Warn);
    assert_eq!(resolve_level(&env_of(&[("OPENCLAW_LOG_LEVEL", "off")])), LogLevel::Off);
    assert_eq!(resolve_level(&env_of(&[("OPENCLAW_LOG_LEVEL", "loud")])), LogLevel::Info);
}

#[test]
fn first_variable_of_a_name_wins() {
    let env = env_of(&[("A", "1"), ("A", "2")]);
    assert_eq!(env.var("A"), Some("1".to_string()));
    assert_eq!(env.var("B"), None);
    assert_eq!(env_of(&[("A", "  ")]).var_trimmed("A"), None);
}

#[test]
fn paths_join_with_one_slash() {
    assert_eq!(join_path("/a", "b"), "/a/b");
    assert_eq!(join_path("/a/", "b"), "/a/b");
}

#[test]
fn encodings() {
    assert_eq!(hex_encode(&[0x00, 0xab, 0x10]), "00ab10");
    assert_eq!(token_from_random(&[]), "");
    assert_eq!(token_from_random(&[0x00]), "AA");
    assert_eq!(token_from_random(&[0xff, 0xff]), "__8");
}
