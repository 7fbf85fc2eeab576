use openclaw_linux::config::{
    GatewayConnectionUpdate, GatewayMode, LocalAuth, apply_connection_update,
    config_file_candidates, config_save_path, expand_env_value, install_local_auth_token,
    load_config_root, load_gateway_config, local_auth_state, override_config_path,
    resolve_config_path,
};
use openclaw_linux::encoding::token_from_random;
use openclaw_linux::env::{Env, expand_user_path, resolve_state_dir};
use openclaw_linux::json::{JsonValue, empty_object, merge_into};

fn env_of(vars: &[(&str, &str)]) -> Env {
    let mut env = Env::empty();
    for (k, v) in vars {
        env.push(k.to_string(), v.to_string());
    }
    env
}

#[test]
fn remote_mode_uses_remote_url() {
    let text = r#"
            {
              "gateway": {
                "mode": "remote",
                "remote": {
                  "url": "wss://gateway.example.ts.net:443"
                }
              }
            }
            "#;
    let env = env_of(&[("OPENCLAW_STATE_DIR", "/tmp/remote-url")]);
    let root = load_config_root(Some(text), None);
    let cfg = load_gateway_config(&env, &root);
    assert_eq!(cfg.mode, GatewayMode::Remote);
    assert_eq!(cfg.url.as_deref(), Some("wss://gateway.example.ts.net:443"));
}

#[test]
fn unconfigured_mode_has_no_gateway_url() {
    let text = r#"
            {
              "gateway": {
                "mode": "unconfigured"
              }
            }
            "#;
    let env = env_of(&[("OPENCLAW_STATE_DIR", "/tmp/unconfigured")]);
    let root = load_config_root(Some(text), None);
    let cfg = load_gateway_config(&env, &root);
    assert_eq!(cfg.mode, GatewayMode::Unconfigured);
    assert_eq!(cfg.url, None);
}

#[test]
fn local_mode_ignores_node_json_fallback() {
    let text = r#"
            {
              "gateway": {
                "mode": "local",
                "port": 18789
              }
            }
            "#;
    let env = env_of(&[("OPENCLAW_STATE_DIR", "/tmp/ignore-node-json")]);
    let candidates = config_file_candidates(&env);
    assert!(candidates.iter().all(|c| !c.ends_with("node.json")));
    let root = load_config_root(Some(text), None);
    let cfg = load_gateway_config(&env, &root);
    assert_eq!(cfg.mode, GatewayMode::Local);
    assert_eq!(cfg.url.as_deref(), Some("ws://127.0.0.1:18789"));
}

#[test]
fn read_only_primary_config_writes_linux_override() {
    let dir = "/tmp/readonly-primary";
    let link = format!("{dir}/openclaw.json");
    let env = env_of(&[("OPENCLAW_STATE_DIR", dir), ("OPENCLAW_CONFIG_PATH", link.as_str())]);
    let primary = r#"{"gateway":{"mode":"local","port":18789}}"#;

    let update = GatewayConnectionUpdate {
        mode: GatewayMode::Remote,
        remote_url: Some("wss://gateway.example.ts.net".to_string()),
        remote_target: None,
        remote_identity: None,
    };
    // The primary file is written first; where it is read-only the same
    // document goes to the override file.
    assert_eq!(config_save_path(&env, &vec![]), link);
    let override_path = override_config_path(&env);
    assert_eq!(override_path, format!("{dir}/openclaw.linux-app.json"));
    let written = apply_connection_update(load_config_root(Some(primary), None), &update);

    let mut merged = load_config_root(Some(primary), None);
    merge_into(&mut merged, written);
    let cfg = load_gateway_config(&env, &merged);
    assert_eq!(cfg.mode, GatewayMode::Remote);
    assert_eq!(cfg.url.as_deref(), Some("wss://gateway.example.ts.net"));
}

#[test]
fn saved_connection_reads_back() {
    let env = Env::empty();
    let update = GatewayConnectionUpdate {
        mode: GatewayMode::Remote,
        remote_url: Some("  wss://gw.example  ".to_string()),
        remote_target: Some("   ".to_string()),
        remote_identity: Some("id_ed25519".to_string()),
    };
    let written = apply_connection_update(empty_object(), &update);
    let cfg = load_gateway_config(&env, &written);
    assert_eq!(cfg.mode, GatewayMode::Remote);
    assert_eq!(cfg.remote_url.as_deref(), Some("wss://gw.example"));
    assert_eq!(cfg.remote_target, None);
    assert_eq!(cfg.remote_identity.as_deref(), Some("id_ed25519"));

    let local = GatewayConnectionUpdate { mode: GatewayMode::Local, ..Default::default() };
    let written = apply_connection_update(written, &local);
    let cfg = load_gateway_config(&env, &written);
    assert_eq!(cfg.mode, GatewayMode::Local);
}

#[test]
fn override_file_is_merged_over_primary() {
    let env = Env::empty();
    let root = load_config_root(
        Some(r#"{gateway: {mode: "local", port: 18789, bind: "custom", customBindHost: "10.0.0.2"}}"#),
        Some(r#"{"gateway": {"port": 19000}}"#),
    );
    let cfg = load_gateway_config(&env, &root);
    assert_eq!(cfg.mode, GatewayMode::Local);
    assert_eq!(cfg.port, 19000);
    assert_eq!(cfg.url.as_deref(), Some("ws://10.0.0.2:19000"));
}

#[test]
fn unreadable_files_count_as_empty() {
    let root = load_config_root(Some("not json at all {"), Some("also [ broken"));
    assert_eq!(root, empty_object());
    let cfg = load_gateway_config(&Env::empty(), &root);
    assert_eq!(cfg.mode, GatewayMode::Unconfigured);
    assert_eq!(cfg.port, 18789);
}

#[test]
fn environment_overrides_config_values() {
    let env = env_of(&[
        ("OPENCLAW_GATEWAY_URL", " ws://override:1 "),
        ("OPENCLAW_GATEWAY_TOKEN", "tok"),
        ("OPENCLAW_GATEWAY_PORT", "2000"),
    ]);
    let root = load_config_root(Some(r#"{"gateway":{"mode":"local","auth":{"token":"cfg","password":"pw"}}}"#), None);
    let cfg = load_gateway_config(&env, &root);
    assert_eq!(cfg.url.as_deref(), Some("ws://override:1"));
    assert_eq!(cfg.token.as_deref(), Some("tok"));
    assert_eq!(cfg.password.as_deref(), Some("pw"));
    assert_eq!(cfg.port, 2000);
}

#[test]
fn secrets_in_remote_mode_come_from_the_remote_section() {
    let env = env_of(&[("REMOTE_TOKEN", " secret ")]);
    let root = load_config_root(
        Some(r#"{"gateway":{"mode":"remote","remote":{"url":"wss://r","token":"${REMOTE_TOKEN}"},"auth":{"token":"local"}}}"#),
        None,
    );
    let cfg = load_gateway_config(&env, &root);
    assert_eq!(cfg.token.as_deref(), Some("secret"));
    assert_eq!(cfg.url.as_deref(), Some("wss://r"));
}

#[test]
fn mode_falls_back_to_remote_when_a_remote_url_is_set() {
    let root = load_config_root(Some(r#"{"gateway":{"mode":"bogus","remote":{"url":"wss://x"}}}"#), None);
    let cfg = load_gateway_config(&Env::empty(), &root);
    assert_eq!(cfg.mode, GatewayMode::Remote);
    let root = load_config_root(Some(r#"{"gateway":{"port":70000}}"#), None);
    let cfg = load_gateway_config(&Env::empty(), &root);
    assert_eq!(cfg.mode, GatewayMode::Unconfigured);
    assert_eq!(cfg.port, 18789);
}

#[test]
fn env_value_expansion() {
    let env = env_of(&[("A", " value "), ("EMPTY", "  ")]);
    assert_eq!(expand_env_value(&env, Some(" ${A} ".to_string())), Some("value".to_string()));
    assert_eq!(expand_env_value(&env, Some("${EMPTY}".to_string())), None);
    assert_eq!(expand_env_value(&env, Some("${MISSING}".to_string())), None);
    assert_eq!(expand_env_value(&env, Some(" plain ".to_string())), Some(" plain ".to_string()));
    assert_eq!(expand_env_value(&env, None), None);
}

#[test]
fn config_path_resolution() {
    let env = env_of(&[("HOME", "/home/u")]);
    let candidates = config_file_candidates(&env);
    assert_eq!(candidates.len(), 16);
    assert_eq!(candidates[0], "/home/u/.openclaw/openclaw.json");
    assert_eq!(candidates[5], "/home/u/.clawdbot/clawdbot.json");
    let mut exists = vec![false; 16];
    assert_eq!(resolve_config_path(&env, &exists), Some("/home/u/.openclaw/openclaw.json".to_string()));
    exists[5] = true;
    assert_eq!(resolve_config_path(&env, &exists), Some("/home/u/.clawdbot/clawdbot.json".to_string()));
    let env = env_of(&[("HOME", "/home/u"), ("CLAWDBOT_CONFIG_PATH", "~/cfg.json")]);
    assert_eq!(resolve_config_path(&env, &vec![]), Some("/home/u/cfg.json".to_string()));
    assert_eq!(resolve_config_path(&Env::empty(), &vec![]), None);
    assert_eq!(config_save_path(&Env::empty(), &vec![]), "./openclaw.json");
}

#[test]
fn state_dir_resolution() {
    assert_eq!(resolve_state_dir(&env_of(&[("HOME", "/h")])), "/h/.openclaw");
    assert_eq!(resolve_state_dir(&env_of(&[("HOME", "/h"), ("CLAWDBOT_STATE_DIR", "~/s")])), "/h/s");
    assert_eq!(resolve_state_dir(&Env::empty()), ".");
    assert_eq!(expand_user_path(&env_of(&[("HOME", "/h")]), "~/x"), "/h/x");
    assert_eq!(expand_user_path(&Env::empty(), "~/x"), "~/x");
}

#[test]
fn generated_token_is_installed_and_read_back() {
    let root = load_config_root(Some(r#"{"gateway":{"mode":"local"}}"#), None);
    assert!(matches!(local_auth_state(&root), LocalAuth::Missing));
    let token = token_from_random(&[0xfb, 0xff, 0x00, 0x10]);
    assert_eq!(token, "-_8AEA");
    let root = install_local_auth_token(root, &token);
    match local_auth_state(&root) {
        LocalAuth::Token(t) => assert_eq!(t, token),
        _ => panic!("token expected"),
    }
    let with_password = load_config_root(Some(r#"{"gateway":{"auth":{"password":" pw "}}}"#), None);
    assert!(matches!(local_auth_state(&with_password), LocalAuth::Password));
    let value = JsonValue::Null;
    assert!(matches!(local_auth_state(&value), LocalAuth::Missing));
}

#[test]
fn saved_connection_keeps_other_keys() {
    let root = load_config_root(
        Some(r#"{"agents":{"x":1},"gateway":{"mode":"local","port":18789,"remote":{"url":"wss://old","token":"t"}}}"#),
        None,
    );
    let update = GatewayConnectionUpdate {
        mode: GatewayMode::Remote,
        remote_url: Some("wss://new".to_string()),
        remote_target: None,
        remote_identity: None,
    };
    let written = apply_connection_update(root.clone(), &update);
    assert_eq!(written.get("agents"), root.get("agents"));
    let gateway = written.get("gateway").unwrap();
    assert_eq!(gateway.get("port"), root.get("gateway").unwrap().get("port"));
    assert_eq!(gateway.get("mode").and_then(|m| m.as_str()).map(|m| m.to_string()), Some("remote".to_string()));
    let remote = gateway.get("remote").unwrap();
    assert_eq!(remote.get("token").and_then(|t| t.as_str()).map(|t| t.to_string()), Some("t".to_string()));
    assert_eq!(remote.get("url").and_then(|t| t.as_str()).map(|t| t.to_string()), Some("wss://new".to_string()));
}

#[test]
fn token_of_thirty_two_bytes_has_forty_three_url_safe_chars() {
    let bytes: Vec<u8> = (0u8..32).map(|i| i.wrapping_mul(37).wrapping_add(250)).collect();
    let token = token_from_random(&bytes);
    assert_eq!(token.len(), 43);
    assert!(token.chars().all(|c| c.is_ascii_alphanumeric() || c == '-' || c == '_'));
}
