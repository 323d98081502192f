use ccswitcher::config::{FlagConfig, ModelConfig, NetworkConfig, Preset, TimeoutConfig};
use ccswitcher::errors::AppError;
use ccswitcher::permissions::ensure_bash_permission_rule;
use ccswitcher::provider::ProviderKind;
use ccswitcher::settings::{apply_preset, reset_to_official};
use serde_json::Value;

const SETTINGS_PATH: &str = "/tmp/host/settings.json";

fn full_preset() -> Preset {
    Preset {
        provider: ProviderKind::Glm,
        base_url: "https://open.bigmodel.cn/api/anthropic".to_owned(),
        auth_token: "secret".to_owned(),
        models: ModelConfig {
            haiku_model: "GLM-4.7".to_owned(),
            sonnet_model: "GLM-4.7".to_owned(),
            opus_model: "GLM-4.7".to_owned(),
        },
        network: Some(NetworkConfig {
            http_proxy: Some("http://127.0.0.1:10809".to_owned()),
        }),
        timeouts: Some(TimeoutConfig {
            api_timeout_ms: Some("3000000".to_owned()),
            mcp_tool_timeout: Some("30000".to_owned()),
        }),
        flags: Some(FlagConfig {
            disable_nonessential_traffic: Some("true".to_owned()),
        }),
    }
}

fn bare_preset() -> Preset {
    Preset {
        provider: ProviderKind::Custom,
        base_url: "https://api.example.test".to_owned(),
        auth_token: "other".to_owned(),
        models: ModelConfig {
            haiku_model: "h".to_owned(),
            sonnet_model: "s".to_owned(),
            opus_model: "o".to_owned(),
        },
        network: None,
        timeouts: None,
        flags: None,
    }
}

fn parse(text: &str) -> Value {
    serde_json::from_str(text).expect("json")
}

const OVERRIDE_KEYS: [&str; 9] = [
    "ANTHROPIC_DEFAULT_HAIKU_MODEL",
    "ANTHROPIC_DEFAULT_SONNET_MODEL",
    "ANTHROPIC_DEFAULT_OPUS_MODEL",
    "ANTHROPIC_AUTH_TOKEN",
    "ANTHROPIC_BASE_URL",
    "API_TIMEOUT_MS",
    "MCP_TOOL_TIMEOUT",
    "CLAUDE_CODE_DISABLE_NONESSENTIAL_TRAFFIC",
    "HTTP_PROXY",
];

#[test]
fn apply_preset_preserves_non_env_fields_and_updates_env() {
    let settings = r#"{
  "enabledPlugins": {"foo": true},
  "env": {"OLD_KEY": "old-value"}
}"#;
    let preset = full_preset();

    let written = apply_preset(Some(settings), SETTINGS_PATH, &preset).expect("apply preset");
    let parsed = parse(&written);

    assert_eq!(parsed["enabledPlugins"]["foo"], Value::Bool(true));
    assert_eq!(parsed["env"]["ANTHROPIC_AUTH_TOKEN"], "secret");
    assert_eq!(
        parsed["env"]["ANTHROPIC_BASE_URL"],
        "https://open.bigmodel.cn/api/anthropic"
    );
    assert_eq!(parsed["env"]["MCP_TOOL_TIMEOUT"], "30000");
}

#[test]
fn reset_to_official_clears_only_override_keys() {
    let settings = r#"{
  "enabledPlugins": {"foo": true},
  "env": {
    "ANTHROPIC_AUTH_TOKEN": "x",
    "ANTHROPIC_BASE_URL": "https://open.bigmodel.cn/api/anthropic",
    "ANTHROPIC_DEFAULT_SONNET_MODEL": "GLM-4.7",
    "EXISTING_KEY": "keep-me"
  }
}"#;

    let written = reset_to_official(Some(settings), SETTINGS_PATH).expect("reset");
    let parsed = parse(&written);

    assert_eq!(parsed["enabledPlugins"]["foo"], Value::Bool(true));
    assert_eq!(
        parsed["env"]["EXISTING_KEY"],
        Value::String("keep-me".to_owned())
    );
    assert_eq!(parsed["env"]["ANTHROPIC_AUTH_TOKEN"], Value::Null);
    assert_eq!(parsed["env"]["ANTHROPIC_BASE_URL"], Value::Null);
    assert_eq!(parsed["env"]["ANTHROPIC_DEFAULT_SONNET_MODEL"], Value::Null);
}

#[test]
fn apply_preset_writes_every_table_entry() {
    let written = apply_preset(Some("{}"), SETTINGS_PATH, &full_preset()).expect("apply");
    let env = parse(&written)["env"].clone();
    assert_eq!(env["ANTHROPIC_DEFAULT_HAIKU_MODEL"], "GLM-4.7");
    assert_eq!(env["ANTHROPIC_DEFAULT_SONNET_MODEL"], "GLM-4.7");
    assert_eq!(env["ANTHROPIC_DEFAULT_OPUS_MODEL"], "GLM-4.7");
    assert_eq!(env["ANTHROPIC_AUTH_TOKEN"], "secret");
    assert_eq!(env["ANTHROPIC_BASE_URL"], "https://open.bigmodel.cn/api/anthropic");
    assert_eq!(env["HTTP_PROXY"], "http://127.0.0.1:10809");
    assert_eq!(env["API_TIMEOUT_MS"], "3000000");
    assert_eq!(env["MCP_TOOL_TIMEOUT"], "30000");
    assert_eq!(env["CLAUDE_CODE_DISABLE_NONESSENTIAL_TRAFFIC"], "true");
    assert_eq!(env.as_object().expect("env object").len(), 9);
}

#[test]
fn apply_preset_clears_optional_keys_of_previous_preset() {
    let first = apply_preset(Some(r#"{"env": {"KEEP": 7}}"#), SETTINGS_PATH, &full_preset())
        .expect("first apply");
    let second = apply_preset(Some(&first), SETTINGS_PATH, &bare_preset()).expect("second apply");
    let env = parse(&second)["env"].clone();
    let env = env.as_object().expect("env object");
    assert!(!env.contains_key("HTTP_PROXY"));
    assert!(!env.contains_key("API_TIMEOUT_MS"));
    assert!(!env.contains_key("MCP_TOOL_TIMEOUT"));
    assert!(!env.contains_key("CLAUDE_CODE_DISABLE_NONESSENTIAL_TRAFFIC"));
    assert_eq!(env["ANTHROPIC_AUTH_TOKEN"], "other");
    assert_eq!(env["ANTHROPIC_DEFAULT_OPUS_MODEL"], "o");
    assert_eq!(env["KEEP"], 7);

    let direct = apply_preset(Some(r#"{"env": {"KEEP": 7}}"#), SETTINGS_PATH, &bare_preset())
        .expect("direct apply");
    assert_eq!(parse(&second), parse(&direct));
}

#[test]
fn apply_preset_without_settings_file_starts_from_empty_env() {
    let written = apply_preset(None, SETTINGS_PATH, &bare_preset()).expect("apply");
    let parsed = parse(&written);
    let root = parsed.as_object().expect("root object");
    assert_eq!(root.len(), 1);
    assert_eq!(parsed["env"]["ANTHROPIC_BASE_URL"], "https://api.example.test");
    assert_eq!(parsed["env"].as_object().expect("env").len(), 5);
}

#[test]
fn apply_preset_rejects_non_object_root() {
    match apply_preset(Some("[1, 2]"), SETTINGS_PATH, &bare_preset()) {
        Err(AppError::InvalidJsonRoot { path }) => assert_eq!(path, SETTINGS_PATH),
        other => panic!("unexpected {other:?}"),
    }
}

#[test]
fn apply_preset_rejects_non_object_env() {
    match apply_preset(Some(r#"{"env": "text"}"#), SETTINGS_PATH, &bare_preset()) {
        Err(AppError::InvalidJsonRoot { path }) => assert_eq!(path, SETTINGS_PATH),
        other => panic!("unexpected {other:?}"),
    }
    match reset_to_official(Some(r#"{"env": [1]}"#), SETTINGS_PATH) {
        Err(AppError::InvalidJsonRoot { .. }) => {}
        other => panic!("unexpected {other:?}"),
    }
}

#[test]
fn apply_preset_reports_malformed_json() {
    match apply_preset(Some("{ not json"), SETTINGS_PATH, &bare_preset()) {
        Err(AppError::Json { path, .. }) => assert_eq!(path, SETTINGS_PATH),
        other => panic!("unexpected {other:?}"),
    }
}

#[test]
fn reset_removes_all_nine_keys_and_keeps_existing_key() {
    let mut env = serde_json::Map::new();
    for key in OVERRIDE_KEYS {
        env.insert(key.to_owned(), Value::String("v".to_owned()));
    }
    env.insert("EXISTING_KEY".to_owned(), Value::String("keep-me".to_owned()));
    let mut root = serde_json::Map::new();
    root.insert("env".to_owned(), Value::Object(env));
    root.insert("theme".to_owned(), Value::String("dark".to_owned()));
    let text = serde_json::to_string(&Value::Object(root)).expect("text");

    let written = reset_to_official(Some(&text), SETTINGS_PATH).expect("reset");
    let parsed = parse(&written);
    let env = parsed["env"].as_object().expect("env");
    for key in OVERRIDE_KEYS {
        assert!(!env.contains_key(key), "{key} left behind");
    }
    assert_eq!(env.len(), 1);
    assert_eq!(env["EXISTING_KEY"], "keep-me");
    assert_eq!(parsed["theme"], "dark");
}

#[test]
fn reset_without_settings_file_writes_empty_env() {
    let written = reset_to_official(None, SETTINGS_PATH).expect("reset");
    let parsed = parse(&written);
    assert_eq!(parsed["env"].as_object().expect("env").len(), 0);
}

#[test]
fn written_settings_are_indented_json() {
    let written = reset_to_official(Some(r#"{"a":{"b":1}}"#), SETTINGS_PATH).expect("reset");
    assert!(written.contains("\n  \"a\": {"));
    assert!(written.contains("\"env\": {}"));
}

#[test]
fn permission_rule_added_once() {
    let written = ensure_bash_permission_rule(None, "/tmp/host/settings.local.json")
        .expect("first install");
    let parsed = parse(&written);
    assert_eq!(parsed["permissions"]["allow"], parse(r#"["Bash(ccswitcher:*)"]"#));
    assert_eq!(parsed["permissions"]["deny"], parse("[]"));
    assert_eq!(parsed["permissions"]["ask"], parse("[]"));

    let again = ensure_bash_permission_rule(Some(&written), "/tmp/host/settings.local.json")
        .expect("second install");
    assert_eq!(parse(&again), parsed);
}

#[test]
fn permission_rule_keeps_other_rules_and_lists() {
    let text = r#"{"model": "x", "permissions": {"allow": ["Read(*)", 3], "deny": ["Bash(rm:*)"], "ask": "keep"}}"#;
    let written = ensure_bash_permission_rule(Some(text), "local.json").expect("install");
    let parsed = parse(&written);
    assert_eq!(parsed["model"], "x");
    assert_eq!(
        parsed["permissions"]["allow"],
        parse(r#"["Read(*)", 3, "Bash(ccswitcher:*)"]"#)
    );
    assert_eq!(parsed["permissions"]["deny"], parse(r#"["Bash(rm:*)"]"#));
    assert_eq!(parsed["permissions"]["ask"], "keep");
}

#[test]
fn permission_rule_rejects_wrong_kinds() {
    for text in ["3", r#"{"permissions": []}"#, r#"{"permissions": {"allow": {}}}"#] {
        match ensure_bash_permission_rule(Some(text), "local.json") {
            Err(AppError::InvalidJsonRoot { path }) => assert_eq!(path, "local.json"),
            other => panic!("unexpected {other:?} for {text}"),
        }
    }
    match ensure_bash_permission_rule(Some("{"), "local.json") {
        Err(AppError::Json { .. }) => {}
        other => panic!("unexpected {other:?}"),
    }
}
