use ccswitcher::cli::AddArgs;
use ccswitcher::commands::{add_preset, remove_preset, reset_official, use_preset};
use ccswitcher::config::load_or_init;
use ccswitcher::errors::AppError;
use ccswitcher::paths::AppPaths;
use ccswitcher::provider::ProviderKind;
use serde_json::Value;

const SETTINGS_PATH: &str = "/tmp/host-home/settings.json";

fn team_glm_args(with_timeouts: bool) -> AddArgs {
    AddArgs {
        name: "team-glm".to_owned(),
        provider: ProviderKind::Glm,
        base_url: "https://open.bigmodel.cn/api/anthropic".to_owned(),
        auth_token: "token-123".to_owned(),
        haiku: "GLM-4.7".to_owned(),
        sonnet: "GLM-4.7".to_owned(),
        opus: "GLM-4.7".to_owned(),
        http_proxy: None,
        api_timeout_ms: if with_timeouts { Some("3000000".to_owned()) } else { None },
        mcp_tool_timeout: if with_timeouts { Some("30000".to_owned()) } else { None },
        disable_nonessential_traffic: None,
    }
}

#[test]
fn add_use_current_flow_updates_settings_and_preserves_other_fields() {
    let seed = r#"{
  "enabledPlugins": {"existing-plugin": true},
  "alwaysThinkingEnabled": true,
  "env": {
    "EXISTING_KEY": "existing-value"
  }
}"#;
    let mut cfg = load_or_init(None).expect("first run");

    let name = add_preset(&mut cfg, team_glm_args(true)).expect("add");
    assert_eq!(name, "team-glm");
    assert!(cfg.presets.contains_key("team-glm"));

    let written = use_preset(&mut cfg, "team-glm", Some(seed), SETTINGS_PATH).expect("use");
    assert!(cfg.is_active("team-glm"));

    let current = cfg.current_preset().expect("current").expect("active preset");
    assert_eq!(current.provider.tag(), "glm");

    let settings: Value = serde_json::from_str(&written).expect("valid settings json");
    assert_eq!(
        settings["enabledPlugins"]["existing-plugin"],
        Value::Bool(true)
    );
    assert_eq!(settings["alwaysThinkingEnabled"], Value::Bool(true));
    assert_eq!(
        settings["env"]["ANTHROPIC_BASE_URL"],
        Value::String("https://open.bigmodel.cn/api/anthropic".to_owned())
    );
    assert_eq!(
        settings["env"]["ANTHROPIC_AUTH_TOKEN"],
        Value::String("token-123".to_owned())
    );
    assert_eq!(
        settings["env"]["ANTHROPIC_DEFAULT_SONNET_MODEL"],
        Value::String("GLM-4.7".to_owned())
    );
    assert_eq!(
        settings["env"]["MCP_TOOL_TIMEOUT"],
        Value::String("30000".to_owned())
    );

    let env_map = settings["env"].as_object().expect("env object");
    assert!(!env_map.contains_key("HTTP_PROXY"));
    assert_eq!(env_map["EXISTING_KEY"], "existing-value");
}

#[test]
fn remove_active_preset_fails() {
    let mut cfg = load_or_init(None).expect("first run");
    add_preset(&mut cfg, team_glm_args(false)).expect("add");
    use_preset(&mut cfg, "team-glm", None, SETTINGS_PATH).expect("use");

    let err = remove_preset(&mut cfg, "team-glm").expect_err("remove must fail");
    match err {
        AppError::CannotRemoveActivePreset(name) => assert_eq!(name, "team-glm"),
        other => panic!("unexpected {other:?}"),
    }
    assert!(cfg.is_active("team-glm"));
    assert_eq!(cfg.presets.len(), 2);
    assert!(cfg.presets.contains_key("team-glm"));
}

#[test]
fn first_run_store_has_builtin_glm_only() {
    let cfg = load_or_init(None).expect("first run");
    assert_eq!(cfg.version, 1);
    assert_eq!(cfg.active_preset, None);
    let names: Vec<&str> = cfg.presets.entries().iter().map(|(n, _)| n.as_str()).collect();
    assert_eq!(names, vec!["glm"]);
    assert_eq!(cfg.presets.get("glm").expect("glm").auth_token, "");
}

#[test]
fn add_existing_name_fails_and_keeps_store() {
    let mut cfg = load_or_init(None).expect("first run");
    add_preset(&mut cfg, team_glm_args(false)).expect("add");
    let mut again = team_glm_args(true);
    again.name = "  team-glm ".to_owned();
    match add_preset(&mut cfg, again) {
        Err(AppError::PresetAlreadyExists(name)) => assert_eq!(name, "team-glm"),
        other => panic!("unexpected {other:?}"),
    }
    assert!(cfg.presets.get("team-glm").expect("kept").timeouts.is_none());
}

#[test]
fn add_incomplete_preset_fails_without_inserting() {
    let mut cfg = load_or_init(None).expect("first run");
    let mut args = team_glm_args(false);
    args.auth_token = "   ".to_owned();
    match add_preset(&mut cfg, args) {
        Err(AppError::PresetIncomplete { preset, field }) => {
            assert_eq!(preset, "team-glm");
            assert_eq!(field, "auth_token");
        }
        other => panic!("unexpected {other:?}"),
    }
    assert!(!cfg.presets.contains_key("team-glm"));
}

#[test]
fn use_unknown_preset_fails() {
    let mut cfg = load_or_init(None).expect("first run");
    match use_preset(&mut cfg, "nope", None, SETTINGS_PATH) {
        Err(AppError::PresetNotFound(name)) => assert_eq!(name, "nope"),
        other => panic!("unexpected {other:?}"),
    }
    assert!(cfg.active_preset.is_none());
}

#[test]
fn use_builtin_without_token_fails_incomplete() {
    let mut cfg = load_or_init(None).expect("first run");
    match use_preset(&mut cfg, "glm", None, SETTINGS_PATH) {
        Err(AppError::PresetIncomplete { preset, field }) => {
            assert_eq!(preset, "glm");
            assert_eq!(field, "auth_token");
        }
        other => panic!("unexpected {other:?}"),
    }
    assert!(cfg.active_preset.is_none());
}

#[test]
fn use_with_broken_settings_leaves_store_inactive() {
    let mut cfg = load_or_init(None).expect("first run");
    add_preset(&mut cfg, team_glm_args(false)).expect("add");
    match use_preset(&mut cfg, "team-glm", Some("[]"), SETTINGS_PATH) {
        Err(AppError::InvalidJsonRoot { .. }) => {}
        other => panic!("unexpected {other:?}"),
    }
    assert!(cfg.active_preset.is_none());
}

#[test]
fn remove_inactive_and_unknown_presets() {
    let mut cfg = load_or_init(None).expect("first run");
    add_preset(&mut cfg, team_glm_args(false)).expect("add");
    remove_preset(&mut cfg, "team-glm").expect("remove");
    assert!(!cfg.presets.contains_key("team-glm"));
    match remove_preset(&mut cfg, "team-glm") {
        Err(AppError::PresetNotFound(name)) => assert_eq!(name, "team-glm"),
        other => panic!("unexpected {other:?}"),
    }
    assert_eq!(cfg.presets.len(), 1);
}

#[test]
fn reset_official_clears_active_preset() {
    let mut cfg = load_or_init(None).expect("first run");
    add_preset(&mut cfg, team_glm_args(true)).expect("add");
    let applied = use_preset(&mut cfg, "team-glm", None, SETTINGS_PATH).expect("use");
    let written = reset_official(&mut cfg, Some(&applied), SETTINGS_PATH).expect("reset");
    assert!(cfg.active_preset.is_none());
    let parsed: Value = serde_json::from_str(&written).expect("json");
    assert_eq!(parsed["env"].as_object().expect("env").len(), 0);
    assert!(cfg.current_preset().expect("current").is_none());
}

#[test]
fn current_preset_reports_dangling_active_name() {
    let mut cfg = load_or_init(None).expect("first run");
    cfg.active_preset = Some("gone".to_owned());
    match cfg.current_preset() {
        Err(AppError::PresetNotFound(name)) => assert_eq!(name, "gone"),
        other => panic!("unexpected {other:?}"),
    }
}

#[test]
fn add_args_are_trimmed_and_grouped() {
    let args = AddArgs {
        name: "  spaced  ".to_owned(),
        provider: ProviderKind::Custom,
        base_url: " https://x.test ".to_owned(),
        auth_token: "\ttok\n".to_owned(),
        haiku: " h ".to_owned(),
        sonnet: "s ".to_owned(),
        opus: " o".to_owned(),
        http_proxy: Some(" http://proxy ".to_owned()),
        api_timeout_ms: None,
        mcp_tool_timeout: Some(" 5 ".to_owned()),
        disable_nonessential_traffic: Some(false),
    };
    let (name, preset) = args.into_name_and_preset();
    assert_eq!(name, "spaced");
    assert_eq!(preset.base_url, "https://x.test");
    assert_eq!(preset.auth_token, "tok");
    assert_eq!(preset.models.haiku_model, "h");
    assert_eq!(preset.models.sonnet_model, "s");
    assert_eq!(preset.models.opus_model, "o");
    assert_eq!(
        preset.network.expect("network").http_proxy.as_deref(),
        Some("http://proxy")
    );
    let timeouts = preset.timeouts.expect("timeouts");
    assert_eq!(timeouts.api_timeout_ms, None);
    assert_eq!(timeouts.mcp_tool_timeout.as_deref(), Some("5"));
    assert_eq!(
        preset.flags.expect("flags").disable_nonessential_traffic.as_deref(),
        Some("false")
    );
}

#[test]
fn add_args_without_optional_values_leave_groups_out() {
    let (_, preset) = team_glm_args(false).into_name_and_preset();
    assert!(preset.network.is_none());
    assert!(preset.timeouts.is_none());
    assert!(preset.flags.is_none());
}

#[test]
fn resolve_uses_home_defaults() {
    let paths = AppPaths::resolve(None, None, Some("/home/u".to_owned()), ".host").expect("paths");
    assert_eq!(paths.config_path, "/home/u/.claudecode-switcher/config.json");
    assert_eq!(paths.claude_home, "/home/u/.host");
    assert_eq!(paths.settings_path, "/home/u/.host/settings.json");
    assert_eq!(paths.settings_local_path, "/home/u/.host/settings.local.json");
}

#[test]
fn resolve_prefers_overrides() {
    let paths = AppPaths::resolve(
        Some("/s".to_owned()),
        Some("/c".to_owned()),
        None,
        ".host",
    )
    .expect("paths");
    assert_eq!(paths.config_path, "/s/config.json");
    assert_eq!(paths.claude_home, "/c");
    assert_eq!(paths.settings_path, "/c/settings.json");
}

#[test]
fn resolve_without_home_fails() {
    match AppPaths::resolve(Some("/s".to_owned()), None, None, ".host") {
        Err(AppError::MissingHomeDirectory) => {}
        other => panic!("unexpected {other:?}"),
    }
}

#[test]
fn provider_tags() {
    assert_eq!(ProviderKind::Glm.tag(), "glm");
    assert_eq!(ProviderKind::Custom.tag(), "custom");
    assert_eq!(ProviderKind::default(), ProviderKind::Custom);
}
