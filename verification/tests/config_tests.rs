use fizz::config::{
    Config, DEFAULT_MODEL_TIMEOUT_SECS, DEFAULT_TOOL_ALLOW_DIRECT_NETWORK, DEFAULT_TOOL_MEMORY_MB,
    DEFAULT_TOOL_TIMEOUT_SECS, ToolPolicy, ToolResourceLimits, ToolRuntime, WorkspaceFsMode,
    parse_bool, parse_model_timeout_secs, parse_tool_memory_mb, parse_tool_runtime,
    parse_tool_timeout_secs, parse_workspace_fs_mode,
};

fn config_from_pairs(pairs: &[(&str, &str)]) -> Config {
    let vars: Vec<(String, String)> = pairs
        .iter()
        .map(|(key, value)| ((*key).to_string(), (*value).to_string()))
        .collect();
    Config::from_env_with(&vars)
}

#[test]
fn from_env_uses_defaults_when_vars_are_missing() {
    let cfg = config_from_pairs(&[]);
    assert_eq!(cfg.model_provider, "ollama");
    assert_eq!(cfg.model, "qwen2.5:3b");
    assert_eq!(cfg.model_base_url, "http://localhost:11434");
    assert_eq!(cfg.system_prompt, "You are a helpful assistant.");
    assert_eq!(cfg.model_timeout_secs, DEFAULT_MODEL_TIMEOUT_SECS);
    assert_eq!(cfg.tool_runtime, ToolRuntime::Builtin);
    assert_eq!(cfg.tool_timeout_secs, DEFAULT_TOOL_TIMEOUT_SECS);
    assert_eq!(cfg.tool_memory_mb, DEFAULT_TOOL_MEMORY_MB);
    assert_eq!(
        cfg.tool_allow_direct_network,
        DEFAULT_TOOL_ALLOW_DIRECT_NETWORK
    );
    assert_eq!(cfg.workspace_fs_mode, WorkspaceFsMode::Host);
    assert_eq!(cfg.tool_policy, ToolPolicy::default());
}

#[test]
fn from_env_reads_configured_values() {
    let cfg = config_from_pairs(&[
        ("MODEL_PROVIDER", "custom"),
        ("MODEL", "some-model:1"),
        ("MODEL_BASE_URL", "http://localhost:9999"),
        ("SYSTEM_PROMPT", "Be concise."),
        ("MODEL_TIMEOUT_SECS", "15"),
        ("TOOL_RUNTIME", "wasm"),
        ("TOOL_TIMEOUT_SECS", "9"),
        ("TOOL_MEMORY_MB", "512"),
        ("TOOL_ALLOW_DIRECT_NETWORK", "true"),
        ("WORKSPACE_FS_MODE", "overlay"),
    ]);

    assert_eq!(cfg.model_provider, "custom");
    assert_eq!(cfg.model, "some-model:1");
    assert_eq!(cfg.model_base_url, "http://localhost:9999");
    assert_eq!(cfg.system_prompt, "Be concise.");
    assert_eq!(cfg.model_timeout_secs, 15);
    assert_eq!(cfg.tool_runtime, ToolRuntime::Wasm);
    assert_eq!(cfg.tool_timeout_secs, 9);
    assert_eq!(cfg.tool_memory_mb, 512);
    assert!(cfg.tool_allow_direct_network);
    assert_eq!(cfg.workspace_fs_mode, WorkspaceFsMode::Overlay);
    assert_eq!(
        cfg.tool_policy,
        ToolPolicy {
            allow_direct_network: true,
            resource_limits: ToolResourceLimits {
                timeout_secs: 9,
                memory_mb: 512,
            },
        }
    );
}

#[test]
fn from_env_uses_default_timeout_when_timeout_is_invalid() {
    let cfg = config_from_pairs(&[("MODEL_TIMEOUT_SECS", "0")]);
    assert_eq!(cfg.model_timeout_secs, DEFAULT_MODEL_TIMEOUT_SECS);
}

#[test]
fn parse_model_timeout_secs_uses_default_for_missing_or_invalid_values() {
    assert_eq!(parse_model_timeout_secs(None), DEFAULT_MODEL_TIMEOUT_SECS);
    assert_eq!(
        parse_model_timeout_secs(Some("")),
        DEFAULT_MODEL_TIMEOUT_SECS
    );
    assert_eq!(
        parse_model_timeout_secs(Some("not-a-number")),
        DEFAULT_MODEL_TIMEOUT_SECS
    );
    assert_eq!(
        parse_model_timeout_secs(Some("0")),
        DEFAULT_MODEL_TIMEOUT_SECS
    );
}

#[test]
fn parse_model_timeout_secs_accepts_positive_integer() {
    assert_eq!(parse_model_timeout_secs(Some("45")), 45);
    assert_eq!(parse_model_timeout_secs(Some("  90  ")), 90);
}

#[test]
fn parse_tool_timeout_secs_uses_default_for_missing_or_invalid_values() {
    assert_eq!(parse_tool_timeout_secs(None), DEFAULT_TOOL_TIMEOUT_SECS);
    assert_eq!(
        parse_tool_timeout_secs(Some("not-a-number")),
        DEFAULT_TOOL_TIMEOUT_SECS
    );
    assert_eq!(
        parse_tool_timeout_secs(Some("0")),
        DEFAULT_TOOL_TIMEOUT_SECS
    );
}

#[test]
fn parse_tool_timeout_secs_accepts_positive_integer() {
    assert_eq!(parse_tool_timeout_secs(Some("11")), 11);
}

#[test]
fn parse_tool_memory_mb_uses_default_for_missing_or_invalid_values() {
    assert_eq!(parse_tool_memory_mb(None), DEFAULT_TOOL_MEMORY_MB);
    assert_eq!(
        parse_tool_memory_mb(Some("not-a-number")),
        DEFAULT_TOOL_MEMORY_MB
    );
    assert_eq!(parse_tool_memory_mb(Some("0")), DEFAULT_TOOL_MEMORY_MB);
}

#[test]
fn parse_tool_memory_mb_accepts_positive_integer() {
    assert_eq!(parse_tool_memory_mb(Some("1024")), 1024);
}

#[test]
fn parse_bool_respects_truthy_and_falsy_values() {
    assert!(parse_bool(Some("true"), false));
    assert!(parse_bool(Some(" YES "), false));
    assert!(!parse_bool(Some("off"), true));
    assert!(!parse_bool(Some(" 0 "), true));
}

#[test]
fn parse_bool_returns_default_for_unknown_values() {
    assert!(parse_bool(Some("maybe"), true));
    assert!(!parse_bool(Some("maybe"), false));
    assert!(!parse_bool(None, false));
}

#[test]
fn parse_tool_runtime_defaults_to_builtin_and_accepts_wasm() {
    assert_eq!(parse_tool_runtime(None), ToolRuntime::Builtin);
    assert_eq!(parse_tool_runtime(Some("unknown")), ToolRuntime::Builtin);
    assert_eq!(parse_tool_runtime(Some(" WASM ")), ToolRuntime::Wasm);
}

#[test]
fn parse_workspace_fs_mode_defaults_to_host_and_accepts_known_values() {
    assert_eq!(parse_workspace_fs_mode(None), WorkspaceFsMode::Host);
    assert_eq!(
        parse_workspace_fs_mode(Some("unknown")),
        WorkspaceFsMode::Host
    );
    assert_eq!(
        parse_workspace_fs_mode(Some("overlay")),
        WorkspaceFsMode::Overlay
    );
    assert_eq!(
        parse_workspace_fs_mode(Some(" AGENTFS ")),
        WorkspaceFsMode::Agentfs
    );
}

#[test]
fn from_env_uses_defaults_for_invalid_tool_settings() {
    let cfg = config_from_pairs(&[
        ("TOOL_RUNTIME", "native"),
        ("TOOL_TIMEOUT_SECS", "0"),
        ("TOOL_MEMORY_MB", "-1"),
        ("TOOL_ALLOW_DIRECT_NETWORK", "perhaps"),
        ("WORKSPACE_FS_MODE", "anything"),
    ]);

    assert_eq!(cfg.tool_runtime, ToolRuntime::Builtin);
    assert_eq!(cfg.tool_timeout_secs, DEFAULT_TOOL_TIMEOUT_SECS);
    assert_eq!(cfg.tool_memory_mb, DEFAULT_TOOL_MEMORY_MB);
    assert_eq!(
        cfg.tool_allow_direct_network,
        DEFAULT_TOOL_ALLOW_DIRECT_NETWORK
    );
    assert_eq!(cfg.workspace_fs_mode, WorkspaceFsMode::Host);
    assert_eq!(cfg.tool_policy, ToolPolicy::default());
}

#[test]
fn first_pair_wins_when_a_key_repeats() {
    let cfg = config_from_pairs(&[("MODEL", "first"), ("MODEL", "second")]);
    assert_eq!(cfg.model, "first");
}

#[test]
fn positive_parse_accepts_plus_sign_and_rejects_overflow() {
    assert_eq!(parse_model_timeout_secs(Some("+45")), 45);
    assert_eq!(
        parse_model_timeout_secs(Some("99999999999999999999999")),
        DEFAULT_MODEL_TIMEOUT_SECS
    );
    assert_eq!(
        parse_model_timeout_secs(Some("18446744073709551615")),
        u64::MAX
    );
    assert_eq!(
        parse_model_timeout_secs(Some("18446744073709551616")),
        DEFAULT_MODEL_TIMEOUT_SECS
    );
}
