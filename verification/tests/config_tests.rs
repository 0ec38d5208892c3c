use cursor_api::config::{
    generate_bridge_api_key, ready_banner, redact_secrets, Config, EnvVars,
};

#[test]
fn long_running_profile_queues_instead_of_instant_429() {
    let mut cfg = Config::default();
    cfg.set_profile("long_running");
    assert_eq!(cfg.server.max_concurrency, 1);
    assert!(cfg.server.queue_wait_secs > 0);
    assert!(cfg.server.reject_when_busy);
}

#[test]
fn cursor_api_port_wins_over_bridge_port() {
    let mut env = EnvVars::empty();
    env.bridge_port = Some("8788".to_string());
    env.cursor_api_port = Some("8787".to_string());
    let mut cfg = Config::default();
    cfg.server.port = 9999;
    cfg.apply_env_overrides(&env);
    assert_eq!(cfg.server.port, 8787);
    assert_eq!(cfg.bind_source.port, "CURSOR_API_PORT");
}

#[test]
fn defaults_match_readme() {
    let cfg = Config::default();
    assert_eq!(cfg.server.host, "127.0.0.1");
    assert_eq!(cfg.server.port, 8787);
    assert_eq!(cfg.server.max_concurrency, 2);
    assert_eq!(cfg.server.request_timeout_secs, 600);
    assert!(cfg.server.reject_when_busy);
    assert_eq!(cfg.server.queue_wait_secs, 0);
    assert_eq!(cfg.cursor.profile, "chat");
    assert_eq!(cfg.cursor.mode, "ask");
    assert!(!cfg.cursor.json_mode);
    assert_eq!(cfg.cursor.message_flatten_mode, "flat");
    assert_eq!(cfg.cursor.default_model, "auto");
    assert_eq!(cfg.cursor.max_context_tokens, 128_000);
    assert!(cfg.cursor.trust);
    assert!(!cfg.cursor.force);
    assert!(cfg.auth.generate_api_key_on_first_run);
    assert_eq!(cfg.logging.level, "info");
    assert_eq!(cfg.logging.ring_capacity, 2000);
    assert_eq!(cfg.bind_source.host, "config");
    assert_eq!(cfg.bind_source.port, "config");
}

#[test]
fn urls_of_default_config() {
    let cfg = Config::default();
    assert_eq!(cfg.listen_addr(), "127.0.0.1:8787");
    assert_eq!(cfg.base_url(), "http://127.0.0.1:8787");
    assert_eq!(cfg.v1_url(), "http://127.0.0.1:8787/v1");
}

#[test]
fn urls_render_port_in_decimal() {
    let mut cfg = Config::default();
    cfg.server.host = "0.0.0.0".to_string();
    cfg.server.port = 0;
    assert_eq!(cfg.listen_addr(), "0.0.0.0:0");
    cfg.server.port = 65535;
    assert_eq!(cfg.v1_url(), "http://0.0.0.0:65535/v1");
}

#[test]
fn json_api_profile_sets_json_mode() {
    let mut cfg = Config::default();
    cfg.cursor.force = true;
    cfg.set_profile("json_api");
    assert_eq!(cfg.cursor.mode, "ask");
    assert!(cfg.cursor.json_mode);
    assert_eq!(cfg.cursor.message_flatten_mode, "fold_system");
    assert_eq!(
        cfg.cursor.prompt_suffix,
        "Respond with valid JSON only. No markdown fences."
    );
    assert!(!cfg.cursor.force);
    assert_eq!(cfg.server.max_concurrency, 2);
}

#[test]
fn json_profile_keeps_custom_suffix() {
    let mut cfg = Config::default();
    cfg.cursor.prompt_suffix = "Only JSON.".to_string();
    cfg.set_profile("json");
    assert_eq!(cfg.cursor.prompt_suffix, "Only JSON.");
}

#[test]
fn profile_names_are_trimmed_and_case_folded() {
    let mut cfg = Config::default();
    cfg.set_profile("  Long-Running\t");
    assert_eq!(cfg.server.max_concurrency, 1);
    assert_eq!(cfg.server.queue_wait_secs, 1800);
    assert_eq!(cfg.server.request_timeout_secs, 900);
    assert_eq!(cfg.cursor.profile, "  Long-Running\t");

    let mut cfg = Config::default();
    cfg.set_profile("JSON-API");
    assert!(cfg.cursor.json_mode);
}

#[test]
fn chat_and_unknown_profiles_keep_settings() {
    let mut cfg = Config::default();
    cfg.cursor.mode = "agent".to_string();
    cfg.set_profile("chat");
    assert_eq!(cfg.cursor.mode, "agent");
    cfg.set_profile("something-else");
    assert_eq!(cfg.cursor.mode, "agent");
    assert_eq!(cfg.server.max_concurrency, 2);
}

#[test]
fn apply_profile_twice_is_same_as_once() {
    let mut once = Config::default();
    once.set_profile("json_api");
    let mut twice = Config::default();
    twice.set_profile("json_api");
    twice.apply_profile();
    assert_eq!(once.cursor.prompt_suffix, twice.cursor.prompt_suffix);
    assert_eq!(once.cursor.message_flatten_mode, twice.cursor.message_flatten_mode);
    assert_eq!(once.cursor.json_mode, twice.cursor.json_mode);
}

#[test]
fn bridge_port_used_when_cursor_api_port_missing() {
    let mut env = EnvVars::empty();
    env.bridge_port = Some("9001".to_string());
    env.cursor_api_port = Some(String::new());
    let mut cfg = Config::default();
    cfg.apply_env_overrides(&env);
    assert_eq!(cfg.server.port, 9001);
    assert_eq!(cfg.bind_source.port, "BRIDGE_PORT");
    assert_eq!(cfg.bind_source_summary(), "host=127.0.0.1 (config) port=9001 (BRIDGE_PORT)");
}

#[test]
fn unparsable_port_is_ignored() {
    let mut env = EnvVars::empty();
    env.cursor_api_port = Some("70000".to_string());
    env.bridge_port = Some("9001".to_string());
    let mut cfg = Config::default();
    cfg.apply_env_overrides(&env);
    assert_eq!(cfg.server.port, 8787);
    assert_eq!(cfg.bind_source.port, "config");

    env.cursor_api_port = Some("+8080".to_string());
    cfg.apply_env_overrides(&env);
    assert_eq!(cfg.server.port, 8080);

    env.cursor_api_port = Some(" 8080".to_string());
    cfg.server.port = 1;
    cfg.apply_env_overrides(&env);
    assert_eq!(cfg.server.port, 1);
}

#[test]
fn host_and_key_overrides() {
    let mut env = EnvVars::empty();
    env.bridge_host = Some("0.0.0.0".to_string());
    env.bridge_api_key = Some("secret".to_string());
    let mut cfg = Config::default();
    cfg.apply_env_overrides(&env);
    assert_eq!(cfg.server.host, "0.0.0.0");
    assert_eq!(cfg.bind_source.host, "BRIDGE_HOST");
    assert_eq!(cfg.auth.api_key, "secret");
    assert!(cfg.auth.require_auth);

    env.cursor_api_host = Some("10.0.0.1".to_string());
    cfg.apply_env_overrides(&env);
    assert_eq!(cfg.server.host, "10.0.0.1");
    assert_eq!(cfg.bind_source.host, "CURSOR_API_HOST");
}

#[test]
fn other_env_overrides() {
    let mut env = EnvVars::empty();
    env.cursor_workspace = Some(String::new());
    env.cursor_api_default_model = Some("gpt-5".to_string());
    env.bridge_timeout_secs = Some("42".to_string());
    env.cursor_api_json_mode = Some("YES".to_string());
    env.cursor_api_max_context_tokens = Some("0".to_string());
    env.bridge_truncate_over_context = Some("1".to_string());
    let mut cfg = Config::default();
    cfg.cursor.workspace = "/tmp/ws".to_string();
    cfg.apply_env_overrides(&env);
    assert_eq!(cfg.cursor.workspace, "");
    assert_eq!(cfg.cursor.default_model, "gpt-5");
    assert_eq!(cfg.server.request_timeout_secs, 42);
    assert!(cfg.cursor.json_mode);
    assert_eq!(cfg.cursor.max_context_tokens, 128_000);
    assert!(cfg.cursor.truncate_over_context);

    env.cursor_api_max_context_tokens = Some("64000".to_string());
    env.cursor_api_json_mode = Some("on".to_string());
    cfg.apply_env_overrides(&env);
    assert_eq!(cfg.cursor.max_context_tokens, 64000);
    assert!(!cfg.cursor.json_mode);
}

#[test]
fn bind_source_summary_of_default() {
    let cfg = Config::default();
    assert_eq!(cfg.bind_source_summary(), "host=127.0.0.1 (config) port=8787 (config)");
}

#[test]
fn ready_banner_reports_auth_and_agent() {
    let cfg = Config::default();
    assert_eq!(
        ready_banner(&cfg, None),
        "Cursor-API ready · http://127.0.0.1:8787/v1 · /health → 200 · model=auto · mode=ask · profile=chat · agent=unknown · auth off"
    );
    let mut cfg = Config::default();
    cfg.auth.api_key = "k".to_string();
    cfg.auth.require_auth = true;
    let banner = ready_banner(&cfg, Some("2025.1".to_string()));
    assert!(banner.ends_with("agent=2025.1 · Bearer auth ON"));
    cfg.auth.api_key = String::new();
    assert!(ready_banner(&cfg, None).ends_with("auth off"));
}

#[test]
fn generated_key_has_bridge_prefix_and_uuid() {
    let k = generate_bridge_api_key();
    assert_eq!(k.len(), 43);
    assert!(k.starts_with("bridge-"));
    let u: Vec<char> = k[7..].chars().collect();
    for (i, c) in u.iter().enumerate() {
        if i == 8 || i == 13 || i == 18 || i == 23 {
            assert_eq!(*c, '-');
        } else {
            assert!(c.is_ascii_digit() || ('a'..='f').contains(c));
        }
    }
    assert_eq!(u[14], '4');
    assert!(matches!(u[19], '8' | '9' | 'a' | 'b'));
    assert_ne!(generate_bridge_api_key(), k);
}

#[test]
fn generated_key_is_redacted() {
    let k = generate_bridge_api_key();
    assert_eq!(redact_secrets(&k, true), "bridge-***");
    assert_eq!(redact_secrets(&k, false), k);
}

#[test]
fn redaction_of_tokens() {
    assert_eq!(
        redact_secrets("Authorization: Bearer abc.def more", true),
        "Authorization: Bearer *** more"
    );
    assert_eq!(redact_secrets("key=\"sk-123\" x", true), "key=\"sk-***\" x");
    assert_eq!(redact_secrets("bearer tok'", true), "bearer ***'");
    assert_eq!(redact_secrets("Bearer ", true), "Bearer ");
    assert_eq!(redact_secrets("nothing secret", true), "nothing secret");
    assert_eq!(redact_secrets("Bearer abc", false), "Bearer abc");
    // every occurrence of each prefix is masked
    assert_eq!(redact_secrets("sk-aaa sk-bbb", true), "sk-*** sk-***");
    assert_eq!(
        redact_secrets("Bearer a1 then Bearer b2, bridge-x1 bridge-y2", true),
        "Bearer *** then Bearer *** bridge-*** bridge-***"
    );
    assert_eq!(redact_secrets("sk- sk-k2", true), "sk- sk-***");
    assert_eq!(redact_secrets("sk-sk-sk-", true), "sk-***");
    assert_eq!(
        redact_secrets("Bearer bridge-1234 and sk-9", true),
        "Bearer *** and sk-***"
    );
    assert_eq!(redact_secrets("é Bearer ü\u{3000}x", true), "é Bearer ***\u{3000}x");
}

#[test]
fn first_run_and_load_or_create() {
    let env = EnvVars::empty();
    let cfg = Config::first_run("bridge-key".to_string(), &env);
    assert_eq!(cfg.auth.api_key, "bridge-key");
    assert!(cfg.auth.require_auth);
    assert_eq!(cfg.cursor.profile, "chat");

    let (created, fresh) = Config::load_or_create(None, &env);
    assert!(fresh);
    assert!(created.auth.api_key.starts_with("bridge-"));
    assert!(created.auth.require_auth);

    let mut loaded = Config::default();
    loaded.server.port = 1234;
    let mut env = EnvVars::empty();
    env.cursor_api_host = Some("::1".to_string());
    let (cfg, fresh) = Config::load_or_create(Some(loaded), &env);
    assert!(!fresh);
    assert_eq!(cfg.server.port, 1234);
    assert_eq!(cfg.server.host, "::1");
    assert_eq!(cfg.auth.api_key, "");
}

#[test]
fn empty_environment_only_resets_provenance() {
    let mut cfg = Config::default();
    cfg.server.port = 4242;
    cfg.bind_source.port = "CURSOR_API_PORT";
    cfg.apply_env_overrides(&EnvVars::empty());
    assert_eq!(cfg.server.port, 4242);
    assert_eq!(cfg.bind_source.port, "config");
    assert_eq!(cfg.server.host, "127.0.0.1");
    assert_eq!(cfg.cursor.default_model, "auto");
}
