//! Service configuration: defaults, named profiles, environment overrides,
//! the derived URLs and banners, the bridge API key and log redaction.
use vstd::prelude::*;

use crate::text::{
    chars_eq, chars_of, dec, lower, lower_chars, owned, parse_unsigned,
    parse_unsigned_chars, push_dec, push_str, trim, trim_chars,
};

verus! {

// ---------------------------------------------------------------- types

#[derive(Debug, Clone)]
pub struct Config {
    pub server: ServerConfig,
    pub cursor: CursorConfig,
    pub auth: AuthConfig,
    pub logging: LoggingConfig,
    /// Where host/port came from after env overrides (not persisted).
    pub bind_source: BindSource,
}

/// Effective bind override provenance for startup logs / /health.
#[derive(Debug, Clone, PartialEq, Eq)]
pub struct BindSource {
    pub host: &'static str,
    pub port: &'static str,
}

#[derive(Debug, Clone)]
pub struct ServerConfig {
    pub host: String,
    pub port: u16,
    /// Max concurrent Cursor CLI processes.
    pub max_concurrency: usize,
    /// Per-request timeout in seconds.
    pub request_timeout_secs: u64,
    /// When true, return HTTP 429 immediately if max_concurrency slots are full.
    pub reject_when_busy: bool,
    /// Seconds to wait for a concurrency slot before returning 429 (0 = no wait).
    pub queue_wait_secs: u64,
}

#[derive(Debug, Clone)]
pub struct CursorConfig {
    /// Path to the `agent` / `cursor-agent` binary. Empty = auto-detect.
    pub binary: String,
    /// Default model id passed to `--model`.
    pub default_model: String,
    /// Workspace directory for agent runs. Empty = process cwd.
    pub workspace: String,
    /// ask | agent | plan
    pub mode: String,
    /// Pass `--trust` for headless runs.
    pub trust: bool,
    /// Pass `--force` (allows writes/shell). Keep false for chat-only proxies.
    pub force: bool,
    /// Extra CLI args appended to every invocation.
    pub extra_args: Vec<String>,
    /// API key forwarded to Cursor CLI (`CURSOR_API_KEY`).
    pub cursor_api_key: String,
    /// Append JSON-only instruction and normalize JSON in responses.
    pub json_mode: bool,
    /// flat | fold_system | system_last
    pub message_flatten_mode: String,
    /// Prepended to every prompt.
    pub prompt_prefix: String,
    /// Appended to every prompt.
    pub prompt_suffix: String,
    /// Preset profile: chat | json_api | long_running.
    pub profile: String,
    /// Advertised context budget (tokens). Soft warn when prompts exceed this.
    pub max_context_tokens: u32,
    /// When true, truncate prompts that exceed max_context_tokens.
    pub truncate_over_context: bool,
}

#[derive(Debug, Clone)]
pub struct AuthConfig {
    /// If set, require `Authorization: Bearer <key>` on /v1 routes.
    pub api_key: String,
    /// Bind advice shown in TUI; server honors host.
    pub require_auth: bool,
    /// Generate a random bridge API key when creating a new config file.
    pub generate_api_key_on_first_run: bool,
}

#[derive(Debug, Clone)]
pub struct LoggingConfig {
    pub level: String,
    /// Max in-memory log lines for the TUI.
    pub ring_capacity: usize,
    /// Optional log file path.
    pub file: String,
    /// Redact bearer tokens and API keys in log messages.
    pub redact_secrets: bool,
}

// ---------------------------------------------------------------- views

#[verifier::ext_equal]
pub struct ServerView {
    pub host: Seq<char>,
    pub port: u16,
    pub max_concurrency: usize,
    pub request_timeout_secs: u64,
    pub reject_when_busy: bool,
    pub queue_wait_secs: u64,
}

#[verifier::ext_equal]
pub struct CursorView {
    pub binary: Seq<char>,
    pub default_model: Seq<char>,
    pub workspace: Seq<char>,
    pub mode: Seq<char>,
    pub trust: bool,
    pub force: bool,
    pub extra_args: Seq<Seq<char>>,
    pub cursor_api_key: Seq<char>,
    pub json_mode: bool,
    pub message_flatten_mode: Seq<char>,
    pub prompt_prefix: Seq<char>,
    pub prompt_suffix: Seq<char>,
    pub profile: Seq<char>,
    pub max_context_tokens: u32,
    pub truncate_over_context: bool,
}

#[verifier::ext_equal]
pub struct AuthView {
    pub api_key: Seq<char>,
    pub require_auth: bool,
    pub generate_api_key_on_first_run: bool,
}

#[verifier::ext_equal]
pub struct LoggingView {
    pub level: Seq<char>,
    pub ring_capacity: usize,
    pub file: Seq<char>,
    pub redact_secrets: bool,
}

#[verifier::ext_equal]
pub struct BindSourceView {
    pub host: Seq<char>,
    pub port: Seq<char>,
}

#[verifier::ext_equal]
pub struct ConfigView {
    pub server: ServerView,
    pub cursor: CursorView,
    pub auth: AuthView,
    pub logging: LoggingView,
    pub bind_source: BindSourceView,
}

impl View for ServerConfig {
    type V = ServerView;

    open spec fn view(&self) -> ServerView {
        ServerView {
            host: self.host@,
            port: self.port,
            max_concurrency: self.max_concurrency,
            request_timeout_secs: self.request_timeout_secs,
            reject_when_busy: self.reject_when_busy,
            queue_wait_secs: self.queue_wait_secs,
        }
    }
}

impl View for CursorConfig {
    type V = CursorView;

    open spec fn view(&self) -> CursorView {
        CursorView {
            binary: self.binary@,
            default_model: self.default_model@,
            workspace: self.workspace@,
            mode: self.mode@,
            trust: self.trust,
            force: self.force,
            extra_args: self.extra_args@.map_values(|a: String| a@),
            cursor_api_key: self.cursor_api_key@,
            json_mode: self.json_mode,
            message_flatten_mode: self.message_flatten_mode@,
            prompt_prefix: self.prompt_prefix@,
            prompt_suffix: self.prompt_suffix@,
            profile: self.profile@,
            max_context_tokens: self.max_context_tokens,
            truncate_over_context: self.truncate_over_context,
        }
    }
}

impl View for AuthConfig {
    type V = AuthView;

    open spec fn view(&self) -> AuthView {
        AuthView {
            api_key: self.api_key@,
            require_auth: self.require_auth,
            generate_api_key_on_first_run: self.generate_api_key_on_first_run,
        }
    }
}

impl View for LoggingConfig {
    type V = LoggingView;

    open spec fn view(&self) -> LoggingView {
        LoggingView {
            level: self.level@,
            ring_capacity: self.ring_capacity,
            file: self.file@,
            redact_secrets: self.redact_secrets,
        }
    }
}

impl View for BindSource {
    type V = BindSourceView;

    open spec fn view(&self) -> BindSourceView {
        BindSourceView { host: self.host@, port: self.port@ }
    }
}

impl View for Config {
    type V = ConfigView;

    open spec fn view(&self) -> ConfigView {
        ConfigView {
            server: self.server@,
            cursor: self.cursor@,
            auth: self.auth@,
            logging: self.logging@,
            bind_source: self.bind_source@,
        }
    }
}

// ---------------------------------------------------------------- defaults

pub open spec fn default_bind_source() -> BindSourceView {
    BindSourceView { host: "config"@, port: "config"@ }
}

pub open spec fn default_server() -> ServerView {
    ServerView {
        host: "127.0.0.1"@,
        port: 8787,
        max_concurrency: 2,
        request_timeout_secs: 600,
        reject_when_busy: true,
        queue_wait_secs: 0,
    }
}

pub open spec fn default_cursor() -> CursorView {
    CursorView {
        binary: Seq::empty(),
        default_model: "auto"@,
        workspace: Seq::empty(),
        mode: "ask"@,
        trust: true,
        force: false,
        extra_args: Seq::empty(),
        cursor_api_key: Seq::empty(),
        json_mode: false,
        message_flatten_mode: "flat"@,
        prompt_prefix: Seq::empty(),
        prompt_suffix: Seq::empty(),
        profile: "chat"@,
        max_context_tokens: 128000,
        truncate_over_context: false,
    }
}

pub open spec fn default_auth() -> AuthView {
    AuthView { api_key: Seq::empty(), require_auth: false, generate_api_key_on_first_run: true }
}

pub open spec fn default_logging() -> LoggingView {
    LoggingView { level: "info"@, ring_capacity: 2000, file: Seq::empty(), redact_secrets: true }
}

pub open spec fn default_config() -> ConfigView {
    ConfigView {
        server: default_server(),
        cursor: default_cursor(),
        auth: default_auth(),
        logging: default_logging(),
        bind_source: default_bind_source(),
    }
}

impl Default for BindSource {
    fn default() -> (r: Self)
        ensures
            r@ == default_bind_source(),
    {
        BindSource { host: "config", port: "config" }
    }
}

impl Default for ServerConfig {
    fn default() -> (r: Self)
        ensures
            r@ == default_server(),
    {
        ServerConfig {
            host: owned("127.0.0.1"),
            port: 8787,
            max_concurrency: 2,
            request_timeout_secs: 600,
            reject_when_busy: true,
            queue_wait_secs: 0,
        }
    }
}

impl Default for CursorConfig {
    fn default() -> (r: Self)
        ensures
            r@ == default_cursor(),
    {
        let r = CursorConfig {
            binary: String::new(),
            default_model: owned("auto"),
            workspace: String::new(),
            mode: owned("ask"),
            trust: true,
            force: false,
            extra_args: Vec::new(),
            cursor_api_key: String::new(),
            json_mode: false,
            message_flatten_mode: owned("flat"),
            prompt_prefix: String::new(),
            prompt_suffix: String::new(),
            profile: owned("chat"),
            max_context_tokens: 128_000,
            truncate_over_context: false,
        };
        assert(r@.extra_args =~= Seq::<Seq<char>>::empty());
        r
    }
}

impl Default for AuthConfig {
    fn default() -> (r: Self)
        ensures
            r@ == default_auth(),
    {
        AuthConfig {
            api_key: String::new(),
            require_auth: false,
            generate_api_key_on_first_run: true,
        }
    }
}

impl Default for LoggingConfig {
    fn default() -> (r: Self)
        ensures
            r@ == default_logging(),
    {
        LoggingConfig {
            level: owned("info"),
            ring_capacity: 2000,
            file: String::new(),
            redact_secrets: true,
        }
    }
}

impl Default for Config {
    fn default() -> (r: Self)
        ensures
            r@ == default_config(),
    {
        Config {
            server: ServerConfig::default(),
            cursor: CursorConfig::default(),
            auth: AuthConfig::default(),
            logging: LoggingConfig::default(),
            bind_source: BindSource::default(),
        }
    }
}


// ---------------------------------------------------------------- profiles

/// The preset that a `cursor.profile` value selects.
pub enum Preset {
    Chat,
    JsonApi,
    LongRunning,
}

/// The profile name as it is matched: trimmed and lower-cased. Apart from the
/// Kelvin sign, whose image `k` none of the names contains, only ASCII letters
/// lower-case to ASCII, so ASCII case folding decides these matches exactly as
/// `str::to_lowercase` would.
pub open spec fn profile_key(profile: Seq<char>) -> Seq<char> {
    lower(trim(profile))
}

pub open spec fn preset_of(profile: Seq<char>) -> Preset {
    let k = profile_key(profile);
    if k == "json_api"@ || k == "json-api"@ || k == "json"@ {
        Preset::JsonApi
    } else if k == "long_running"@ || k == "long-running"@ || k == "long"@ {
        Preset::LongRunning
    } else {
        Preset::Chat
    }
}

impl ConfigView {
    /// The configuration once the preset named by `cursor.profile` is applied.
    pub open spec fn with_profile_applied(self) -> ConfigView {
        match preset_of(self.cursor.profile) {
            Preset::JsonApi => ConfigView {
                cursor: CursorView {
                    mode: "ask"@,
                    json_mode: true,
                    message_flatten_mode: "fold_system"@,
                    prompt_suffix: if self.cursor.prompt_suffix.len() == 0 {
                        "Respond with valid JSON only. No markdown fences."@
                    } else {
                        self.cursor.prompt_suffix
                    },
                    force: false,
                    ..self.cursor
                },
                ..self
            },
            Preset::LongRunning => ConfigView {
                server: ServerView {
                    request_timeout_secs: 900,
                    max_concurrency: 1,
                    reject_when_busy: true,
                    queue_wait_secs: 1800,
                    ..self.server
                },
                cursor: CursorView { mode: "ask"@, force: false, ..self.cursor },
                ..self
            },
            Preset::Chat => self,
        }
    }

    /// The configuration with `cursor.profile` set to `profile` and that preset applied.
    pub open spec fn with_profile(self, profile: Seq<char>) -> ConfigView {
        ConfigView { cursor: CursorView { profile, ..self.cursor }, ..self }.with_profile_applied()
    }
}

fn preset_of_exec(profile: &String) -> (p: Preset)
    ensures
        p == preset_of(profile@),
{
    let key = lower_chars(&trim_chars(&chars_of(profile.as_str())));
    if chars_eq(&key, "json_api") || chars_eq(&key, "json-api") || chars_eq(&key, "json") {
        Preset::JsonApi
    } else if chars_eq(&key, "long_running") || chars_eq(&key, "long-running") || chars_eq(
        &key,
        "long",
    ) {
        Preset::LongRunning
    } else {
        Preset::Chat
    }
}

impl Config {
    pub fn listen_addr(&self) -> (r: String)
        ensures
            r@ == self@.listen_addr(),
    {
        let mut r = self.server.host.clone();
        push_str(&mut r, ":");
        push_dec(&mut r, self.server.port as u64);
        r
    }

    pub fn base_url(&self) -> (r: String)
        ensures
            r@ == self@.base_url(),
    {
        let mut r = owned("http://");
        push_str(&mut r, self.server.host.as_str());
        push_str(&mut r, ":");
        push_dec(&mut r, self.server.port as u64);
        r
    }

    pub fn v1_url(&self) -> (r: String)
        ensures
            r@ == self@.v1_url(),
    {
        let mut r = self.base_url();
        push_str(&mut r, "/v1");
        r
    }

    /// Apply named profile presets (chat, json_api, long_running).
    pub fn apply_profile(&mut self)
        ensures
            final(self)@ == old(self)@.with_profile_applied(),
    {
        match preset_of_exec(&self.cursor.profile) {
            Preset::JsonApi => {
                self.cursor.mode = owned("ask");
                self.cursor.json_mode = true;
                self.cursor.message_flatten_mode = owned("fold_system");
                if self.cursor.prompt_suffix.as_str().is_empty() {
                    self.cursor.prompt_suffix = owned(
                        "Respond with valid JSON only. No markdown fences.",
                    );
                }
                self.cursor.force = false;
            },
            Preset::LongRunning => {
                self.server.request_timeout_secs = 900;
                self.server.max_concurrency = 1;
                // Queue instead of hard-429 so batched clients can wait for the single slot
                // instead of aborting immediately.
                self.server.reject_when_busy = true;
                self.server.queue_wait_secs = 1800;
                self.cursor.mode = owned("ask");
                self.cursor.force = false;
            },
            Preset::Chat => {},
        }
        assert(self@ =~= old(self)@.with_profile_applied());
    }

    pub fn set_profile(&mut self, profile: &str)
        ensures
            final(self)@ == old(self)@.with_profile(profile@),
    {
        self.cursor.profile = owned(profile);
        self.apply_profile();
    }
}

impl ConfigView {
    pub open spec fn listen_addr(self) -> Seq<char> {
        self.server.host + ":"@ + dec(self.server.port as nat)
    }

    pub open spec fn base_url(self) -> Seq<char> {
        "http://"@ + self.server.host + ":"@ + dec(self.server.port as nat)
    }

    pub open spec fn v1_url(self) -> Seq<char> {
        self.base_url() + "/v1"@
    }
}

// ---------------------------------------------------------------- environment

/// The environment variables that override the configuration, as read from the
/// process environment (`None` when unset or not valid Unicode).
pub struct EnvVars {
    pub cursor_api_host: Option<String>,
    pub bridge_host: Option<String>,
    pub cursor_api_port: Option<String>,
    pub bridge_port: Option<String>,
    pub cursor_api_key: Option<String>,
    pub bridge_api_key: Option<String>,
    pub cursor_workspace: Option<String>,
    pub cursor_api_default_model: Option<String>,
    pub bridge_default_model: Option<String>,
    pub cursor_api_timeout_secs: Option<String>,
    pub bridge_timeout_secs: Option<String>,
    pub cursor_api_json_mode: Option<String>,
    pub bridge_json_mode: Option<String>,
    pub cursor_api_max_context_tokens: Option<String>,
    pub bridge_max_context_tokens: Option<String>,
    pub cursor_api_truncate_over_context: Option<String>,
    pub bridge_truncate_over_context: Option<String>,
}

pub open spec fn opt_view(v: Option<String>) -> Option<Seq<char>> {
    match v {
        Some(s) => Some(s@),
        None => None,
    }
}

#[verifier::ext_equal]
pub struct EnvView {
    pub cursor_api_host: Option<Seq<char>>,
    pub bridge_host: Option<Seq<char>>,
    pub cursor_api_port: Option<Seq<char>>,
    pub bridge_port: Option<Seq<char>>,
    pub cursor_api_key: Option<Seq<char>>,
    pub bridge_api_key: Option<Seq<char>>,
    pub cursor_workspace: Option<Seq<char>>,
    pub cursor_api_default_model: Option<Seq<char>>,
    pub bridge_default_model: Option<Seq<char>>,
    pub cursor_api_timeout_secs: Option<Seq<char>>,
    pub bridge_timeout_secs: Option<Seq<char>>,
    pub cursor_api_json_mode: Option<Seq<char>>,
    pub bridge_json_mode: Option<Seq<char>>,
    pub cursor_api_max_context_tokens: Option<Seq<char>>,
    pub bridge_max_context_tokens: Option<Seq<char>>,
    pub cursor_api_truncate_over_context: Option<Seq<char>>,
    pub bridge_truncate_over_context: Option<Seq<char>>,
}

impl View for EnvVars {
    type V = EnvView;

    open spec fn view(&self) -> EnvView {
        EnvView {
            cursor_api_host: opt_view(self.cursor_api_host),
            bridge_host: opt_view(self.bridge_host),
            cursor_api_port: opt_view(self.cursor_api_port),
            bridge_port: opt_view(self.bridge_port),
            cursor_api_key: opt_view(self.cursor_api_key),
            bridge_api_key: opt_view(self.bridge_api_key),
            cursor_workspace: opt_view(self.cursor_workspace),
            cursor_api_default_model: opt_view(self.cursor_api_default_model),
            bridge_default_model: opt_view(self.bridge_default_model),
            cursor_api_timeout_secs: opt_view(self.cursor_api_timeout_secs),
            bridge_timeout_secs: opt_view(self.bridge_timeout_secs),
            cursor_api_json_mode: opt_view(self.cursor_api_json_mode),
            bridge_json_mode: opt_view(self.bridge_json_mode),
            cursor_api_max_context_tokens: opt_view(self.cursor_api_max_context_tokens),
            bridge_max_context_tokens: opt_view(self.bridge_max_context_tokens),
            cursor_api_truncate_over_context: opt_view(self.cursor_api_truncate_over_context),
            bridge_truncate_over_context: opt_view(self.bridge_truncate_over_context),
        }
    }
}

impl EnvVars {
    /// An environment in which none of the variables is set.
    pub fn empty() -> (r: EnvVars)
        ensures
            r@ == empty_env(),
    {
        EnvVars {
            cursor_api_host: None,
            bridge_host: None,
            cursor_api_port: None,
            bridge_port: None,
            cursor_api_key: None,
            bridge_api_key: None,
            cursor_workspace: None,
            cursor_api_default_model: None,
            bridge_default_model: None,
            cursor_api_timeout_secs: None,
            bridge_timeout_secs: None,
            cursor_api_json_mode: None,
            bridge_json_mode: None,
            cursor_api_max_context_tokens: None,
            bridge_max_context_tokens: None,
            cursor_api_truncate_over_context: None,
            bridge_truncate_over_context: None,
        }
    }
}

pub open spec fn empty_env() -> EnvView {
    EnvView {
        cursor_api_host: None,
        bridge_host: None,
        cursor_api_port: None,
        bridge_port: None,
        cursor_api_key: None,
        bridge_api_key: None,
        cursor_workspace: None,
        cursor_api_default_model: None,
        bridge_default_model: None,
        cursor_api_timeout_secs: None,
        bridge_timeout_secs: None,
        cursor_api_json_mode: None,
        bridge_json_mode: None,
        cursor_api_max_context_tokens: None,
        bridge_max_context_tokens: None,
        cursor_api_truncate_over_context: None,
        bridge_truncate_over_context: None,
    }
}

/// A set variable with a non-empty value.
pub open spec fn nonempty(v: Option<Seq<char>>) -> Option<Seq<char>> {
    match v {
        Some(s) => if s.len() > 0 {
            Some(s)
        } else {
            None
        },
        None => None,
    }
}

/// The first of the two variables that is set and non-empty.
pub open spec fn first_nonempty(a: Option<Seq<char>>, b: Option<Seq<char>>) -> Option<Seq<char>> {
    if nonempty(a) is Some {
        nonempty(a)
    } else {
        nonempty(b)
    }
}

/// An environment flag is on when, lower-cased, it reads `1`, `true` or `yes`
/// (ASCII case folding suffices, as for `profile_key`).
pub open spec fn env_flag(v: Seq<char>) -> bool {
    let k = lower(v);
    k == "1"@ || k == "true"@ || k == "yes"@
}

impl ConfigView {
    pub open spec fn env_host(self, env: EnvView) -> ConfigView {
        match first_nonempty(env.cursor_api_host, env.bridge_host) {
            Some(host) => ConfigView {
                server: ServerView { host, ..self.server },
                bind_source: BindSourceView {
                    host: if nonempty(env.cursor_api_host) is Some {
                        "CURSOR_API_HOST"@
                    } else {
                        "BRIDGE_HOST"@
                    },
                    ..self.bind_source
                },
                ..self
            },
            None => self,
        }
    }

    pub open spec fn env_port(self, env: EnvView) -> ConfigView {
        match first_nonempty(env.cursor_api_port, env.bridge_port) {
            Some(raw) => match parse_unsigned(raw, 65535) {
                Some(p) => ConfigView {
                    server: ServerView { port: p as u16, ..self.server },
                    bind_source: BindSourceView {
                        port: if nonempty(env.cursor_api_port) is Some {
                            "CURSOR_API_PORT"@
                        } else {
                            "BRIDGE_PORT"@
                        },
                        ..self.bind_source
                    },
                    ..self
                },
                None => self,
            },
            None => self,
        }
    }

    pub open spec fn env_key(self, env: EnvView) -> ConfigView {
        match first_nonempty(env.cursor_api_key, env.bridge_api_key) {
            Some(key) => ConfigView {
                auth: AuthView { api_key: key, require_auth: true, ..self.auth },
                ..self
            },
            None => self,
        }
    }

    pub open spec fn env_workspace(self, env: EnvView) -> ConfigView {
        match env.cursor_workspace {
            Some(ws) => ConfigView { cursor: CursorView { workspace: ws, ..self.cursor }, ..self },
            None => self,
        }
    }

    pub open spec fn env_model(self, env: EnvView) -> ConfigView {
        match first_nonempty(env.cursor_api_default_model, env.bridge_default_model) {
            Some(m) => ConfigView { cursor: CursorView { default_model: m, ..self.cursor }, ..self },
            None => self,
        }
    }

    pub open spec fn env_timeout(self, env: EnvView) -> ConfigView {
        match first_nonempty(env.cursor_api_timeout_secs, env.bridge_timeout_secs) {
            Some(t) => match parse_unsigned(t, u64::MAX as nat) {
                Some(x) => ConfigView {
                    server: ServerView { request_timeout_secs: x as u64, ..self.server },
                    ..self
                },
                None => self,
            },
            None => self,
        }
    }

    pub open spec fn env_json(self, env: EnvView) -> ConfigView {
        match first_nonempty(env.cursor_api_json_mode, env.bridge_json_mode) {
            Some(v) => ConfigView {
                cursor: CursorView { json_mode: env_flag(v), ..self.cursor },
                ..self
            },
            None => self,
        }
    }

    pub open spec fn env_context(self, env: EnvView) -> ConfigView {
        match first_nonempty(env.cursor_api_max_context_tokens, env.bridge_max_context_tokens) {
            Some(v) => match parse_unsigned(v, u32::MAX as nat) {
                Some(n) => if n > 0 {
                    ConfigView {
                        cursor: CursorView { max_context_tokens: n as u32, ..self.cursor },
                        ..self
                    }
                } else {
                    self
                },
                None => self,
            },
            None => self,
        }
    }

    pub open spec fn env_truncate(self, env: EnvView) -> ConfigView {
        match first_nonempty(
            env.cursor_api_truncate_over_context,
            env.bridge_truncate_over_context,
        ) {
            Some(v) => ConfigView {
                cursor: CursorView { truncate_over_context: env_flag(v), ..self.cursor },
                ..self
            },
            None => self,
        }
    }

    pub open spec fn env_rest(self, env: EnvView) -> ConfigView {
        self.env_key(env).env_workspace(env).env_model(env).env_timeout(env).env_json(
            env,
        ).env_context(env).env_truncate(env)
    }

    /// The configuration once the environment overrides are applied.
    pub open spec fn with_env(self, env: EnvView) -> ConfigView {
        ConfigView { bind_source: default_bind_source(), ..self }.env_host(env).env_port(
            env,
        ).env_rest(env)
    }
}

fn is_nonempty(v: &Option<String>) -> (b: bool)
    ensures
        b == (nonempty(opt_view(*v)) is Some),
{
    match v {
        Some(s) => !s.as_str().is_empty(),
        None => false,
    }
}

fn first_nonempty_env(a: &Option<String>, b: &Option<String>) -> (r: Option<String>)
    ensures
        opt_view(r) == first_nonempty(opt_view(*a), opt_view(*b)),
{
    if is_nonempty(a) {
        a.clone()
    } else if is_nonempty(b) {
        b.clone()
    } else {
        None
    }
}

fn env_flag_exec(v: &String) -> (b: bool)
    ensures
        b == env_flag(v@),
{
    let k = lower_chars(&chars_of(v.as_str()));
    chars_eq(&k, "1") || chars_eq(&k, "true") || chars_eq(&k, "yes")
}

impl Config {
    /// Applies the environment overrides; the `CURSOR_API_*` variables win over the
    /// legacy `BRIDGE_*` ones.
    pub fn apply_env_overrides(&mut self, env: &EnvVars)
        ensures
            final(self)@ == old(self)@.with_env(env@),
    {
        self.bind_source = BindSource::default();
        let ghost c0 = self@;
        if let Some(host) = first_nonempty_env(&env.cursor_api_host, &env.bridge_host) {
            let source = if is_nonempty(&env.cursor_api_host) {
                "CURSOR_API_HOST"
            } else {
                "BRIDGE_HOST"
            };
            self.server.host = host;
            self.bind_source.host = source;
        }
        assert(self@ =~= c0.env_host(env@));
        let ghost c1 = self@;
        if let Some(port_raw) = first_nonempty_env(&env.cursor_api_port, &env.bridge_port) {
            let source = if is_nonempty(&env.cursor_api_port) {
                "CURSOR_API_PORT"
            } else {
                "BRIDGE_PORT"
            };
            if let Some(p) = parse_unsigned_chars(&chars_of(port_raw.as_str()), 65535) {
                self.server.port = p as u16;
                self.bind_source.port = source;
            }
        }
        assert(self@ =~= c1.env_port(env@));
        self.apply_env_rest(env);
    }

    fn apply_env_rest(&mut self, env: &EnvVars)
        ensures
            final(self)@ == old(self)@.env_rest(env@),
    {
        self.apply_env_key(env);
        self.apply_env_workspace(env);
        self.apply_env_model(env);
        self.apply_env_timeout(env);
        self.apply_env_json(env);
        self.apply_env_context(env);
        self.apply_env_truncate(env);
    }

    fn apply_env_key(&mut self, env: &EnvVars)
        ensures
            final(self)@ == old(self)@.env_key(env@),
    {
        if let Some(key) = first_nonempty_env(&env.cursor_api_key, &env.bridge_api_key) {
            self.auth.api_key = key;
            self.auth.require_auth = true;
        }
        assert(self@ =~= old(self)@.env_key(env@));
    }

    fn apply_env_workspace(&mut self, env: &EnvVars)
        ensures
            final(self)@ == old(self)@.env_workspace(env@),
    {
        if let Some(ws) = &env.cursor_workspace {
            self.cursor.workspace = ws.clone();
        }
        assert(self@ =~= old(self)@.env_workspace(env@));
    }

    fn apply_env_model(&mut self, env: &EnvVars)
        ensures
            final(self)@ == old(self)@.env_model(env@),
    {
        if let Some(model) = first_nonempty_env(
            &env.cursor_api_default_model,
            &env.bridge_default_model,
        ) {
            self.cursor.default_model = model;
        }
        assert(self@ =~= old(self)@.env_model(env@));
    }

    fn apply_env_timeout(&mut self, env: &EnvVars)
        ensures
            final(self)@ == old(self)@.env_timeout(env@),
    {
        if let Some(timeout) = first_nonempty_env(
            &env.cursor_api_timeout_secs,
            &env.bridge_timeout_secs,
        ) {
            if let Some(t) = parse_unsigned_chars(&chars_of(timeout.as_str()), u64::MAX) {
                self.server.request_timeout_secs = t;
            }
        }
        assert(self@ =~= old(self)@.env_timeout(env@));
    }

    fn apply_env_json(&mut self, env: &EnvVars)
        ensures
            final(self)@ == old(self)@.env_json(env@),
    {
        if let Some(v) = first_nonempty_env(&env.cursor_api_json_mode, &env.bridge_json_mode) {
            self.cursor.json_mode = env_flag_exec(&v);
        }
        assert(self@ =~= old(self)@.env_json(env@));
    }

    fn apply_env_context(&mut self, env: &EnvVars)
        ensures
            final(self)@ == old(self)@.env_context(env@),
    {
        if let Some(v) = first_nonempty_env(
            &env.cursor_api_max_context_tokens,
            &env.bridge_max_context_tokens,
        ) {
            if let Some(n) = parse_unsigned_chars(&chars_of(v.as_str()), 4294967295) {
                if n > 0 {
                    self.cursor.max_context_tokens = n as u32;
                }
            }
        }
        assert(self@ =~= old(self)@.env_context(env@));
    }

    fn apply_env_truncate(&mut self, env: &EnvVars)
        ensures
            final(self)@ == old(self)@.env_truncate(env@),
    {
        if let Some(v) = first_nonempty_env(
            &env.cursor_api_truncate_over_context,
            &env.bridge_truncate_over_context,
        ) {
            self.cursor.truncate_over_context = env_flag_exec(&v);
        }
        assert(self@ =~= old(self)@.env_truncate(env@));
    }
}

// ---------------------------------------------------------------- summaries

impl ConfigView {
    pub open spec fn bind_source_summary(self) -> Seq<char> {
        "host="@ + self.server.host + " ("@ + self.bind_source.host + ") port="@ + dec(
            self.server.port as nat,
        ) + " ("@ + self.bind_source.port + ")"@
    }
}

impl Config {
    pub fn bind_source_summary(&self) -> (r: String)
        ensures
            r@ == self@.bind_source_summary(),
    {
        let mut r = owned("host=");
        push_str(&mut r, self.server.host.as_str());
        push_str(&mut r, " (");
        push_str(&mut r, self.bind_source.host);
        push_str(&mut r, ") port=");
        push_dec(&mut r, self.server.port as u64);
        push_str(&mut r, " (");
        push_str(&mut r, self.bind_source.port);
        push_str(&mut r, ")");
        r
    }
}

/// Whether the ready banner reports bearer auth as on.
pub open spec fn auth_on(cfg: ConfigView) -> bool {
    cfg.auth.require_auth && cfg.auth.api_key.len() > 0
}

pub open spec fn ready_banner_text(cfg: ConfigView, agent_version: Option<Seq<char>>) -> Seq<char> {
    let agent = match agent_version {
        Some(v) => v,
        None => "unknown"@,
    };
    let auth = if auth_on(cfg) {
        "Bearer auth ON"@
    } else {
        "auth off"@
    };
    "Cursor-API ready · "@ + cfg.v1_url() + " · /health → 200 · model="@
        + cfg.cursor.default_model + " · mode="@ + cfg.cursor.mode + " · profile="@
        + cfg.cursor.profile + " · agent="@ + agent + " · "@ + auth
}

/// Human-readable ready banner for logs / stdout / TUI status.
pub fn ready_banner(cfg: &Config, agent_version: Option<String>) -> (r: String)
    ensures
        r@ == ready_banner_text(cfg@, opt_view(agent_version)),
{
    let agent = match agent_version {
        Some(v) => v,
        None => owned("unknown"),
    };
    let auth = if cfg.auth.require_auth && !cfg.auth.api_key.as_str().is_empty() {
        "Bearer auth ON"
    } else {
        "auth off"
    };
    let mut r = owned("Cursor-API ready · ");
    let v1 = cfg.v1_url();
    push_str(&mut r, v1.as_str());
    push_str(&mut r, " · /health → 200 · model=");
    push_str(&mut r, cfg.cursor.default_model.as_str());
    push_str(&mut r, " · mode=");
    push_str(&mut r, cfg.cursor.mode.as_str());
    push_str(&mut r, " · profile=");
    push_str(&mut r, cfg.cursor.profile.as_str());
    push_str(&mut r, " · agent=");
    push_str(&mut r, agent.as_str());
    push_str(&mut r, " · ");
    push_str(&mut r, auth);
    r
}

// ---------------------------------------------------------------- bridge API key

pub open spec fn is_lower_hex(c: char) -> bool {
    ('0' <= c && c <= '9') || ('a' <= c && c <= 'f')
}

/// The text of a random (version 4, RFC 4122 variant) UUID in the lower-case
/// hyphenated form, like `67e55044-10b1-426f-9247-bb680e5fe0c8`.
pub open spec fn is_uuid_v4_text(u: Seq<char>) -> bool {
    &&& u.len() == 36
    &&& forall|i: int|
        0 <= i < 36 ==> if i == 8 || i == 13 || i == 18 || i == 23 {
            #[trigger] u[i] == '-'
        } else {
            is_lower_hex(u[i])
        }
    &&& u[14] == '4'
    &&& (u[19] == '8' || u[19] == '9' || u[19] == 'a' || u[19] == 'b')
}

/// A bridge API key: `bridge-` followed by the text of a random UUID.
pub open spec fn is_bridge_key(k: Seq<char>) -> bool {
    k.len() == 43 && k.subrange(0, 7) == "bridge-"@ && is_uuid_v4_text(k.subrange(7, 43))
}

/// Calls `uuid::Uuid::new_v4` and renders the UUID with its `Display` impl.
/// `new_v4` draws 128 random bits and then sets the version nibble to 4 and the
/// variant bits to `10`; `Display` writes the lower-case hyphenated form.
/// The contract claims that format and nothing about which UUID comes out.
#[verifier::external_body]
fn new_uuid_v4_text() -> (s: String)
    ensures
        is_uuid_v4_text(s@),
{
    uuid::Uuid::new_v4().to_string()
}

pub fn generate_bridge_api_key() -> (k: String)
    ensures
        is_bridge_key(k@),
{
    let u = new_uuid_v4_text();
    let mut k = owned("bridge-");
    push_str(&mut k, u.as_str());
    proof {
        reveal_strlit("bridge-");
        assert(k@.subrange(0, 7) =~= "bridge-"@);
        assert(k@.subrange(7, 43) =~= u@);
    }
    k
}

// ---------------------------------------------------------------- first run

impl ConfigView {
    /// The configuration written on first run, given the freshly generated key.
    pub open spec fn first_run(api_key: Seq<char>, env: EnvView) -> ConfigView {
        let d = default_config();
        let keyed = if d.auth.generate_api_key_on_first_run {
            ConfigView { auth: AuthView { api_key, require_auth: true, ..d.auth }, ..d }
        } else {
            d
        };
        keyed.with_profile_applied().with_env(env)
    }

    /// The configuration in use after loading `loaded` from the config file.
    pub open spec fn loaded(loaded: ConfigView, env: EnvView) -> ConfigView {
        loaded.with_env(env)
    }
}

impl Config {
    /// The configuration created on first run with the bridge key `api_key`:
    /// defaults, the key (when enabled), the profile preset, then the environment.
    pub fn first_run(api_key: String, env: &EnvVars) -> (cfg: Config)
        ensures
            cfg@ == ConfigView::first_run(api_key@, env@),
    {
        let mut cfg = Config::default();
        if cfg.auth.generate_api_key_on_first_run {
            cfg.auth.api_key = api_key;
            cfg.auth.require_auth = true;
        }
        let ghost keyed = cfg@;
        assert(keyed =~= (if default_config().auth.generate_api_key_on_first_run {
            ConfigView {
                auth: AuthView { api_key: api_key@, require_auth: true, ..default_config().auth },
                ..default_config()
            }
        } else {
            default_config()
        }));
        cfg.apply_profile();
        cfg.apply_env_overrides(env);
        cfg
    }

    /// Decides the configuration in use at startup. `loaded` is the parsed config
    /// file (with its profile applied) when the file exists. The boolean is true
    /// when a new configuration was created and must be written out.
    pub fn load_or_create(loaded: Option<Config>, env: &EnvVars) -> (r: (Config, bool))
        ensures
            match loaded {
                Some(c) => r.0@ == ConfigView::loaded(c@, env@) && !r.1,
                None => r.1 && exists|k: Seq<char>|
                    is_bridge_key(k) && r.0@ == #[trigger] ConfigView::first_run(k, env@),
            },
    {
        match loaded {
            Some(mut cfg) => {
                cfg.apply_env_overrides(env);
                (cfg, false)
            },
            None => {
                let key = generate_bridge_api_key();
                let ghost k = key@;
                let cfg = Config::first_run(key, env);
                assert(is_bridge_key(k) && cfg@ == ConfigView::first_run(k, env@));
                (cfg, true)
            },
        }
    }
}

// ---------------------------------------------------------------- redaction

/// First index at or after `from` where `pat` occurs in `s`.
pub open spec fn find_from(s: Seq<char>, pat: Seq<char>, from: int) -> Option<int>
    decreases s.len() + 1 - from,
{
    if from < 0 || from + pat.len() > s.len() {
        None
    } else if s.subrange(from, from + pat.len()) == pat {
        Some(from)
    } else {
        find_from(s, pat, from + 1)
    }
}

/// Characters that end a redacted token.
pub open spec fn is_token_stop(c: char) -> bool {
    crate::text::is_ws(c) || c == '"' || c == '\''
}

/// Index of the first token stop at or after `i` (`s.len()` when there is none).
pub open spec fn token_end(s: Seq<char>, i: int) -> int
    decreases s.len() - i,
{
    if i < 0 || i >= s.len() {
        s.len() as int
    } else if is_token_stop(s[i]) {
        i
    } else {
        token_end(s, i + 1)
    }
}

/// The mask that replaces a token.
pub open spec fn mask() -> Seq<char> {
    seq!['*', '*', '*']
}

/// Masks the token after every occurrence of `prefix` at or after `from`,
/// resuming the search after each mask.
pub open spec fn redact_from(s: Seq<char>, prefix: Seq<char>, from: int) -> Seq<char>
    decreases s.len() + 1 - from,
{
    if prefix.len() == 0 || from < 0 {
        s
    } else {
        match find_from(s, prefix, from) {
            Some(idx) => {
                proof {
                    lemma_find_from_bounds(s, prefix, from);
                    lemma_token_end_bounds(s, idx + prefix.len());
                }
                let start = idx + prefix.len();
                let end = token_end(s, start);
                if end > start {
                    redact_from(
                        s.subrange(0, start) + mask() + s.subrange(end, s.len() as int),
                        prefix,
                        start + 3,
                    )
                } else {
                    redact_from(s, prefix, start)
                }
            },
            None => s,
        }
    }
}

/// Masks the token after every occurrence of `prefix`.
pub open spec fn redact_every(s: Seq<char>, prefix: Seq<char>) -> Seq<char> {
    redact_from(s, prefix, 0)
}

/// Redaction of bearer tokens and keys: the tokens after every `Bearer `, `bearer `,
/// `bridge-` and `sk-`, masked prefix by prefix in that order.
pub open spec fn redacted(s: Seq<char>) -> Seq<char> {
    redact_every(
        redact_every(redact_every(redact_every(s, "Bearer "@), "bearer "@), "bridge-"@),
        "sk-"@,
    )
}

pub proof fn lemma_token_end_bounds(s: Seq<char>, i: int)
    requires
        0 <= i <= s.len(),
    ensures
        i <= token_end(s, i) <= s.len(),
    decreases s.len() - i,
{
    if i < s.len() && !is_token_stop(s[i]) {
        lemma_token_end_bounds(s, i + 1);
    }
}

pub proof fn lemma_find_from_bounds(s: Seq<char>, pat: Seq<char>, from: int)
    ensures
        find_from(s, pat, from) matches Some(i) ==> from <= i && i + pat.len() <= s.len()
            && s.subrange(i, i + pat.len()) == pat,
    decreases s.len() + 1 - from,
{
    if !(from < 0 || from + pat.len() > s.len()) && s.subrange(from, from + pat.len()) != pat {
        lemma_find_from_bounds(s, pat, from + 1);
    }
}

fn matches_at(s: &Vec<char>, pat: &Vec<char>, at: usize) -> (b: bool)
    requires
        at + pat@.len() <= s@.len(),
    ensures
        b == (s@.subrange(at as int, at + pat@.len()) == pat@),
{
    let m = pat.len();
    let n = s.len();
    for j in 0..m
        invariant
            m == pat@.len(),
            n == s@.len(),
            at + m <= n,
            forall|k: int| 0 <= k < j ==> s@[at + k] == pat@[k],
    {
        if s[at + j] != pat[j] {
            assert(s@.subrange(at as int, at + m)[j as int] != pat@[j as int]);
            return false;
        }
    }
    assert(s@.subrange(at as int, at + m) =~= pat@);
    true
}

fn find_chars_from(s: &Vec<char>, pat: &Vec<char>, from: usize) -> (r: Option<usize>)
    ensures
        match r {
            Some(i) => find_from(s@, pat@, from as int) == Some(i as int),
            None => find_from(s@, pat@, from as int) is None,
        },
{
    let n = s.len();
    let m = pat.len();
    if m > n || from > n - m {
        return None;
    }
    let mut i: usize = from;
    while i <= n - m
        invariant
            n == s@.len(),
            m == pat@.len(),
            m <= n,
            from <= i <= n - m + 1,
            find_from(s@, pat@, from as int) == find_from(s@, pat@, i as int),
        decreases n - m + 1 - i,
    {
        if matches_at(s, pat, i) {
            return Some(i);
        }
        if i == n - m {
            assert(find_from(s@, pat@, i + 1) is None);
            return None;
        }
        i = i + 1;
    }
    None
}

fn token_end_exec(s: &Vec<char>, start: usize) -> (e: usize)
    requires
        start <= s@.len(),
    ensures
        e as int == token_end(s@, start as int),
        start <= e <= s@.len(),
{
    let n = s.len();
    let mut i = start;
    while i < n && !(crate::text::is_whitespace(s[i]) || s[i] == '"' || s[i] == '\'')
        invariant
            start <= i <= n,
            n == s@.len(),
            token_end(s@, start as int) == token_end(s@, i as int),
        decreases n - i,
    {
        i = i + 1;
    }
    i
}

fn redact_every_exec(s: Vec<char>, prefix: &str) -> (r: Vec<char>)
    ensures
        r@ == redact_every(s@, prefix@),
{
    let pat = chars_of(prefix);
    if pat.len() == 0 {
        return s;
    }
    let ghost orig = s@;
    let mut cur = s;
    let mut from: usize = 0;
    loop
        invariant
            from <= cur@.len(),
            pat@ == prefix@,
            pat@.len() > 0,
            redact_from(cur@, pat@, from as int) == redact_from(orig, pat@, 0),
            orig == s@,
        decreases cur@.len() + 1 - from,
    {
        match find_chars_from(&cur, &pat, from) {
            None => {
                assert(redact_from(cur@, pat@, from as int) == cur@);
                return cur;
            },
            Some(idx) => {
                let n = cur.len();
                proof {
                    lemma_find_from_bounds(cur@, pat@, from as int);
                }
                let start = idx + pat.len();
                let end = token_end_exec(&cur, start);
                if end > start {
                    let mut r = crate::text::slice_chars(&cur, 0, start);
                    r.push('*');
                    r.push('*');
                    r.push('*');
                    let mut tail = crate::text::slice_chars(&cur, end, cur.len());
                    r.append(&mut tail);
                    assert(r@ =~= cur@.subrange(0, start as int) + mask() + cur@.subrange(
                        end as int,
                        cur@.len() as int,
                    ));
                    let rl = r.len();
                    cur = r;
                    from = start + 3;
                } else {
                    from = start;
                }
            },
        }
    }
}

pub fn redact_secrets(text: &str, enabled: bool) -> (r: String)
    ensures
        r@ == if enabled {
            redacted(text@)
        } else {
            text@
        },
{
    if !enabled {
        return owned(text);
    }
    let out = chars_of(text);
    let out = redact_every_exec(out, "Bearer ");
    let out = redact_every_exec(out, "bearer ");
    let out = redact_every_exec(out, "bridge-");
    let out = redact_every_exec(out, "sk-");
    crate::text::string_of(&out)
}

// ---------------------------------------------------------------- laws

/// Applying the preset of the configured profile a second time changes nothing.
pub proof fn law_profile_idempotent(c: ConfigView)
    ensures
        c.with_profile_applied().with_profile_applied() == c.with_profile_applied(),
{
    reveal_strlit("Respond with valid JSON only. No markdown fences.");
}

/// `set_profile` keeps the name it was given as the configured profile.
pub proof fn law_set_profile_records_name(c: ConfigView, profile: Seq<char>)
    ensures
        c.with_profile(profile).cursor.profile == profile,
{
}

/// The long_running profile queues requests for its single slot instead of
/// answering 429 at once, whatever the configuration was before.
pub proof fn law_long_running_queues(c: ConfigView)
    ensures
        ({
            let d = c.with_profile("long_running"@);
            &&& d.server.max_concurrency == 1
            &&& d.server.queue_wait_secs == 1800
            &&& d.server.reject_when_busy
            &&& d.server.request_timeout_secs == 900
            &&& d.cursor.mode == "ask"@
            &&& !d.cursor.force
        }),
{
    reveal_strlit("long_running");
    reveal_strlit("json_api");
    reveal_strlit("json-api");
    reveal_strlit("json");
    let p = "long_running"@;
    crate::text::lemma_trim_unchanged(p);
    crate::text::lemma_lower_unchanged(p);
    assert(profile_key(p) == p);
}

/// The json_api profile turns JSON mode on, folds system messages, and never forces writes.
pub proof fn law_json_api_profile(c: ConfigView)
    ensures
        ({
            let d = c.with_profile("json_api"@);
            &&& d.cursor.json_mode
            &&& !d.cursor.force
            &&& d.cursor.mode == "ask"@
            &&& d.cursor.message_flatten_mode == "fold_system"@
            &&& d.cursor.prompt_suffix.len() > 0
        }),
{
    reveal_strlit("json_api");
    reveal_strlit("Respond with valid JSON only. No markdown fences.");
    let p = "json_api"@;
    crate::text::lemma_trim_unchanged(p);
    crate::text::lemma_lower_unchanged(p);
    assert(profile_key(p) == p);
}

/// Without environment overrides, only the bind provenance is reset to `config`.
pub proof fn law_no_env_keeps_config(c: ConfigView)
    ensures
        c.with_env(empty_env()) == (ConfigView { bind_source: default_bind_source(), ..c }),
{
    assert(c.with_env(empty_env()) =~= (ConfigView { bind_source: default_bind_source(), ..c }));
}

/// A set, non-empty CURSOR_API_PORT wins over BRIDGE_PORT: when it parses, the port
/// is its value and the provenance names it; when it does not, the port is kept.
pub proof fn law_cursor_api_port_wins(c: ConfigView, env: EnvView)
    requires
        nonempty(env.cursor_api_port) is Some,
    ensures
        match parse_unsigned(env.cursor_api_port->0, 65535) {
            Some(p) => c.with_env(env).server.port == p && c.with_env(env).bind_source.port
                == "CURSOR_API_PORT"@,
            None => c.with_env(env).server.port == c.server.port && c.with_env(env).bind_source.port
                == "config"@,
        },
{
}

/// A set, non-empty CURSOR_API_HOST wins over BRIDGE_HOST.
pub proof fn law_cursor_api_host_wins(c: ConfigView, env: EnvView)
    requires
        nonempty(env.cursor_api_host) is Some,
    ensures
        c.with_env(env).server.host == env.cursor_api_host->0,
        c.with_env(env).bind_source.host == "CURSOR_API_HOST"@,
{
}

/// The legacy BRIDGE_PORT is used only when CURSOR_API_PORT is unset or empty.
pub proof fn law_bridge_port_fallback(c: ConfigView, env: EnvView, p: nat)
    requires
        nonempty(env.cursor_api_port) is None,
        nonempty(env.bridge_port) is Some,
        parse_unsigned(env.bridge_port->0, 65535) == Some(p),
    ensures
        c.with_env(env).server.port == p,
        c.with_env(env).bind_source.port == "BRIDGE_PORT"@,
{
}

/// A key from the environment turns bearer auth on.
pub proof fn law_env_key_requires_auth(c: ConfigView, env: EnvView)
    requires
        first_nonempty(env.cursor_api_key, env.bridge_api_key) is Some,
    ensures
        auth_on(c.with_env(env)),
{
}

/// The base URL is `http://` and the listen address; the OpenAI URL adds `/v1`.
pub proof fn law_urls(c: ConfigView)
    ensures
        c.base_url() == "http://"@ + c.listen_addr(),
        c.v1_url() == "http://"@ + c.listen_addr() + "/v1"@,
{
    assert(c.base_url() =~= "http://"@ + c.listen_addr());
}

proof fn lemma_find_absent(s: Seq<char>, pat: Seq<char>, j: int, from: int)
    requires
        0 <= j < pat.len(),
        forall|i: int| 0 <= i < s.len() ==> s[i] != pat[j],
    ensures
        find_from(s, pat, from) is None,
    decreases s.len() + 1 - from,
{
    if !(from < 0 || from + pat.len() > s.len()) {
        assert(s.subrange(from, from + pat.len())[j] == s[from + j]);
        lemma_find_absent(s, pat, j, from + 1);
    }
}

proof fn lemma_token_end_none(s: Seq<char>, i: int)
    requires
        0 <= i <= s.len(),
        forall|j: int| i <= j < s.len() ==> !is_token_stop(#[trigger] s[j]),
    ensures
        token_end(s, i) == s.len(),
    decreases s.len() - i,
{
    if i < s.len() {
        lemma_token_end_none(s, i + 1);
    }
}

/// Logging a freshly generated bridge key with redaction on shows only `bridge-***`.
pub proof fn law_generated_key_redacted(k: Seq<char>)
    requires
        is_bridge_key(k),
    ensures
        redacted(k) == "bridge-***"@,
{
    reveal_strlit("Bearer ");
    reveal_strlit("bearer ");
    reveal_strlit("bridge-");
    reveal_strlit("sk-");
    reveal_strlit("bridge-***");
    let u = k.subrange(7, 43);
    assert forall|i: int| 0 <= i < k.len() implies k[i] != ' ' && !is_token_stop(k[i]) by {
        if i < 7 {
            assert(k[i] == k.subrange(0, 7)[i]);
        } else {
            assert(k[i] == u[i - 7]);
        }
    }
    lemma_find_absent(k, "Bearer "@, 6, 0);
    lemma_find_absent(k, "bearer "@, 6, 0);
    assert(redact_every(redact_every(k, "Bearer "@), "bearer "@) == k);
    assert(find_from(k, "bridge-"@, 0) == Some(0int));
    lemma_token_end_none(k, 7);
    let r = k.subrange(0, 7) + mask() + k.subrange(43, 43);
    assert(r =~= "bridge-***"@);
    assert(find_from(r, "bridge-"@, 10) is None);
    assert(redact_from(r, "bridge-"@, 10) == r);
    assert(redact_every(k, "bridge-"@) == redact_from(r, "bridge-"@, 10));
    lemma_find_absent(r, "sk-"@, 0, 0);
}

/// The chat profile keeps every setting as configured.
pub proof fn law_chat_keeps_settings(c: ConfigView)
    ensures
        c.with_profile("chat"@) == (ConfigView { cursor: CursorView { profile: "chat"@, ..c.cursor }, ..c }),
{
    reveal_strlit("chat");
    reveal_strlit("json_api");
    reveal_strlit("json-api");
    reveal_strlit("json");
    reveal_strlit("long_running");
    reveal_strlit("long-running");
    reveal_strlit("long");
    let p = "chat"@;
    crate::text::lemma_trim_unchanged(p);
    crate::text::lemma_lower_unchanged(p);
    assert(profile_key(p) == p);
}

/// A configuration created on first run always has bearer auth on.
pub proof fn law_first_run_requires_auth(k: Seq<char>, env: EnvView)
    requires
        is_bridge_key(k),
    ensures
        auth_on(ConfigView::first_run(k, env)),
{
}

/// The bind provenance always names `config` or the variable that set the value.
pub proof fn law_bind_source_names(c: ConfigView, env: EnvView)
    ensures
        ({
            let b = c.with_env(env).bind_source;
            &&& (b.host == "config"@ || b.host == "CURSOR_API_HOST"@ || b.host == "BRIDGE_HOST"@)
            &&& (b.port == "config"@ || b.port == "CURSOR_API_PORT"@ || b.port == "BRIDGE_PORT"@)
        }),
{
}

/// `p` occurs in `t` at `i`.
pub open spec fn occurs_at(t: Seq<char>, p: Seq<char>, i: int) -> bool {
    0 <= i && i + p.len() <= t.len() && t.subrange(i, i + p.len()) == p
}

/// What follows the occurrence of a prefix at `i` is masked, or there is no token.
pub open spec fn masked_after(t: Seq<char>, p: Seq<char>, i: int) -> bool {
    let j = i + p.len();
    j >= t.len() || is_token_stop(t[j]) || t[j] == '*'
}

/// A prefix whose first character occurs nowhere else in it and which holds no `*`:
/// two of its occurrences cannot overlap, and none can reach into a mask.
pub open spec fn simple_prefix(p: Seq<char>) -> bool {
    &&& p.len() > 0
    &&& forall|k: int| 0 < k < p.len() ==> #[trigger] p[k] != p[0]
    &&& forall|k: int| 0 <= k < p.len() ==> #[trigger] p[k] != '*'
}

proof fn lemma_find_first(s: Seq<char>, p: Seq<char>, from: int, i: int)
    requires
        0 <= from <= i,
        occurs_at(s, p, i),
    ensures
        find_from(s, p, from) matches Some(idx) && idx <= i,
    decreases i - from,
{
    if from < i && s.subrange(from, from + p.len()) != p {
        lemma_find_first(s, p, from + 1, i);
    }
}

proof fn lemma_no_overlap(s: Seq<char>, p: Seq<char>, a: int, b: int)
    requires
        simple_prefix(p),
        occurs_at(s, p, a),
        occurs_at(s, p, b),
        a <= b < a + p.len(),
    ensures
        a == b,
{
    if a < b {
        assert(s[b] == s.subrange(b, b + p.len())[0]);
        assert(s[b] == s.subrange(a, a + p.len())[b - a]);
    }
}

proof fn lemma_redact_from_masks(s: Seq<char>, p: Seq<char>, from: int)
    requires
        simple_prefix(p),
        0 <= from <= s.len(),
        forall|i: int| i < from && #[trigger] occurs_at(s, p, i) ==> masked_after(s, p, i),
    ensures
        forall|i: int| #[trigger]
            occurs_at(redact_from(s, p, from), p, i) ==> masked_after(
                redact_from(s, p, from),
                p,
                i,
            ),
    decreases s.len() + 1 - from,
{
    let n = p.len();
    lemma_find_from_bounds(s, p, from);
    match find_from(s, p, from) {
        None => {
            assert forall|i: int| #[trigger] occurs_at(s, p, i) implies masked_after(s, p, i) by {
                if i >= from {
                    lemma_find_first(s, p, from, i);
                }
            }
            assert(redact_from(s, p, from) == s);
        },
        Some(idx) => {
            let start = idx + n;
            lemma_token_end_bounds(s, start);
            let end = token_end(s, start);
            if end > start {
                let t = s.subrange(0, start) + mask() + s.subrange(end, s.len() as int);
                assert forall|i: int| i < start + 3 && #[trigger] occurs_at(t, p, i) implies masked_after(t, p, i) by {
                    if i + n > start {
                        let k = if i < start { start - i } else { 0 };
                        let q = i + k;
                        assert(t[q] == t.subrange(i, i + n)[k]);
                        assert(t[q] == '*');
                    } else {
                        assert(s.subrange(i, i + n) =~= t.subrange(i, i + n));
                        assert(occurs_at(s, p, i));
                        if i >= from {
                            lemma_find_first(s, p, from, i);
                            lemma_no_overlap(s, p, idx, i);
                            assert(t[start] == '*');
                        } else {
                            assert(masked_after(s, p, i));
                            if i + n < start {
                                assert(t[i + n] == s[i + n]);
                            }
                        }
                    }
                }
                lemma_redact_from_masks(t, p, start + 3);
                assert(redact_from(s, p, from) == redact_from(t, p, start + 3));
            } else {
                if start < s.len() {
                    lemma_token_end_bounds(s, start + 1);
                }
                assert(masked_after(s, p, idx));
                assert forall|i: int| i < start && #[trigger] occurs_at(s, p, i) implies masked_after(s, p, i) by {
                    if i >= from {
                        lemma_find_first(s, p, from, i);
                        lemma_no_overlap(s, p, idx, i);
                    }
                }
                lemma_redact_from_masks(s, p, start);
                assert(redact_from(s, p, from) == redact_from(s, p, start));
            }
        },
    }
}

/// After masking with a prefix, every occurrence of that prefix is followed by the
/// mask or by no token at all: no token after the prefix survives.
pub proof fn law_every_token_masked(s: Seq<char>, p: Seq<char>)
    requires
        simple_prefix(p),
    ensures
        forall|i: int| #[trigger]
            occurs_at(redact_every(s, p), p, i) ==> masked_after(redact_every(s, p), p, i),
{
    lemma_redact_from_masks(s, p, 0);
}

/// The four redacted prefixes are simple, so `law_every_token_masked` holds of each pass.
pub proof fn law_redacted_prefixes_simple()
    ensures
        simple_prefix("Bearer "@),
        simple_prefix("bearer "@),
        simple_prefix("bridge-"@),
        simple_prefix("sk-"@),
{
    reveal_strlit("Bearer ");
    reveal_strlit("bearer ");
    reveal_strlit("bridge-");
    reveal_strlit("sk-");
}

/// Every occurrence of `q` in `t` is followed by the mask or by no token.
pub open spec fn all_masked(t: Seq<char>, q: Seq<char>) -> bool {
    forall|i: int| #[trigger] occurs_at(t, q, i) ==> masked_after(t, q, i)
}

proof fn lemma_mask_keeps_masked(s: Seq<char>, q: Seq<char>, start: int, end: int)
    requires
        simple_prefix(q),
        0 <= start < end <= s.len(),
        all_masked(s, q),
    ensures
        all_masked(s.subrange(0, start) + mask() + s.subrange(end, s.len() as int), q),
{
    let t = s.subrange(0, start) + mask() + s.subrange(end, s.len() as int);
    let n = q.len();
    assert forall|i: int| #[trigger] occurs_at(t, q, i) implies masked_after(t, q, i) by {
        if i + n <= start {
            assert(s.subrange(i, i + n) =~= t.subrange(i, i + n));
            assert(occurs_at(s, q, i));
            if i + n < start {
                assert(t[i + n] == s[i + n]);
            }
        } else if i < start + 3 {
            let k = if i < start { start - i } else { 0 };
            assert(t[i + k] == t.subrange(i, i + n)[k]);
            assert(t[i + k] == '*');
        } else {
            let d = end - start - 3;
            assert(s.subrange(i + d, i + d + n) =~= t.subrange(i, i + n));
            assert(occurs_at(s, q, i + d));
            if i + n < t.len() {
                assert(t[i + n] == s[i + d + n]);
            }
        }
    }
}

proof fn lemma_redact_from_keeps_masked(s: Seq<char>, p: Seq<char>, q: Seq<char>, from: int)
    requires
        simple_prefix(q),
        all_masked(s, q),
    ensures
        all_masked(redact_from(s, p, from), q),
    decreases s.len() + 1 - from,
{
    if p.len() == 0 || from < 0 {
    } else {
        lemma_find_from_bounds(s, p, from);
        match find_from(s, p, from) {
            Some(idx) => {
                let start = idx + p.len();
                lemma_token_end_bounds(s, start);
                let end = token_end(s, start);
                if end > start {
                    let t = s.subrange(0, start) + mask() + s.subrange(end, s.len() as int);
                    lemma_mask_keeps_masked(s, q, start, end);
                    lemma_redact_from_keeps_masked(t, p, q, start + 3);
                    assert(redact_from(s, p, from) == redact_from(t, p, start + 3));
                } else {
                    lemma_redact_from_keeps_masked(s, p, q, start);
                    assert(redact_from(s, p, from) == redact_from(s, p, start));
                }
            },
            None => {
                assert(redact_from(s, p, from) == s);
            },
        }
    }
}

/// In a redacted text, the token after every `Bearer `, `bearer `, `bridge-` and
/// `sk-` is masked (or there is none): no bearer token or key survives.
pub proof fn law_redacted_masks_every_token(s: Seq<char>)
    ensures
        all_masked(redacted(s), "Bearer "@),
        all_masked(redacted(s), "bearer "@),
        all_masked(redacted(s), "bridge-"@),
        all_masked(redacted(s), "sk-"@),
{
    law_redacted_prefixes_simple();
    let s1 = redact_every(s, "Bearer "@);
    let s2 = redact_every(s1, "bearer "@);
    let s3 = redact_every(s2, "bridge-"@);
    law_every_token_masked(s, "Bearer "@);
    lemma_redact_from_keeps_masked(s1, "bearer "@, "Bearer "@, 0);
    lemma_redact_from_keeps_masked(s2, "bridge-"@, "Bearer "@, 0);
    lemma_redact_from_keeps_masked(s3, "sk-"@, "Bearer "@, 0);
    law_every_token_masked(s1, "bearer "@);
    lemma_redact_from_keeps_masked(s2, "bridge-"@, "bearer "@, 0);
    lemma_redact_from_keeps_masked(s3, "sk-"@, "bearer "@, 0);
    law_every_token_masked(s2, "bridge-"@);
    lemma_redact_from_keeps_masked(s3, "sk-"@, "bridge-"@, 0);
    law_every_token_masked(s3, "sk-"@);
}

/// `CURSOR_API_HOST`, when set and non-empty, decides the result whatever `BRIDGE_HOST` holds;
/// `BRIDGE_HOST` is used only when `CURSOR_API_HOST` is unset or empty; with neither, nothing changes.
pub proof fn law_env_host_precedence(c: ConfigView, env: EnvView)
    ensures
        env.cursor_api_host matches Some(v) ==> (v.len() > 0 ==> (c.with_env(env).server.host == v && c.with_env(env).bind_source.host == "CURSOR_API_HOST"@)),
        env.bridge_host matches Some(v) ==> (nonempty(env.cursor_api_host) is None && v.len() > 0 ==> (c.with_env(env).server.host == v && c.with_env(env).bind_source.host == "BRIDGE_HOST"@)),
        (nonempty(env.cursor_api_host) is None && nonempty(env.bridge_host) is None) ==> (c.with_env(env).server.host == c.server.host && c.with_env(env).bind_source.host == "config"@),
{
}

/// `CURSOR_API_PORT`, when set and non-empty, decides the result whatever `BRIDGE_PORT` holds;
/// `BRIDGE_PORT` is used only when `CURSOR_API_PORT` is unset or empty; with neither, nothing changes.
pub proof fn law_env_port_precedence(c: ConfigView, env: EnvView)
    ensures
        env.cursor_api_port matches Some(v) ==> (v.len() > 0 ==> (match parse_unsigned(v, 65535) { Some(p) => c.with_env(env).server.port == p && c.with_env(env).bind_source.port == "CURSOR_API_PORT"@, None => c.with_env(env).server.port == c.server.port && c.with_env(env).bind_source.port == "config"@ })),
        env.bridge_port matches Some(v) ==> (nonempty(env.cursor_api_port) is None && v.len() > 0 ==> (match parse_unsigned(v, 65535) { Some(p) => c.with_env(env).server.port == p && c.with_env(env).bind_source.port == "BRIDGE_PORT"@, None => c.with_env(env).server.port == c.server.port && c.with_env(env).bind_source.port == "config"@ })),
        (nonempty(env.cursor_api_port) is None && nonempty(env.bridge_port) is None) ==> (c.with_env(env).server.port == c.server.port && c.with_env(env).bind_source.port == "config"@),
{
}

/// `CURSOR_API_KEY`, when set and non-empty, decides the result whatever `BRIDGE_API_KEY` holds;
/// `BRIDGE_API_KEY` is used only when `CURSOR_API_KEY` is unset or empty; with neither, nothing changes.
pub proof fn law_env_key_precedence(c: ConfigView, env: EnvView)
    ensures
        env.cursor_api_key matches Some(v) ==> (v.len() > 0 ==> (c.with_env(env).auth.api_key == v && c.with_env(env).auth.require_auth)),
        env.bridge_api_key matches Some(v) ==> (nonempty(env.cursor_api_key) is None && v.len() > 0 ==> (c.with_env(env).auth.api_key == v && c.with_env(env).auth.require_auth)),
        (nonempty(env.cursor_api_key) is None && nonempty(env.bridge_api_key) is None) ==> (c.with_env(env).auth.api_key == c.auth.api_key && c.with_env(env).auth.require_auth == c.auth.require_auth),
{
}

/// `CURSOR_API_DEFAULT_MODEL`, when set and non-empty, decides the result whatever `BRIDGE_DEFAULT_MODEL` holds;
/// `BRIDGE_DEFAULT_MODEL` is used only when `CURSOR_API_DEFAULT_MODEL` is unset or empty; with neither, nothing changes.
pub proof fn law_env_model_precedence(c: ConfigView, env: EnvView)
    ensures
        env.cursor_api_default_model matches Some(v) ==> (v.len() > 0 ==> (c.with_env(env).cursor.default_model == v)),
        env.bridge_default_model matches Some(v) ==> (nonempty(env.cursor_api_default_model) is None && v.len() > 0 ==> (c.with_env(env).cursor.default_model == v)),
        (nonempty(env.cursor_api_default_model) is None && nonempty(env.bridge_default_model) is None) ==> (c.with_env(env).cursor.default_model == c.cursor.default_model),
{
}

/// `CURSOR_API_TIMEOUT_SECS`, when set and non-empty, decides the result whatever `BRIDGE_TIMEOUT_SECS` holds;
/// `BRIDGE_TIMEOUT_SECS` is used only when `CURSOR_API_TIMEOUT_SECS` is unset or empty; with neither, nothing changes.
pub proof fn law_env_timeout_precedence(c: ConfigView, env: EnvView)
    ensures
        env.cursor_api_timeout_secs matches Some(v) ==> (v.len() > 0 ==> (match parse_unsigned(v, u64::MAX as nat) { Some(t) => c.with_env(env).server.request_timeout_secs == t, None => c.with_env(env).server.request_timeout_secs == c.server.request_timeout_secs })),
        env.bridge_timeout_secs matches Some(v) ==> (nonempty(env.cursor_api_timeout_secs) is None && v.len() > 0 ==> (match parse_unsigned(v, u64::MAX as nat) { Some(t) => c.with_env(env).server.request_timeout_secs == t, None => c.with_env(env).server.request_timeout_secs == c.server.request_timeout_secs })),
        (nonempty(env.cursor_api_timeout_secs) is None && nonempty(env.bridge_timeout_secs) is None) ==> (c.with_env(env).server.request_timeout_secs == c.server.request_timeout_secs),
{
}

/// `CURSOR_API_JSON_MODE`, when set and non-empty, decides the result whatever `BRIDGE_JSON_MODE` holds;
/// `BRIDGE_JSON_MODE` is used only when `CURSOR_API_JSON_MODE` is unset or empty; with neither, nothing changes.
pub proof fn law_env_json_mode_precedence(c: ConfigView, env: EnvView)
    ensures
        env.cursor_api_json_mode matches Some(v) ==> (v.len() > 0 ==> (c.with_env(env).cursor.json_mode == (lower(v) == "1"@ || lower(v) == "true"@ || lower(v) == "yes"@))),
        env.bridge_json_mode matches Some(v) ==> (nonempty(env.cursor_api_json_mode) is None && v.len() > 0 ==> (c.with_env(env).cursor.json_mode == (lower(v) == "1"@ || lower(v) == "true"@ || lower(v) == "yes"@))),
        (nonempty(env.cursor_api_json_mode) is None && nonempty(env.bridge_json_mode) is None) ==> (c.with_env(env).cursor.json_mode == c.cursor.json_mode),
{
}

/// `CURSOR_API_MAX_CONTEXT_TOKENS`, when set and non-empty, decides the result whatever `BRIDGE_MAX_CONTEXT_TOKENS` holds;
/// `BRIDGE_MAX_CONTEXT_TOKENS` is used only when `CURSOR_API_MAX_CONTEXT_TOKENS` is unset or empty; with neither, nothing changes.
pub proof fn law_env_max_context_tokens_precedence(c: ConfigView, env: EnvView)
    ensures
        env.cursor_api_max_context_tokens matches Some(v) ==> (v.len() > 0 ==> (match parse_unsigned(v, u32::MAX as nat) { Some(n) => c.with_env(env).cursor.max_context_tokens == (if n > 0 { n } else { c.cursor.max_context_tokens as nat }), None => c.with_env(env).cursor.max_context_tokens == c.cursor.max_context_tokens })),
        env.bridge_max_context_tokens matches Some(v) ==> (nonempty(env.cursor_api_max_context_tokens) is None && v.len() > 0 ==> (match parse_unsigned(v, u32::MAX as nat) { Some(n) => c.with_env(env).cursor.max_context_tokens == (if n > 0 { n } else { c.cursor.max_context_tokens as nat }), None => c.with_env(env).cursor.max_context_tokens == c.cursor.max_context_tokens })),
        (nonempty(env.cursor_api_max_context_tokens) is None && nonempty(env.bridge_max_context_tokens) is None) ==> (c.with_env(env).cursor.max_context_tokens == c.cursor.max_context_tokens),
{
}

/// `CURSOR_API_TRUNCATE_OVER_CONTEXT`, when set and non-empty, decides the result whatever `BRIDGE_TRUNCATE_OVER_CONTEXT` holds;
/// `BRIDGE_TRUNCATE_OVER_CONTEXT` is used only when `CURSOR_API_TRUNCATE_OVER_CONTEXT` is unset or empty; with neither, nothing changes.
pub proof fn law_env_truncate_over_context_precedence(c: ConfigView, env: EnvView)
    ensures
        env.cursor_api_truncate_over_context matches Some(v) ==> (v.len() > 0 ==> (c.with_env(env).cursor.truncate_over_context == (lower(v) == "1"@ || lower(v) == "true"@ || lower(v) == "yes"@))),
        env.bridge_truncate_over_context matches Some(v) ==> (nonempty(env.cursor_api_truncate_over_context) is None && v.len() > 0 ==> (c.with_env(env).cursor.truncate_over_context == (lower(v) == "1"@ || lower(v) == "true"@ || lower(v) == "yes"@))),
        (nonempty(env.cursor_api_truncate_over_context) is None && nonempty(env.bridge_truncate_over_context) is None) ==> (c.with_env(env).cursor.truncate_over_context == c.cursor.truncate_over_context),
{
}

/// `CURSOR_WORKSPACE`, when set, is the workspace, even when empty; unset, the
/// workspace is kept.
pub proof fn law_env_workspace(c: ConfigView, env: EnvView)
    ensures
        (env.cursor_workspace matches Some(ws) ==> c.with_env(env).cursor.workspace == ws),
        (env.cursor_workspace is None ==> c.with_env(env).cursor.workspace == c.cursor.workspace),
{
}

/// The configuration created on first run is the one created without environment
/// overrides, with the environment then applied: the overrides reach a new file too.
pub proof fn law_first_run_applies_env(k: Seq<char>, env: EnvView)
    ensures
        ConfigView::first_run(k, env) == ConfigView::first_run(k, empty_env()).with_env(env),
{
    let base = ConfigView::first_run(k, empty_env());
    assert(base.with_env(env) =~= ConfigView::first_run(k, env));
}

/// On first run, a set, parsable CURSOR_API_PORT is the port of the new configuration,
/// the new key is the bridge key unless the environment gives one, and the rest
/// starts from the defaults.
pub proof fn law_first_run_contents(k: Seq<char>, env: EnvView)
    ensures
        env.cursor_api_port matches Some(v) ==> (v.len() > 0 ==> (parse_unsigned(v, 65535) matches Some(p) ==> (
        ConfigView::first_run(k, env).server.port == p && ConfigView::first_run(k, env).bind_source.port
            == "CURSOR_API_PORT"@))),
        (nonempty(env.cursor_api_port) is None && nonempty(env.bridge_port) is None) ==> (
        ConfigView::first_run(k, env).server.port == 8787),
        (nonempty(env.cursor_api_key) is None && nonempty(env.bridge_api_key) is None) ==> (
        ConfigView::first_run(k, env).auth.api_key == k),
        ConfigView::first_run(k, env).auth.require_auth,
{
}

/// Every profile name that trims and lower-cases to `json_api`, `json-api` or `json`
/// selects JSON mode; every one that reads `long_running`, `long-running` or `long`
/// queues for a single slot; any other name keeps every setting.
pub proof fn law_profile_names(c: ConfigView, name: Seq<char>)
    ensures
        (profile_key(name) == "json_api"@ || profile_key(name) == "json-api"@ || profile_key(name)
            == "json"@) ==> ({
            let d = c.with_profile(name);
            &&& d.cursor.json_mode
            &&& d.cursor.message_flatten_mode == "fold_system"@
            &&& d.cursor.mode == "ask"@
            &&& !d.cursor.force
            &&& d.cursor.prompt_suffix == (if c.cursor.prompt_suffix.len() == 0 {
                "Respond with valid JSON only. No markdown fences."@
            } else {
                c.cursor.prompt_suffix
            })
            &&& d.server == c.server
            &&& d.auth == c.auth
            &&& d.cursor.profile == name
        }),
        (profile_key(name) == "long_running"@ || profile_key(name) == "long-running"@
            || profile_key(name) == "long"@) ==> ({
            let d = c.with_profile(name);
            &&& d.server.max_concurrency == 1
            &&& d.server.queue_wait_secs == 1800
            &&& d.server.reject_when_busy
            &&& d.server.request_timeout_secs == 900
            &&& d.server.host == c.server.host
            &&& d.server.port == c.server.port
            &&& d.cursor.mode == "ask"@
            &&& !d.cursor.force
            &&& d.cursor.json_mode == c.cursor.json_mode
            &&& d.cursor.profile == name
        }),
        !(profile_key(name) == "json_api"@ || profile_key(name) == "json-api"@ || profile_key(name)
            == "json"@ || profile_key(name) == "long_running"@ || profile_key(name)
            == "long-running"@ || profile_key(name) == "long"@) ==> c.with_profile(name) == (
        ConfigView { cursor: CursorView { profile: name, ..c.cursor }, ..c }),
{
    reveal_strlit("json_api");
    reveal_strlit("json-api");
    reveal_strlit("json");
    reveal_strlit("long_running");
    reveal_strlit("long-running");
    reveal_strlit("long");
    reveal_strlit("Respond with valid JSON only. No markdown fences.");
    let k = profile_key(name);
    if k == "long_running"@ || k == "long-running"@ || k == "long"@ {
        assert(k[0] == 'l');
        assert("json_api"@[0] == 'j');
        assert("json-api"@[0] == 'j');
        assert("json"@[0] == 'j');
        assert(k != "json_api"@);
        assert(k != "json-api"@);
        assert(k != "json"@);
        assert(preset_of(name) == Preset::LongRunning);
    }
}

} // verus!
