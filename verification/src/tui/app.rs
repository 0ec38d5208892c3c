//! Tabs, configuration fields, and the TUI application state with its key handling.
use vstd::prelude::*;

use super::help::{help_page, help_page_len};
use crate::config::{
    opt_view, ready_banner, ready_banner_text, Config, ConfigView, CursorView, AuthView, ServerView,
};
use crate::text::{
    chars_eq, chars_of, dec, dec_string, lower, lower_chars, owned, parse_unsigned,
    parse_unsigned_chars, push_str, string_of, trim, trim_chars,
};

verus! {

#[derive(Debug, Clone, Copy, PartialEq, Eq, Structural)]
pub enum Tab {
    Dashboard,
    Config,
    Cli,
    Logs,
    Usage,
    Help,
}

/// Position of a tab in the tab bar.
pub open spec fn tab_position(t: Tab) -> int {
    match t {
        Tab::Dashboard => 0,
        Tab::Config => 1,
        Tab::Cli => 2,
        Tab::Logs => 3,
        Tab::Usage => 4,
        Tab::Help => 5,
    }
}

/// The tab at position `i` of the tab bar.
pub open spec fn tab_at(i: int) -> Option<Tab> {
    if i == 0 {
        Some(Tab::Dashboard)
    } else if i == 1 {
        Some(Tab::Config)
    } else if i == 2 {
        Some(Tab::Cli)
    } else if i == 3 {
        Some(Tab::Logs)
    } else if i == 4 {
        Some(Tab::Usage)
    } else if i == 5 {
        Some(Tab::Help)
    } else {
        None
    }
}

pub open spec fn tab_title(t: Tab) -> Seq<char> {
    match t {
        Tab::Dashboard => "Dashboard"@,
        Tab::Config => "Config"@,
        Tab::Cli => "CLI"@,
        Tab::Logs => "Logs"@,
        Tab::Usage => "Usage"@,
        Tab::Help => "Help"@,
    }
}

pub open spec fn tab_next(t: Tab) -> Tab {
    match t {
        Tab::Dashboard => Tab::Config,
        Tab::Config => Tab::Cli,
        Tab::Cli => Tab::Logs,
        Tab::Logs => Tab::Usage,
        Tab::Usage => Tab::Help,
        Tab::Help => Tab::Dashboard,
    }
}

pub open spec fn tab_prev(t: Tab) -> Tab {
    match t {
        Tab::Dashboard => Tab::Help,
        Tab::Config => Tab::Dashboard,
        Tab::Cli => Tab::Config,
        Tab::Logs => Tab::Cli,
        Tab::Usage => Tab::Logs,
        Tab::Help => Tab::Usage,
    }
}

impl Tab {
    pub const ALL: [Tab; 6] = [Tab::Dashboard, Tab::Config, Tab::Cli, Tab::Logs, Tab::Usage, Tab::Help];

    pub fn title(self) -> (r: &'static str)
        ensures
            r@ == tab_title(self),
    {
        match self {
            Tab::Dashboard => "Dashboard",
            Tab::Config => "Config",
            Tab::Cli => "CLI",
            Tab::Logs => "Logs",
            Tab::Usage => "Usage",
            Tab::Help => "Help",
        }
    }

    pub fn next(self) -> (r: Self)
        ensures
            r == tab_next(self),
    {
        match self {
            Tab::Dashboard => Tab::Config,
            Tab::Config => Tab::Cli,
            Tab::Cli => Tab::Logs,
            Tab::Logs => Tab::Usage,
            Tab::Usage => Tab::Help,
            Tab::Help => Tab::Dashboard,
        }
    }

    pub fn prev(self) -> (r: Self)
        ensures
            r == tab_prev(self),
    {
        match self {
            Tab::Dashboard => Tab::Help,
            Tab::Config => Tab::Dashboard,
            Tab::Cli => Tab::Config,
            Tab::Logs => Tab::Cli,
            Tab::Usage => Tab::Logs,
            Tab::Help => Tab::Usage,
        }
    }

    pub fn from_index(i: usize) -> (r: Option<Self>)
        ensures
            r == tab_at(i as int),
    {
        if i < 6 {
            Some(Self::ALL[i])
        } else {
            None
        }
    }

    /// Position of this tab in the tab bar.
    pub fn index(self) -> (r: usize)
        ensures
            r as int == tab_position(self),
    {
        match self {
            Tab::Dashboard => 0,
            Tab::Config => 1,
            Tab::Cli => 2,
            Tab::Logs => 3,
            Tab::Usage => 4,
            Tab::Help => 5,
        }
    }
}

#[derive(Debug, Clone, Copy, PartialEq, Eq, Structural)]
pub enum ConfigField {
    Host,
    Port,
    Profile,
    Model,
    Mode,
    Workspace,
    FlattenMode,
    JsonMode,
    ApiKey,
    CursorApiKey,
    MaxConcurrency,
    Timeout,
    RejectWhenBusy,
}

/// Position of a field in the configuration list.
pub open spec fn field_position(f: ConfigField) -> int {
    match f {
        ConfigField::Host => 0,
        ConfigField::Port => 1,
        ConfigField::Profile => 2,
        ConfigField::Model => 3,
        ConfigField::Mode => 4,
        ConfigField::Workspace => 5,
        ConfigField::FlattenMode => 6,
        ConfigField::JsonMode => 7,
        ConfigField::ApiKey => 8,
        ConfigField::CursorApiKey => 9,
        ConfigField::MaxConcurrency => 10,
        ConfigField::Timeout => 11,
        ConfigField::RejectWhenBusy => 12,
    }
}

/// The field at position `i` of the configuration list.
pub open spec fn field_at(i: int) -> ConfigField {
    if i == 0 {
        ConfigField::Host
    } else if i == 1 {
        ConfigField::Port
    } else if i == 2 {
        ConfigField::Profile
    } else if i == 3 {
        ConfigField::Model
    } else if i == 4 {
        ConfigField::Mode
    } else if i == 5 {
        ConfigField::Workspace
    } else if i == 6 {
        ConfigField::FlattenMode
    } else if i == 7 {
        ConfigField::JsonMode
    } else if i == 8 {
        ConfigField::ApiKey
    } else if i == 9 {
        ConfigField::CursorApiKey
    } else if i == 10 {
        ConfigField::MaxConcurrency
    } else if i == 11 {
        ConfigField::Timeout
    } else {
        ConfigField::RejectWhenBusy
    }
}

/// The number of configuration fields.
pub open spec fn field_count() -> int {
    13
}

pub open spec fn field_next(f: ConfigField) -> ConfigField {
    field_at((field_position(f) + 1) % field_count())
}

pub open spec fn field_prev(f: ConfigField) -> ConfigField {
    field_at((field_position(f) + field_count() - 1) % field_count())
}

pub open spec fn field_label(f: ConfigField) -> Seq<char> {
    match f {
        ConfigField::Host => "Bind host"@,
        ConfigField::Port => "Port"@,
        ConfigField::Profile => "Profile (chat/json_api/long_running)"@,
        ConfigField::Model => "Default model"@,
        ConfigField::Mode => "Mode (ask/agent/plan)"@,
        ConfigField::Workspace => "Workspace"@,
        ConfigField::FlattenMode => "Flatten mode"@,
        ConfigField::JsonMode => "JSON mode"@,
        ConfigField::ApiKey => "Bridge API key"@,
        ConfigField::CursorApiKey => "Cursor API key"@,
        ConfigField::MaxConcurrency => "Max concurrency"@,
        ConfigField::Timeout => "Timeout (secs)"@,
        ConfigField::RejectWhenBusy => "Reject when busy (429)"@,
    }
}

impl ConfigField {
    pub const ALL: [ConfigField; 13] = [
        ConfigField::Host,
        ConfigField::Port,
        ConfigField::Profile,
        ConfigField::Model,
        ConfigField::Mode,
        ConfigField::Workspace,
        ConfigField::FlattenMode,
        ConfigField::JsonMode,
        ConfigField::ApiKey,
        ConfigField::CursorApiKey,
        ConfigField::MaxConcurrency,
        ConfigField::Timeout,
        ConfigField::RejectWhenBusy,
    ];

    pub fn label(self) -> (r: &'static str)
        ensures
            r@ == field_label(self),
    {
        match self {
            Self::Host => "Bind host",
            Self::Port => "Port",
            Self::Profile => "Profile (chat/json_api/long_running)",
            Self::Model => "Default model",
            Self::Mode => "Mode (ask/agent/plan)",
            Self::Workspace => "Workspace",
            Self::FlattenMode => "Flatten mode",
            Self::JsonMode => "JSON mode",
            Self::ApiKey => "Bridge API key",
            Self::CursorApiKey => "Cursor API key",
            Self::MaxConcurrency => "Max concurrency",
            Self::Timeout => "Timeout (secs)",
            Self::RejectWhenBusy => "Reject when busy (429)",
        }
    }

    /// Position of this field in the configuration list.
    pub fn index(self) -> (r: usize)
        ensures
            r as int == field_position(self),
    {
        match self {
            Self::Host => 0,
            Self::Port => 1,
            Self::Profile => 2,
            Self::Model => 3,
            Self::Mode => 4,
            Self::Workspace => 5,
            Self::FlattenMode => 6,
            Self::JsonMode => 7,
            Self::ApiKey => 8,
            Self::CursorApiKey => 9,
            Self::MaxConcurrency => 10,
            Self::Timeout => 11,
            Self::RejectWhenBusy => 12,
        }
    }

    pub fn next(self) -> (r: Self)
        ensures
            r == field_next(self),
    {
        let idx = self.index();
        Self::ALL[(idx + 1) % 13]
    }

    pub fn prev(self) -> (r: Self)
        ensures
            r == field_prev(self),
    {
        let idx = self.index();
        Self::ALL[(idx + 13 - 1) % 13]
    }
}

// ---------------------------------------------------------------- keys, effects

/// The key of a key event, as far as the TUI tells keys apart.
#[derive(Debug, Clone, Copy, PartialEq, Eq, Structural)]
pub enum KeyCode {
    Char(char),
    F(u8),
    Left,
    Right,
    Up,
    Down,
    Enter,
    Esc,
    Backspace,
    Tab,
    BackTab,
    PageUp,
    PageDown,
    Home,
    End,
    Other,
}

#[derive(Debug, Clone, Copy, PartialEq, Eq, Structural)]
pub enum KeyKind {
    Press,
    Repeat,
    Release,
}

/// A key event: the key, whether Ctrl and Shift were held, and its kind.
#[derive(Debug, Clone, Copy, PartialEq, Eq, Structural)]
pub struct KeyInput {
    pub code: KeyCode,
    pub ctrl: bool,
    pub shift: bool,
    pub kind: KeyKind,
}

/// What the application observes of the world when a key arrives.
#[derive(Debug, Clone, Copy, PartialEq, Eq, Structural)]
pub struct KeyContext {
    /// Whether the HTTP service is running.
    pub server_running: bool,
    /// Whether the embedded CLI terminal's shell is alive.
    pub cli_alive: bool,
}

/// The outside work that a key asks for; the caller performs it and reports
/// back through the matching method of `TuiApp`.
pub enum Action {
    /// Nothing to do.
    Idle,
    /// Quit the TUI, stopping the service first when `stop_server`.
    Quit { stop_server: bool },
    /// Start the embedded CLI terminal in `cwd` (the process cwd when `None`);
    /// report through `cli_started`.
    StartCli { cwd: Option<String> },
    /// Forward the key to the embedded CLI terminal.
    ForwardToCli,
    /// Stop the service; report through `server_stopped`.
    StopServer,
    /// Start the service; report through `server_started`.
    StartServer,
    /// Probe the agent binary; report through `health_checked`.
    CheckAgentHealth,
    /// Run a smoke completion; report through `smoke_finished`.
    RunSmokeTest { timeout_secs: u64 },
    ClearLogs,
    ResetUsage,
    /// Save the configuration (a failure is ignored) and reload the backend.
    SaveConfig,
    /// Save the edited configuration; report through `edit_saved`.
    SaveEdit,
}

pub enum ActionView {
    Idle,
    Quit { stop_server: bool },
    StartCli { cwd: Option<Seq<char>> },
    ForwardToCli,
    StopServer,
    StartServer,
    CheckAgentHealth,
    RunSmokeTest { timeout_secs: u64 },
    ClearLogs,
    ResetUsage,
    SaveConfig,
    SaveEdit,
}

impl View for Action {
    type V = ActionView;

    open spec fn view(&self) -> ActionView {
        match self {
            Action::Idle => ActionView::Idle,
            Action::Quit { stop_server } => ActionView::Quit { stop_server: *stop_server },
            Action::StartCli { cwd } => ActionView::StartCli { cwd: opt_view(*cwd) },
            Action::ForwardToCli => ActionView::ForwardToCli,
            Action::StopServer => ActionView::StopServer,
            Action::StartServer => ActionView::StartServer,
            Action::CheckAgentHealth => ActionView::CheckAgentHealth,
            Action::RunSmokeTest { timeout_secs } => ActionView::RunSmokeTest {
                timeout_secs: *timeout_secs,
            },
            Action::ClearLogs => ActionView::ClearLogs,
            Action::ResetUsage => ActionView::ResetUsage,
            Action::SaveConfig => ActionView::SaveConfig,
            Action::SaveEdit => ActionView::SaveEdit,
        }
    }
}

/// How a health probe of the agent ended.
pub enum HealthOutcome {
    /// No agent binary could be resolved.
    Missing(String),
    /// The binary was found but the probe failed.
    Unhealthy(String),
    /// The probe answered with `version`; `display` describes the launch.
    Healthy { version: String, display: String },
}

// ---------------------------------------------------------------- state

pub struct TuiApp {
    pub tab: Tab,
    pub config_field: ConfigField,
    pub editing: bool,
    pub edit_buffer: String,
    pub log_scroll: u16,
    pub usage_scroll: u16,
    pub help_scroll: u16,
    pub status_message: String,
    pub should_quit: bool,
    pub smoke_running: bool,
    /// Whether an embedded CLI terminal has been started (its shell may have exited since).
    pub cli_open: bool,
    pub cli_cols: u16,
    pub cli_rows: u16,
}

#[verifier::ext_equal]
pub struct TuiView {
    pub tab: Tab,
    pub config_field: ConfigField,
    pub editing: bool,
    pub edit_buffer: Seq<char>,
    pub log_scroll: u16,
    pub usage_scroll: u16,
    pub help_scroll: u16,
    pub status_message: Seq<char>,
    pub should_quit: bool,
    pub smoke_running: bool,
    pub cli_open: bool,
    pub cli_cols: u16,
    pub cli_rows: u16,
}

impl View for TuiApp {
    type V = TuiView;

    open spec fn view(&self) -> TuiView {
        TuiView {
            tab: self.tab,
            config_field: self.config_field,
            editing: self.editing,
            edit_buffer: self.edit_buffer@,
            log_scroll: self.log_scroll,
            usage_scroll: self.usage_scroll,
            help_scroll: self.help_scroll,
            status_message: self.status_message@,
            should_quit: self.should_quit,
            smoke_running: self.smoke_running,
            cli_open: self.cli_open,
            cli_cols: self.cli_cols,
            cli_rows: self.cli_rows,
        }
    }
}

/// The application state, the configuration and the requested work after a step.
#[verifier::ext_equal]
pub struct Step {
    pub app: TuiView,
    pub cfg: ConfigView,
    pub action: ActionView,
}

pub open spec fn initial_app() -> TuiView {
    TuiView {
        tab: Tab::Dashboard,
        config_field: ConfigField::Host,
        editing: false,
        edit_buffer: Seq::empty(),
        log_scroll: 0,
        usage_scroll: 0,
        help_scroll: 0,
        status_message: "Cursor-API · s start/stop · 3 CLI · 6 Help · q quit"@,
        should_quit: false,
        smoke_running: false,
        cli_open: false,
        cli_cols: 80,
        cli_rows: 24,
    }
}

pub open spec fn with_status(app: TuiView, status: Seq<char>) -> TuiView {
    TuiView { status_message: status, ..app }
}

pub open spec fn bool_text(b: bool) -> Seq<char> {
    if b {
        "true"@
    } else {
        "false"@
    }
}

pub open spec fn on_off(b: bool) -> Seq<char> {
    if b {
        "on"@
    } else {
        "off"@
    }
}

/// The working directory the embedded CLI starts in.
pub open spec fn cli_cwd(cfg: ConfigView) -> Option<Seq<char>> {
    if cfg.cursor.workspace.len() == 0 {
        None
    } else {
        Some(cfg.cursor.workspace)
    }
}

/// Starts the embedded CLI unless a terminal with a live shell is open.
pub open spec fn ensure_cli_action(app: TuiView, cfg: ConfigView, cli_alive: bool) -> ActionView {
    if app.cli_open && cli_alive {
        ActionView::Idle
    } else {
        ActionView::StartCli { cwd: cli_cwd(cfg) }
    }
}

pub open spec fn switch_tab_step(app: TuiView, cfg: ConfigView, tab: Tab, cli_alive: bool) -> Step {
    let a = TuiView { tab, ..app };
    Step {
        app: a,
        cfg,
        action: if tab == Tab::Cli {
            ensure_cli_action(a, cfg, cli_alive)
        } else {
            ActionView::Idle
        },
    }
}

/// The text of a field as the edit buffer starts out.
pub open spec fn field_text(cfg: ConfigView, f: ConfigField) -> Seq<char> {
    match f {
        ConfigField::Host => cfg.server.host,
        ConfigField::Port => dec(cfg.server.port as nat),
        ConfigField::Profile => cfg.cursor.profile,
        ConfigField::Model => cfg.cursor.default_model,
        ConfigField::Mode => cfg.cursor.mode,
        ConfigField::Workspace => cfg.cursor.workspace,
        ConfigField::FlattenMode => cfg.cursor.message_flatten_mode,
        ConfigField::JsonMode => bool_text(cfg.cursor.json_mode),
        ConfigField::ApiKey => cfg.auth.api_key,
        ConfigField::CursorApiKey => cfg.cursor.cursor_api_key,
        ConfigField::MaxConcurrency => dec(cfg.server.max_concurrency as nat),
        ConfigField::Timeout => dec(cfg.server.request_timeout_secs as nat),
        ConfigField::RejectWhenBusy => bool_text(cfg.server.reject_when_busy),
    }
}

/// An edited flag is on when, lower-cased, it reads `1`, `true`, `yes` or `on`
/// (ASCII case folding suffices, as for `profile_key`).
pub open spec fn edit_flag(t: Seq<char>) -> bool {
    let k = lower(t);
    k == "1"@ || k == "true"@ || k == "yes"@ || k == "on"@
}

/// The configuration after the edit buffer `buf` is committed to field `f`.
pub open spec fn edit_config(cfg: ConfigView, f: ConfigField, buf: Seq<char>) -> ConfigView {
    let t = trim(buf);
    match f {
        ConfigField::Host => ConfigView { server: ServerView { host: t, ..cfg.server }, ..cfg },
        ConfigField::Port => match parse_unsigned(t, 65535) {
            Some(p) => ConfigView { server: ServerView { port: p as u16, ..cfg.server }, ..cfg },
            None => cfg,
        },
        ConfigField::Profile => cfg.with_profile(t),
        ConfigField::Model => ConfigView {
            cursor: CursorView { default_model: t, ..cfg.cursor },
            ..cfg
        },
        ConfigField::Mode => ConfigView { cursor: CursorView { mode: t, ..cfg.cursor }, ..cfg },
        ConfigField::Workspace => ConfigView {
            cursor: CursorView { workspace: t, ..cfg.cursor },
            ..cfg
        },
        ConfigField::FlattenMode => ConfigView {
            cursor: CursorView { message_flatten_mode: t, ..cfg.cursor },
            ..cfg
        },
        ConfigField::JsonMode => ConfigView {
            cursor: CursorView { json_mode: edit_flag(t), ..cfg.cursor },
            ..cfg
        },
        ConfigField::ApiKey => ConfigView {
            auth: AuthView { api_key: t, require_auth: t.len() > 0, ..cfg.auth },
            ..cfg
        },
        ConfigField::CursorApiKey => ConfigView {
            cursor: CursorView { cursor_api_key: t, ..cfg.cursor },
            ..cfg
        },
        ConfigField::MaxConcurrency => match parse_unsigned(t, usize::MAX as nat) {
            Some(n) => ConfigView {
                server: ServerView { max_concurrency: n as usize, ..cfg.server },
                ..cfg
            },
            None => cfg,
        },
        ConfigField::Timeout => match parse_unsigned(t, u64::MAX as nat) {
            Some(n) => ConfigView {
                server: ServerView { request_timeout_secs: n as u64, ..cfg.server },
                ..cfg
            },
            None => cfg,
        },
        ConfigField::RejectWhenBusy => ConfigView {
            server: ServerView { reject_when_busy: edit_flag(t), ..cfg.server },
            ..cfg
        },
    }
}

/// The profile that `p` cycles to.
pub open spec fn cycled_profile(p: Seq<char>) -> Seq<char> {
    if p == "chat"@ {
        "json_api"@
    } else if p == "json_api"@ || p == "json-api"@ || p == "json"@ {
        "long_running"@
    } else {
        "chat"@
    }
}

pub open spec fn cycle_profile_step(app: TuiView, cfg: ConfigView) -> Step {
    let next = cycled_profile(cfg.cursor.profile);
    Step {
        app: with_status(app, "Profile set to "@ + next),
        cfg: cfg.with_profile(next),
        action: ActionView::SaveConfig,
    }
}

pub open spec fn smoke_step(app: TuiView, cfg: ConfigView) -> Step {
    if app.smoke_running {
        Step {
            app: with_status(app, "Smoke test already running"@),
            cfg,
            action: ActionView::Idle,
        }
    } else {
        Step {
            app: TuiView {
                smoke_running: true,
                status_message: "Running smoke test…"@,
                ..app
            },
            cfg,
            action: ActionView::RunSmokeTest {
                timeout_secs: if cfg.server.request_timeout_secs < 120 {
                    cfg.server.request_timeout_secs
                } else {
                    120
                },
            },
        }
    }
}

pub open spec fn quit_step(app: TuiView, cfg: ConfigView, ctx: KeyContext) -> Step {
    Step {
        app: TuiView { should_quit: true, ..app },
        cfg,
        action: ActionView::Quit { stop_server: ctx.server_running },
    }
}

pub open spec fn idle(app: TuiView, cfg: ConfigView) -> Step {
    Step { app, cfg, action: ActionView::Idle }
}

pub open spec fn sat_add(x: u16, d: u16) -> u16 {
    if x + d > u16::MAX {
        u16::MAX
    } else {
        (x + d) as u16
    }
}

pub open spec fn sat_sub(x: u16, d: u16) -> u16 {
    if x < d {
        0
    } else {
        (x - d) as u16
    }
}

/// The tab that F1..F6 selects.
pub open spec fn function_key_tab(code: KeyCode) -> Option<Tab> {
    match code {
        KeyCode::F(n) => if 1 <= n <= 6 {
            tab_at(n - 1)
        } else {
            None
        },
        _ => None,
    }
}

/// The tab that the digit keys 1..6 select.
pub open spec fn digit_key_tab(code: KeyCode) -> Option<Tab> {
    match code {
        KeyCode::Char(c) => if '1' <= c && c <= '6' {
            tab_at(c as int - 49)
        } else {
            None
        },
        _ => None,
    }
}

pub open spec fn editing_step(app: TuiView, cfg: ConfigView, key: KeyInput) -> Step {
    match key.code {
        KeyCode::Esc => idle(TuiView { editing: false, status_message: "Edit cancelled"@, ..app }, cfg),
        KeyCode::Enter => Step {
            app,
            cfg: edit_config(cfg, app.config_field, app.edit_buffer),
            action: ActionView::SaveEdit,
        },
        KeyCode::Backspace => idle(
            TuiView {
                edit_buffer: if app.edit_buffer.len() > 0 {
                    app.edit_buffer.drop_last()
                } else {
                    app.edit_buffer
                },
                ..app
            },
            cfg,
        ),
        KeyCode::Char(c) => idle(TuiView { edit_buffer: app.edit_buffer.push(c), ..app }, cfg),
        _ => idle(app, cfg),
    }
}

pub open spec fn restart_cli_step(app: TuiView, cfg: ConfigView, ctx: KeyContext) -> Step {
    let a = TuiView { cli_open: false, ..app };
    Step { app: a, cfg, action: ensure_cli_action(a, cfg, ctx.cli_alive) }
}

pub open spec fn cli_tab_step(app: TuiView, cfg: ConfigView, key: KeyInput, ctx: KeyContext) -> Step {
    if key.code == KeyCode::Char('R') && key.shift {
        restart_cli_step(app, cfg, ctx)
    } else if app.cli_open {
        if ctx.cli_alive {
            Step { app, cfg, action: ActionView::ForwardToCli }
        } else if key.code == KeyCode::Char('r') {
            restart_cli_step(app, cfg, ctx)
        } else {
            idle(app, cfg)
        }
    } else {
        Step { app, cfg, action: ensure_cli_action(app, cfg, ctx.cli_alive) }
    }
}

/// Keys on the Dashboard, Config, Logs, Usage and Help tabs that no earlier rule took.
pub open spec fn page_step(app: TuiView, cfg: ConfigView, key: KeyInput, ctx: KeyContext) -> Step {
    let code = key.code;
    let tab = app.tab;
    if code == KeyCode::Char('s') && tab == Tab::Dashboard {
        idle_action(app, cfg, if ctx.server_running {
            ActionView::StopServer
        } else {
            ActionView::StartServer
        })
    } else if code == KeyCode::Char('r') && tab == Tab::Dashboard {
        idle_action(app, cfg, ActionView::CheckAgentHealth)
    } else if code == KeyCode::Char('t') && tab == Tab::Dashboard {
        smoke_step(app, cfg)
    } else if code == KeyCode::Char('c') && tab == Tab::Logs {
        idle_action(with_status(app, "Logs cleared"@), cfg, ActionView::ClearLogs)
    } else if code == KeyCode::Char('x') && tab == Tab::Usage {
        idle_action(with_status(app, "Usage counters reset"@), cfg, ActionView::ResetUsage)
    } else if tab == Tab::Config {
        config_page_step(app, cfg, key)
    } else {
        idle(scrolled(app, key, ctx), cfg)
    }
}

pub open spec fn idle_action(app: TuiView, cfg: ConfigView, action: ActionView) -> Step {
    Step { app, cfg, action }
}

pub open spec fn toggle_step(app: TuiView, prefix: Seq<char>, value: bool, new_cfg: ConfigView) -> Step {
    Step {
        app: with_status(app, prefix + on_off(value)),
        cfg: new_cfg,
        action: ActionView::SaveConfig,
    }
}

pub open spec fn config_page_step(app: TuiView, cfg: ConfigView, key: KeyInput) -> Step {
    let code = key.code;
    if code == KeyCode::Up {
        idle(TuiView { config_field: field_prev(app.config_field), ..app }, cfg)
    } else if code == KeyCode::Down {
        idle(TuiView { config_field: field_next(app.config_field), ..app }, cfg)
    } else if code == KeyCode::Enter || code == KeyCode::Char('e') {
        idle(
            TuiView { edit_buffer: field_text(cfg, app.config_field), editing: true, ..app },
            cfg,
        )
    } else if code == KeyCode::Char('p') {
        cycle_profile_step(app, cfg)
    } else if code == KeyCode::Char('w') {
        let v = !cfg.cursor.force;
        toggle_step(
            app,
            "force="@,
            v,
            ConfigView { cursor: CursorView { force: v, ..cfg.cursor }, ..cfg },
        )
    } else if code == KeyCode::Char('j') {
        let v = !cfg.cursor.json_mode;
        toggle_step(
            app,
            "json_mode="@,
            v,
            ConfigView { cursor: CursorView { json_mode: v, ..cfg.cursor }, ..cfg },
        )
    } else if code == KeyCode::Char('k') {
        let v = !cfg.cursor.trust;
        toggle_step(
            app,
            "trust="@,
            v,
            ConfigView { cursor: CursorView { trust: v, ..cfg.cursor }, ..cfg },
        )
    } else {
        idle(app, cfg)
    }
}

/// Where `End` puts the Help page: five lines before its end.
pub open spec fn help_end_scroll() -> u16 {
    let n = help_page_len();
    (if n < 5 {
        0
    } else {
        n - 5
    }) as u16
}

/// The scroll positions after a navigation key on the Logs, Usage or Help page.
pub open spec fn scrolled(app: TuiView, key: KeyInput, ctx: KeyContext) -> TuiView {
    let code = key.code;
    let tab = app.tab;
    if tab == Tab::Logs {
        if code == KeyCode::Up {
            TuiView { log_scroll: sat_add(app.log_scroll, 1), ..app }
        } else if code == KeyCode::Down {
            TuiView { log_scroll: sat_sub(app.log_scroll, 1), ..app }
        } else if code == KeyCode::PageUp {
            TuiView { log_scroll: sat_add(app.log_scroll, 10), ..app }
        } else if code == KeyCode::PageDown {
            TuiView { log_scroll: sat_sub(app.log_scroll, 10), ..app }
        } else {
            app
        }
    } else if tab == Tab::Usage {
        if code == KeyCode::Up {
            TuiView { usage_scroll: sat_add(app.usage_scroll, 1), ..app }
        } else if code == KeyCode::Down {
            TuiView { usage_scroll: sat_sub(app.usage_scroll, 1), ..app }
        } else {
            app
        }
    } else if tab == Tab::Help {
        if code == KeyCode::Up {
            TuiView { help_scroll: sat_sub(app.help_scroll, 1), ..app }
        } else if code == KeyCode::Down {
            TuiView { help_scroll: sat_add(app.help_scroll, 1), ..app }
        } else if code == KeyCode::PageUp {
            TuiView { help_scroll: sat_sub(app.help_scroll, 10), ..app }
        } else if code == KeyCode::PageDown {
            TuiView { help_scroll: sat_add(app.help_scroll, 10), ..app }
        } else if code == KeyCode::Home {
            TuiView { help_scroll: 0, ..app }
        } else if code == KeyCode::End {
            TuiView { help_scroll: help_end_scroll(), ..app }
        } else {
            app
        }
    } else {
        app
    }
}

/// Keys outside editing and outside the CLI tab.
pub open spec fn main_step(app: TuiView, cfg: ConfigView, key: KeyInput, ctx: KeyContext) -> Step {
    let code = key.code;
    if code == KeyCode::Char('q') || code == KeyCode::Esc || (code == KeyCode::Char('c') && key.ctrl) {
        quit_step(app, cfg, ctx)
    } else if code == KeyCode::Tab || code == KeyCode::Right {
        switch_tab_step(app, cfg, tab_next(app.tab), ctx.cli_alive)
    } else if code == KeyCode::BackTab || code == KeyCode::Left {
        switch_tab_step(app, cfg, tab_prev(app.tab), ctx.cli_alive)
    } else if digit_key_tab(code) is Some {
        switch_tab_step(app, cfg, digit_key_tab(code)->0, ctx.cli_alive)
    } else {
        page_step(app, cfg, key, ctx)
    }
}

/// One key event: the new state, the new configuration and the work to perform.
pub open spec fn key_step(app: TuiView, cfg: ConfigView, key: KeyInput, ctx: KeyContext) -> Step {
    if key.kind == KeyKind::Release {
        idle(app, cfg)
    } else if key.code == KeyCode::Char('q') && key.ctrl {
        quit_step(app, cfg, ctx)
    } else if function_key_tab(key.code) is Some {
        switch_tab_step(app, cfg, function_key_tab(key.code)->0, ctx.cli_alive)
    } else if key.ctrl && (key.code == KeyCode::Left || key.code == KeyCode::Right) {
        switch_tab_step(
            app,
            cfg,
            if key.code == KeyCode::Right {
                tab_next(app.tab)
            } else {
                tab_prev(app.tab)
            },
            ctx.cli_alive,
        )
    } else if app.editing {
        editing_step(app, cfg, key)
    } else if app.tab == Tab::Cli {
        cli_tab_step(app, cfg, key, ctx)
    } else {
        main_step(app, cfg, key, ctx)
    }
}

// ---------------------------------------------------------------- execution

fn bool_string(b: bool) -> (r: String)
    ensures
        r@ == bool_text(b),
{
    if b {
        owned("true")
    } else {
        owned("false")
    }
}

fn on_off_str(b: bool) -> (r: &'static str)
    ensures
        r@ == on_off(b),
{
    if b {
        "on"
    } else {
        "off"
    }
}

fn edit_flag_exec(t: &String) -> (b: bool)
    ensures
        b == edit_flag(t@),
{
    let k = lower_chars(&chars_of(t.as_str()));
    chars_eq(&k, "1") || chars_eq(&k, "true") || chars_eq(&k, "yes") || chars_eq(&k, "on")
}

/// The text shown for a field when its editing starts.
pub fn field_text_of(cfg: &Config, f: ConfigField) -> (r: String)
    ensures
        r@ == field_text(cfg@, f),
{
    match f {
        ConfigField::Host => cfg.server.host.clone(),
        ConfigField::Port => dec_string(cfg.server.port as u64),
        ConfigField::Profile => cfg.cursor.profile.clone(),
        ConfigField::Model => cfg.cursor.default_model.clone(),
        ConfigField::Mode => cfg.cursor.mode.clone(),
        ConfigField::Workspace => cfg.cursor.workspace.clone(),
        ConfigField::FlattenMode => cfg.cursor.message_flatten_mode.clone(),
        ConfigField::JsonMode => bool_string(cfg.cursor.json_mode),
        ConfigField::ApiKey => cfg.auth.api_key.clone(),
        ConfigField::CursorApiKey => cfg.cursor.cursor_api_key.clone(),
        ConfigField::MaxConcurrency => dec_string(cfg.server.max_concurrency as u64),
        ConfigField::Timeout => dec_string(cfg.server.request_timeout_secs),
        ConfigField::RejectWhenBusy => bool_string(cfg.server.reject_when_busy),
    }
}

fn cycled_profile_exec(p: &String) -> (r: &'static str)
    ensures
        r@ == cycled_profile(p@),
{
    let v = chars_of(p.as_str());
    if chars_eq(&v, "chat") {
        "json_api"
    } else if chars_eq(&v, "json_api") || chars_eq(&v, "json-api") || chars_eq(&v, "json") {
        "long_running"
    } else {
        "chat"
    }
}

fn function_key_tab_exec(code: KeyCode) -> (r: Option<Tab>)
    ensures
        r == function_key_tab(code),
{
    match code {
        KeyCode::F(n) => if 1 <= n && n <= 6 {
            Tab::from_index((n - 1) as usize)
        } else {
            None
        },
        _ => None,
    }
}

fn digit_key_tab_exec(code: KeyCode) -> (r: Option<Tab>)
    ensures
        r == digit_key_tab(code),
{
    match code {
        KeyCode::Char(c) => if '1' <= c && c <= '6' {
            Tab::from_index(((c as u8) - 49) as usize)
        } else {
            None
        },
        _ => None,
    }
}

impl TuiApp {
    pub fn new() -> (r: Self)
        ensures
            r@ == initial_app(),
    {
        TuiApp {
            tab: Tab::Dashboard,
            config_field: ConfigField::Host,
            editing: false,
            edit_buffer: String::new(),
            log_scroll: 0,
            usage_scroll: 0,
            help_scroll: 0,
            status_message: owned("Cursor-API · s start/stop · 3 CLI · 6 Help · q quit"),
            should_quit: false,
            smoke_running: false,
            cli_open: false,
            cli_cols: 80,
            cli_rows: 24,
        }
    }

    fn set_status(&mut self, s: &str)
        ensures
            final(self)@ == with_status(old(self)@, s@),
    {
        self.status_message = owned(s);
    }

    /// Asks for the embedded CLI unless a terminal with a live shell is open.
    pub fn ensure_cli(&self, cfg: &Config, cli_alive: bool) -> (r: Action)
        ensures
            r@ == ensure_cli_action(self@, cfg@, cli_alive),
    {
        if self.cli_open && cli_alive {
            return Action::Idle;
        }
        let cwd = if cfg.cursor.workspace.as_str().is_empty() {
            None
        } else {
            Some(cfg.cursor.workspace.clone())
        };
        Action::StartCli { cwd }
    }

    pub fn switch_tab(&mut self, tab: Tab, cfg: &Config, cli_alive: bool) -> (r: Action)
        ensures
            (Step { app: final(self)@, cfg: cfg@, action: r@ }) == switch_tab_step(
                old(self)@,
                cfg@,
                tab,
                cli_alive,
            ),
    {
        self.tab = tab;
        if tab == Tab::Cli {
            self.ensure_cli(cfg, cli_alive)
        } else {
            Action::Idle
        }
    }

    pub fn begin_edit(&mut self, cfg: &Config)
        ensures
            final(self)@ == (TuiView {
                edit_buffer: field_text(cfg@, old(self)@.config_field),
                editing: true,
                ..old(self)@
            }),
    {
        self.edit_buffer = field_text_of(cfg, self.config_field);
        self.editing = true;
    }

    /// Commits the edit buffer to the selected field of `cfg`; the caller saves it.
    pub fn apply_edit(&self, cfg: &mut Config) -> (r: Action)
        ensures
            final(cfg)@ == edit_config(old(cfg)@, self@.config_field, self@.edit_buffer),
            r@ == ActionView::SaveEdit,
    {
        let t = string_of(&trim_chars(&chars_of(self.edit_buffer.as_str())));
        let ghost c0 = cfg@;
        match self.config_field {
            ConfigField::Host => {
                cfg.server.host = t;
            },
            ConfigField::Port => {
                if let Some(p) = parse_unsigned_chars(&chars_of(t.as_str()), 65535) {
                    cfg.server.port = p as u16;
                }
            },
            ConfigField::Profile => {
                cfg.set_profile(t.as_str());
            },
            ConfigField::Model => {
                cfg.cursor.default_model = t;
            },
            ConfigField::Mode => {
                cfg.cursor.mode = t;
            },
            ConfigField::Workspace => {
                cfg.cursor.workspace = t;
            },
            ConfigField::FlattenMode => {
                cfg.cursor.message_flatten_mode = t;
            },
            ConfigField::JsonMode => {
                cfg.cursor.json_mode = edit_flag_exec(&t);
            },
            ConfigField::ApiKey => {
                let nonempty = !t.as_str().is_empty();
                cfg.auth.api_key = t;
                cfg.auth.require_auth = nonempty;
            },
            ConfigField::CursorApiKey => {
                cfg.cursor.cursor_api_key = t;
            },
            ConfigField::MaxConcurrency => {
                if let Some(n) = parse_unsigned_chars(&chars_of(t.as_str()), usize::MAX as u64) {
                    cfg.server.max_concurrency = n as usize;
                }
            },
            ConfigField::Timeout => {
                if let Some(n) = parse_unsigned_chars(&chars_of(t.as_str()), u64::MAX) {
                    cfg.server.request_timeout_secs = n;
                }
            },
            ConfigField::RejectWhenBusy => {
                cfg.server.reject_when_busy = edit_flag_exec(&t);
            },
        }
        assert(cfg@ =~= edit_config(c0, self@.config_field, self@.edit_buffer));
        Action::SaveEdit
    }

    pub fn cycle_profile(&mut self, cfg: &mut Config) -> (r: Action)
        ensures
            (Step { app: final(self)@, cfg: final(cfg)@, action: r@ }) == cycle_profile_step(
                old(self)@,
                old(cfg)@,
            ),
    {
        let next = cycled_profile_exec(&cfg.cursor.profile);
        cfg.set_profile(next);
        let mut msg = owned("Profile set to ");
        push_str(&mut msg, next);
        self.status_message = msg;
        Action::SaveConfig
    }

    pub fn run_smoke_test(&mut self, cfg: &Config) -> (r: Action)
        ensures
            (Step { app: final(self)@, cfg: cfg@, action: r@ }) == smoke_step(old(self)@, cfg@),
    {
        if self.smoke_running {
            self.set_status("Smoke test already running");
            return Action::Idle;
        }
        self.smoke_running = true;
        self.set_status("Running smoke test…");
        let t = cfg.server.request_timeout_secs;
        Action::RunSmokeTest { timeout_secs: if t < 120 { t } else { 120 } }
    }
}

impl TuiApp {
    /// Handles one key event: updates the state and `cfg`, and returns the outside
    /// work that the key asks for.
    pub fn handle_key(&mut self, key: KeyInput, cfg: &mut Config, ctx: KeyContext) -> (r: Action)
        ensures
            (Step { app: final(self)@, cfg: final(cfg)@, action: r@ }) == key_step(
                old(self)@,
                old(cfg)@,
                key,
                ctx,
            ),
    {
        if key.kind == KeyKind::Release {
            return Action::Idle;
        }
        // Global quit always available with Ctrl+Q (even on CLI tab).
        if key.code == KeyCode::Char('q') && key.ctrl {
            self.should_quit = true;
            return Action::Quit { stop_server: ctx.server_running };
        }
        // Tab navigation that works while CLI has focus.
        if let Some(tab) = function_key_tab_exec(key.code) {
            return self.switch_tab(tab, cfg, ctx.cli_alive);
        }
        if key.ctrl && (key.code == KeyCode::Left || key.code == KeyCode::Right) {
            let tab = if key.code == KeyCode::Right {
                self.tab.next()
            } else {
                self.tab.prev()
            };
            return self.switch_tab(tab, cfg, ctx.cli_alive);
        }
        if self.editing {
            return self.handle_editing_key(key, cfg);
        }
        if self.tab == Tab::Cli {
            return self.handle_cli_key(key, cfg, ctx);
        }
        self.handle_main_key(key, cfg, ctx)
    }

    fn handle_editing_key(&mut self, key: KeyInput, cfg: &mut Config) -> (r: Action)
        ensures
            (Step { app: final(self)@, cfg: final(cfg)@, action: r@ }) == editing_step(
                old(self)@,
                old(cfg)@,
                key,
            ),
    {
        match key.code {
            KeyCode::Esc => {
                self.editing = false;
                self.set_status("Edit cancelled");
                Action::Idle
            },
            KeyCode::Enter => self.apply_edit(cfg),
            KeyCode::Backspace => {
                let _ = self.edit_buffer.pop();
                Action::Idle
            },
            KeyCode::Char(c) => {
                self.edit_buffer.push(c);
                Action::Idle
            },
            _ => Action::Idle,
        }
    }

    fn restart_cli(&mut self, cfg: &Config, ctx: KeyContext) -> (r: Action)
        ensures
            (Step { app: final(self)@, cfg: cfg@, action: r@ }) == restart_cli_step(
                old(self)@,
                cfg@,
                ctx,
            ),
    {
        self.cli_open = false;
        self.ensure_cli(cfg, ctx.cli_alive)
    }

    fn handle_cli_key(&mut self, key: KeyInput, cfg: &Config, ctx: KeyContext) -> (r: Action)
        ensures
            (Step { app: final(self)@, cfg: cfg@, action: r@ }) == cli_tab_step(
                old(self)@,
                cfg@,
                key,
                ctx,
            ),
    {
        // Shift+R restarts the embedded shell.
        if key.code == KeyCode::Char('R') && key.shift {
            return self.restart_cli(cfg, ctx);
        }
        if self.cli_open {
            if ctx.cli_alive {
                Action::ForwardToCli
            } else if key.code == KeyCode::Char('r') {
                self.restart_cli(cfg, ctx)
            } else {
                Action::Idle
            }
        } else {
            self.ensure_cli(cfg, ctx.cli_alive)
        }
    }

    fn handle_main_key(&mut self, key: KeyInput, cfg: &mut Config, ctx: KeyContext) -> (r: Action)
        ensures
            (Step { app: final(self)@, cfg: final(cfg)@, action: r@ }) == main_step(
                old(self)@,
                old(cfg)@,
                key,
                ctx,
            ),
    {
        let code = key.code;
        if code == KeyCode::Char('q') || code == KeyCode::Esc || (code == KeyCode::Char('c')
            && key.ctrl) {
            self.should_quit = true;
            return Action::Quit { stop_server: ctx.server_running };
        }
        if code == KeyCode::Tab || code == KeyCode::Right {
            let tab = self.tab.next();
            return self.switch_tab(tab, cfg, ctx.cli_alive);
        }
        if code == KeyCode::BackTab || code == KeyCode::Left {
            let tab = self.tab.prev();
            return self.switch_tab(tab, cfg, ctx.cli_alive);
        }
        if let Some(tab) = digit_key_tab_exec(code) {
            return self.switch_tab(tab, cfg, ctx.cli_alive);
        }
        self.handle_page_key(key, cfg, ctx)
    }

    fn handle_page_key(&mut self, key: KeyInput, cfg: &mut Config, ctx: KeyContext) -> (r: Action)
        ensures
            (Step { app: final(self)@, cfg: final(cfg)@, action: r@ }) == page_step(
                old(self)@,
                old(cfg)@,
                key,
                ctx,
            ),
    {
        let code = key.code;
        let tab = self.tab;
        if code == KeyCode::Char('s') && tab == Tab::Dashboard {
            if ctx.server_running {
                Action::StopServer
            } else {
                Action::StartServer
            }
        } else if code == KeyCode::Char('r') && tab == Tab::Dashboard {
            Action::CheckAgentHealth
        } else if code == KeyCode::Char('t') && tab == Tab::Dashboard {
            self.run_smoke_test(cfg)
        } else if code == KeyCode::Char('c') && tab == Tab::Logs {
            self.set_status("Logs cleared");
            Action::ClearLogs
        } else if code == KeyCode::Char('x') && tab == Tab::Usage {
            self.set_status("Usage counters reset");
            Action::ResetUsage
        } else if tab == Tab::Config {
            self.handle_config_key(key, cfg)
        } else {
            self.handle_scroll_key(key, ctx);
            Action::Idle
        }
    }

    fn handle_config_key(&mut self, key: KeyInput, cfg: &mut Config) -> (r: Action)
        ensures
            (Step { app: final(self)@, cfg: final(cfg)@, action: r@ }) == config_page_step(
                old(self)@,
                old(cfg)@,
                key,
            ),
    {
        let code = key.code;
        if code == KeyCode::Up {
            self.config_field = self.config_field.prev();
            Action::Idle
        } else if code == KeyCode::Down {
            self.config_field = self.config_field.next();
            Action::Idle
        } else if code == KeyCode::Enter || code == KeyCode::Char('e') {
            self.begin_edit(cfg);
            Action::Idle
        } else if code == KeyCode::Char('p') {
            self.cycle_profile(cfg)
        } else if code == KeyCode::Char('w') {
            cfg.cursor.force = !cfg.cursor.force;
            self.toggled("force=", cfg.cursor.force);
            Action::SaveConfig
        } else if code == KeyCode::Char('j') {
            cfg.cursor.json_mode = !cfg.cursor.json_mode;
            self.toggled("json_mode=", cfg.cursor.json_mode);
            Action::SaveConfig
        } else if code == KeyCode::Char('k') {
            cfg.cursor.trust = !cfg.cursor.trust;
            self.toggled("trust=", cfg.cursor.trust);
            Action::SaveConfig
        } else {
            Action::Idle
        }
    }

    fn toggled(&mut self, prefix: &str, value: bool)
        ensures
            final(self)@ == with_status(old(self)@, prefix@ + on_off(value)),
    {
        let mut msg = owned(prefix);
        push_str(&mut msg, on_off_str(value));
        self.status_message = msg;
    }

    fn handle_scroll_key(&mut self, key: KeyInput, ctx: KeyContext)
        ensures
            final(self)@ == scrolled(old(self)@, key, ctx),
    {
        let code = key.code;
        let tab = self.tab;
        if tab == Tab::Logs {
            if code == KeyCode::Up {
                self.log_scroll = self.log_scroll.saturating_add(1);
            } else if code == KeyCode::Down {
                self.log_scroll = self.log_scroll.saturating_sub(1);
            } else if code == KeyCode::PageUp {
                self.log_scroll = self.log_scroll.saturating_add(10);
            } else if code == KeyCode::PageDown {
                self.log_scroll = self.log_scroll.saturating_sub(10);
            }
        } else if tab == Tab::Usage {
            if code == KeyCode::Up {
                self.usage_scroll = self.usage_scroll.saturating_add(1);
            } else if code == KeyCode::Down {
                self.usage_scroll = self.usage_scroll.saturating_sub(1);
            }
        } else if tab == Tab::Help {
            if code == KeyCode::Up {
                self.help_scroll = self.help_scroll.saturating_sub(1);
            } else if code == KeyCode::Down {
                self.help_scroll = self.help_scroll.saturating_add(1);
            } else if code == KeyCode::PageUp {
                self.help_scroll = self.help_scroll.saturating_sub(10);
            } else if code == KeyCode::PageDown {
                self.help_scroll = self.help_scroll.saturating_add(10);
            } else if code == KeyCode::Home {
                self.help_scroll = 0;
            } else if code == KeyCode::End {
                let n = help_page().len();
                self.help_scroll = n.saturating_sub(5) as u16;
            }
        }
    }
}

// ---------------------------------------------------------------- outcomes of outside work

/// The embedded CLI's size for a frame of `width` x `height` cells: the content area
/// minus the chrome, at least 40 columns and 10 rows.
pub open spec fn cli_size(width: u16, height: u16) -> (u16, u16) {
    let cols = sat_sub(width, 4);
    let rows = sat_sub(height, 8);
    (if cols < 40 {
        40
    } else {
        cols
    }, if rows < 10 {
        10
    } else {
        rows
    })
}

/// The first 80 characters of a smoke completion.
pub open spec fn smoke_preview(text: Seq<char>) -> Seq<char> {
    if text.len() <= 80 {
        text
    } else {
        text.take(80)
    }
}

pub open spec fn health_status(outcome: HealthOutcome) -> Seq<char> {
    match outcome {
        HealthOutcome::Missing(e) => "Agent missing: "@ + e@,
        HealthOutcome::Unhealthy(e) => "Agent unhealthy: "@ + e@,
        HealthOutcome::Healthy { version, display } => "Agent OK: "@ + version@ + " ("@ + display@
            + ")"@,
    }
}

impl TuiApp {
    /// Records how starting the embedded CLI went.
    pub fn cli_started(&mut self, result: Result<(), String>)
        ensures
            match result {
                Ok(()) => final(self)@ == (TuiView {
                    cli_open: true,
                    status_message:
                        "CLI ready — type agent commands. F1–F6 or Ctrl+←/→ switch tabs."@,
                    ..old(self)@
                }),
                Err(e) => final(self)@ == with_status(old(self)@, "CLI start failed: "@ + e@),
            },
    {
        match result {
            Ok(()) => {
                self.set_status("CLI ready — type agent commands. F1–F6 or Ctrl+←/→ switch tabs.");
                self.cli_open = true;
            },
            Err(e) => {
                let mut msg = owned("CLI start failed: ");
                push_str(&mut msg, e.as_str());
                self.status_message = msg;
            },
        }
    }

    /// Polls the embedded CLI: reports a shell that has exited.
    pub fn tick_cli(&mut self, cli_alive: bool)
        ensures
            final(self)@ == if old(self)@.cli_open && !cli_alive {
                with_status(old(self)@, "CLI shell exited — press R on CLI tab to restart."@)
            } else {
                old(self)@
            },
    {
        if self.cli_open && !cli_alive {
            self.set_status("CLI shell exited — press R on CLI tab to restart.");
        }
    }

    /// Records how saving an edited field went.
    pub fn edit_saved(&mut self, result: Result<(), String>)
        ensures
            match result {
                Ok(()) => final(self)@ == (TuiView {
                    editing: false,
                    status_message: "Saved "@ + field_label(old(self)@.config_field),
                    ..old(self)@
                }),
                Err(e) => final(self)@ == with_status(old(self)@, "Save failed: "@ + e@),
            },
    {
        match result {
            Ok(()) => {
                self.editing = false;
                let mut msg = owned("Saved ");
                push_str(&mut msg, self.config_field.label());
                self.status_message = msg;
            },
            Err(e) => {
                let mut msg = owned("Save failed: ");
                push_str(&mut msg, e.as_str());
                self.status_message = msg;
            },
        }
    }

    /// Records how stopping the service went.
    pub fn server_stopped(&mut self, result: Result<(), String>)
        ensures
            match result {
                Ok(()) => final(self)@ == with_status(old(self)@, "Server stopped"@),
                Err(e) => final(self)@ == with_status(old(self)@, "Stop failed: "@ + e@),
            },
    {
        match result {
            Ok(()) => self.set_status("Server stopped"),
            Err(e) => {
                let mut msg = owned("Stop failed: ");
                push_str(&mut msg, e.as_str());
                self.status_message = msg;
            },
        }
    }

    fn started(&mut self, cfg: &Config, agent_version: Option<String>, result: Result<(), String>, failure: &str)
        ensures
            match result {
                Ok(()) => final(self)@ == with_status(
                    old(self)@,
                    ready_banner_text(cfg@, opt_view(agent_version)),
                ),
                Err(e) => final(self)@ == with_status(old(self)@, failure@ + e@),
            },
    {
        match result {
            Ok(()) => {
                self.status_message = ready_banner(cfg, agent_version);
            },
            Err(e) => {
                let mut msg = owned(failure);
                push_str(&mut msg, e.as_str());
                self.status_message = msg;
            },
        }
    }

    /// Records how starting the service from the Dashboard went.
    pub fn server_started(&mut self, cfg: &Config, agent_version: Option<String>, result: Result<(), String>)
        ensures
            match result {
                Ok(()) => final(self)@ == with_status(
                    old(self)@,
                    ready_banner_text(cfg@, opt_view(agent_version)),
                ),
                Err(e) => final(self)@ == with_status(old(self)@, "Start failed: "@ + e@),
            },
    {
        self.started(cfg, agent_version, result, "Start failed: ");
    }

    /// Records how starting the service at launch went.
    pub fn autostarted(&mut self, cfg: &Config, agent_version: Option<String>, result: Result<(), String>)
        ensures
            match result {
                Ok(()) => final(self)@ == with_status(
                    old(self)@,
                    ready_banner_text(cfg@, opt_view(agent_version)),
                ),
                Err(e) => final(self)@ == with_status(old(self)@, "Autostart failed: "@ + e@),
            },
    {
        self.started(cfg, agent_version, result, "Autostart failed: ");
    }

    /// Records how the agent health probe went.
    pub fn health_checked(&mut self, outcome: HealthOutcome)
        ensures
            final(self)@ == with_status(old(self)@, health_status(outcome)),
    {
        let ghost o = outcome;
        let msg = match outcome {
            HealthOutcome::Missing(e) => {
                let mut m = owned("Agent missing: ");
                push_str(&mut m, e.as_str());
                m
            },
            HealthOutcome::Unhealthy(e) => {
                let mut m = owned("Agent unhealthy: ");
                push_str(&mut m, e.as_str());
                m
            },
            HealthOutcome::Healthy { version, display } => {
                let mut m = owned("Agent OK: ");
                push_str(&mut m, version.as_str());
                push_str(&mut m, " (");
                push_str(&mut m, display.as_str());
                push_str(&mut m, ")");
                m
            },
        };
        self.status_message = msg;
    }

    /// Records how the smoke test went.
    pub fn smoke_finished(&mut self, result: Result<String, String>)
        ensures
            final(self)@ == (TuiView {
                smoke_running: false,
                status_message: match result {
                    Ok(text) => "Smoke OK: "@ + smoke_preview(text@),
                    Err(e) => "Smoke failed: "@ + e@,
                },
                ..old(self)@
            }),
    {
        match result {
            Ok(text) => {
                let chars = chars_of(text.as_str());
                let n = if chars.len() <= 80 {
                    chars.len()
                } else {
                    80
                };
                let preview = crate::text::slice_chars(&chars, 0, n);
                let mut msg = owned("Smoke OK: ");
                crate::text::push_chars(&mut msg, &preview);
                proof {
                    if chars@.len() <= 80 {
                        assert(preview@ =~= chars@);
                    } else {
                        assert(preview@ =~= chars@.take(80));
                    }
                }
                self.status_message = msg;
            },
            Err(e) => {
                let mut msg = owned("Smoke failed: ");
                push_str(&mut msg, e.as_str());
                self.status_message = msg;
            },
        }
        self.smoke_running = false;
    }

    /// Fits the embedded CLI to a frame of `width` x `height` cells while the CLI tab
    /// shows; true when the size changed and the terminal must be resized.
    pub fn frame_resized(&mut self, width: u16, height: u16) -> (changed: bool)
        ensures
            ({
                let (cols, rows) = cli_size(width, height);
                let c = old(self)@.tab == Tab::Cli && (old(self)@.cli_cols != cols
                    || old(self)@.cli_rows != rows);
                &&& changed == c
                &&& final(self)@ == if c {
                    TuiView { cli_cols: cols, cli_rows: rows, ..old(self)@ }
                } else {
                    old(self)@
                }
            }),
    {
        let w = width.saturating_sub(4);
        let h = height.saturating_sub(8);
        let cols = if w < 40 {
            40
        } else {
            w
        };
        let rows = if h < 10 {
            10
        } else {
            h
        };
        if self.tab == Tab::Cli && (self.cli_cols != cols || self.cli_rows != rows) {
            self.cli_cols = cols;
            self.cli_rows = rows;
            true
        } else {
            false
        }
    }
}

// ---------------------------------------------------------------- laws

/// Next and previous tab undo each other; next moves one position to the right,
/// wrapping from Help to Dashboard; every tab sits at its own position.
pub proof fn law_tab_cycle(t: Tab)
    ensures
        tab_prev(tab_next(t)) == t,
        tab_next(tab_prev(t)) == t,
        tab_position(tab_next(t)) == (tab_position(t) + 1) % 6,
        tab_at(tab_position(t)) == Some(t),
{
}

/// `from_index` knows exactly the six positions of the tab bar.
pub proof fn law_tab_from_index(i: int)
    ensures
        (tab_at(i) is Some) <==> 0 <= i < 6,
        tab_at(i) matches Some(t) ==> tab_position(t) == i,
{
}

/// Next and previous field undo each other and walk the list in order, wrapping around.
pub proof fn law_field_cycle(f: ConfigField)
    ensures
        field_prev(field_next(f)) == f,
        field_next(field_prev(f)) == f,
        field_position(field_next(f)) == (field_position(f) + 1) % 13,
        field_at(field_position(f)) == f,
{
}

/// Cycling the profile from `chat` goes to `json_api`, then `long_running`, then back.
pub proof fn law_profile_cycle()
    ensures
        cycled_profile("chat"@) == "json_api"@,
        cycled_profile("json_api"@) == "long_running"@,
        cycled_profile("long_running"@) == "chat"@,
{
    reveal_strlit("chat");
    reveal_strlit("json_api");
    reveal_strlit("json-api");
    reveal_strlit("json");
    reveal_strlit("long_running");
}

/// Ctrl+Q quits from any state, on any tab, while editing too; the service is
/// stopped first when it runs, and the configuration is untouched.
pub proof fn law_ctrl_q_quits(app: TuiView, cfg: ConfigView, key: KeyInput, ctx: KeyContext)
    requires
        key.code == KeyCode::Char('q'),
        key.ctrl,
        key.kind != KeyKind::Release,
    ensures
        key_step(app, cfg, key, ctx).app.should_quit,
        key_step(app, cfg, key, ctx).action == (ActionView::Quit { stop_server: ctx.server_running }),
        key_step(app, cfg, key, ctx).cfg == cfg,
{
}

/// F1..F6 select their tab from any state, the CLI tab and editing included.
pub proof fn law_function_keys_switch_tabs(app: TuiView, cfg: ConfigView, key: KeyInput, ctx: KeyContext, n: u8)
    requires
        key.code == KeyCode::F(n),
        1 <= n <= 6,
        key.kind != KeyKind::Release,
    ensures
        key_step(app, cfg, key, ctx).app.tab == tab_at(n - 1)->0,
        key_step(app, cfg, key, ctx).cfg == cfg,
{
}

/// Key releases are ignored.
pub proof fn law_release_ignored(app: TuiView, cfg: ConfigView, key: KeyInput, ctx: KeyContext)
    requires
        key.kind == KeyKind::Release,
    ensures
        key_step(app, cfg, key, ctx) == idle(app, cfg),
{
}

/// The configuration changes only through an edit in progress or a key on the Config tab.
pub proof fn law_config_changes_only_from_config_tab(app: TuiView, cfg: ConfigView, key: KeyInput, ctx: KeyContext)
    ensures
        key_step(app, cfg, key, ctx).cfg != cfg ==> app.editing || app.tab == Tab::Config,
        key_step(app, cfg, key, ctx).cfg != cfg ==> key_step(app, cfg, key, ctx).action
            == ActionView::SaveEdit || key_step(app, cfg, key, ctx).action == ActionView::SaveConfig,
{
}

/// Opening a numeric or on/off field for editing and committing the text unchanged
/// leaves the configuration as it was.
pub proof fn law_edit_round_trip(cfg: ConfigView, f: ConfigField)
    requires
        f == ConfigField::Port || f == ConfigField::MaxConcurrency || f == ConfigField::Timeout
            || f == ConfigField::JsonMode || f == ConfigField::RejectWhenBusy,
    ensures
        edit_config(cfg, f, field_text(cfg, f)) == cfg,
{
    reveal_strlit("true");
    reveal_strlit("false");
    reveal_strlit("1");
    reveal_strlit("yes");
    reveal_strlit("on");
    match f {
        ConfigField::Port => {
            crate::text::law_trim_dec(cfg.server.port as nat);
            crate::text::law_parse_dec(cfg.server.port as nat, 65535);
            assert(edit_config(cfg, f, field_text(cfg, f)) =~= cfg);
        },
        ConfigField::MaxConcurrency => {
            crate::text::law_trim_dec(cfg.server.max_concurrency as nat);
            crate::text::law_parse_dec(cfg.server.max_concurrency as nat, usize::MAX as nat);
            assert(edit_config(cfg, f, field_text(cfg, f)) =~= cfg);
        },
        ConfigField::Timeout => {
            crate::text::law_trim_dec(cfg.server.request_timeout_secs as nat);
            crate::text::law_parse_dec(cfg.server.request_timeout_secs as nat, u64::MAX as nat);
            assert(edit_config(cfg, f, field_text(cfg, f)) =~= cfg);
        },
        _ => {
            let b = if f == ConfigField::JsonMode {
                cfg.cursor.json_mode
            } else {
                cfg.server.reject_when_busy
            };
            let t = bool_text(b);
            assert(trim(t) == t) by {
                assert(crate::text::skip_ws(t, 0) == 0);
                assert(crate::text::trim_end_at(t, 0, t.len() as int) == t.len());
                assert(t.subrange(0, t.len() as int) =~= t);
            }
            crate::text::lemma_lower_unchanged(t);
            assert(edit_flag(t) == b);
            assert(edit_config(cfg, f, field_text(cfg, f)) =~= cfg);
        },
    }
}

/// Outside editing and the CLI tab, the digit keys 1..6 select their tab.
pub proof fn law_digit_keys_switch_tabs(app: TuiView, cfg: ConfigView, key: KeyInput, ctx: KeyContext, d: char)
    requires
        key.code == KeyCode::Char(d),
        '1' <= d <= '6',
        key.kind != KeyKind::Release,
        !app.editing,
        app.tab != Tab::Cli,
    ensures
        key_step(app, cfg, key, ctx).app.tab == tab_at(d as int - 49)->0,
        key_step(app, cfg, key, ctx).cfg == cfg,
{
}

/// Outside editing and the CLI tab, `q` and Esc quit, stopping a running service first.
pub proof fn law_q_and_esc_quit(app: TuiView, cfg: ConfigView, key: KeyInput, ctx: KeyContext)
    requires
        key.code == KeyCode::Char('q') || key.code == KeyCode::Esc,
        key.kind != KeyKind::Release,
        !app.editing,
        app.tab != Tab::Cli,
    ensures
        key_step(app, cfg, key, ctx).app.should_quit,
        key_step(app, cfg, key, ctx).action == (ActionView::Quit { stop_server: ctx.server_running }),
        key_step(app, cfg, key, ctx).cfg == cfg,
{
}

/// On the Help page, `End` shows the last five lines of the page.
pub proof fn law_help_end_shows_last_lines(app: TuiView, cfg: ConfigView, key: KeyInput, ctx: KeyContext)
    requires
        key.code == KeyCode::End,
        key.kind != KeyKind::Release,
        !app.editing,
        app.tab == Tab::Help,
    ensures
        key_step(app, cfg, key, ctx).app.help_scroll == help_page_len() - 5,
        help_page_len() == 61,
{
    super::help::law_help_page_shape();
}

/// Outside editing and the CLI tab, Left and BackTab move one tab to the left and
/// Right and Tab one tab to the right, wrapping around; the configuration is untouched.
pub proof fn law_arrow_keys_move_between_tabs(app: TuiView, cfg: ConfigView, key: KeyInput, ctx: KeyContext)
    requires
        key.kind != KeyKind::Release,
        !app.editing,
        app.tab != Tab::Cli,
    ensures
        (key.code == KeyCode::Left || key.code == KeyCode::BackTab) ==> tab_position(
            key_step(app, cfg, key, ctx).app.tab,
        ) == (tab_position(app.tab) + 5) % 6,
        (key.code == KeyCode::Right || key.code == KeyCode::Tab) ==> tab_position(
            key_step(app, cfg, key, ctx).app.tab,
        ) == (tab_position(app.tab) + 1) % 6,
        (key.code == KeyCode::Left || key.code == KeyCode::BackTab || key.code == KeyCode::Right
            || key.code == KeyCode::Tab) ==> key_step(app, cfg, key, ctx).cfg == cfg,
{
}

/// Ctrl+Left and Ctrl+Right move one tab left and right from any state, the CLI tab
/// and editing included.
pub proof fn law_ctrl_arrows_move_between_tabs(app: TuiView, cfg: ConfigView, key: KeyInput, ctx: KeyContext)
    requires
        key.kind != KeyKind::Release,
        key.ctrl,
    ensures
        key.code == KeyCode::Left ==> tab_position(key_step(app, cfg, key, ctx).app.tab) == (
        tab_position(app.tab) + 5) % 6,
        key.code == KeyCode::Right ==> tab_position(key_step(app, cfg, key, ctx).app.tab) == (
        tab_position(app.tab) + 1) % 6,
{
}

/// Committing an edit stores the trimmed buffer in the field being edited.
pub proof fn law_edit_targets(cfg: ConfigView, b: Seq<char>)
    ensures
        edit_config(cfg, ConfigField::Host, b).server.host == trim(b),
        edit_config(cfg, ConfigField::Model, b).cursor.default_model == trim(b),
        edit_config(cfg, ConfigField::Mode, b).cursor.mode == trim(b),
        edit_config(cfg, ConfigField::Workspace, b).cursor.workspace == trim(b),
        edit_config(cfg, ConfigField::FlattenMode, b).cursor.message_flatten_mode == trim(b),
        edit_config(cfg, ConfigField::ApiKey, b).auth.api_key == trim(b),
        edit_config(cfg, ConfigField::CursorApiKey, b).cursor.cursor_api_key == trim(b),
        edit_config(cfg, ConfigField::ApiKey, b).auth.require_auth == (trim(b).len() > 0),
        edit_config(cfg, ConfigField::JsonMode, b).cursor.json_mode == (lower(trim(b)) == "1"@
            || lower(trim(b)) == "true"@ || lower(trim(b)) == "yes"@ || lower(trim(b)) == "on"@),
        edit_config(cfg, ConfigField::RejectWhenBusy, b).server.reject_when_busy == (lower(trim(b))
            == "1"@ || lower(trim(b)) == "true"@ || lower(trim(b)) == "yes"@ || lower(trim(b))
            == "on"@),
        edit_config(cfg, ConfigField::Port, b).server.port == match parse_unsigned(trim(b), 65535) {
            Some(p) => p,
            None => cfg.server.port as nat,
        },
        edit_config(cfg, ConfigField::MaxConcurrency, b).server.max_concurrency == match parse_unsigned(
            trim(b),
            usize::MAX as nat,
        ) {
            Some(n) => n,
            None => cfg.server.max_concurrency as nat,
        },
        edit_config(cfg, ConfigField::Timeout, b).server.request_timeout_secs == match parse_unsigned(
            trim(b),
            u64::MAX as nat,
        ) {
            Some(n) => n,
            None => cfg.server.request_timeout_secs as nat,
        },
        edit_config(cfg, ConfigField::Profile, b) == cfg.with_profile(trim(b)),
{
}

/// Committing an edit of a field other than the profile shows the committed value
/// under that field the next time editing starts, and leaves what every other
/// field shows unchanged.
pub proof fn law_edit_changes_only_its_field(cfg: ConfigView, f: ConfigField, g: ConfigField, b: Seq<char>)
    requires
        f != ConfigField::Profile,
        g != f,
    ensures
        field_text(edit_config(cfg, f, b), g) == field_text(cfg, g),
        (f == ConfigField::Host || f == ConfigField::Model || f == ConfigField::Mode || f
            == ConfigField::Workspace || f == ConfigField::FlattenMode || f == ConfigField::ApiKey
            || f == ConfigField::CursorApiKey) ==> field_text(edit_config(cfg, f, b), f) == trim(b),
{
}

} // verus!
