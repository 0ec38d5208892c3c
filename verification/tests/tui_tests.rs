use cursor_api::config::Config;
use cursor_api::tui::help::{help_page, HelpStyle};
use cursor_api::tui::app::{
    Action, ConfigField, HealthOutcome, KeyCode, KeyContext, KeyInput, KeyKind, Tab, TuiApp,
};
use cursor_api::tui::ui::{
    cli_banner, cli_body_lines, cli_title, config_line, logs_title, dashboard_lines, field_display_of, footer_hint,
    footer_text, health_label_of, help_scroll_offset, help_title, mask_secret, request_color,
    request_detail, request_preview, request_status_cell, service_color, service_label_of,
    uptime_text, usage_requests_line, usage_tokens_line, visible_window, DashboardFacts,
    RequestFacts, StatusColor, UsageTotals,
};

fn press(code: KeyCode) -> KeyInput {
    KeyInput { code, ctrl: false, shift: false, kind: KeyKind::Press }
}

fn ctrl(code: KeyCode) -> KeyInput {
    KeyInput { code, ctrl: true, shift: false, kind: KeyKind::Press }
}

fn ctx() -> KeyContext {
    KeyContext { server_running: false, cli_alive: false }
}

#[test]
fn tab_order_and_titles() {
    assert_eq!(Tab::Dashboard.next(), Tab::Config);
    assert_eq!(Tab::Help.next(), Tab::Dashboard);
    assert_eq!(Tab::Dashboard.prev(), Tab::Help);
    assert_eq!(Tab::Cli.title(), "CLI");
    assert_eq!(Tab::from_index(0), Some(Tab::Dashboard));
    assert_eq!(Tab::from_index(5), Some(Tab::Help));
    assert_eq!(Tab::from_index(6), None);
    for t in Tab::ALL {
        assert_eq!(t.next().prev(), t);
        assert_eq!(Tab::from_index(t.index()), Some(t));
    }
}

#[test]
fn config_field_order_and_labels() {
    assert_eq!(ConfigField::Host.next(), ConfigField::Port);
    assert_eq!(ConfigField::RejectWhenBusy.next(), ConfigField::Host);
    assert_eq!(ConfigField::Host.prev(), ConfigField::RejectWhenBusy);
    assert_eq!(ConfigField::Timeout.label(), "Timeout (secs)");
    let mut f = ConfigField::Mode;
    for _ in 0..13 {
        f = f.next();
    }
    assert_eq!(f, ConfigField::Mode);
    for f in ConfigField::ALL {
        assert_eq!(f.prev().next(), f);
    }
}

#[test]
fn new_app_state() {
    let app = TuiApp::new();
    assert_eq!(app.tab, Tab::Dashboard);
    assert_eq!(app.config_field, ConfigField::Host);
    assert!(!app.editing && !app.should_quit && !app.cli_open);
    assert_eq!(app.status_message, "Cursor-API · s start/stop · 3 CLI · 6 Help · q quit");
    assert_eq!((app.cli_cols, app.cli_rows), (80, 24));
}

#[test]
fn quit_keys() {
    let mut cfg = Config::default();
    let mut app = TuiApp::new();
    app.tab = Tab::Cli;
    app.editing = true;
    let running = KeyContext { server_running: true, ..ctx() };
    let a = app.handle_key(ctrl(KeyCode::Char('q')), &mut cfg, running);
    assert!(matches!(a, Action::Quit { stop_server: true }));
    assert!(app.should_quit);

    let mut app = TuiApp::new();
    let a = app.handle_key(press(KeyCode::Esc), &mut cfg, ctx());
    assert!(matches!(a, Action::Quit { stop_server: false }));
    let mut app = TuiApp::new();
    app.tab = Tab::Logs;
    let a = app.handle_key(ctrl(KeyCode::Char('c')), &mut cfg, ctx());
    assert!(matches!(a, Action::Quit { .. }));
}

#[test]
fn release_is_ignored() {
    let mut cfg = Config::default();
    let mut app = TuiApp::new();
    let key = KeyInput { code: KeyCode::Char('q'), ctrl: true, shift: false, kind: KeyKind::Release };
    assert!(matches!(app.handle_key(key, &mut cfg, ctx()), Action::Idle));
    assert!(!app.should_quit);
}

#[test]
fn tab_switching_and_cli_start() {
    let mut cfg = Config::default();
    let mut app = TuiApp::new();
    assert!(matches!(app.handle_key(press(KeyCode::Char('2')), &mut cfg, ctx()), Action::Idle));
    assert_eq!(app.tab, Tab::Config);
    assert!(matches!(app.handle_key(press(KeyCode::Tab), &mut cfg, ctx()), Action::StartCli { cwd: None }));
    assert_eq!(app.tab, Tab::Cli);
    app.cli_started(Ok(()));
    assert!(app.cli_open);
    assert_eq!(app.status_message, "CLI ready — type agent commands. F1–F6 or Ctrl+←/→ switch tabs.");
    // keys go to the live shell
    let alive = KeyContext { cli_alive: true, ..ctx() };
    assert!(matches!(app.handle_key(press(KeyCode::Char('x')), &mut cfg, alive), Action::ForwardToCli));
    // F-keys and Ctrl+arrows still navigate
    assert!(matches!(app.handle_key(press(KeyCode::F(4)), &mut cfg, alive), Action::Idle));
    assert_eq!(app.tab, Tab::Logs);
    app.handle_key(ctrl(KeyCode::Left), &mut cfg, alive);
    assert_eq!(app.tab, Tab::Cli);
    // an open, live CLI is not restarted
    assert!(matches!(app.handle_key(press(KeyCode::F(3)), &mut cfg, alive), Action::Idle));
    // Shift+R restarts in the workspace
    cfg.cursor.workspace = "/work".to_string();
    let key = KeyInput { code: KeyCode::Char('R'), ctrl: false, shift: true, kind: KeyKind::Press };
    match app.handle_key(key, &mut cfg, alive) {
        Action::StartCli { cwd } => assert_eq!(cwd.as_deref(), Some("/work")),
        _ => panic!("expected StartCli"),
    }
    assert!(!app.cli_open);
    app.cli_started(Err("no pty".to_string()));
    assert_eq!(app.status_message, "CLI start failed: no pty");
}

#[test]
fn dead_cli_restarts_on_r() {
    let mut cfg = Config::default();
    let mut app = TuiApp::new();
    app.tab = Tab::Cli;
    app.cli_open = true;
    assert!(matches!(app.handle_key(press(KeyCode::Char('x')), &mut cfg, ctx()), Action::Idle));
    assert!(matches!(app.handle_key(press(KeyCode::Char('r')), &mut cfg, ctx()), Action::StartCli { .. }));
    app.cli_open = true;
    app.tick_cli(false);
    assert_eq!(app.status_message, "CLI shell exited — press R on CLI tab to restart.");
}

#[test]
fn editing_port_field() {
    let mut cfg = Config::default();
    let mut app = TuiApp::new();
    app.tab = Tab::Config;
    app.handle_key(press(KeyCode::Down), &mut cfg, ctx());
    assert_eq!(app.config_field, ConfigField::Port);
    app.handle_key(press(KeyCode::Enter), &mut cfg, ctx());
    assert!(app.editing);
    assert_eq!(app.edit_buffer, "8787");
    app.handle_key(press(KeyCode::Backspace), &mut cfg, ctx());
    app.handle_key(press(KeyCode::Char('9')), &mut cfg, ctx());
    assert_eq!(app.edit_buffer, "8789");
    let a = app.handle_key(press(KeyCode::Enter), &mut cfg, ctx());
    assert!(matches!(a, Action::SaveEdit));
    assert_eq!(cfg.server.port, 8789);
    app.edit_saved(Ok(()));
    assert!(!app.editing);
    assert_eq!(app.status_message, "Saved Port");
}

#[test]
fn editing_invalid_port_keeps_old_value() {
    let mut cfg = Config::default();
    let mut app = TuiApp::new();
    app.config_field = ConfigField::Port;
    app.editing = true;
    app.edit_buffer = " 99999 ".to_string();
    app.handle_key(press(KeyCode::Enter), &mut cfg, ctx());
    assert_eq!(cfg.server.port, 8787);
    app.edit_saved(Err("disk full".to_string()));
    assert!(app.editing);
    assert_eq!(app.status_message, "Save failed: disk full");
    app.handle_key(press(KeyCode::Esc), &mut cfg, ctx());
    assert!(!app.editing);
    assert_eq!(app.status_message, "Edit cancelled");
}

#[test]
fn editing_text_and_flag_fields() {
    let mut cfg = Config::default();
    let mut app = TuiApp::new();
    app.editing = true;
    app.config_field = ConfigField::ApiKey;
    app.edit_buffer = "  my-key  ".to_string();
    app.apply_edit(&mut cfg);
    assert_eq!(cfg.auth.api_key, "my-key");
    assert!(cfg.auth.require_auth);
    app.edit_buffer = "   ".to_string();
    app.apply_edit(&mut cfg);
    assert_eq!(cfg.auth.api_key, "");
    assert!(!cfg.auth.require_auth);

    app.config_field = ConfigField::JsonMode;
    app.edit_buffer = " ON ".to_string();
    app.apply_edit(&mut cfg);
    assert!(cfg.cursor.json_mode);
    app.edit_buffer = "nope".to_string();
    app.apply_edit(&mut cfg);
    assert!(!cfg.cursor.json_mode);

    app.config_field = ConfigField::Profile;
    app.edit_buffer = " long_running ".to_string();
    app.apply_edit(&mut cfg);
    assert_eq!(cfg.cursor.profile, "long_running");
    assert_eq!(cfg.server.max_concurrency, 1);

    app.config_field = ConfigField::Timeout;
    app.edit_buffer = "120".to_string();
    app.apply_edit(&mut cfg);
    assert_eq!(cfg.server.request_timeout_secs, 120);
}

#[test]
fn cycle_profile_and_toggles() {
    let mut cfg = Config::default();
    let mut app = TuiApp::new();
    app.tab = Tab::Config;
    assert!(matches!(app.handle_key(press(KeyCode::Char('p')), &mut cfg, ctx()), Action::SaveConfig));
    assert_eq!(cfg.cursor.profile, "json_api");
    assert!(cfg.cursor.json_mode);
    assert_eq!(app.status_message, "Profile set to json_api");
    app.handle_key(press(KeyCode::Char('p')), &mut cfg, ctx());
    assert_eq!(cfg.cursor.profile, "long_running");
    app.handle_key(press(KeyCode::Char('p')), &mut cfg, ctx());
    assert_eq!(cfg.cursor.profile, "chat");

    app.handle_key(press(KeyCode::Char('w')), &mut cfg, ctx());
    assert!(cfg.cursor.force);
    assert_eq!(app.status_message, "force=on");
    app.handle_key(press(KeyCode::Char('k')), &mut cfg, ctx());
    assert!(!cfg.cursor.trust);
    assert_eq!(app.status_message, "trust=off");
    app.handle_key(press(KeyCode::Char('j')), &mut cfg, ctx());
    assert_eq!(app.status_message, "json_mode=off");
}

#[test]
fn dashboard_actions_and_outcomes() {
    let mut cfg = Config::default();
    let mut app = TuiApp::new();
    assert!(matches!(app.handle_key(press(KeyCode::Char('s')), &mut cfg, ctx()), Action::StartServer));
    app.server_started(&cfg, None, Ok(()));
    assert!(app.status_message.starts_with("Cursor-API ready · http://127.0.0.1:8787/v1"));
    app.server_started(&cfg, None, Err("port in use".to_string()));
    assert_eq!(app.status_message, "Start failed: port in use");
    let running = KeyContext { server_running: true, ..ctx() };
    assert!(matches!(app.handle_key(press(KeyCode::Char('s')), &mut cfg, running), Action::StopServer));
    app.server_stopped(Ok(()));
    assert_eq!(app.status_message, "Server stopped");
    app.autostarted(&cfg, None, Err("x".to_string()));
    assert_eq!(app.status_message, "Autostart failed: x");

    assert!(matches!(app.handle_key(press(KeyCode::Char('r')), &mut cfg, ctx()), Action::CheckAgentHealth));
    app.health_checked(HealthOutcome::Healthy { version: "1.2".to_string(), display: "agent".to_string() });
    assert_eq!(app.status_message, "Agent OK: 1.2 (agent)");
    app.health_checked(HealthOutcome::Missing("not found".to_string()));
    assert_eq!(app.status_message, "Agent missing: not found");

    cfg.server.request_timeout_secs = 600;
    match app.handle_key(press(KeyCode::Char('t')), &mut cfg, ctx()) {
        Action::RunSmokeTest { timeout_secs } => assert_eq!(timeout_secs, 120),
        _ => panic!("expected smoke test"),
    }
    assert!(app.smoke_running);
    assert!(matches!(app.run_smoke_test(&cfg), Action::Idle));
    assert_eq!(app.status_message, "Smoke test already running");
    let long = "x".repeat(100);
    app.smoke_finished(Ok(long));
    assert!(!app.smoke_running);
    assert_eq!(app.status_message, format!("Smoke OK: {}", "x".repeat(80)));
}

#[test]
fn scrolling_saturates() {
    let mut cfg = Config::default();
    let mut app = TuiApp::new();
    app.tab = Tab::Logs;
    app.handle_key(press(KeyCode::Down), &mut cfg, ctx());
    assert_eq!(app.log_scroll, 0);
    app.handle_key(press(KeyCode::PageUp), &mut cfg, ctx());
    assert_eq!(app.log_scroll, 10);
    app.log_scroll = u16::MAX - 3;
    app.handle_key(press(KeyCode::PageUp), &mut cfg, ctx());
    assert_eq!(app.log_scroll, u16::MAX);
    assert!(matches!(app.handle_key(press(KeyCode::Char('c')), &mut cfg, ctx()), Action::ClearLogs));
    assert_eq!(app.status_message, "Logs cleared");

    app.tab = Tab::Help;
    app.handle_key(press(KeyCode::End), &mut cfg, ctx());
    assert_eq!(app.help_scroll, 56);
    app.handle_key(press(KeyCode::Home), &mut cfg, ctx());
    assert_eq!(app.help_scroll, 0);

    app.tab = Tab::Usage;
    app.handle_key(press(KeyCode::Up), &mut cfg, ctx());
    assert_eq!(app.usage_scroll, 1);
    assert!(matches!(app.handle_key(press(KeyCode::Char('x')), &mut cfg, ctx()), Action::ResetUsage));
}

#[test]
fn frame_resize_only_on_cli_tab() {
    let mut app = TuiApp::new();
    assert!(!app.frame_resized(120, 40));
    app.tab = Tab::Cli;
    assert!(app.frame_resized(120, 40));
    assert_eq!((app.cli_cols, app.cli_rows), (116, 32));
    assert!(!app.frame_resized(120, 40));
    assert!(app.frame_resized(10, 5));
    assert_eq!((app.cli_cols, app.cli_rows), (40, 10));
}

#[test]
fn masking_secrets() {
    assert_eq!(mask_secret(""), "(empty)");
    assert_eq!(mask_secret("abcd"), "****");
    assert_eq!(mask_secret("abcdef"), "ab…ef");
    assert_eq!(mask_secret("éé"), "****");
    assert_eq!(mask_secret("éxyzé"), "é…é");
    let mut cfg = Config::default();
    cfg.auth.api_key = "bridge-123456".to_string();
    assert_eq!(field_display_of(&cfg, ConfigField::ApiKey), "br…56");
    assert_eq!(field_display_of(&cfg, ConfigField::CursorApiKey), "(empty)");
    assert_eq!(field_display_of(&cfg, ConfigField::Workspace), "(process cwd)");
    assert_eq!(field_display_of(&cfg, ConfigField::Port), "8787");
    assert_eq!(field_display_of(&cfg, ConfigField::RejectWhenBusy), "true");
}

#[test]
fn list_windows() {
    assert_eq!(visible_window(100, 0, 12), (90, 100));
    assert_eq!(visible_window(100, 5, 12), (85, 95));
    assert_eq!(visible_window(5, 0, 12), (0, 5));
    assert_eq!(visible_window(5, 10, 12), (0, 0));
    assert_eq!(visible_window(5, 0, 1), (0, 0));
}

#[test]
fn help_page_title() {
    assert_eq!(help_scroll_offset(60, 22, 100), 40);
    assert_eq!(help_scroll_offset(60, 22, 3), 3);
    assert_eq!(help_title(60, 22, 3), " Cursor-API · help  (lines 4–23 of 60) ");
    assert_eq!(help_title(60, 22, 100), " Cursor-API · help  (lines 41–60 of 60) ");
    assert_eq!(help_title(0, 2, 0), " Cursor-API · help  (lines 1–1 of 0) ");
}

#[test]
fn footer_and_colours() {
    let mut app = TuiApp::new();
    assert_eq!(
        footer_text(&app),
        "Cursor-API · s start/stop · 3 CLI · 6 Help · q quit  |  s start/stop · r health · t smoke · 1-6 tabs · q quit"
    );
    app.editing = true;
    app.config_field = ConfigField::Host;
    app.edit_buffer = "0.0.0.0".to_string();
    assert_eq!(footer_text(&app), "Editing Bind host: 0.0.0.0▌");
    app.editing = false;
    app.smoke_running = true;
    app.tab = Tab::Logs;
    assert_eq!(footer_text(&app), format!("Smoke test running…  |  {}", footer_hint(Tab::Logs)));
    assert_eq!(service_color(true, true), StatusColor::Green);
    assert_eq!(service_color(true, false), StatusColor::Yellow);
    assert_eq!(service_color(false, true), StatusColor::Red);
    assert_eq!(request_color("ok"), StatusColor::Green);
    assert_eq!(request_color("error"), StatusColor::Red);
    assert_eq!(request_color("running"), StatusColor::Yellow);
    assert_eq!(cli_title(false), " terminal (dead) ");
    assert!(cli_banner(true).starts_with("Embedded shell"));
}

fn totals() -> UsageTotals {
    UsageTotals {
        requests: 10,
        successes: 8,
        failures: 2,
        prompt_tokens: 1200,
        completion_tokens: 300,
        total_tokens: 1500,
        avg_latency_ms: 950,
    }
}

#[test]
fn config_rows() {
    let cfg = Config::default();
    assert_eq!(
        config_line(&cfg, ConfigField::Port, true),
        format!("▶ {:<28} {}", "Port", "8787")
    );
    assert_eq!(
        config_line(&cfg, ConfigField::Profile, false),
        "  Profile (chat/json_api/long_running) chat"
    );
}

#[test]
fn usage_rows() {
    let t = totals();
    assert_eq!(usage_requests_line(&t, 1), "Requests: 10   Success: 8   Failures: 2   Active: 1");
    assert_eq!(
        usage_tokens_line(&t),
        "Prompt tokens≈ 1200   Completion≈ 300   Total≈ 1500   Avg latency 950ms"
    );
    let r = RequestFacts {
        request_id: "abc".to_string(),
        model: "auto".to_string(),
        status: "ok".to_string(),
        prompt_tokens: 12,
        completion_tokens: 3,
        duration_ms: 40,
        response_preview: None,
        error: Some("boom".to_string()),
    };
    assert_eq!(request_status_cell(&r), "ok      ");
    assert_eq!(request_detail(&r), "req=abc model=auto p≈12 c≈3 40ms");
    assert_eq!(request_preview(&r), "boom");
}

#[test]
fn dashboard_rows() {
    let cfg = Config::default();
    let f = DashboardFacts {
        running: true,
        healthy: false,
        uptime_secs: 42,
        agent_version: None,
        binary: Err("not on PATH".to_string()),
        active_requests: 0,
        totals: totals(),
        last_error: None,
    };
    let lines = dashboard_lines(&cfg, &f);
    assert_eq!(lines.len(), 16);
    assert_eq!(lines[1], "Listen:     127.0.0.1:8787");
    assert_eq!(lines[3], "OpenAI /v1: http://127.0.0.1:8787/v1");
    assert_eq!(lines[4], "Profile:    chat   json_mode=false   flatten=flat");
    assert_eq!(lines[6], "Agent bin:  MISSING (not on PATH)");
    assert_eq!(lines[7], "Agent ver:  unknown");
    assert_eq!(lines[8], "Mode:       ask   model=auto   force=false   trust=true");
    assert_eq!(lines[9], "Concurrency max=2 reject_when_busy=true timeout=600s");
    assert_eq!(lines[11], "Active req: 0   Totals: 8 ok / 2 err / 10 calls   avg 950ms");
    assert_eq!(lines[12], "Tokens≈     prompt 1200 · completion 300 · total 1500");
    assert_eq!(lines[13], "Last error: (none)");
    assert_eq!(service_label_of(f.running), "RUNNING");
    assert_eq!(health_label_of(f.healthy), "DOWN");
    assert_eq!(uptime_text(42), "   Uptime: 42s");
}

#[test]
fn config_keys_do_nothing_off_the_config_tab() {
    let mut cfg = Config::default();
    let mut app = TuiApp::new();
    for c in ['w', 'j', 'k', 'p', 'e'] {
        assert!(matches!(app.handle_key(press(KeyCode::Char(c)), &mut cfg, ctx()), Action::Idle));
    }
    assert!(!cfg.cursor.force && cfg.cursor.trust && !cfg.cursor.json_mode);
    assert_eq!(cfg.cursor.profile, "chat");
    assert!(!app.editing);
}

#[test]
fn committing_an_unchanged_field_keeps_the_config() {
    for field in [
        ConfigField::Port,
        ConfigField::MaxConcurrency,
        ConfigField::Timeout,
        ConfigField::JsonMode,
        ConfigField::RejectWhenBusy,
    ] {
        let mut cfg = Config::default();
        cfg.server.port = 65535;
        cfg.server.request_timeout_secs = u64::MAX;
        let mut app = TuiApp::new();
        app.tab = Tab::Config;
        app.config_field = field;
        app.handle_key(press(KeyCode::Char('e')), &mut cfg, ctx());
        app.handle_key(press(KeyCode::Enter), &mut cfg, ctx());
        assert_eq!(cfg.server.port, 65535);
        assert_eq!(cfg.server.request_timeout_secs, u64::MAX);
        assert_eq!(cfg.server.max_concurrency, 2);
        assert!(!cfg.cursor.json_mode);
        assert!(cfg.server.reject_when_busy);
    }
}

#[test]
fn logs_title_and_cli_body() {
    assert_eq!(logs_title(0), " logs (0) ");
    assert_eq!(logs_title(1234), " logs (1234) ");
    assert_eq!(cli_body_lines(None), vec!["Starting embedded CLI…".to_string()]);
    let screen = vec!["$ agent --version".to_string(), "1.0".to_string()];
    assert_eq!(cli_body_lines(Some(screen.clone())), screen);
}

#[test]
fn help_page_content() {
    let page = help_page();
    assert_eq!(page.len(), 61);
    assert_eq!(page[0].len(), 1);
    assert_eq!(page[0][0].text, "1. Overview");
    assert_eq!(page[0][0].style, HelpStyle::Heading);
    assert_eq!(page[1][0].text, "");
    let cmd = &page[14];
    assert_eq!(cmd[0].text, format!("  {:<34}", "cursor-api"));
    assert_eq!(cmd[0].style, HelpStyle::Command);
    assert_eq!(cmd[1].text, "TUI + start HTTP API (default)");
    let api = &page[31];
    assert_eq!(api[0].text, format!("  {:<6}", "GET"));
    assert_eq!(api[1].text, format!("{:<28}", "/health"));
    assert_eq!(api[2].text, "Service status, model, usage");
    assert_eq!(page[37][0].text, "  ✓ ");
    assert_eq!(page[37][0].style, HelpStyle::Supported);
    assert_eq!(
        page[60][0].text,
        "Prefer bind 127.0.0.1 and a bridge API key for anything beyond solo local use."
    );
}
