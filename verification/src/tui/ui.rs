//! What the TUI's panes compute before drawing: field values, masked secrets,
//! visible windows of scrolled lists, titles, hints and status colours.
use vstd::prelude::*;

use super::app::{field_label, ConfigField, Tab, TuiApp, TuiView, bool_text};
use crate::config::{Config, ConfigView};
use crate::text::{chars_of, dec, owned, push_chars, push_dec, push_str, slice_chars};

verus! {

// ---------------------------------------------------------------- secrets

/// Number of bytes of `c` in UTF-8.
pub open spec fn utf8_len(c: char) -> nat {
    if (c as int) < 0x80 {
        1
    } else if (c as int) < 0x800 {
        2
    } else if (c as int) < 0x10000 {
        3
    } else {
        4
    }
}

/// Number of bytes of `s` in UTF-8 (what `str::len` reports).
pub open spec fn byte_len(s: Seq<char>) -> nat
    decreases s.len(),
{
    if s.len() == 0 {
        0
    } else {
        byte_len(s.drop_last()) + utf8_len(s.last())
    }
}

/// The number of characters that make up the first two bytes of `s`, when
/// byte 2 is a character boundary.
pub open spec fn head_chars(s: Seq<char>) -> Option<int> {
    if s.len() >= 1 && utf8_len(s[0]) == 2 {
        Some(1)
    } else if s.len() >= 2 && utf8_len(s[0]) == 1 && utf8_len(s[1]) == 1 {
        Some(2)
    } else {
        None
    }
}

/// The number of characters that make up the last two bytes of `s`, when
/// two bytes before the end is a character boundary.
pub open spec fn tail_chars(s: Seq<char>) -> Option<int> {
    let n = s.len() as int;
    if n >= 1 && utf8_len(s[n - 1]) == 2 {
        Some(1)
    } else if n >= 2 && utf8_len(s[n - 1]) == 1 && utf8_len(s[n - 2]) == 1 {
        Some(2)
    } else {
        None
    }
}

/// Whether `mask_secret` can cut `s`: it slices the first and the last two bytes.
pub open spec fn maskable(s: Seq<char>) -> bool {
    s.len() == 0 || byte_len(s) <= 4 || (head_chars(s) is Some && tail_chars(s) is Some)
}

pub open spec fn masked(s: Seq<char>) -> Seq<char> {
    if s.len() == 0 {
        "(empty)"@
    } else if byte_len(s) <= 4 {
        "****"@
    } else {
        s.take(head_chars(s)->0) + "…"@ + s.skip(s.len() - tail_chars(s)->0)
    }
}

fn utf8_len_of(c: char) -> (n: usize)
    ensures
        n == utf8_len(c),
{
    let x = c as u32;
    if x < 0x80 {
        1
    } else if x < 0x800 {
        2
    } else if x < 0x10000 {
        3
    } else {
        4
    }
}

proof fn lemma_byte_len_grows(s: Seq<char>, i: int, j: int)
    requires
        0 <= i <= j <= s.len(),
    ensures
        byte_len(s.take(i)) <= byte_len(s.take(j)),
    decreases j - i,
{
    if i < j {
        lemma_byte_len_grows(s, i, j - 1);
        assert(s.take(j).drop_last() =~= s.take(j - 1));
    }
}

/// Whether `s` takes at most four bytes in UTF-8.
fn at_most_four_bytes(v: &Vec<char>) -> (b: bool)
    ensures
        b == (byte_len(v@) <= 4),
{
    let n = v.len();
    let mut total: usize = 0;
    let mut i: usize = 0;
    while i < n
        invariant
            i <= n,
            n == v@.len(),
            total == byte_len(v@.take(i as int)),
            total <= 4,
        decreases n - i,
    {
        assert(v@.take(i + 1).drop_last() =~= v@.take(i as int));
        total = total + utf8_len_of(v[i]);
        i = i + 1;
        if total > 4 {
            proof {
                lemma_byte_len_grows(v@, i as int, n as int);
                assert(v@.take(n as int) =~= v@);
            }
            return false;
        }
    }
    assert(v@.take(n as int) =~= v@);
    true
}

/// Shows a secret as its first and last two bytes, or a placeholder when it is empty
/// or too short to hint at.
pub fn mask_secret(value: &str) -> (r: String)
    requires
        maskable(value@),
    ensures
        r@ == masked(value@),
{
    let v = chars_of(value);
    if v.len() == 0 {
        return owned("(empty)");
    }
    if at_most_four_bytes(&v) {
        return owned("****");
    }
    let n = v.len();
    let h: usize = if utf8_len_of(v[0]) == 2 {
        1
    } else {
        2
    };
    let t: usize = if utf8_len_of(v[n - 1]) == 2 {
        1
    } else {
        2
    };
    let head = slice_chars(&v, 0, h);
    let tail = slice_chars(&v, n - t, n);
    let mut r = String::new();
    push_chars(&mut r, &head);
    push_str(&mut r, "…");
    push_chars(&mut r, &tail);
    assert(head@ =~= v@.take(h as int));
    assert(tail@ =~= v@.skip(n - t));
    assert(r@ =~= Seq::<char>::empty() + v@.take(h as int) + "…"@ + v@.skip(n - t));
    r
}

// ---------------------------------------------------------------- configuration list

/// The value shown beside a field on the Config page.
pub open spec fn field_display(cfg: ConfigView, f: ConfigField) -> Seq<char> {
    match f {
        ConfigField::Host => cfg.server.host,
        ConfigField::Port => dec(cfg.server.port as nat),
        ConfigField::Profile => cfg.cursor.profile,
        ConfigField::Model => cfg.cursor.default_model,
        ConfigField::Mode => cfg.cursor.mode,
        ConfigField::Workspace => if cfg.cursor.workspace.len() == 0 {
            "(process cwd)"@
        } else {
            cfg.cursor.workspace
        },
        ConfigField::FlattenMode => cfg.cursor.message_flatten_mode,
        ConfigField::JsonMode => bool_text(cfg.cursor.json_mode),
        ConfigField::ApiKey => masked(cfg.auth.api_key),
        ConfigField::CursorApiKey => masked(cfg.cursor.cursor_api_key),
        ConfigField::MaxConcurrency => dec(cfg.server.max_concurrency as nat),
        ConfigField::Timeout => dec(cfg.server.request_timeout_secs as nat),
        ConfigField::RejectWhenBusy => bool_text(cfg.server.reject_when_busy),
    }
}

/// The secrets of `cfg` can be masked.
pub open spec fn secrets_maskable(cfg: ConfigView) -> bool {
    maskable(cfg.auth.api_key) && maskable(cfg.cursor.cursor_api_key)
}

pub fn field_display_of(cfg: &Config, f: ConfigField) -> (r: String)
    requires
        secrets_maskable(cfg@),
    ensures
        r@ == field_display(cfg@, f),
{
    match f {
        ConfigField::Workspace => if cfg.cursor.workspace.as_str().is_empty() {
            owned("(process cwd)")
        } else {
            cfg.cursor.workspace.clone()
        },
        ConfigField::ApiKey => mask_secret(cfg.auth.api_key.as_str()),
        ConfigField::CursorApiKey => mask_secret(cfg.cursor.cursor_api_key.as_str()),
        _ => super::app::field_text_of(cfg, f),
    }
}

// ---------------------------------------------------------------- scrolled lists

/// The entries `[start, end)` that a list shows: `scroll` entries up from the
/// bottom of `total`, as many as fit in `area_height` minus the border.
pub open spec fn list_window(total: usize, scroll: u16, area_height: u16) -> (usize, usize) {
    let height = if area_height < 2 {
        0
    } else {
        area_height - 2
    };
    let end = if total < scroll {
        0
    } else {
        total - scroll
    };
    let start = if end < height {
        0
    } else {
        end - height
    };
    if start < end {
        (start as usize, end as usize)
    } else {
        (0, 0)
    }
}

pub fn visible_window(total: usize, scroll: u16, area_height: u16) -> (r: (usize, usize))
    ensures
        r == list_window(total, scroll, area_height),
        r.0 <= r.1 <= total,
{
    let height = area_height.saturating_sub(2) as usize;
    let end = total.saturating_sub(scroll as usize);
    let start = end.saturating_sub(height);
    if start < end {
        (start, end)
    } else {
        (0, 0)
    }
}

/// The Help page's scroll offset, clamped so the last page stays full.
pub open spec fn help_offset(total: usize, area_height: u16, help_scroll: u16) -> usize {
    let height = if area_height < 2 {
        0
    } else {
        area_height - 2
    };
    let shown = if height < 1 {
        1
    } else {
        height
    };
    let max_scroll = if total < shown {
        0
    } else {
        total - shown
    };
    (if help_scroll < max_scroll {
        help_scroll as int
    } else {
        max_scroll
    }) as usize
}

/// The last line number shown in the Help title.
pub open spec fn help_last_line(total: usize, area_height: u16, help_scroll: u16) -> int {
    let height = if area_height < 2 {
        0
    } else {
        area_height - 2
    };
    let scroll = help_offset(total, area_height, help_scroll);
    let bottom = if scroll + height < total {
        scroll + height
    } else {
        total as int
    };
    if bottom < scroll + 1 {
        scroll + 1
    } else {
        bottom
    }
}

pub open spec fn help_title_text(total: usize, area_height: u16, help_scroll: u16) -> Seq<char> {
    let scroll = help_offset(total, area_height, help_scroll);
    " Cursor-API · help  (lines "@ + dec((scroll + 1) as nat) + "–"@ + dec(
        help_last_line(total, area_height, help_scroll) as nat,
    ) + " of "@ + dec(total as nat) + ") "@
}

/// The Help page's scroll offset for a page of `total` lines in an area of
/// `area_height` rows.
pub fn help_scroll_offset(total: usize, area_height: u16, help_scroll: u16) -> (r: usize)
    ensures
        r == help_offset(total, area_height, help_scroll),
        r <= total,
{
    let height = area_height.saturating_sub(2) as usize;
    let shown = if height < 1 {
        1
    } else {
        height
    };
    let max_scroll = total.saturating_sub(shown);
    let h = help_scroll as usize;
    if h < max_scroll {
        h
    } else {
        max_scroll
    }
}

/// The Help page's title, with the range of lines shown.
pub fn help_title(total: usize, area_height: u16, help_scroll: u16) -> (r: String)
    ensures
        r@ == help_title_text(total, area_height, help_scroll),
{
    let height = area_height.saturating_sub(2) as usize;
    let scroll = help_scroll_offset(total, area_height, help_scroll);
    let bottom = if scroll + height < total {
        scroll + height
    } else {
        total
    };
    let last = if bottom < scroll + 1 {
        scroll + 1
    } else {
        bottom
    };
    let mut r = owned(" Cursor-API · help  (lines ");
    push_dec(&mut r, (scroll + 1) as u64);
    push_str(&mut r, "–");
    push_dec(&mut r, last as u64);
    push_str(&mut r, " of ");
    push_dec(&mut r, total as u64);
    push_str(&mut r, ") ");
    r
}

// ---------------------------------------------------------------- header and footer

pub open spec fn footer_hint_text(tab: Tab) -> Seq<char> {
    match tab {
        Tab::Dashboard => "s start/stop · r health · t smoke · 1-6 tabs · q quit"@,
        Tab::Config => "↑/↓ · Enter edit · p profile · j json · w force · k trust"@,
        Tab::Cli => "keys → shell · Shift+R restart · F1–F6 / Ctrl+←→ tabs · Ctrl+Q quit"@,
        Tab::Logs => "↑/↓ scroll · c clear"@,
        Tab::Usage => "↑/↓ scroll · x reset"@,
        Tab::Help => "↑/↓ PgUp/PgDn scroll · Home/End · 1-6 tabs"@,
    }
}

pub fn footer_hint(tab: Tab) -> (r: &'static str)
    ensures
        r@ == footer_hint_text(tab),
{
    match tab {
        Tab::Dashboard => "s start/stop · r health · t smoke · 1-6 tabs · q quit",
        Tab::Config => "↑/↓ · Enter edit · p profile · j json · w force · k trust",
        Tab::Cli => "keys → shell · Shift+R restart · F1–F6 / Ctrl+←→ tabs · Ctrl+Q quit",
        Tab::Logs => "↑/↓ scroll · c clear",
        Tab::Usage => "↑/↓ scroll · x reset",
        Tab::Help => "↑/↓ PgUp/PgDn scroll · Home/End · 1-6 tabs",
    }
}

/// The status bar: the edit in progress, a running smoke test, or the status message.
pub open spec fn footer_text_of(app: TuiView) -> Seq<char> {
    if app.editing {
        "Editing "@ + field_label(app.config_field) + ": "@ + app.edit_buffer + "▌"@
    } else if app.smoke_running {
        "Smoke test running…  |  "@ + footer_hint_text(app.tab)
    } else {
        app.status_message + "  |  "@ + footer_hint_text(app.tab)
    }
}

pub fn footer_text(app: &TuiApp) -> (r: String)
    ensures
        r@ == footer_text_of(app@),
{
    if app.editing {
        let mut r = owned("Editing ");
        push_str(&mut r, app.config_field.label());
        push_str(&mut r, ": ");
        push_str(&mut r, app.edit_buffer.as_str());
        push_str(&mut r, "▌");
        r
    } else if app.smoke_running {
        let mut r = owned("Smoke test running…  |  ");
        push_str(&mut r, footer_hint(app.tab));
        r
    } else {
        let mut r = app.status_message.clone();
        push_str(&mut r, "  |  ");
        push_str(&mut r, footer_hint(app.tab));
        r
    }
}

// ---------------------------------------------------------------- colours

/// The colours the panes pick by state.
#[derive(Debug, Clone, Copy, PartialEq, Eq, Structural)]
pub enum StatusColor {
    Green,
    Yellow,
    Red,
}

pub open spec fn service_color_of(running: bool, healthy: bool) -> StatusColor {
    if running && healthy {
        StatusColor::Green
    } else if running {
        StatusColor::Yellow
    } else {
        StatusColor::Red
    }
}

/// The Dashboard's service colour: green when running and healthy, yellow when
/// running, red when stopped.
pub fn service_color(running: bool, healthy: bool) -> (r: StatusColor)
    ensures
        r == service_color_of(running, healthy),
{
    if running && healthy {
        StatusColor::Green
    } else if running {
        StatusColor::Yellow
    } else {
        StatusColor::Red
    }
}

pub open spec fn request_color_of(status: Seq<char>) -> StatusColor {
    if status == "ok"@ {
        StatusColor::Green
    } else if status == "error"@ {
        StatusColor::Red
    } else {
        StatusColor::Yellow
    }
}

/// The colour of a recent request on the Usage page, by its status.
pub fn request_color(status: &str) -> (r: StatusColor)
    ensures
        r == request_color_of(status@),
{
    let v = chars_of(status);
    if crate::text::chars_eq(&v, "ok") {
        StatusColor::Green
    } else if crate::text::chars_eq(&v, "error") {
        StatusColor::Red
    } else {
        StatusColor::Yellow
    }
}

// ---------------------------------------------------------------- CLI pane

pub open spec fn cli_banner_text(alive: bool) -> Seq<char> {
    if alive {
        "Embedded shell (PowerShell / $SHELL). Run agent like a normal terminal. Try: agent --version"@
    } else {
        "Shell not running — press r to start, or Shift+R to restart"@
    }
}

pub fn cli_banner(alive: bool) -> (r: &'static str)
    ensures
        r@ == cli_banner_text(alive),
{
    if alive {
        "Embedded shell (PowerShell / $SHELL). Run agent like a normal terminal. Try: agent --version"
    } else {
        "Shell not running — press r to start, or Shift+R to restart"
    }
}

pub open spec fn cli_title_text(alive: bool) -> Seq<char> {
    if alive {
        " terminal "@
    } else {
        " terminal (dead) "@
    }
}

pub fn cli_title(alive: bool) -> (r: &'static str)
    ensures
        r@ == cli_title_text(alive),
{
    if alive {
        " terminal "
    } else {
        " terminal (dead) "
    }
}

// ---------------------------------------------------------------- text rows

/// `s` padded with spaces on the right to `width` characters, as `{:<width}` formats it.
pub open spec fn pad_right(s: Seq<char>, width: nat) -> Seq<char> {
    if s.len() < width {
        s + Seq::new((width - s.len()) as nat, |i: int| ' ')
    } else {
        s
    }
}

/// Appends `s` padded with spaces to `width` characters.
pub fn push_padded(r: &mut String, s: &str, width: usize)
    ensures
        final(r)@ == old(r)@ + pad_right(s@, width as nat),
{
    let v = chars_of(s);
    push_chars(r, &v);
    let n = v.len();
    if n < width {
        let mut i = n;
        while i < width
            invariant
                n <= i <= width,
                n == s@.len(),
                r@ == old(r)@ + s@ + Seq::new((i - n) as nat, |k: int| ' '),
            decreases width - i,
        {
            r.push(' ');
            i = i + 1;
            assert(r@ =~= old(r)@ + s@ + Seq::new((i - n) as nat, |k: int| ' '));
        }
        assert(r@ =~= old(r)@ + pad_right(s@, width as nat));
    } else {
        assert(r@ =~= old(r)@ + pad_right(s@, width as nat));
    }
}

/// A row of the Config page: the selection marker, the padded label and the value.
pub open spec fn config_line_text(cfg: ConfigView, f: ConfigField, selected: bool) -> Seq<char> {
    (if selected {
        "▶"@
    } else {
        " "@
    }) + " "@ + pad_right(field_label(f), 28) + " "@ + field_display(cfg, f)
}

pub fn config_line(cfg: &Config, f: ConfigField, selected: bool) -> (r: String)
    requires
        secrets_maskable(cfg@),
    ensures
        r@ == config_line_text(cfg@, f, selected),
{
    let mut r = owned(
        if selected {
            "▶"
        } else {
            " "
        },
    );
    push_str(&mut r, " ");
    push_padded(&mut r, f.label(), 28);
    push_str(&mut r, " ");
    let v = field_display_of(cfg, f);
    push_str(&mut r, v.as_str());
    r
}

// ---------------------------------------------------------------- usage

/// Request and token counters of the service.
pub struct UsageTotals {
    pub requests: u64,
    pub successes: u64,
    pub failures: u64,
    pub prompt_tokens: u64,
    pub completion_tokens: u64,
    pub total_tokens: u64,
    pub avg_latency_ms: u64,
}

pub open spec fn usage_requests_text(t: UsageTotals, active: u64) -> Seq<char> {
    "Requests: "@ + dec(t.requests as nat) + "   Success: "@ + dec(t.successes as nat)
        + "   Failures: "@ + dec(t.failures as nat) + "   Active: "@ + dec(active as nat)
}

pub open spec fn usage_tokens_text(t: UsageTotals) -> Seq<char> {
    "Prompt tokens≈ "@ + dec(t.prompt_tokens as nat) + "   Completion≈ "@ + dec(
        t.completion_tokens as nat,
    ) + "   Total≈ "@ + dec(t.total_tokens as nat) + "   Avg latency "@ + dec(
        t.avg_latency_ms as nat,
    ) + "ms"@
}

/// The first line of the Usage totals.
pub fn usage_requests_line(t: &UsageTotals, active: u64) -> (r: String)
    ensures
        r@ == usage_requests_text(*t, active),
{
    let mut r = owned("Requests: ");
    push_dec(&mut r, t.requests);
    push_str(&mut r, "   Success: ");
    push_dec(&mut r, t.successes);
    push_str(&mut r, "   Failures: ");
    push_dec(&mut r, t.failures);
    push_str(&mut r, "   Active: ");
    push_dec(&mut r, active);
    r
}

/// The second line of the Usage totals.
pub fn usage_tokens_line(t: &UsageTotals) -> (r: String)
    ensures
        r@ == usage_tokens_text(*t),
{
    let mut r = owned("Prompt tokens≈ ");
    push_dec(&mut r, t.prompt_tokens);
    push_str(&mut r, "   Completion≈ ");
    push_dec(&mut r, t.completion_tokens);
    push_str(&mut r, "   Total≈ ");
    push_dec(&mut r, t.total_tokens);
    push_str(&mut r, "   Avg latency ");
    push_dec(&mut r, t.avg_latency_ms);
    push_str(&mut r, "ms");
    r
}

/// One recent request as the Usage page lists it.
pub struct RequestFacts {
    pub request_id: String,
    pub model: String,
    pub status: String,
    pub prompt_tokens: u64,
    pub completion_tokens: u64,
    pub duration_ms: u64,
    pub response_preview: Option<String>,
    pub error: Option<String>,
}

pub open spec fn request_detail_text(r: RequestFacts) -> Seq<char> {
    "req="@ + r.request_id@ + " model="@ + r.model@ + " p≈"@ + dec(r.prompt_tokens as nat)
        + " c≈"@ + dec(r.completion_tokens as nat) + " "@ + dec(r.duration_ms as nat) + "ms"@
}

pub open spec fn request_preview_text(r: RequestFacts) -> Seq<char> {
    match r.response_preview {
        Some(p) => p@,
        None => match r.error {
            Some(e) => e@,
            None => Seq::empty(),
        },
    }
}

/// The status column of a recent request: padded to seven characters and a space.
pub fn request_status_cell(r: &RequestFacts) -> (s: String)
    ensures
        s@ == pad_right(r.status@, 7) + " "@,
{
    let mut s = String::new();
    push_padded(&mut s, r.status.as_str(), 7);
    push_str(&mut s, " ");
    assert(s@ =~= pad_right(r.status@, 7) + " "@);
    s
}

/// The details of a recent request: id, model, token estimates and duration.
pub fn request_detail(r: &RequestFacts) -> (s: String)
    ensures
        s@ == request_detail_text(*r),
{
    let mut s = owned("req=");
    push_str(&mut s, r.request_id.as_str());
    push_str(&mut s, " model=");
    push_str(&mut s, r.model.as_str());
    push_str(&mut s, " p≈");
    push_dec(&mut s, r.prompt_tokens);
    push_str(&mut s, " c≈");
    push_dec(&mut s, r.completion_tokens);
    push_str(&mut s, " ");
    push_dec(&mut s, r.duration_ms);
    push_str(&mut s, "ms");
    s
}

/// The second line of a recent request: its response preview, else its error.
pub fn request_preview(r: &RequestFacts) -> (s: String)
    ensures
        s@ == request_preview_text(*r),
{
    match &r.response_preview {
        Some(p) => p.clone(),
        None => match &r.error {
            Some(e) => e.clone(),
            None => String::new(),
        },
    }
}

// ---------------------------------------------------------------- dashboard

/// What the Dashboard shows besides the configuration.
pub struct DashboardFacts {
    pub running: bool,
    pub healthy: bool,
    pub uptime_secs: u64,
    pub agent_version: Option<String>,
    /// How the agent binary resolved: its launch description, or the error.
    pub binary: Result<String, String>,
    pub active_requests: u64,
    pub totals: UsageTotals,
    pub last_error: Option<String>,
}

pub open spec fn service_label(running: bool) -> Seq<char> {
    if running {
        "RUNNING"@
    } else {
        "STOPPED"@
    }
}

pub open spec fn health_label(healthy: bool) -> Seq<char> {
    if healthy {
        "OK"@
    } else {
        "DOWN"@
    }
}

pub open spec fn binary_text(b: Result<String, String>) -> Seq<char> {
    match b {
        Ok(d) => d@,
        Err(e) => "MISSING ("@ + e@ + ")"@,
    }
}

/// The Dashboard's lines after the service line, in order.
pub open spec fn dashboard_text(cfg: ConfigView, f: DashboardFacts) -> Seq<Seq<char>> {
    seq![
        Seq::empty(),
        "Listen:     "@ + cfg.listen_addr(),
        "Base URL:   "@ + cfg.base_url(),
        "OpenAI /v1: "@ + cfg.v1_url(),
        "Profile:    "@ + cfg.cursor.profile + "   json_mode="@ + bool_text(cfg.cursor.json_mode)
            + "   flatten="@ + cfg.cursor.message_flatten_mode,
        Seq::empty(),
        "Agent bin:  "@ + binary_text(f.binary),
        "Agent ver:  "@ + match f.agent_version {
            Some(v) => v@,
            None => "unknown"@,
        },
        "Mode:       "@ + cfg.cursor.mode + "   model="@ + cfg.cursor.default_model + "   force="@
            + bool_text(cfg.cursor.force) + "   trust="@ + bool_text(cfg.cursor.trust),
        "Concurrency max="@ + dec(cfg.server.max_concurrency as nat) + " reject_when_busy="@
            + bool_text(cfg.server.reject_when_busy) + " timeout="@ + dec(
            cfg.server.request_timeout_secs as nat,
        ) + "s"@,
        Seq::empty(),
        "Active req: "@ + dec(f.active_requests as nat) + "   Totals: "@ + dec(
            f.totals.successes as nat,
        ) + " ok / "@ + dec(f.totals.failures as nat) + " err / "@ + dec(
            f.totals.requests as nat,
        ) + " calls   avg "@ + dec(f.totals.avg_latency_ms as nat) + "ms"@,
        "Tokens≈     prompt "@ + dec(f.totals.prompt_tokens as nat) + " · completion "@ + dec(
            f.totals.completion_tokens as nat,
        ) + " · total "@ + dec(f.totals.total_tokens as nat),
        "Last error: "@ + match f.last_error {
            Some(e) => e@,
            None => "(none)"@,
        },
        Seq::empty(),
        "Point any OpenAI SDK client at the /v1 URL. Send X-Request-ID to correlate logs."@
    ]
}

pub fn service_label_of(running: bool) -> (r: &'static str)
    ensures
        r@ == service_label(running),
{
    if running {
        "RUNNING"
    } else {
        "STOPPED"
    }
}

pub fn health_label_of(healthy: bool) -> (r: &'static str)
    ensures
        r@ == health_label(healthy),
{
    if healthy {
        "OK"
    } else {
        "DOWN"
    }
}

/// The uptime span of the service line.
pub fn uptime_text(uptime_secs: u64) -> (r: String)
    ensures
        r@ == "   Uptime: "@ + dec(uptime_secs as nat) + "s"@,
{
    let mut r = owned("   Uptime: ");
    push_dec(&mut r, uptime_secs);
    push_str(&mut r, "s");
    r
}

fn bool_str(b: bool) -> (r: &'static str)
    ensures
        r@ == bool_text(b),
{
    if b {
        "true"
    } else {
        "false"
    }
}

fn dashboard_config_lines(cfg: &Config) -> (r: (String, String, String, String, String, String))
    ensures
        r.0@ == "Listen:     "@ + cfg@.listen_addr(),
        r.1@ == "Base URL:   "@ + cfg@.base_url(),
        r.2@ == "OpenAI /v1: "@ + cfg@.v1_url(),
        r.3@ == "Profile:    "@ + cfg@.cursor.profile + "   json_mode="@ + bool_text(
            cfg@.cursor.json_mode,
        ) + "   flatten="@ + cfg@.cursor.message_flatten_mode,
        r.4@ == "Mode:       "@ + cfg@.cursor.mode + "   model="@ + cfg@.cursor.default_model
            + "   force="@ + bool_text(cfg@.cursor.force) + "   trust="@ + bool_text(
            cfg@.cursor.trust,
        ),
        r.5@ == "Concurrency max="@ + dec(cfg@.server.max_concurrency as nat)
            + " reject_when_busy="@ + bool_text(cfg@.server.reject_when_busy) + " timeout="@
            + dec(cfg@.server.request_timeout_secs as nat) + "s"@,
{
    let mut listen = owned("Listen:     ");
    push_str(&mut listen, cfg.listen_addr().as_str());
    let mut base = owned("Base URL:   ");
    push_str(&mut base, cfg.base_url().as_str());
    let mut v1 = owned("OpenAI /v1: ");
    push_str(&mut v1, cfg.v1_url().as_str());
    let mut profile = owned("Profile:    ");
    push_str(&mut profile, cfg.cursor.profile.as_str());
    push_str(&mut profile, "   json_mode=");
    push_str(&mut profile, bool_str(cfg.cursor.json_mode));
    push_str(&mut profile, "   flatten=");
    push_str(&mut profile, cfg.cursor.message_flatten_mode.as_str());
    let mut mode = owned("Mode:       ");
    push_str(&mut mode, cfg.cursor.mode.as_str());
    push_str(&mut mode, "   model=");
    push_str(&mut mode, cfg.cursor.default_model.as_str());
    push_str(&mut mode, "   force=");
    push_str(&mut mode, bool_str(cfg.cursor.force));
    push_str(&mut mode, "   trust=");
    push_str(&mut mode, bool_str(cfg.cursor.trust));
    let mut conc = owned("Concurrency max=");
    push_dec(&mut conc, cfg.server.max_concurrency as u64);
    push_str(&mut conc, " reject_when_busy=");
    push_str(&mut conc, bool_str(cfg.server.reject_when_busy));
    push_str(&mut conc, " timeout=");
    push_dec(&mut conc, cfg.server.request_timeout_secs);
    push_str(&mut conc, "s");
    (listen, base, v1, profile, mode, conc)
}

fn dashboard_fact_lines(f: &DashboardFacts) -> (r: (String, String, String, String, String))
    ensures
        r.0@ == "Agent bin:  "@ + binary_text(f.binary),
        r.1@ == "Agent ver:  "@ + match f.agent_version {
            Some(v) => v@,
            None => "unknown"@,
        },
        r.2@ == "Active req: "@ + dec(f.active_requests as nat) + "   Totals: "@ + dec(
            f.totals.successes as nat,
        ) + " ok / "@ + dec(f.totals.failures as nat) + " err / "@ + dec(
            f.totals.requests as nat,
        ) + " calls   avg "@ + dec(f.totals.avg_latency_ms as nat) + "ms"@,
        r.3@ == "Tokens≈     prompt "@ + dec(f.totals.prompt_tokens as nat) + " · completion "@
            + dec(f.totals.completion_tokens as nat) + " · total "@ + dec(
            f.totals.total_tokens as nat,
        ),
        r.4@ == "Last error: "@ + match f.last_error {
            Some(e) => e@,
            None => "(none)"@,
        },
{
    let mut bin = owned("Agent bin:  ");
    match &f.binary {
        Ok(d) => push_str(&mut bin, d.as_str()),
        Err(e) => {
            push_str(&mut bin, "MISSING (");
            push_str(&mut bin, e.as_str());
            push_str(&mut bin, ")");
        },
    }
    let mut ver = owned("Agent ver:  ");
    match &f.agent_version {
        Some(v) => push_str(&mut ver, v.as_str()),
        None => push_str(&mut ver, "unknown"),
    }
    let t = &f.totals;
    let mut act = owned("Active req: ");
    push_dec(&mut act, f.active_requests);
    push_str(&mut act, "   Totals: ");
    push_dec(&mut act, t.successes);
    push_str(&mut act, " ok / ");
    push_dec(&mut act, t.failures);
    push_str(&mut act, " err / ");
    push_dec(&mut act, t.requests);
    push_str(&mut act, " calls   avg ");
    push_dec(&mut act, t.avg_latency_ms);
    push_str(&mut act, "ms");
    let mut tok = owned("Tokens≈     prompt ");
    push_dec(&mut tok, t.prompt_tokens);
    push_str(&mut tok, " · completion ");
    push_dec(&mut tok, t.completion_tokens);
    push_str(&mut tok, " · total ");
    push_dec(&mut tok, t.total_tokens);
    let mut err = owned("Last error: ");
    match &f.last_error {
        Some(e) => push_str(&mut err, e.as_str()),
        None => push_str(&mut err, "(none)"),
    }
    (bin, ver, act, tok, err)
}

/// The Dashboard's lines after the service line.
pub fn dashboard_lines(cfg: &Config, f: &DashboardFacts) -> (r: Vec<String>)
    ensures
        r@.map_values(|s: String| s@) == dashboard_text(cfg@, *f),
{
    let (listen, base, v1, profile, mode, conc) = dashboard_config_lines(cfg);
    let (bin, ver, act, tok, err) = dashboard_fact_lines(f);
    let mut r: Vec<String> = Vec::new();
    r.push(String::new());
    r.push(listen);
    r.push(base);
    r.push(v1);
    r.push(profile);
    r.push(String::new());
    r.push(bin);
    r.push(ver);
    r.push(mode);
    r.push(conc);
    r.push(String::new());
    r.push(act);
    r.push(tok);
    r.push(err);
    r.push(String::new());
    r.push(owned("Point any OpenAI SDK client at the /v1 URL. Send X-Request-ID to correlate logs."));
    assert(r@.map_values(|s: String| s@) =~= dashboard_text(cfg@, *f));
    r
}

/// The body of the CLI pane: the terminal's screen lines, or a starting notice
/// while no terminal exists.
pub fn cli_body_lines(screen: Option<Vec<String>>) -> (r: Vec<String>)
    ensures
        match screen {
            Some(v) => r@ == v@,
            None => r@.map_values(|s: String| s@) == seq!["Starting embedded CLI…"@],
        },
{
    match screen {
        Some(v) => v,
        None => {
            let mut r: Vec<String> = Vec::new();
            r.push(owned("Starting embedded CLI…"));
            assert(r@.map_values(|s: String| s@) =~= seq!["Starting embedded CLI…"@]);
            r
        },
    }
}

// ---------------------------------------------------------------- logs pane

pub open spec fn logs_title_text(total: usize) -> Seq<char> {
    " logs ("@ + dec(total as nat) + ") "@
}

/// The title of the Logs pane, with the number of entries.
pub fn logs_title(total: usize) -> (r: String)
    ensures
        r@ == logs_title_text(total),
{
    let mut r = owned(" logs (");
    push_dec(&mut r, total as u64);
    push_str(&mut r, ") ");
    r
}

} // verus!
