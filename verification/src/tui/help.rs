//! The Help page: fixed lines of styled text.
use vstd::prelude::*;

use super::ui::{pad_right, push_padded};
use crate::text::owned;

verus! {

/// How a piece of the Help page is styled.
#[derive(Debug, Clone, Copy, PartialEq, Eq, Structural)]
pub enum HelpStyle {
    Plain,
    /// Secondary text.
    Dim,
    /// A numbered section heading.
    Heading,
    /// The product name.
    Title,
    /// A bold sub-heading.
    Strong,
    /// A command of the `cursor-api` binary.
    Command,
    /// An HTTP method.
    Method,
    /// An HTTP path.
    Path,
    /// The mark of a supported feature.
    Supported,
    /// The mark of an unsupported feature.
    Unsupported,
    /// The heading of the supported features.
    SupportedHeading,
    /// The heading of the unsupported features.
    UnsupportedHeading,
}

/// A piece of a Help line with its style.
pub struct HelpSpan {
    pub text: String,
    pub style: HelpStyle,
}

pub open spec fn span_view(s: HelpSpan) -> (Seq<char>, HelpStyle) {
    (s.text@, s.style)
}

pub open spec fn line_view(l: Seq<HelpSpan>) -> Seq<(Seq<char>, HelpStyle)> {
    l.map_values(|s: HelpSpan| span_view(s))
}

pub open spec fn page_view(p: Seq<Vec<HelpSpan>>) -> Seq<Seq<(Seq<char>, HelpStyle)>> {
    p.map_values(|l: Vec<HelpSpan>| line_view(l@))
}

fn span(text: &str, style: HelpStyle) -> (r: HelpSpan)
    ensures
        span_view(r) == (text@, style),
{
    HelpSpan { text: owned(text), style }
}

fn blank(style: HelpStyle) -> (r: HelpSpan)
    ensures
        span_view(r) == (Seq::<char>::empty(), style),
{
    HelpSpan { text: String::new(), style }
}

fn padded_span(lead: &str, text: &str, width: usize, style: HelpStyle) -> (r: HelpSpan)
    ensures
        span_view(r) == (lead@ + pad_right(text@, width as nat), style),
{
    let mut t = owned(lead);
    push_padded(&mut t, text, width);
    HelpSpan { text: t, style }
}

fn padded_span_bare(text: &str, width: usize, style: HelpStyle) -> (r: HelpSpan)
    ensures
        span_view(r) == (pad_right(text@, width as nat), style),
{
    let mut t = String::new();
    push_padded(&mut t, text, width);
    assert(t@ =~= pad_right(text@, width as nat));
    HelpSpan { text: t, style }
}

fn line1(a: HelpSpan) -> (r: Vec<HelpSpan>)
    ensures
        line_view(r@) == seq![span_view(a)],
{
    let ghost va = span_view(a);
    let mut r: Vec<HelpSpan> = Vec::new();
    r.push(a);
    assert(line_view(r@) =~= seq![va]);
    r
}

fn line2(a: HelpSpan, b: HelpSpan) -> (r: Vec<HelpSpan>)
    ensures
        line_view(r@) == seq![span_view(a), span_view(b)],
{
    let ghost va = span_view(a);
    let ghost vb = span_view(b);
    let mut r: Vec<HelpSpan> = Vec::new();
    r.push(a);
    r.push(b);
    assert(line_view(r@) =~= seq![va, vb]);
    r
}

fn line3(a: HelpSpan, b: HelpSpan, c: HelpSpan) -> (r: Vec<HelpSpan>)
    ensures
        line_view(r@) == seq![span_view(a), span_view(b), span_view(c)],
{
    let ghost va = span_view(a);
    let ghost vb = span_view(b);
    let ghost vc = span_view(c);
    let mut r: Vec<HelpSpan> = Vec::new();
    r.push(a);
    r.push(b);
    r.push(c);
    assert(line_view(r@) =~= seq![va, vb, vc]);
    r
}

/// The Help page, line by line; each line is its styled pieces.
pub open spec fn help_page_text() -> Seq<Seq<(Seq<char>, HelpStyle)>> {
    help_overview_text() + help_commands_text() + help_compatibility_text() + help_cli_tab_text()
        + help_safety_text()
}

fn append_lines(r: &mut Vec<Vec<HelpSpan>>, more: Vec<Vec<HelpSpan>>)
    ensures
        page_view(final(r)@) == page_view(old(r)@) + page_view(more@),
{
    let mut m = more;
    let ghost vm = page_view(m@);
    r.append(&mut m);
    assert(page_view(r@) =~= page_view(old(r)@) + vm);
}

/// The Help page: an overview, the commands of the binary, the `/v1`
/// compatibility, the CLI tab and safety notes.
pub fn help_page() -> (r: Vec<Vec<HelpSpan>>)
    ensures
        page_view(r@) == help_page_text(),
        r@.len() == 61,
{
    let mut r = help_overview();
    append_lines(&mut r, help_commands());
    append_lines(&mut r, help_compatibility());
    append_lines(&mut r, help_cli_tab());
    append_lines(&mut r, help_safety());
    assert(help_overview_text().len() == 12);
    assert(help_commands_text().len() == 16);
    assert(help_compatibility_text().len() == 23);
    assert(help_cli_tab_text().len() == 6);
    assert(help_safety_text().len() == 4);
    assert(page_view(r@).len() == r@.len());
    r
}

/// The number of lines of the Help page.
pub open spec fn help_page_len() -> nat {
    help_page_text().len()
}

pub open spec fn help_overview_text() -> Seq<Seq<(Seq<char>, HelpStyle)>> {
    seq![
        seq![("1. Overview"@, HelpStyle::Heading)],
        seq![(Seq::<char>::empty(), HelpStyle::Plain)],
        seq![("Cursor-API"@, HelpStyle::Title)],
        seq![("Local OpenAI-compatible /v1 proxy backed by the Cursor Agent CLI."@, HelpStyle::Plain)],
        seq![("The TUI starts the HTTP API automatically. Use the CLI tab for an interactive agent shell."@, HelpStyle::Plain)],
        seq![(Seq::<char>::empty(), HelpStyle::Plain)],
        seq![("Default URL: "@, HelpStyle::Dim), ("http://127.0.0.1:8787/v1"@, HelpStyle::Plain)],
        seq![("Default model: "@, HelpStyle::Dim), ("auto  (see ready banner / /health → default_model)"@, HelpStyle::Plain)],
        seq![(Seq::<char>::empty(), HelpStyle::Plain)],
        seq![("Profiles: chat · json_api · long_running"@, HelpStyle::Plain)],
        seq![("Env: BRIDGE_HOST BRIDGE_PORT BRIDGE_API_KEY BRIDGE_TIMEOUT_SECS BRIDGE_JSON_MODE BRIDGE_DEFAULT_MODEL CURSOR_WORKSPACE"@, HelpStyle::Plain)],
        seq![(Seq::<char>::empty(), HelpStyle::Plain)],
    ]
}

pub open spec fn help_commands_text() -> Seq<Seq<(Seq<char>, HelpStyle)>> {
    seq![
        seq![("2. Cursor-API CLI commands"@, HelpStyle::Heading)],
        seq![(Seq::<char>::empty(), HelpStyle::Plain)],
        seq![("  "@ + pad_right("cursor-api"@, 34), HelpStyle::Command), ("TUI + start HTTP API (default)"@, HelpStyle::Plain)],
        seq![("  "@ + pad_right("cursor-api tui --no-autostart"@, 34), HelpStyle::Command), ("TUI only; press s to start API"@, HelpStyle::Plain)],
        seq![("  "@ + pad_right("cursor-api serve"@, 34), HelpStyle::Command), ("Headless HTTP only (no TUI)"@, HelpStyle::Plain)],
        seq![("  "@ + pad_right("cursor-api doctor"@, 34), HelpStyle::Command), ("Locate / probe agent binary"@, HelpStyle::Plain)],
        seq![("  "@ + pad_right("cursor-api doctor --full"@, 34), HelpStyle::Command), ("Probe + live smoke completion"@, HelpStyle::Plain)],
        seq![("  "@ + pad_right("cursor-api config-path"@, 34), HelpStyle::Command), ("Print config.toml location"@, HelpStyle::Plain)],
        seq![(Seq::<char>::empty(), HelpStyle::Plain)],
        seq![("TUI keys"@, HelpStyle::Strong)],
        seq![("  1–6 / Tab     switch pages (on CLI tab: Ctrl+← / Ctrl+→ or F1–F6)"@, HelpStyle::Plain)],
        seq![("  s             start/stop API (Dashboard)"@, HelpStyle::Plain)],
        seq![("  r             health-check agent (Dashboard)"@, HelpStyle::Plain)],
        seq![("  t             smoke test (Dashboard)"@, HelpStyle::Plain)],
        seq![("  q / Esc       quit Cursor-API"@, HelpStyle::Plain)],
        seq![(Seq::<char>::empty(), HelpStyle::Plain)],
    ]
}

pub open spec fn help_compatibility_text() -> Seq<Seq<(Seq<char>, HelpStyle)>> {
    seq![
        seq![("3. /v1 API compatibility"@, HelpStyle::Heading)],
        seq![(Seq::<char>::empty(), HelpStyle::Plain)],
        seq![("Endpoints"@, HelpStyle::Strong)],
        seq![("  "@ + pad_right("GET"@, 6), HelpStyle::Method), (pad_right("/health"@, 28), HelpStyle::Path), ("Service status, model, usage"@, HelpStyle::Plain)],
        seq![("  "@ + pad_right("GET"@, 6), HelpStyle::Method), (pad_right("/healthz"@, 28), HelpStyle::Path), ("Alias of /health"@, HelpStyle::Plain)],
        seq![("  "@ + pad_right("GET"@, 6), HelpStyle::Method), (pad_right("/v1/models"@, 28), HelpStyle::Path), ("Model list"@, HelpStyle::Plain)],
        seq![("  "@ + pad_right("POST"@, 6), HelpStyle::Method), (pad_right("/v1/chat/completions"@, 28), HelpStyle::Path), ("Chat (sync or SSE stream)"@, HelpStyle::Plain)],
        seq![(Seq::<char>::empty(), HelpStyle::Plain)],
        seq![("Supported"@, HelpStyle::SupportedHeading)],
        seq![("  ✓ "@, HelpStyle::Supported), ("messages[] (system / user / assistant / tool text)"@, HelpStyle::Plain)],
        seq![("  ✓ "@, HelpStyle::Supported), ("model (default from config)"@, HelpStyle::Plain)],
        seq![("  ✓ "@, HelpStyle::Supported), ("stream: true → SSE chunks + final usage"@, HelpStyle::Plain)],
        seq![("  ✓ "@, HelpStyle::Supported), ("response_format: json_object | json_schema"@, HelpStyle::Plain)],
        seq![("  ✓ "@, HelpStyle::Supported), ("X-Request-ID (echoed on responses)"@, HelpStyle::Plain)],
        seq![("  ✓ "@, HelpStyle::Supported), ("HTTP 429 when reject_when_busy + full"@, HelpStyle::Plain)],
        seq![("  ✓ "@, HelpStyle::Supported), ("Authorization: Bearer <bridge api key>"@, HelpStyle::Plain)],
        seq![(Seq::<char>::empty(), HelpStyle::Plain)],
        seq![("Not supported / ignored"@, HelpStyle::UnsupportedHeading)],
        seq![("  ✗ "@, HelpStyle::Unsupported), ("temperature / top_p / max_tokens"@, HelpStyle::Plain)],
        seq![("  ✗ "@, HelpStyle::Unsupported), ("tool_calls / function calling"@, HelpStyle::Plain)],
        seq![("  ✗ "@, HelpStyle::Unsupported), ("vision / image content parts"@, HelpStyle::Plain)],
        seq![("  ✗ "@, HelpStyle::Unsupported), ("embeddings / audio / assistants API"@, HelpStyle::Plain)],
        seq![(Seq::<char>::empty(), HelpStyle::Plain)],
    ]
}

pub open spec fn help_cli_tab_text() -> Seq<Seq<(Seq<char>, HelpStyle)>> {
    seq![
        seq![("4. CLI tab (embedded agent shell)"@, HelpStyle::Heading)],
        seq![(Seq::<char>::empty(), HelpStyle::Plain)],
        seq![("Opens a real terminal (PowerShell / your $SHELL) with agent on PATH."@, HelpStyle::Plain)],
        seq![("Type agent … as usual: agent --version · agent login · agent -p \"…\""@, HelpStyle::Plain)],
        seq![("Ctrl+L clears the local view hint; type exit to leave the shell process (session restarts)."@, HelpStyle::Plain)],
        seq![(Seq::<char>::empty(), HelpStyle::Plain)],
    ]
}

pub open spec fn help_safety_text() -> Seq<Seq<(Seq<char>, HelpStyle)>> {
    seq![
        seq![("5. Safety"@, HelpStyle::Heading)],
        seq![(Seq::<char>::empty(), HelpStyle::Plain)],
        seq![("Default mode is ask (read-only). Keep force=false unless you want workspace writes."@, HelpStyle::Plain)],
        seq![("Prefer bind 127.0.0.1 and a bridge API key for anything beyond solo local use."@, HelpStyle::Plain)],
    ]
}

fn help_overview() -> (r: Vec<Vec<HelpSpan>>)
    ensures
        page_view(r@) == help_overview_text(),
{
    let mut r: Vec<Vec<HelpSpan>> = Vec::new();
    r.push(line1(span("1. Overview", HelpStyle::Heading)));
    r.push(line1(blank(HelpStyle::Plain)));
    r.push(line1(span("Cursor-API", HelpStyle::Title)));
    r.push(line1(span("Local OpenAI-compatible /v1 proxy backed by the Cursor Agent CLI.", HelpStyle::Plain)));
    r.push(line1(span("The TUI starts the HTTP API automatically. Use the CLI tab for an interactive agent shell.", HelpStyle::Plain)));
    r.push(line1(blank(HelpStyle::Plain)));
    r.push(line2(span("Default URL: ", HelpStyle::Dim), span("http://127.0.0.1:8787/v1", HelpStyle::Plain)));
    r.push(line2(span("Default model: ", HelpStyle::Dim), span("auto  (see ready banner / /health → default_model)", HelpStyle::Plain)));
    r.push(line1(blank(HelpStyle::Plain)));
    r.push(line1(span("Profiles: chat · json_api · long_running", HelpStyle::Plain)));
    r.push(line1(span("Env: BRIDGE_HOST BRIDGE_PORT BRIDGE_API_KEY BRIDGE_TIMEOUT_SECS BRIDGE_JSON_MODE BRIDGE_DEFAULT_MODEL CURSOR_WORKSPACE", HelpStyle::Plain)));
    r.push(line1(blank(HelpStyle::Plain)));
    assert(page_view(r@) =~= help_overview_text());
    r
}

fn help_commands() -> (r: Vec<Vec<HelpSpan>>)
    ensures
        page_view(r@) == help_commands_text(),
{
    let mut r: Vec<Vec<HelpSpan>> = Vec::new();
    r.push(line1(span("2. Cursor-API CLI commands", HelpStyle::Heading)));
    r.push(line1(blank(HelpStyle::Plain)));
    r.push(line2(padded_span("  ", "cursor-api", 34, HelpStyle::Command), span("TUI + start HTTP API (default)", HelpStyle::Plain)));
    r.push(line2(padded_span("  ", "cursor-api tui --no-autostart", 34, HelpStyle::Command), span("TUI only; press s to start API", HelpStyle::Plain)));
    r.push(line2(padded_span("  ", "cursor-api serve", 34, HelpStyle::Command), span("Headless HTTP only (no TUI)", HelpStyle::Plain)));
    r.push(line2(padded_span("  ", "cursor-api doctor", 34, HelpStyle::Command), span("Locate / probe agent binary", HelpStyle::Plain)));
    r.push(line2(padded_span("  ", "cursor-api doctor --full", 34, HelpStyle::Command), span("Probe + live smoke completion", HelpStyle::Plain)));
    r.push(line2(padded_span("  ", "cursor-api config-path", 34, HelpStyle::Command), span("Print config.toml location", HelpStyle::Plain)));
    r.push(line1(blank(HelpStyle::Plain)));
    r.push(line1(span("TUI keys", HelpStyle::Strong)));
    r.push(line1(span("  1–6 / Tab     switch pages (on CLI tab: Ctrl+← / Ctrl+→ or F1–F6)", HelpStyle::Plain)));
    r.push(line1(span("  s             start/stop API (Dashboard)", HelpStyle::Plain)));
    r.push(line1(span("  r             health-check agent (Dashboard)", HelpStyle::Plain)));
    r.push(line1(span("  t             smoke test (Dashboard)", HelpStyle::Plain)));
    r.push(line1(span("  q / Esc       quit Cursor-API", HelpStyle::Plain)));
    r.push(line1(blank(HelpStyle::Plain)));
    assert(page_view(r@) =~= help_commands_text());
    r
}

fn help_compatibility() -> (r: Vec<Vec<HelpSpan>>)
    ensures
        page_view(r@) == help_compatibility_text(),
{
    let mut r: Vec<Vec<HelpSpan>> = Vec::new();
    r.push(line1(span("3. /v1 API compatibility", HelpStyle::Heading)));
    r.push(line1(blank(HelpStyle::Plain)));
    r.push(line1(span("Endpoints", HelpStyle::Strong)));
    r.push(line3(padded_span("  ", "GET", 6, HelpStyle::Method), padded_span_bare("/health", 28, HelpStyle::Path), span("Service status, model, usage", HelpStyle::Plain)));
    r.push(line3(padded_span("  ", "GET", 6, HelpStyle::Method), padded_span_bare("/healthz", 28, HelpStyle::Path), span("Alias of /health", HelpStyle::Plain)));
    r.push(line3(padded_span("  ", "GET", 6, HelpStyle::Method), padded_span_bare("/v1/models", 28, HelpStyle::Path), span("Model list", HelpStyle::Plain)));
    r.push(line3(padded_span("  ", "POST", 6, HelpStyle::Method), padded_span_bare("/v1/chat/completions", 28, HelpStyle::Path), span("Chat (sync or SSE stream)", HelpStyle::Plain)));
    r.push(line1(blank(HelpStyle::Plain)));
    r.push(line1(span("Supported", HelpStyle::SupportedHeading)));
    r.push(line2(span("  ✓ ", HelpStyle::Supported), span("messages[] (system / user / assistant / tool text)", HelpStyle::Plain)));
    r.push(line2(span("  ✓ ", HelpStyle::Supported), span("model (default from config)", HelpStyle::Plain)));
    r.push(line2(span("  ✓ ", HelpStyle::Supported), span("stream: true → SSE chunks + final usage", HelpStyle::Plain)));
    r.push(line2(span("  ✓ ", HelpStyle::Supported), span("response_format: json_object | json_schema", HelpStyle::Plain)));
    r.push(line2(span("  ✓ ", HelpStyle::Supported), span("X-Request-ID (echoed on responses)", HelpStyle::Plain)));
    r.push(line2(span("  ✓ ", HelpStyle::Supported), span("HTTP 429 when reject_when_busy + full", HelpStyle::Plain)));
    r.push(line2(span("  ✓ ", HelpStyle::Supported), span("Authorization: Bearer <bridge api key>", HelpStyle::Plain)));
    r.push(line1(blank(HelpStyle::Plain)));
    r.push(line1(span("Not supported / ignored", HelpStyle::UnsupportedHeading)));
    r.push(line2(span("  ✗ ", HelpStyle::Unsupported), span("temperature / top_p / max_tokens", HelpStyle::Plain)));
    r.push(line2(span("  ✗ ", HelpStyle::Unsupported), span("tool_calls / function calling", HelpStyle::Plain)));
    r.push(line2(span("  ✗ ", HelpStyle::Unsupported), span("vision / image content parts", HelpStyle::Plain)));
    r.push(line2(span("  ✗ ", HelpStyle::Unsupported), span("embeddings / audio / assistants API", HelpStyle::Plain)));
    r.push(line1(blank(HelpStyle::Plain)));
    assert(page_view(r@) =~= help_compatibility_text());
    r
}

fn help_cli_tab() -> (r: Vec<Vec<HelpSpan>>)
    ensures
        page_view(r@) == help_cli_tab_text(),
{
    let mut r: Vec<Vec<HelpSpan>> = Vec::new();
    r.push(line1(span("4. CLI tab (embedded agent shell)", HelpStyle::Heading)));
    r.push(line1(blank(HelpStyle::Plain)));
    r.push(line1(span("Opens a real terminal (PowerShell / your $SHELL) with agent on PATH.", HelpStyle::Plain)));
    r.push(line1(span("Type agent … as usual: agent --version · agent login · agent -p \"…\"", HelpStyle::Plain)));
    r.push(line1(span("Ctrl+L clears the local view hint; type exit to leave the shell process (session restarts).", HelpStyle::Plain)));
    r.push(line1(blank(HelpStyle::Plain)));
    assert(page_view(r@) =~= help_cli_tab_text());
    r
}

fn help_safety() -> (r: Vec<Vec<HelpSpan>>)
    ensures
        page_view(r@) == help_safety_text(),
{
    let mut r: Vec<Vec<HelpSpan>> = Vec::new();
    r.push(line1(span("5. Safety", HelpStyle::Heading)));
    r.push(line1(blank(HelpStyle::Plain)));
    r.push(line1(span("Default mode is ask (read-only). Keep force=false unless you want workspace writes.", HelpStyle::Plain)));
    r.push(line1(span("Prefer bind 127.0.0.1 and a bridge API key for anything beyond solo local use.", HelpStyle::Plain)));
    assert(page_view(r@) =~= help_safety_text());
    r
}
/// The Help page has 61 lines; it opens with the Overview heading and closes with
/// the advice on binding and keys.
pub proof fn law_help_page_shape()
    ensures
        help_page_len() == 61,
        help_page_text()[0] == seq![("1. Overview"@, HelpStyle::Heading)],
        help_page_text()[60] == seq![
            ("Prefer bind 127.0.0.1 and a bridge API key for anything beyond solo local use."@, HelpStyle::Plain),
        ],
{
    assert(help_overview_text().len() == 12);
    assert(help_commands_text().len() == 16);
    assert(help_compatibility_text().len() == 23);
    assert(help_cli_tab_text().len() == 6);
    assert(help_safety_text().len() == 4);
}

} // verus!
