# cursor-api

The configuration and terminal-UI logic of Cursor-API, a local OpenAI-compatible
`/v1` service backed by the Cursor Agent CLI, written in Verus with its behaviour
stated in contracts and proved.

- `src/config.rs`: configuration defaults, profile presets, environment overrides,
  the derived URLs, the ready banner, bridge API keys and log redaction.
- `src/tui/app.rs`: tabs, configuration fields and the TUI state machine. A key
  event gives the next state and the outside work to do (`Action`); the outcome of
  that work is reported back through the `TuiApp` methods.
- `src/tui/ui.rs`: what the panes compute before drawing.
- `src/tui/help.rs`: the Help page as styled lines of text.
- `src/text.rs`: trimming, ASCII case folding, decimal rendering and parsing.
- `app/`: the config file and environment, crossterm keys, ratatui rendering and the event loop.

The TUI has six pages: Dashboard, Config, CLI, Logs, Usage and Help. `1`–`6` and
`Tab` switch pages (on the CLI page, `F1`–`F6` and `Ctrl+←/→`); `q`, `Esc` or
`Ctrl+Q` quit. With redaction on, the token after every `Bearer `, `bearer `,
`bridge-` and `sk-` in a log message is replaced by `***`.
