# lumen

The configuration model and the module decision logic of the Lumen status
bar for Wayland, written in Verus with their contracts proved.

## Layout

- `src/` — the verified library.
  - `config/` — every configuration section: defaults, validation of
    thresholds, intervals and volume limits, CSS-style shorthand for radii
    and margins, module layout and module names, and what a batch of
    file-watch events means for the configuration file.
  - `modules/` — the decisions of the bar's modules: the custom module
    (commands, icon rules, alert state, layout, gathering `listen_cmd`
    output into records), the Arch menu, the workspace indicator (stepping
    through a monitor's workspaces with wrap-around) and the niri tab strip
    (which windows are tabs, which tab is focused, tab titles, when to
    scroll).
  - `pattern.rs` — regular expressions, compiled and matched by `regex`.
  - `paths.rs` — shell-style path expansion by `shellexpand`.
  - `text.rs` — blank strings, decimal rendering, title truncation.
- `tests/` — tests of the library on concrete values.
- `app/` — ordinary Rust around the library: reading and watching the
  configuration file, the serde copies of the configuration types, the
  floating-point parts of the look and of the tab strip, the locale, and
  running shell commands.

Verification: `verus` on `src/lib.rs` with the outside crates of
`Cargo.toml`.
