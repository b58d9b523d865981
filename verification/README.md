# warp_tui

The decision and layout logic of Warp's terminal user interface, written in
Verus and verified against its contracts.

`src/` holds the verified library. Each module states what its functions
compute as `ensures` clauses over spec functions, and the properties that
span several calls as `law_*` proof functions:

- `tab_bar`, `orchestration_nav`, `label_measure`: responsive tab pages,
  navigation, the elements of a rendered page, the orchestration tab bar's
  configuration, and label widths.
- `table_layout`, `markdown_table`, `markdown_blocks`, `markdown_spacing`:
  Markdown tables (column allocation, cell widths, aligned rows and record
  layout), block fallbacks, list geometry, spacing between blocks, and the
  rows a document renders to.
- `plan_code_blocks`: keying a plan's code blocks and reconciling their
  views.
- `diff_apply`: applying line-range deltas to file content and planning the
  write that persists it.
- `input_detection`, `terminal_use`, `session_control`, `slash_commands`,
  `conversation_restore`, `footer`, `session_surface`: who owns input, what
  interrupts, submissions and slash commands do, restoring conversations,
  the footer row and the hints that replace it, and what the session pane
  shows.
- `terminal_input`, `terminal_cells`: paste normalization, pointer reports,
  key typeahead, and cell painting rules.
- `history_menu`, `subagent_status`, `status_labels`, `zero_state`,
  `review_comments`, `telemetry`, `voice_input`, `shell_command_view`,
  `platform`, `resume_token`: menus, status lines, and small state machines.
- `text`: character-level helpers (trimming, line splitting, decimals).

Calls into `unicode-width`, `unicode-segmentation`, `uuid`, and std's
`String::push` stand behind `#[verifier::external_body]` functions whose
contracts name the outside result.

`app/` is the unverified glue: command-line parsing, environment lookups,
spawning the file manager, and telemetry payloads. `tests/` runs the library
on concrete values.
