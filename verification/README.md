# nannou-creative-coding (verified core)

A nannou creative-coding workspace whose logic is written in Verus and proved:

- `src/hot_reload.rs` and `src/hot_reload/`: the demo router (which demo runs,
  the F/H/R/Left/Right keys, when the status overlay shows, the overlay text)
  and the demos' states and input handling.
- `src/trails.rs`: the memory-trail recorder shared by the memories demo and
  the single-scene sketch (`src/sketch.rs`).
- `src/runner.rs`: frame pacing, the saved window state and how it is restored.
- `src/project_server.rs`: the answers of the read-only project helper server.
- `src/text.rs`: decimal formatting, line counting and joining.

`app/` holds the programs around it: the nannou runners (all drawing, which is
floating point), the window-state file, and the MCP server plumbing.
Run the desktop runner with no argument, or pass `sketch`, `simple` or
`mcp-server`. Times handed to the library are whole milliseconds, frame rates
hundredths (overlay) or tenths (sketch).
