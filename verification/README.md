# device-simulator-mcp

A local MCP server that inspects and drives a booted iOS Simulator (through
`npx serve-sim` and `xcrun simctl`) or Android Emulator (through `adb`).

- `src/` is the verified library. `session.rs` runs one tool call as a
  sequence of steps whose behaviour `protocol.rs` states; `properties.rs`
  proves what holds of every call. The other modules hold the text handling
  (`text.rs`, `escape.rs`, `display.rs`, `screenshot.rs`), program arguments
  and output (`command.rs`), platform selection (`platform.rs`), errors
  (`error.rs`) and replies (`reply.rs`).
- `app/` is the server itself: the MCP tool handlers, the environment, the
  programs, files and timers, and the floating-point coordinate work.
- `tests/` exercises the library, driving whole tool calls with scripted
  program outputs.
