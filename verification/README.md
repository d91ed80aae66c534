# jest-companion

Run [jest-lua](https://github.com/jsdotlua/jest-lua) tests in Roblox Studio from the command line, or
let MCP clients run them through a tool call.

The program starts a small HTTP server. A Studio plugin polls it, runs the tests, writes their output
and reports the results. On the command line there is one run, and the process exits with its result.
With `--mcp` the program serves an MCP client on stdio with two tools, `run_tests` and
`list_projects`. Such a server binds the first free port of 28861 to 28868, so that several can run
side by side.

## Layout

- `src/` is the library, verified with [Verus](https://github.com/verus-lang/verus).
  - `run.rs`: the active test run, what it is asked for, how long it is waited for, and what becomes
    of it.
  - `studio.rs`: the answers to the plugin, and the ports.
  - `mcp.rs`, `tools.rs`: the messages of MCP clients and the tools.
  - `json.rs`, `json_io.rs`: JSON values, and how they are read and written with `serde_json`.
  - `cli.rs`, `config.rs`, `options.rs`: command line, projects, and the options of a run.
  - `ansi.rs`, `text.rs`: output without escape sequences, and plain text.
  - `laws.rs`: what holds of all this over any course of events.
- `tests/` holds the tests.
- `app/` is the program: arguments, files, sockets and the event loop around the library.

## Missing

The mapping from the plugin's virtual paths to the files of the projects (`app/resolver.rs`) is
missing. Until it is added, every file request of the plugin is answered with 404.
