# mini_msp

A system agent for MSP and fleet management, with its backend server, whose
decision logic is written in Verus and proved against its contracts.

## Layout

- `src/` — the verified library.
  - `protocol.rs`, `ids.rs`, `text.rs`, `frames.rs`: commands, broker topics,
    identifiers, text handling, binary replies and C text buffers.
  - `registry.rs`, `ws_manager.rs`, `ws_inbound.rs`, `keyed.rs`, `auth.rs`,
    `server_api.rs`: the server's agent registry, WebSocket command/reply
    bookkeeping, frame handling, credentials and signed tokens, and its
    HTTP answers.
  - `agent_commands.rs`, `api_reports.rs`, `config.rs`, `connections.rs`,
    `orchestrator.rs`, `plugins.rs`, `plugin_data.rs`: the agent's command
    handling, reports, configuration, connections, plugin orchestration,
    routing and plugin data.
  - `forensic*.rs`: the forensic collectors of each platform, computed from
    what was read off the machine.
  - `os_report.rs`, `system_info.rs`, `sys_categories.rs`: the OS report and
    the system information plugin's picture of the machine.
- `tests/` — tests of the library on concrete values.
- `app/` — the programs (server, agent, report, forensic collector, plugin
  host, system information): I/O, networking, serialization, floating-point
  figures and the native plugin interface, around the library.

Laws that span several operations are public proof functions named
`law_*`, next to the functions they speak of.
