# noc

The logic of the NOC suite (Norfair Operation Center), verified with Verus:
the configuration server (NOC Manager), the Linux kiosk agent that drives
Firefox (NOC Agent) and the Windows RDP display client (NOC Display).

## Layout

- `src/` — the verified library, proved by Verus. Every function states
  what it computes in its `requires` / `ensures`, except the two readings
  of the clock (`clock::unix_seconds`, `health::now_unix`), of which nothing
  can be promised; properties that span several calls are public proof
  functions named `law_*`.
  - `manager/` — kiosk inventory and its validation, pending remote commands,
    heartbeats and the Prometheus text, the RDP server catalogue, the
    dashboard rows, HTML escaping and the web pages, the API's status codes.
  - `agent/` — status screen states and texts, remote command queue and
    replay protection, restart schedule, the orchestrator's cycle as a
    state machine and its decisions
    (configuration, target check, Firefox, supervision, countdowns), paths
    and Firefox components.
  - `display/` — connection state machine and logon timers, configuration
    validation, RDP control properties, event handling, screens and
    credential rules.
  - `update.rs` — the startup update check; `text.rs` — string operations
    with their statement over `Seq<char>`; `clock.rs` — the wall clock.
- `tests/` — tests of the library on concrete values.
- `app/` — the programs around the library: the HTTP server, the
  agent's I/O (HTTP, WebDriver, processes, files), its status window, the
  update helper's process handling.

The trusted items (`String::push`, `str::to_lowercase`, `SystemTime`, and
calls into `cron` and `chrono`'s local time zone) are marked
`#[verifier::external_body]` or `assume_specification`, each with a doc
comment saying what its contract claims.
