# voipswitchd

The call core of a VoIP switch: it takes up the calls that a SIP adapter offers, finds the
callee, relays and records the media, collects keypad digits, and writes call detail
records. `src/` is the verified library, `app/` the program around it, `tests/` its tests.

A call is a state machine. Whoever runs it hands in what happened, together with the
time, and carries out the effects that come back. Nothing in `src/` reads a clock, a
socket or a file, so every decision is a function of its arguments, and its contract says
which one.

| Module | What it holds |
| --- | --- |
| `call::coordinator`, `call::actor`, `call::callee` | the course of a call: attempts, timers, answers, endings |
| `call::admission`, `call::policy`, `call::config_snapshot` | which calls are taken up, and with which settings |
| `call::session`, `call::mailbox`, `call::handoff`, `call::takeover` | the registry of sessions, their mailboxes, and the moving of a call from one session to another |
| `call::dtmf`, `call::collection`, `call::dtmf_operation`, `call::dtmf_dispatch` | digits: where they may come from, where they go, who collects them |
| `call::cdr`, `call::cdr_spool`, `call::cdr_writer` | call detail records, their spool on disk, and when they are written |
| `call::action`, `call::action_body`, `call::event`, `json` | what is said to the adapter, and what it says |
| `media`, `rtp`, `dtmf`, `capability`, `recording` | the relays of a call, telephone events in them, and what is recorded |
| `fastpath`, `fast_path_runtime` | media that the kernel forwards by itself |
| `adapter`, `adapter_writer`, `runtime_view` | the connection to the SIP adapter |
| `system_metrics`, `cli` | what the host is doing, and the command line |
| `text`, `words`, `bytes`, `keyed` | texts, bytes, and maps keyed by text |

Properties that span several functions are public proof functions, named `lemma_..`,
beside the functions they speak of; those of a whole call stand in `call::actor_laws` and
`call::coordinator_laws`, those of the spool over all its segments in
`call::cdr_spool_laws`, and those of the history of digit operations in
`call::dtmf_operation_laws`.

Outside crates are called in few places, each behind a small function whose contract says
what is relied upon: `crc32fast` in `call::cdr_spool`, `serde_json` in `json`, `cli`,
`runtime_view` and `call::action`.
