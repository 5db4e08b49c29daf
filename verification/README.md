# tamandua-ctl

Control tool for the Tamandua EDR agent and server, written as a Verus
library with a thin binary around it.

- `src/` — the verified library: command-line argument models, the agent
  IPC protocol (message types, client state, reply handling,
  challenge-response signing, length-prefixed framing), the command
  decisions (alert filtering and statistics, event search, configuration
  changes, quarantine lookup, status formatting), the server API requests,
  and the live-response channel (Phoenix frames, shell input and echo
  handling, the one-shot command state machine and its completion marker).
  Every public function carries a contract. Properties that span several
  calls (frame encoding read back, completion markers read back, the
  one-shot record's consistency over a run of frames, distinct message
  references, truncation bounds, and others) are stated as public proof
  functions or as invariants in the contracts.
- `app/` — the `tamandua-ctl` binary: clap parsing, sockets, HTTP and
  WebSocket I/O, MessagePack encoding, terminal rendering.
- `tests/` — tests of the library on concrete values.
