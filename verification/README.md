# phodex-bridge

The Mac side of a bridge between a phone and Codex. The phone pairs with the Mac by scanning a QR
code, talks to it over a relay through an encrypted channel, and from there reads and drives Codex
sessions, git repositories and the desktop application.

- `src/` is the library, verified with Verus: JSON values, the pairing protocol and its secure
  channel, the routing of messages, the state of the bridge while it runs, requests on git
  repositories and workspaces, the mirroring of desktop runs, and the files and settings of the
  bridge. It does no I/O. What needs the outside world is either asked for (`script.rs`: a request
  says which action it needs next and goes on with the reply) or told (the machines in
  `codex_transport.rs` and `bridge/relay.rs`: the caller tells what happened and is told what to
  do).
- `tests/` holds its tests.
- `app/` is the program `remodex` around it: the command line, processes, sockets, files.

What holds of the library as a whole is stated by the proof functions whose names begin with
`law_`. Calls into other crates stand behind small functions marked
`#[verifier::external_body]`; above each stands what is claimed of the call.
