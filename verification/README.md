# herdr

The logic of a terminal workspace manager that aggregates agents, workspaces and
tabs of several hosts, written in Verus: every function of `src/` has a contract,
and the verifier has proved all of them but those of a few calls into other code.

- `src/` is the library. It holds the session (workspaces, tabs, panes and their
  terminals), the API requests on it, and what concerns remote hosts: targets and
  their resolution, the cache of what hosts report, the planning and queueing of
  changes, connection lifecycles, projected panes, host glasses, and the routing
  of keys, pastes and the mouse. Files whose name ends in `_laws` state what holds
  across functions; other laws stand beside the functions they are about.
- `tests/` runs the library from outside.
- `app/` is the program around it: JSON, threads, sockets and terminals. It hands
  the library plain values and does what the library answers.

What is trusted without proof: JSON texts are read and printed by `serde_json`, and
`src/json.rs` says what is taken for granted of it; and `src/remote_target.rs` quotes a
string the way `Debug` does.
