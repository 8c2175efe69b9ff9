# aish

The verified core of a desktop SSH client with tabs, tmux awareness and a
home page of live sessions.

- `src/` is the library, written in Verus: the application state (hosts,
  connections, tabs, tmux state, per-connection maps) and every operation on
  it, the decisions of the SSH connection task and of the event loop, the
  parsers of remote command output (`/etc/os-release`, `tmux list-sessions`),
  key and mouse encoding for the terminal, the host form checks, the recent
  hosts list, the home page cards and previews, colors and avatars. Each
  public function carries a contract; the `law_*` proof functions state
  properties that relate several operations.
- `tests/` runs the library on concrete values.
- `app/` is the program around it: loading and saving `hosts.json` and
  `app_state.toml`, the OS keyring, the async runtime and the event loop
  that applies events to the state and carries out the user-interface
  actions the library returns. No SSH client or window toolkit is linked
  into it, so it starts no connection task: the steps of that task
  (`session::ActorStep` and the functions around it) are decided and
  verified in the library but carried out nowhere here.
