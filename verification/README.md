# warp_control

The control surface of the Warp terminal: a CLI (`warp control …`) that
talks to a running app over a Unix socket, one length-prefixed JSON request
and one response per connection, and the app-side logic that answers those
requests from the state of the workspace.

`src/` is the library, written in Verus; every function in it carries a
contract that Verus proves.

- `wire` — requests and responses of the protocol.
- `framing` — the 4-byte big-endian length header and its 16 MiB cap.
- `cli` — the `control` subcommands and the request each one sends.
- `render` — what the CLI prints (or fails with) for each response.
- `text` — character-level helpers: whitespace, trimming, decimal numbers,
  UTF-8 lengths, word splitting.
- `keys` — key names and `ctrl-` chords as PTY bytes.
- `pattern` — the `regex` crate, as the matcher uses it (trusted contracts).
- `matching` — literal, case-insensitive and regex search with the matched line.
- `snapshot` — byte-budgeted truncation of pane text.
- `wait` — `wait-for-text` and `send-input --wait`: what is searched, the
  baseline for `--since now`, and the decision after each poll.
- `workspace` — the workspace as plain values, and the read-only handlers.
- `handlers` — handlers that change the app (as an action to carry out),
  command submission outcomes, and request routing.
- `activity` — running state, foreground program and preview line of a pane.
- `git_chips` — the branch and worktree payloads of the git context chips.

`app/` is the executable client: argument parsing (clap), JSON (serde), the
socket and the printing.
