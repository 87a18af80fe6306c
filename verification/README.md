# project_workspaces

Repository workspaces: Git worktrees registered as workspaces of a repository,
the repository/workspace tree of the side panel, and the tab sets each
workspace keeps. The library is written in Verus, which verifies every
function in `src/` against its contract; the few small wrappers around
outside calls are the exceptions, and their contracts are trusted.

## Layout

- `src/git/`: the Git operations. Each operation (validating a repository,
  listing refs and worktrees, creating and removing worktrees, cloning) is a
  state machine: `start` gives its first request, `step` takes the reply and
  gives the next request or the result. The requests are plain values
  (`GitRequest`): run a Git command, canonicalize a path, inspect or create a
  directory. `laws.rs` states what the operations change only after which
  checks; `protocol.rs` states that every reply answering a request is one
  the operation takes.
- `src/tree.rs`, `src/rows.rs`, `src/order.rs`: the side-panel tree, its rows
  and the order of its records.
- `src/tabs.rs`: the per-workspace tab sets and switching between them.
- `src/activity.rs`, `src/layout.rs`: activity slots and window-chrome
  decisions.
- `src/text.rs`, `src/bytes.rs`: the character and byte models the parsers
  share.
- `app/`: the parts that run processes and touch the filesystem (`runner.rs`
  performs the requests), the blocking and async entry points, the error type
  with `Display` and `std::error::Error`, and the float-valued chrome metrics.
- `tests/`: tests of the library, including a simulated Git that answers the
  operations' requests.
