# git_service

Git operations for task workflows: worktrees for task branches, commits, diffs, squash merges into a
base branch, rebases, pushes, and the state of branches and worktrees.

The library decides; it touches nothing. An operation is a function of its arguments and of the
record of replies so far (`dialogue`). It returns its result, its failure, or the next request: run
this `git` command, find this branch, read this file. Whoever runs the operation performs the
request, appends the reply to the record and calls the operation again. What each operation asks,
and what it makes of the replies, is stated in its contract and proved.

## Layout

- `src/model.rs`, `src/text.rs`, `src/raw.rs`, `src/oid.rs`, `src/time.rs`: what values stand for;
  text, bytes, object ids and times.
- `src/errors.rs`, `src/records.rs`, `src/dialogue.rs`: failures, requests and replies.
- `src/porcelain.rs`, `src/cli.rs`, `src/commands.rs`: reading what `git` prints, running it, and the
  operations built on it.
- `src/service.rs`, `src/branches.rs`, `src/listing.rs`, `src/remotes.rs`, `src/worktrees.rs`,
  `src/merging.rs`, `src/rebasing.rs`, `src/diff.rs`, `src/comparing.rs`, `src/stats.rs`,
  `src/cloning.rs`: the service.
- `src/printed.rs`, `src/safety.rs`, `src/replay.rs`, `src/relations.rs`, `src/outcomes.rs`: what
  holds across operations. What `git` prints is read back; nothing is changed before the checks have
  passed; an operation that has ended is not changed by further replies; what has succeeded was
  carried out, and operations that ask the same of a repository agree; and what later questions
  answer where the repository is as a successful operation leaves it.
- `app/`: performs requests with libgit2, the `git` executable and the file system, and offers the
  operations on paths.
- `tests/`: operations against scripted replies.
