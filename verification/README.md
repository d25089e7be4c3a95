# timpani_n

The node side of a time-triggered scheduler, as a verified library.

A node fetches its schedule from a scheduler, finds the process of each task, sets its CPU
affinity, policy and priority, opens a pidfd for it, and starts together with the other
nodes. It then polls the schedule and replaces its tasks when the content changed.

## Layout

- `src/` holds the library. What it decides is stated in `requires` and `ensures` clauses
  and proved by Verus. Work that takes time, reads files or needs `unsafe` code is asked for
  by values (`Action`, `TaskRequest`, `InitRequest`, `SchedRequest`), and its outcome is
  handed back by values (`Event`, `TaskReply`, `InitReply`).
- `src/sys.rs` holds what is believed of outside crates and of the standard library.
- `src/node_laws.rs` holds the laws of a node as a whole: no pidfd is lost, a failed poll
  changes nothing, a changed schedule is taken up as a whole or ends the node, and so on.
  The laws of the other modules stand at their ends.
- `tests/` runs the library.
- `app/` does what the library asks for: it reads `/proc`, makes system calls, and drives a
  node against a scheduler.
