# rust_flight_framework

Host-side building blocks for a small flight-software research framework,
written in Verus: every executable function in `src/` is verified, and
each one states its result in a contract, except `EventTimestamp::from_clock`,
whose result is whatever the caller's own `Clock` returns.

- `lifecycle`: the LC1 transition table and a bounded lifecycle registry.
- `runtime`: a finite-capacity owner of application values that runs start,
  work, stop and restart synchronously and commits terminal `Failed` on a
  returned error.
- `clock`: elapsed time, framework instants and a manually advanced clock.
- `events`: structured events and a reject-newest bounded FIFO queue.
- `runtime_events`: work that reports a returned error as one event.
- `scheduling`: a finite ordered agenda of one-shot work items.
- `configuration`: validated byte snapshots with fresh revisions and a
  consume-once rollback.
- `messaging`: bounded messages and a serial topic router with per-inbox
  reject-newest saturation and ordered delivery reports.
- `messaging_runtime` and `application_messaging`: a runtime that owns one
  inbox per application, delivers only to running applications, and
  dispatches one oldest message at a time to a publish-only callback.
- `text`: decimal text for the human-readable `message` of error types.

Laws that span several operations stand as public proof functions next to
the operations they relate (names starting with `lemma_`). The trusted
items are the two storage-reservation wrappers in `src/storage.rs`, and the
`ensures` of `MessagingApplication::handle_message`, which user callbacks
meet because a message context can only be changed through its own
`publish`.

`tests/` holds the executable scenarios.
