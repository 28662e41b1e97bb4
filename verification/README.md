# os_discovery

Leader election and service discovery on top of a cloud object store, verified
with Verus. A single lockfile under `{prefix}/leader` is the source of truth;
competing nodes serialize through conditional writes (`If-None-Match: *` and
`If-Match: <etag>`).

## Layout

- `src/` — the decisions, with contracts and proofs.
  - `lease`: the lockfile, its validity, its path, what reading it comes to.
  - `election`: a participant, as a state machine that asks for one piece of
    outside work at a time (`Action`) and decides on the answer (`Event`).
  - `cluster`: many participants around one store. Two nodes never lead by the
    same lease, and without deletions never in the same term; a race for a free
    lockfile has one winner.
  - `client`: the leader's address and its cache; requests with a single retry.
  - `discovery`, `node`: presence entries and which of them count as alive.
  - `path`, `clock`, `duration`, `config`, `error`: what the others build on.
- `app/` — the object store, timers, tasks and the JSON format around them.
- `tests/` — scenarios, among them clusters on an in-memory store.

## What is trusted

The wall clock, the monotonic clock and the random numbers are read through
functions that promise only what holds of every reading; whatever is decided on a
reading is stated over that reading. A `reqwest::Error` is asked whether it is a
failure to connect, a timeout or a status, without any claim on the answers. Object paths come from
`object_store::path::Path::from`, of which `path::to_object_path` states that it
keeps plain paths and treats the segments between slashes one by one. The errors
of `object_store` and `serde_json` are carried along unopened.

## Driving a participant

```rust
let mut election = LeaderElection::start(prefix, config, node_id, address, metadata);
let mut action = Action::Read;
loop {
    let event = match action {
        Action::Read => Event::Read(/* read the lockfile */),
        Action::Sleep(pause) => {
            // Without a range there is no jitter to draw.
            assert!(pause != Pause::Jitter || election.has_jitter_range());
            /* sleep election.pause_duration(pause) */
            Event::Slept
        }
        Action::Put(lease, mode) => Event::Put(/* write the lease, if `mode` holds */),
    };
    // The term after the last one cannot be raced for.
    assert!(!election.out_of_terms());
    let step = election.step(event);
    if step.notify { /* tell subscribers election.state() */ }
    action = step.action;
}
```

To resign, delete the lockfile and hand the answer to `election.resign`. If that
gives a step, subscribers are told, and its action takes the place of the one under
way, whose event is dropped.
