# dd_sidecar

The decision-making core of the Datadog sidecar, written in Verus. The
library's own functions in `src/` carry `requires`/`ensures` contracts that
Verus proves, and the laws the library keeps across calls stand there as
public proof functions (`lemma_*`). Calls into std and the outside crates
(http, nix, rand, zwohash, base64) go through small `external_body`
wrappers whose contracts are trusted, not proved; where a result depends on
the machine or the process (the effective uid, a random id, a hash), the
contract says only what holds of every outcome.

Layout:

- `src/evp/` — EVP delivery: site and endpoint validation, producer
  identities, transport configuration, route selection with its cooldown and
  replay rules, and delivery endpoints.
- `src/outbox.rs`, `src/sender.rs` — the IPC outbox that coalesces requests
  per kind, and the load shedding applied while the sidecar is slow.
- `src/auth.rs`, `src/liaison.rs`, `src/paths.rs`, `src/shm_names.rs` — who
  may connect, where sockets and shared-memory files live, and how they are
  named.
- `src/config.rs` — configuration read from the environment and written back
  for spawned processes.
- `src/stats.rs`, `src/trace_flush.rs`, `src/session.rs`,
  `src/server_stats.rs` — span concentrators, trace buffering, session
  bookkeeping and the counters the server reports.
- `src/telemetry.rs`, `src/app_telemetry.rs`, `src/self_telemetry.rs`,
  `src/connection.rs` — the telemetry client cache and retry queues, what a
  connection's enqueued actions become, per-application scheduling, and the
  sidecar's own metrics.
- `src/crashtracker.rs` — the crash report byte stream rebuilt from
  datagrams.
- `src/normalizer.rs`, `src/memcached.rs`, `src/version.rs`,
  `src/debugger.rs`, … — small trace and debugger helpers.
- `app/` — what surrounds the library: reading the environment, clocks,
  serde formats, and a few loops that carry out the library's decisions;
  Verus does not see it.
- `tests/` — tests run against the compiled library.

Verify with Verus on `src/lib.rs`; run the tests with Cargo.
