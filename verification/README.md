# worldline_host

Host-side building blocks of the Worldline plugin kernel, with their
behaviour stated in contracts and proved with Verus.

- `src/` is the verified library:
  - `store`, `records`, `metadata`, `event`, `codec`, `le`, `status`,
    `faults`, `errors`: the decisions of the durable state store
    (compare-and-swap commits, the transactional outbox and its delivery
    lifecycle, the storage format marker, the event journal), the stored
    shapes of events, audit records and jobs, and how storage failures are
    classified;
  - `blob`, `digest`: content-addressed blob identities, content checks and
    the exact-scope read broker;
  - `observation`: the host-local observation bus;
  - `wasm`: resource limits, the WASI permission set, the host-call payload
    checks and the import policy of the WASM component host;
  - `reference`: the reports and decisions of the reference proving slices.
- `app/` holds what touches the machine: the SQLite files, the blob files,
  the observation callbacks.
- `tests/` exercises the library on concrete values.
