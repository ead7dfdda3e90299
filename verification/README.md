# vox_verified

The verified core of the vox RPC toolkit, written in Verus. Every function in
`src/` carries a contract that Verus proves; `app/` holds the asynchronous
drivers, process plumbing and C ABI buffers that perform the I/O those
functions decide on.

## Layout

- `src/metadata.rs` — request/connection metadata: an ordered map with unique
  keys, per-key flags recorded under well-known keys, the fluent builder.
  Metadata is held as the library's own type (an optional list of entries
  with unique keys, each value a string, a `u64`, bytes or a list of
  strings) rather than as a `facet_value::Value`: every operation reads the
  kind and content of the values stored inside, which an opaque outside
  value would hide from the proofs. `app/metadata_value.rs` converts to and
  from `facet_value::Value`.
- `src/handshake.rs` — the session handshake as steps of a state machine for
  each side, with the agreement and zero-credit laws.
- `src/conduit.rs` — the bare conduit's halves, descriptor passing, the
  message plan taken from the handshake.
- `src/phon.rs` — framing of schema closures and self-describing messages.
- `src/highlevel.rs` — address parsing, capacity checks, server targets and
  the connection retry/backoff plan.
- `src/schema/`, `src/schema_deser.rs` — the vox and binette schema models and
  the conversions between them, with round-trip laws.
- `src/swift/`, `src/typescript.rs` — code generation for the Swift and
  TypeScript runtimes (clients, servers, schema tables, descriptors), with
  the law that each method's Swift globals are defined once.
- `src/canary.rs` — the replies of the Swift interoperability canaries.
- `src/fuzz.rs` — the fuzz-input cursor and the workload it selects.
- `src/harness.rs` — decisions of the cross-language test harness,
  including what to do at each turn of waiting for a TCP subject.
- `src/text.rs` — number and string rendering shared by the above.
- `tests/` — tests on concrete values; `app/` — runtime glue.
