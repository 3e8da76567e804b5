# liter_llm

The decision logic of an LLM client middleware stack — routing, fallback
chains, hedging, circuit breaking, cooldowns, health gating, rate and budget
limits, response and negative caching, idempotency, request coalescing,
guardrails and hooks — written in Verus.  The decisions of each layer are
functions with contracts that Verus proves; what they rest on from outside
crates (regular-expression matching, base64, hashing, the object store) is
stated in the trusted wrappers beside the calls.  The asynchronous loops that
await the inner service and the rules that work in floating point (latency
averages, similarity scores, dollar amounts) live in `app/` and are not
verified.

Layout:

- `src/` — the verified library.  `tower/` holds one module per middleware
  layer, `types/` the request and response types, `text.rs` the text
  formatting the error messages rely on, `util/` shared helpers (including
  the `dashmap` maps the limiters and ledger keep their state in).
- `tests/` — tests of the library, run against the compiled crate.
- `app/` — the asynchronous runtime around the library: Tower services that
  perform the I/O and hand each outcome to the library's decision functions,
  clocks, floating-point conversions (dollars, similarity scores, latency
  averages), serde mirrors of configuration types, an HTTP health probe, an
  OpenDAL-backed cache store, OpenTelemetry metrics and `tracing` spans.

Amounts of money are integer micro-dollars and durations integer
milliseconds (or seconds where a wall clock is meant) throughout the
library; `app/` converts at the edge.
