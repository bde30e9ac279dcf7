# stocks

The decision rules of a thesis-driven trading assistant, written in Verus
with their contracts proved.

- `src/` — the verified library: the attention queue's vocabulary, the
  goalpost detector for thesis invalidation conditions, the strategy
  evaluator, the proof, readiness, market-readiness and allocation gates,
  the US equity session hours (with daylight saving; which dates are
  trading days is given by the caller), the broker simulator's order plan and
  incidents, the discovery interpretation, the analyst chat's scoping and
  evidence rules, the planning of recorded operator decisions, the
  per-symbol brain status (source freshness, new material, monitoring),
  chart windows, source health, and configuration fingerprints. The proof
  gate returns, beside its result, the record of every state it looked at. `text.rs` and `order.rs` hold the string and sorting tools
  the rules share; each module's public proof functions state the laws it
  keeps.
- `tests/` — scenarios run against the compiled library.
- `app/` — plain Rust around the library: floating-point arithmetic on
  prices, weights and scores, JSON snapshots, and conversions from
  `chrono` values to the library's epoch seconds and day numbers.

Times in the library are seconds since the Unix epoch (UTC); dates are day
numbers counted from 1970-01-01.
