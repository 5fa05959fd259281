# astraquant

Deterministic market-replay infrastructure, verified with Verus.

The library (`src/`) holds the parts whose behaviour can be stated and proved:

- `events`, `serialization`, `orderbook`: journaled events, order payloads and
  their canonical binary forms; decoding accepts exactly the canonical
  encodings and gives back what was encoded.
- `hashing`, `package`, `sandbox`, `vm`: BLAKE3 state hashes, strategy
  packages, the gas-metered sandbox and the deterministic VM.
- `exchange`: the decisions of the exchange runtime (event routing, venue
  delivery, fill direction, margin, liquidation orders, strategy actions as
  events), its diagnostics and the global state hash, and the fidelity,
  latency, matching, profiling and realism records.
- `inspect`: order-flow analytics, execution quality, strategy analytics,
  the replay timeline, the inspector's recording of each order, depth views
  of order books, and the text and diagram exports.
- `distributed`, `formal`, `federation`: records of distributed, formally
  certified and federated replays.
- `laws`: properties that span several functions (codec round trips,
  canonical decoding, state-hash determinism, consecutive trace ids, export
  concatenation and determinism).

`app/` is the command-line tool. It drives the exchange's engines (risk,
routing, order books, portfolio, strategies, clearing, policy, operations,
agents), which are separate crates, reads journals from disk, and prints the
library's reports and diagrams; it also holds the JSON exports and the
floating-point volatility ticks.
