# varcavia

A verified library for cryptographically verified data, and the node built
on it.

Every datum gets a Data DNA: BLAKE3 and SHA3-512 fingerprints, an Ed25519
signed source identity, a temporal proof, a chain of custody and an
integrity hash over all of it. Facts earn trust tiers (T0 to T4) from
independent attestations. A clean data engine deduplicates, validates and
normalises what comes in; a transport layer frames, prioritises and
synchronises it between nodes.

## Layout

- `src/` — the library, written in Verus: every function carries a
  `requires`/`ensures` contract that the verifier proves, and the laws the
  library keeps (round trips, convergence of replicas whose writes carry
  distinct stamps, monotone trust tiers, the request limit, ...) are stated and proved as proof functions.
  - `ddna/` Data DNA; `vtp/` transport (priorities, framing, delta
    compression, CRDT registers and sets); `arc/` local validation and votes;
    `cde/` clean data engine (exact dedup, MinHash signatures, claims,
    normalisation, freshness); `uag/` gateway rules (trust tiers, keywords,
    rate limiting, API key, answer shapes, XML and CSV grammars, JSON
    rendering as XML and CSV);
    `crawler/` fact extraction from pages and summaries, the curated facts,
    the spider's frontier and knowledge-base fact sentences; `node/`
    configuration sections; `text.rs`, `bytes.rs`, `query.rs` shared
    character, byte and URL helpers.
- `tests/` — tests of the library.
- `app/` — the node binary: HTTP API (axum), storage (sled), peer network
  (tokio), crawling (reqwest), serialisation (serde), the MCP server, and
  the floating-point scores.
