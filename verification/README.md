# brokkr

The governance core of BROKKR, verified with Verus: the types and rules that decide what an
agent may do, the signed encodings those decisions rest on, and the organs that apply them.

## Layout

- `src/` — the verified library.
  - `ids`, `classification`, `crypto`, `intent`, `gate`, `barrier`, `reasoner`, `tolerance`,
    `resolution`, `adapt`, `risk`, `signal`, `personal_data`, `capability`, `genome`,
    `explanation`, `durations`: the governance types, with their invariants and rules.
  - `canon`, `text`, `sset`: length-prefixed canonical encoding, text building, ordered name
    sets.
  - `backend`: SHA-384, ML-DSA-65, SLH-DSA-SHAKE-192s, dual-family signing, ML-KEM-768 and
    AES-256-GCM crypto-shredding, and the RFC 3161 `TSTInfo` reader. The cryptography itself
    is called through small trusted wrappers over the RustCrypto crates.
  - `skuld`: the intent provenance chain — signing, hash-linking, attenuation, verification.
  - `sindri`: the costimulation gate (identity and chain signals).
  - `regin`: the genome registers' signed encodings and the promotion gate.
  - `sentinel`: the Self Set corpus, tolerance grants and signals, the resolution engine
    (EIR) and the tolerance controller and host-harm monitor (HEIMDALL).
  - `mimir`: the reasoner, its endpoint registry, and the ollama request and reply.
- `tests/` — tests against the compiled library.
- `app/` — what the library leaves to its host: the transport a model request travels over,
  the floating-point host-harm rate and ceiling, and `Display` for the library's errors.
