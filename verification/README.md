# speccade_backend_audio (verified core)

The deterministic, non-floating-point logic of the SpecCade audio backend,
written in Verus:

- `src/` — the verified library: seed derivation and generator seeding,
  the delay-line ring buffer, zero-crossing and loop-point selection,
  envelope phase decisions, stereo layouts, gate hold and grain scheduling,
  and the limits of a generation request. Laws are public proof functions
  next to the functions they speak of.
- `tests/` — tests of the library, run against the real `blake3` and
  `rand_pcg` crates.
- `app/` — the floating-point synthesis around it (envelope levels,
  filters, mixing, crossfades, tape and granular delay, dynamics), calling
  the library for the decisions it verifies.
