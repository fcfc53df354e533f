# pocketstation

Verified decisions of a desktop audio capture library: source identity and
selection, capture authorization evidence, bounded runtime event channels,
sample-derived timelines, the per-platform capture backends' choices, and the
C records of the Session and extension ABIs.

- `src/` is the library, written in Verus. Every function carries a contract
  and is proved against it. Calls into std or `rtrb` that Verus cannot read sit
  behind small wrappers whose contracts state what those functions document.
- `src/capture/` holds identity, selection, authorization, events, timelines,
  observation counters, the captured-frame crossing, the framing of native
  callback buffers into fixed-duration frames, and under `platform/` the
  decisions of the Linux (PipeWire and ALSA), macOS and Windows (WASAPI)
  backends.
- `src/abi/` holds the Session and extension ABI records, their layout sizes,
  the handle tables, the engine table and each engine's session and lease
  bookkeeping, the Session lifecycle state machine, executable extension
  registration, and the Opus codec boundary's result codes.
- `app/` is the ordinary Rust around the library: the monotonic clock, bounded
  waits on worker channels, the local source provider, the sample buffer that
  follows the library's framing plan, and serde and
  thiserror copies of the library's public value types.
- `tests/` exercises the library on concrete values.
