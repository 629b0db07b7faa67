# media_server

Verified core logic of a WebRTC media server, written in Verus.

- `src/g711.rs` defines G.711 A-law and µ-law companding mathematically
  (segment, quantisation step, reconstruction at the middle of the step) and
  proves its laws: every code survives decode-then-encode, the quantisation
  error is at most half a step, and both quantisers are monotone.
- `src/pcma.rs` holds the sample converters, the buffer conversions and the
  A-law decoder/encoder stages, each proved against those definitions.
- `src/vp8_sim.rs` is the VP8 simulcast layer filter, written as a state
  machine: the caller owns the PictureId / TL0PICIDX sequence rewriters,
  performs the action the filter asks for and reports the outcome.
- `src/protobuf/` holds the mixer feature's protocol messages.
- `app/` holds what the library leaves out: wire-format (prost/serde)
  copies of the messages, floating-point sample conversions, and drivers
  that run the library with a resampler and sequence rewriters.
