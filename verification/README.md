# vidcodec

A verified core for a hardware-only video codec facade aimed at real-time
applications (VoIP, screen share, low-latency streaming). The library is
written in Verus: every function in `src/` carries a contract that Verus
proves.

## Layout

- `src/codec.rs`, `src/capability.rs`, `src/bitstream.rs`, `src/pixel.rs`,
  `src/error.rs`, `src/frame.rs`, `src/encoder.rs`, `src/decoder.rs` — codec,
  profile and capability descriptors, encoder/decoder configurations and
  their validation, frame buffers and errors.
- `src/registry.rs`, `src/backend.rs`, `src/probe.rs` — the backend
  registry: enumeration in backend-preference order (with the sorting law
  `law_sorted_capabilities`), per-codec filtering and session opening.
- `src/h264.rs` — Annex-B / length-prefixed framing, the
  `AVCDecoderConfigurationRecord`, and the slice-header parse that fills
  VA-API decode buffers, on top of `oxideav-bitstream`.
- `src/platform.rs`, `src/session.rs` — decisions shared by the hardware
  H.264 backends: configuration checks, keyframe scheduling, input
  preparation and output framing.
- `src/mediacodec`, `src/mf`, `src/nvenc` — the MediaCodec, Media Foundation
  and NVENC/NVDEC backends. Each reaches its hardware through a runtime
  trait (`MediaCodecRuntime`, `MediaFoundationRuntime`, `NvencRuntime`) that
  the host application implements over the platform SDK.
- `src/util` — I420→NV12 conversion, strided NV12 copies, default profiles.
- `src/text.rs` — decimal text of integers, for error messages.
- `src/vaapi.rs` — VA-API status and profile values.
- `app/` — the process-wide registry and entry points, the device loops
  of the backends run over host port traits (`app/ports.rs`), `bytes`-backed
  frame types and a displayable error type.
- `tests/` — behaviour tests against the compiled library.
