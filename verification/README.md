# bakopa

Verified core of a small VR stack: the Bloom signaling server (rooms of up to
eight participants, one-to-one relaying of WebRTC offers, answers and ICE
candidates, per-connection handling and rate limiting) and the client runtime
(choosing VR or desktop mode, driving frames through a runtime bridge, and
synchronising remote poses).

Layout:

- `src/` — the library, written and proved with Verus. Each module states
  what its functions do in `requires`/`ensures` over mathematical models
  (`Seq`, `Map`, views), and proves the laws that span several calls
  (`lemma_*` proof functions).
  - `api`, `ids`, `room`, `signaling`, `rate_limit`, `core_api`,
    `real_core`, `mocks`, `sinks`, `handler`, `connection`: the server side.
  - `ecs`, `client_errors`, `ports`, `xr`, `bridge`, `sync`, `projection`,
    `engine`: the client side.
- `tests/` — scenario tests that run the compiled library.
- `app/` — the program around the library: the WebSocket server on tokio and
  tokio-tungstenite, JSON with serde, the bevy_ecs simulation core (its
  movement is floating-point arithmetic), and `std::error::Error` forms of
  the client errors.

Not here: the parts of the client that call the Godot engine's own API (the
extension node, reading its input events, its OpenXR interface). What that
side decides without the engine stays: the pending input queue and how
outcomes are reported (`engine`), an XR runtime for builds without the
OpenXR classes (`xr::GodotXrRuntime`), and, in `app/`, the floating-point
normalisation of input states.
