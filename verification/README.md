# async-datachannel-wasm

Async wrapper for WebRTC data channels in the browser.

- `src/` is the verified library: the signalling messages (`signal`), the
  connection configuration (`config`), the offer/answer negotiation of the
  dialing and the accepting side as a state machine from event to action
  (`negotiation`), and the buffering of inbound bytes behind a reader
  (`stream`). Each public function states its behaviour in its contract; the
  laws of the negotiation and of the byte stream are proof functions beside
  them.
- `app/` drives the browser objects (`RTCPeerConnection`, `RTCDataChannel`)
  through `web-sys`: it performs the actions the negotiation asks for, awaits
  their outcome and feeds it back, and implements `AsyncRead`/`AsyncWrite` on
  `DataStream` over the verified buffer.
- `tests/` exercises the library on concrete values, including a two-peer
  exchange over an in-memory signalling relay.
