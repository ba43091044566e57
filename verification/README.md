# p2p_screenshare

A peer-to-peer screen sharing tool: it captures the screen through the
desktop screencast portal and PipeWire, encodes the frames to H.264 with
libav, discovers peers on the local network with libp2p mDNS, and shows a
GTK control panel.

- `src/` is the verified library (Verus):
  - `media.rs`: SPA format ids to encoder pixel layouts, the encoder's
    configuration, and the encoding loop as a state machine (`VideoEncoder::step`).
  - `recorder.rs`: the frame type, the format negotiation request, the
    portal and stream setup, the format-parameter checks and the plan for
    copying a buffer's bytes (page-aligned mapping arithmetic).
  - `app.rs`: the application's identity and discovered-peer bookkeeping.
  - `menu.rs`: the control panel's state and the texts it shows.
  - `text.rs`: decimal formatting of integers.
- `app/` is the program around it: portal, PipeWire, libav, libp2p and GTK
  calls, the async tasks, and the event loops that feed the library.
- `tests/` exercises the library on concrete values.
