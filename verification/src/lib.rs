//! Verified core of a peer-to-peer screen sharing tool: the capture-side
//! decisions (format negotiation, frame extraction), the encoder's frame
//! accounting, peer discovery bookkeeping and the control-panel state.

pub mod app;
pub mod media;
pub mod menu;
pub mod text;
pub mod recorder;
