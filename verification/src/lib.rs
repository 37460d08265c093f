//! Voice sessions with a camera channel: the gesture vocabulary, the frame gate, the messages of
//! the voice websocket and the decisions that drive a session.
//!
//! Everything here is computation on plain values. Sockets, clocks and the realtime model stay
//! with the caller, which hands in what happened and carries out what comes back.

pub mod audio;
pub mod downlink;
pub mod frame_gate;
pub mod gesture;
pub mod handshake;
pub mod json;
pub mod laws;
pub mod look;
pub mod messages;
pub mod moment;
pub mod prompt;
pub mod status;
pub mod text;
pub mod uplink;
