//! What a client can learn of the voice websocket before it connects.

use vstd::prelude::*;

verus! {

/// The voice channel as it is announced to clients.
#[derive(Debug)]
pub struct VoiceStatus {
    pub enabled: bool,
    pub ws_path: &'static str,
    pub input_rate_hz: u32,
    pub output_rate_hz: u32,
    /// Whether the camera channel is available on the websocket.
    pub camera: bool,
}

/// What a client may ask for when it connects.
#[derive(Debug)]
pub struct VoiceWsQuery {
    pub session_id: Option<String>,
}

/// The voice channel of a server that has voice `enabled`, with or without a `camera` channel.
pub fn status(enabled: bool, camera: bool) -> (r: VoiceStatus)
    ensures
        r.enabled == enabled,
        r.ws_path@ == "/ws/voice"@,
        r.input_rate_hz == 16_000,
        r.output_rate_hz == 24_000,
        r.camera == camera,
{
    VoiceStatus {
        enabled,
        ws_path: "/ws/voice",
        input_rate_hz: 16_000,
        output_rate_hz: 24_000,
        camera,
    }
}

} // verus!
