# camera_voice

The voice websocket of an assistant with a camera channel: the client streams microphone audio and
still frames, the model answers with audio, text and tool calls, and deliberate hand gestures in
the frames become one `ui_gesture` tool call each.

`src/` holds what is decided and computed, verified with Verus:

- `gesture`, `prompt`: the gesture vocabulary, the instruction text and the schema of the tool
- `frame_gate`: which frames reach the model, and how fast
- `look`: when the model is asked to check the latest frames
- `uplink`, `downlink`: what follows from what the client and the model do
- `messages`, `handshake`, `status`: what the client is told
- `json`, `audio`, `text`, `moment`: JSON values, base64, strings and clock readings

`app/` holds the axum routes, the tokio tasks and the realtime runner around it. Time enters the
library as `Moment`, nanoseconds on a clock that starts with the session; constants of time are in
milliseconds.
