//! Protocol engine of a WebSocket-driven 8x8 LED display: the shared
//! display bitmap, the WebSocket frame codec, the upgrade handshake, the
//! HTTP request router and the per-connection session state machine.

pub mod led_matrix;
pub mod frame;
pub mod handshake;
pub mod router;
pub mod session;
