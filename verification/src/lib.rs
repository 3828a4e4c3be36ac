//! Server side of the WebSocket protocol: the frame codec, the opening
//! handshake and the per-connection state machine, with their contracts.

pub mod bytes;
pub mod connection;
pub mod frame;
pub mod handshake;
pub mod mask;
pub mod opcode;
pub mod roundtrip;
pub mod text;
