//! Protocol core of a multiplexing exchange WebSocket client: message
//! signing and encoding, the subscription registry, the acknowledgement
//! protocol and the ordered event buffer, as a state machine that a
//! transport loop drives.

pub mod models;
pub mod signer;
pub mod codec;
pub mod session;
pub mod laws;
