//! Verified core of a small decentralized chat platform: the message types
//! exchanged between client and server, the time conversions they rely on,
//! the server's session decisions and the terminal client's state.

pub mod client;
pub mod clock;
pub mod history;
pub mod messages;
pub mod oldest;
pub mod server;
pub mod session;
pub mod text;
pub mod ui;
