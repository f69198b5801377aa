//! The tunnel: ports of one machine that are served by another one, through data channels.
pub mod channel;
pub mod client;
pub mod laws;
pub mod server;
