//! Upgrading a stream connection to a WebRTC peer connection, and tunnelling ports through it.
//!
//! A client and a server that share a byte stream exchange session descriptions and candidates
//! over it until both have a peer connection; the tunnel then passes UDP and TCP ports through
//! the data channels of that connection.
//!
//! Everything here computes and decides. What has to be awaited, read, written or sent is done by
//! the caller: the state machines ([`client::ClientUpgrade`], [`server::ServerConnection`],
//! [`tls::TlsSetup`]) name the next action, and are told how it went.
pub mod certs;
pub mod client;
pub mod client_laws;
pub mod ice;
pub mod outside;
pub mod payload;
pub mod rtc;
pub mod server;
pub mod server_laws;
pub mod text;
pub mod tls;
pub mod tls_laws;
pub mod transport;
pub mod tunnel;
