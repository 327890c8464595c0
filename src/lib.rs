//! A SOCKS5 proxy that can also run as a reverse tunnel.
//!
//! The library holds the logic of the proxy as verified state machines and
//! codecs: the SOCKS5 wire format, the per-connection handshake, the duplex
//! relay, the master/slave pairing protocol and the choice of run mode. The
//! program around it performs the I/O that each machine asks for.

pub mod bytes;
pub mod config;
pub mod relay;
pub mod session;
pub mod socks;
pub mod tunnel;
