//! A local forward proxy core: host routing with memoization, the upstream
//! CONNECT handshake, a decoy TLS ClientHello builder and the per-tunnel
//! session state machine.

pub mod config;
pub mod decoy;
pub mod dispatch;
pub mod handshake;
pub mod routing;
pub mod session;
pub mod system_proxy;
