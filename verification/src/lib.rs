//! A unified SOCKS5 front-end and supervisor for privacy-network back-ends.
//!
//! The library holds the decisions: which back-end a host name belongs to,
//! what the SOCKS5 conversation with a client and with an upstream proxy
//! looks like byte for byte, in which order back-ends are brought up, how
//! each is launched or probed, and what the control surface reports. The
//! embedding program performs the I/O those decisions ask for.

pub mod text;
pub mod health_monitor;
pub mod config;
pub mod socks5;
pub mod bytes;
pub mod session;
pub mod splice;
pub mod adapters;
pub mod process_manager;
pub mod facade;
