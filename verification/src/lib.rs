//! A transparent proxy's core: traffic that a local host sends is carried
//! to a relay through TLS connections, framed after the Trojan convention.
//!
//! The library decides and computes; it performs no I/O. Packets, events
//! and the outcomes of socket calls come in as plain values, and what to do
//! next goes out the same way.

pub mod address;
pub mod buffer;
pub mod codec;
pub mod codec_laws;
pub mod event_loop;
pub mod flow;
pub mod idle;
pub mod index;
pub mod pipe;
pub mod pool;
pub mod private;
pub mod reader;
pub mod route;
pub mod server;
pub mod status;
pub mod tcp_flow;
pub mod tls_conn;
pub mod token;
pub mod tun;
pub mod udp_backend;
pub mod wire;
