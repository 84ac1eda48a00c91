//! Core of a transparent, identity-aware L4/L7 sidecar proxy.
//!
//! The library covers the connection-ingest pipeline of the proxy: sniffing
//! the wire protocol of an accepted TCP connection, deciding whether to
//! terminate mutual TLS, routing HTTP traffic towards a discovered endpoint,
//! preventing cross-cluster gateway loops, and caching per-target service
//! stacks with idle eviction.  Sockets, timers and TLS handshakes live
//! outside the library; everything here works on plain values and is
//! verified against the contracts written on each function.
#![verifier::loop_isolation(false)]

pub mod addr;
pub mod balance;
pub mod cache;
pub mod client;
pub mod client_hello;
pub mod config;
pub mod detect;
pub mod drain;
pub mod dst;
pub mod errors;
pub mod gateway;
pub mod headers;
pub mod inbound;
pub mod outbound;
pub mod permit;
pub mod ports;
pub mod profiles;
pub mod resolver;
pub mod stack;
pub mod tls;
