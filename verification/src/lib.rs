//! Connection negotiation and request dispatch for an HTTP exploration client.
//!
//! The crate decides, from plain values, how a single outbound request is
//! carried: which host and port to reach, whether the transport is wrapped in
//! TLS, which HTTP version the connection speaks, how a cleartext connection is
//! upgraded to HTTP/2, and how sends over one connection are serialised. The
//! caller performs the I/O and reports what happened; every decision is made
//! here.
//!
//! The modules follow the way of a request:
//!
//! - [`target`] resolves a URL to a host, a port and a scheme;
//! - [`negotiate`] leads from the open transport through TLS to the HTTP
//!   preface, with [`tls`] for what is asked of a TLS session and what its ALPN
//!   answer means, and [`handshake`] for the preface and the handle it yields;
//! - [`upgrade`] takes a cleartext HTTP/1.1 connection to HTTP/2;
//! - [`request`] and [`headers`] build what goes out on the wire;
//! - [`dispatch`] lets one caller at a time send on a connection;
//! - [`client`] and [`http_client`] put these together for a caller;
//! - [`render`] writes the lines in which an exchange is shown;
//! - [`protocols`], [`error`] and [`text`] hold what the others share.

pub mod client;
pub mod dispatch;
pub mod error;
pub mod handshake;
pub mod headers;
pub mod http_client;
pub mod negotiate;
pub mod protocols;
pub mod render;
pub mod request;
pub mod target;
pub mod text;
pub mod tls;
pub mod upgrade;
