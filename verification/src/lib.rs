//! An HTTP gateway embedded in a key-value-store process.
//!
//! The library holds the verified core of the gateway: the response codec
//! (JSON, XML and plain-text renderings of the three result shapes), the
//! content negotiator, the Basic-auth gate and credential-probe
//! classification, the route handlers' result rendering, the server
//! lifecycle state machine, and the outbound HTTP command parsing and
//! result encoding. Network listeners, store connections and outbound
//! HTTP calls are performed by the surrounding application, which hands
//! their outcomes to the functions here as plain values.

pub mod auth;
pub mod commands;
pub mod format;
pub mod json;
pub mod response;
pub mod router;
pub mod server;
pub mod strutil;
pub mod text;
pub mod xml;
