//! A transport-free core of a client for a remote object-metadata service.
//!
//! The client decides; the caller performs the network work and reports what
//! came of it. Every decision is stated over a small mathematical model of the
//! connection and proved against it.

pub mod client;
pub mod error;
pub mod lifecycle;
pub mod link;
pub mod metadata;
pub mod transport;

pub use crate::client::RPCClient;
pub use crate::error::{ConnectionError, LookupError};
pub use crate::metadata::ObjectMetadata;
pub use crate::transport::{DialOutcome, RoundTrip};
