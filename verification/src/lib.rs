//! Trust establishment for a secure RPC connection to a remote node.
//!
//! The peer is trusted only if it presents exactly the pinned certificates,
//! and every outgoing request carries the node's bearer credential.

pub mod connect;
pub mod credential;
pub mod decimal;
pub mod error;
pub mod interceptor;
pub mod order;
pub mod pinning;
pub mod target;

pub use connect::{connect, Connecting, ConnectionParts};
pub use error::{AddressError, ConnectError, Rejection};
pub use interceptor::{MacaroonInterceptor, MetadataFull};
pub use pinning::CertVerifier;
pub use target::ConnectionTarget;
