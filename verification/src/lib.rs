//! Command-dispatch and request-lifecycle core of a distributed-ledger
//! client: it builds, signs and tracks transaction requests, and reconciles
//! asynchronous acknowledgements back to the original caller.
//!
//! The wallet, the cryptographic primitives and the pool transport are
//! external collaborators: the host performs those calls and feeds their
//! answers back through the executor's entry points.

pub mod builder;
pub mod config;
pub mod did;
pub mod errors;
pub mod executor;
pub mod request;
pub mod response;
pub mod signer;
pub mod taa;
pub mod tracker;
