//! Verified core of a minimal multithreaded HTTP server.
//!
//! The crate covers the two parts of such a server that carry real logic:
//! the worker pool's job-queue and shutdown protocol ([`pool`]), and the
//! per-connection request-handling pipeline — request-line parsing
//! ([`request`]) and static-file response construction ([`response`]).
//! The sockets, files and threads themselves live outside the library;
//! they hand plain values in and take plain values back.

pub mod error;
pub mod pool;
pub mod request;
pub mod response;

pub use error::ServerError;
