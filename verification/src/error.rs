//! The server's error taxonomy.

use vstd::prelude::*;

verus! {

/// What can go wrong while serving one connection: an I/O failure, a
/// text-decoding failure where a string was expected, or a request line
/// with fewer than two whitespace-delimited tokens.
///
/// Every such error is local to its connection: it is logged by the caller
/// and never affects the pool, other workers, or other connections.
#[derive(Clone, Copy, Debug, PartialEq, Eq, Structural)]
pub enum ServerError {
    /// An I/O operation on the connection or on a served file failed.
    Io,
    /// Bytes that should have formed a string were not valid text.
    Utf8,
    /// The request line is missing its method or its path token.
    BadRequest,
}

impl ServerError {
    /// A short description of the error, for log records.
    pub fn message(&self) -> (r: &'static str)
        ensures
            *self == ServerError::Io ==> r@ == "I/O error"@,
            *self == ServerError::Utf8 ==> r@ == "UTF-8 conversion error"@,
            *self == ServerError::BadRequest ==> r@ == "Request parse error"@,
    {
        match self {
            ServerError::Io => "I/O error",
            ServerError::Utf8 => "UTF-8 conversion error",
            ServerError::BadRequest => "Request parse error",
        }
    }
}

} // verus!
