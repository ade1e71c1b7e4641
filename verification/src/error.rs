use vstd::prelude::*;

verus! {

/// The failure kinds a caller can observe, one variant per kind so that
/// callers can handle each differently.
#[derive(Debug, Clone, PartialEq, Eq)]
pub enum ClientError {
    /// An input address matched none of the accepted shapes; carries the
    /// offending raw address unchanged.
    InvalidAddress(String),
    /// The HTTP layer failed to complete a request (connection failure or
    /// non-success status); carries its message.
    Transport(String),
    /// A base URL or request path could not be parsed into a valid URL;
    /// carries its message.
    Url(String),
    /// A response body was not valid JSON or did not match the required
    /// shape; carries a description of the first offending field.
    Decode(String),
}

} // verus!
