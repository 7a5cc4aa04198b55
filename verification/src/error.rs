use vstd::prelude::*;

verus! {

/// The failure taxonomy shared by every storage backend.
///
/// Construction and per-operation failures always carry the specific kind,
/// so a caller can tell "does not exist" from "could not reach the store"
/// from "a stored name is corrupt".
#[derive(Clone, Copy, Debug, PartialEq, Eq, Structural)]
pub enum Error {
    /// The configuration is missing or malformed.
    ConfigError,
    /// The session or handle to the backing store could not be established.
    ConnectionError,
    /// The requested object is absent from its namespace.
    NotFound,
    /// The backing store answered with an unexpected status or fault.
    RemoteError,
    /// An enumerated key does not parse as a valid archive name.
    InvalidArchiveName,
}

} // verus!
