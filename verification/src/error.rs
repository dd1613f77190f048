//! Errors of the binary cache API.

use vstd::prelude::*;

verus! {

/// How a request to the binary cache API fails, before any outside service
/// does.
#[derive(Debug, Clone, Copy, PartialEq, Eq, Structural)]
pub enum ApiError {
    /// The request path names nothing this API serves.
    NotFound,
    /// The requested object, entry or the store path it names is not in the
    /// cache.
    NoSuchObject,
    /// A chunk of the requested NAR is missing.
    IncompleteNar,
    /// A store path hash in the request path is malformed.
    InvalidStorePathHash,
    /// A field of a build trace upload is longer than its column allows
    /// ("Build trace entry too long").
    EntryTooLong,
    /// The `outPath` of a build trace upload is not a store path base name.
    InvalidOutPath,
    /// The `outPath` of a build trace upload differs from the store path the
    /// cache recorded for its hash ("outPath does not match the store path
    /// recorded for that hash").
    OutPathMismatch,
}

} // verus!
