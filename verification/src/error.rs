//! The kinds of failure that the engine tells apart.

use vstd::prelude::*;

verus! {

/// Every kind of failure of the engine.
#[derive(Clone, Copy, Debug, PartialEq, Eq, Structural)]
pub enum ErrorKind {
    /// The manifest is of a format newer than this engine understands.
    UnsupportedFormat,
    /// The manifest could not be read as a manifest.
    MalformedManifest,
    /// A request could not be made, or its body broke off.
    TransportError,
    /// The server answered with a status that is no success.
    ServerError,
    /// The server did not say how long the body is.
    LengthUnknown,
    /// A local file could not be created, read, written or replaced.
    IoError,
    /// An installed file does not have the checksum that the manifest declares.
    ChecksumMismatch,
}

} // verus!
