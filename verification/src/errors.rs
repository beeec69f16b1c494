use vstd::prelude::*;

verus! {

/// Error taxonomy of the bootstrap pipeline. Every error aborts the whole
/// run: there is no retry and no partial-success mode.
#[derive(Clone, Copy, Debug, PartialEq, Eq, Structural)]
pub enum Error {
    /// Network, DNS or connect failure while talking to a remote service.
    TransportError,
    /// A response arrived but its status was not a success; carries the status code.
    HttpStatusError(u16),
    /// The secret store's time endpoint returned a body that is not an integer.
    TimeSyncError,
    /// The secret envelope JSON did not have the expected shape.
    DeserializationError,
    /// A filesystem path could not be represented as subprocess-argument text.
    PathEncodingError,
    /// Writing the node binary or the chain specification failed.
    FilesystemError,
    /// The host architecture has no published node binary.
    ArchitectureUnsupportedError,
}

} // verus!
