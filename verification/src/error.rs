//! The ways in which a refresh can go wrong, by how far the damage reaches.

use vstd::prelude::*;

verus! {

/// A listing that the whole refresh depends on could not be fetched. The
/// refresh is given up and the cache stays as it was.
#[derive(Debug, Clone, Copy, PartialEq, Eq, Structural)]
pub enum UpstreamFetchError {
    /// The forum's tag catalogue.
    TagCatalogue,
    /// The forum's archived threads.
    ArchivedThreads,
    /// The guild's active threads.
    ActiveThreads,
}

/// The messages of one thread could not be fetched. That thread is left out;
/// the refresh goes on.
#[derive(Debug, Clone, Copy, PartialEq, Eq, Structural)]
pub enum ExtractionError {
    /// The platform refused access to the thread.
    PermissionDenied,
    /// The fetch failed for another reason.
    FetchFailed,
}

/// The content type of one attachment could not be learned. That attachment
/// is classified as unknown; nothing else is affected.
#[derive(Debug, Clone, Copy, PartialEq, Eq, Structural)]
pub enum ClassificationError {
    /// The resource could not be reached.
    Unreachable,
    /// The resource did not answer in time.
    TimedOut,
    /// The resource answered without declaring a content type.
    MissingContentType,
    /// The declared content type is not text.
    MalformedContentType,
}

} // verus!
