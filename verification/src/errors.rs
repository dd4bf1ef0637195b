//! The error taxonomy of the fetch engine.

use vstd::prelude::*;

verus! {

/// A terminal failure of one fetch-and-install run.
///
/// The variants fall into five families: configuration errors
/// (`UnsupportedPlatform`, `InvalidVersion`, `MissingMirror`), HTTP
/// failures (`HttpStatus`, `MissingContentLength`), cooperative
/// cancellation (`Cancelled`), archive faults (`CorruptArchive`,
/// `UnreadableEntry`, `PathCollision`) and filesystem faults (`Io`,
/// carrying the offending path).
#[derive(Debug, Clone, PartialEq, Eq)]
pub enum FetchError {
    UnsupportedPlatform,
    InvalidVersion,
    MissingMirror,
    HttpStatus { status: u16 },
    MissingContentLength,
    Cancelled,
    CorruptArchive,
    UnreadableEntry,
    PathCollision,
    Io { path: String },
}

impl FetchError {
    /// A configuration error is detected before any I/O is attempted.
    pub open spec fn is_configuration(self) -> bool {
        self is UnsupportedPlatform || self is InvalidVersion || self is MissingMirror
    }

    /// An HTTP failure aborts the fetch before any byte reaches disk.
    pub open spec fn is_http_failure(self) -> bool {
        self is HttpStatus || self is MissingContentLength
    }

    /// An archive fault aborts extraction, leaving partial results.
    pub open spec fn is_archive_fault(self) -> bool {
        self is CorruptArchive || self is UnreadableEntry || self is PathCollision
    }
}

/// A failure of a store update: the named item is not in the
/// store.
#[derive(Debug, Clone, Copy, PartialEq, Eq, Structural)]
pub enum StoreError {
    GroupNotFound,
    ProjectNotFound,
}

} // verus!
