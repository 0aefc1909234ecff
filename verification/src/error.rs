//! The failures that a caller can react to.

use vstd::prelude::*;

verus! {

/// Recoverable failures of the session and its recorders.
#[derive(Clone, Copy, PartialEq, Eq, Debug, Structural)]
pub enum SessionError {
    /// The camera profile identifier is not one of the known profiles.
    UnknownCameraProfile,
    /// The association table could not be parsed.
    MalformedAssociationFile,
    /// The archive could not be listed.
    MalformedArchive,
    /// A requested file is not indexed, or its bytes lie outside the archive.
    ArchiveEntryMissing,
    /// An image could not be decoded, or its size does not match its header.
    ImageDecodeFailure,
    /// A point cloud was asked to rewind to before its first section.
    EmptySectionHistory,
    /// A nearest-candidate search was run on an empty candidate set.
    NoCandidatesAvailable,
}

} // verus!
