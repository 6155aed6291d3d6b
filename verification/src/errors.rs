//! The error taxonomy of the install pipeline.

use vstd::prelude::*;

verus! {

/// Why an installation run failed, by the stage that failed.
#[derive(Clone, Copy, PartialEq, Eq, Structural, Debug)]
pub enum InstallError {
    /// The OS reported no home or app-data location, so no destination
    /// could be resolved.
    PathResolution,
    /// The release download failed: a transport error or a non-success
    /// response.
    Network,
    /// The downloaded bytes are not a well-formed archive.
    ArchiveFormat,
    /// Reading or writing an individual entry failed on disk.
    ArchiveIo,
    /// Removing the known-bad file failed for a reason other than the
    /// file being absent.
    RemediationIo,
}

} // verus!
