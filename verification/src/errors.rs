//! Error taxonomy of the pipeline, and the user-facing message of each error.

use vstd::prelude::*;

verus! {

/// Why a submitted URL was rejected before any network or filesystem work.
#[derive(Clone, Copy, Debug, PartialEq, Eq, Structural)]
pub enum InvalidReason {
    /// The URL field was empty after trimming surrounding whitespace.
    EmptyUrl,
    /// The URL field did not parse as an absolute URL.
    MalformedUrl,
}

/// Everything that can go wrong in one request, scoped to that request.
#[derive(Clone, Copy, Debug, PartialEq, Eq, Structural)]
pub enum PipelineError {
    /// The input was rejected; no file was created and no network call made.
    InvalidInput(InvalidReason),
    /// The fetch aborted: network failure, non-success status, or a write
    /// error. A partial source file may remain for the cleanup task.
    FetchFailed,
    /// Packing the fetched file into the archive failed.
    ArchiveFailed,
    /// The finished archive vanished before it could be streamed back.
    ArtifactUnavailable,
}

impl PipelineError {
    /// Holds exactly for the errors that reject the input itself.
    pub open spec fn is_invalid_input(self) -> bool {
        self is InvalidInput
    }

    /// The message rendered to the user for this error.
    pub fn user_message(&self) -> (r: String)
        ensures
            *self == PipelineError::InvalidInput(InvalidReason::EmptyUrl) ==> r@
                == "URL cannot be empty"@,
            *self == PipelineError::InvalidInput(InvalidReason::MalformedUrl) ==> r@
                == "Invalid URL"@,
            *self == PipelineError::FetchFailed ==> r@ == "Failed to download file"@,
            *self == PipelineError::ArchiveFailed ==> r@ == "Failed to archive file"@,
            *self == PipelineError::ArtifactUnavailable ==> r@ == "Archive is no longer available"@,
    {
        match self {
            PipelineError::InvalidInput(InvalidReason::EmptyUrl) => "URL cannot be empty".to_owned(),
            PipelineError::InvalidInput(InvalidReason::MalformedUrl) => "Invalid URL".to_owned(),
            PipelineError::FetchFailed => "Failed to download file".to_owned(),
            PipelineError::ArchiveFailed => "Failed to archive file".to_owned(),
            PipelineError::ArtifactUnavailable => "Archive is no longer available".to_owned(),
        }
    }
}

} // verus!
