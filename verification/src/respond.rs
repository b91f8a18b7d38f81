//! The response side of the pipeline: the headers that accompany the
//! streamed archive, and the deferred cleanup of the transient files.

use vstd::prelude::*;
use crate::resolve::ResolvedTarget;

verus! {

/// How long cleanup waits after the response begins before deleting the
/// transient files, in seconds. The delay only has to outlast the process's
/// own read of the archive while it streams it out; five seconds is a
/// pragmatic choice, kept in one place.
pub const CLEANUP_DELAY_SECS: u64 = 5;

/// The media type of the streamed archive.
pub fn archive_content_type() -> (r: &'static str)
    ensures
        r@ == "application/zip"@,
{
    "application/zip"
}

/// The value of the attachment header for an archive filename:
/// `attachment; filename="<name>"`.
pub open spec fn disposition_spec(name: Seq<char>) -> Seq<char> {
    "attachment; filename=\""@ + name + "\""@
}

/// Renders the attachment header value that names the archive the client
/// receives.
pub fn content_disposition(archive_name: &str) -> (r: String)
    ensures
        r@ == disposition_spec(archive_name@),
{
    let mut r = "attachment; filename=\"".to_owned();
    r.append(archive_name);
    r.append("\"");
    r
}

/// The deferred cleanup of one request: which paths to delete and how long
/// to wait first. Deletion is best-effort — a failure, a missing file
/// included, is swallowed — and runs regardless of whether streaming to the
/// client succeeded.
pub struct CleanupPlan {
    pub paths: Vec<String>,
    pub delay_secs: u64,
}

/// Plans the cleanup of a request's transient files: both the source file
/// and the archive are listed, so both are deleted once the delay has
/// elapsed, whatever became of the response.
pub fn plan_cleanup(target: &ResolvedTarget) -> (r: CleanupPlan)
    ensures
        r.paths@.len() == 2,
        r.paths@[0]@ == target.source_path@,
        r.paths@[1]@ == target.archive_path@,
        r.delay_secs == CLEANUP_DELAY_SECS,
{
    let mut paths: Vec<String> = Vec::new();
    paths.push(target.source_path.clone());
    paths.push(target.archive_path.clone());
    CleanupPlan { paths, delay_secs: CLEANUP_DELAY_SECS }
}

} // verus!
