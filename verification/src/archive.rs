//! The archiver: packs the fetched bytes into a single-entry zip archive,
//! held in memory, and maps any failure to the pipeline's error taxonomy.
//!
//! The surrounding process reads the source file into memory before calling
//! in, and writes the returned archive bytes out afterwards; compression
//! itself is CPU-bound and is run by the caller on an execution context for
//! blocking work.

use vstd::prelude::*;
use crate::errors::PipelineError;
use crate::resolve::is_safe_component;

verus! {

/// Relies on `zip::ZipWriter`: `new` over an in-memory cursor, `start_file`
/// with the default file options, the `std::io::Write` implementation for
/// the entry's content, and `finish` for the central directory. On success
/// the bytes form an archive with exactly one entry, named `entry_name`,
/// holding `content`; `finish` always writes the end-of-central-directory
/// record, so the archive is never empty. On failure the error's rendering
/// is returned instead.
#[verifier::external_body]
fn zip_single_entry(entry_name: &str, content: &[u8]) -> (r: Result<Vec<u8>, String>)
    ensures
        r matches Ok(bytes) ==> bytes@.len() > 0,
{
    let mut writer = zip::ZipWriter::new(std::io::Cursor::new(Vec::new()));
    if let Err(e) = writer.start_file(entry_name, zip::write::SimpleFileOptions::default()) {
        return Err(format!("{}", e));
    }
    if let Err(e) = std::io::Write::write_all(&mut writer, content) {
        return Err(format!("{}", e));
    }
    match writer.finish() {
        Ok(cursor) => Ok(cursor.into_inner()),
        Err(e) => Err(format!("{}", e)),
    }
}

/// Packs `content` into a single-entry archive whose one entry is named
/// `entry_name` — the resolved filename of the download. The entry's
/// content is the full, uncompressed byte content handed in; the container
/// may compress it. Success and failure are decided by the archive writer
/// alone: on failure the result is exactly `ArchiveFailed`, and on success
/// the archive bytes are non-empty.
pub fn build_archive(entry_name: &str, content: &[u8]) -> (r: Result<Vec<u8>, PipelineError>)
    requires
        is_safe_component(entry_name@),
    ensures
        r matches Err(e) ==> e == PipelineError::ArchiveFailed,
        r matches Ok(bytes) ==> bytes@.len() > 0,
{
    match zip_single_entry(entry_name, content) {
        Ok(bytes) => Ok(bytes),
        Err(_cause) => Err(PipelineError::ArchiveFailed),
    }
}

} // verus!
