//! End-to-end tests of the pipeline's verified core, run against the real
//! outside crates.

use std::io::Read;

use fetch_archive::archive::build_archive;
use fetch_archive::errors::{InvalidReason, PipelineError};
use fetch_archive::fetch::{status_allows_download, DownloadProgress};
use fetch_archive::registry::ProgressRegistry;
use fetch_archive::request::{plan_request, RequestPlan};
use fetch_archive::resolve::{resolve_filename, resolve_target};
use fetch_archive::respond::{archive_content_type, content_disposition, plan_cleanup, CLEANUP_DELAY_SECS};

#[test]
fn q1_csv_scenario_resolves_paths_and_headers() {
    let url = url::Url::parse("https://example.com/reports/q1.csv").unwrap();
    assert_eq!(url.path(), "/reports/q1.csv");
    let target = resolve_target(url.path());
    assert_eq!(target.source_path, "q1.csv");
    assert_eq!(target.archive_path, "q1.csv.zip");
    assert_eq!(archive_content_type(), "application/zip");
    assert_eq!(
        content_disposition(&target.archive_path),
        "attachment; filename=\"q1.csv.zip\""
    );
}

#[test]
fn q1_csv_scenario_archive_holds_the_exact_body() {
    let body: Vec<u8> = (0..1200u32).map(|i| (i % 251) as u8).collect();
    let bytes = build_archive("q1.csv", &body).unwrap();
    assert!(!bytes.is_empty());
    assert_ne!(bytes, body);

    let mut archive = zip::ZipArchive::new(std::io::Cursor::new(bytes)).unwrap();
    assert_eq!(archive.len(), 1);
    let mut entry = archive.by_index(0).unwrap();
    assert_eq!(entry.name(), "q1.csv");
    let mut content = Vec::new();
    entry.read_to_end(&mut content).unwrap();
    assert_eq!(content.len(), 1200);
    assert_eq!(content, body);
}

#[test]
fn an_empty_body_archives_to_one_empty_entry() {
    let bytes = build_archive("empty.bin", &[]).unwrap();
    let mut archive = zip::ZipArchive::new(std::io::Cursor::new(bytes)).unwrap();
    assert_eq!(archive.len(), 1);
    let mut entry = archive.by_index(0).unwrap();
    assert_eq!(entry.name(), "empty.bin");
    let mut content = Vec::new();
    entry.read_to_end(&mut content).unwrap();
    assert!(content.is_empty());
}

#[test]
fn q1_csv_scenario_progress_reaches_exactly_100() {
    let mut registry = ProgressRegistry::new();
    let mut rx = registry.subscribe();
    let mut progress = DownloadProgress::new(Some(1200));
    let mut last = 0u64;
    for chunk in [300usize, 500, 399, 1] {
        let p = progress.record_chunk(&mut registry, chunk);
        assert!(p >= last);
        assert!(p <= 10000);
        last = p;
    }
    assert_eq!(last, 10000);
    let mut seen = Vec::new();
    while let Ok(Some(msg)) = rx.try_next() {
        seen.push(msg);
        if seen.len() == 4 {
            break;
        }
    }
    assert_eq!(seen, vec!["25.00", "66.66", "99.91", "100.00"]);
}

#[test]
fn empty_url_is_rejected_without_any_work() {
    match plan_request("") {
        RequestPlan::Reject(e) => {
            assert_eq!(e, PipelineError::InvalidInput(InvalidReason::EmptyUrl));
            assert_eq!(e.user_message(), "URL cannot be empty");
        }
        RequestPlan::Fetch(_) => panic!("empty input must be rejected"),
    }
}

#[test]
fn whitespace_only_url_is_rejected_as_empty() {
    match plan_request("   \t\r\n ") {
        RequestPlan::Reject(e) => {
            assert_eq!(e, PipelineError::InvalidInput(InvalidReason::EmptyUrl));
        }
        RequestPlan::Fetch(_) => panic!("whitespace input must be rejected"),
    }
}

#[test]
fn malformed_url_is_rejected() {
    match plan_request("not a url at all") {
        RequestPlan::Reject(e) => {
            assert_eq!(e, PipelineError::InvalidInput(InvalidReason::MalformedUrl));
            assert_eq!(e.user_message(), "Invalid URL");
        }
        RequestPlan::Fetch(_) => panic!("malformed input must be rejected"),
    }
}

#[test]
fn valid_url_is_trimmed_and_accepted() {
    match plan_request("  https://example.com/a.txt \n") {
        RequestPlan::Fetch(u) => assert_eq!(u, "https://example.com/a.txt"),
        RequestPlan::Reject(_) => panic!("a well-formed URL must be accepted"),
    }
}

#[test]
fn traversal_names_resolve_to_one_safe_segment() {
    let name = resolve_filename("../../etc/passwd");
    assert!(!name.is_empty());
    assert!(!name.contains('/'));
    assert!(!name.contains('\\'));
    assert_ne!(name, ".");
    assert_ne!(name, "..");
    assert_eq!(name, "passwd");

    let dots = resolve_filename("/a/b/..");
    assert_eq!(dots, "downloaded_file");

    let sneaky = resolve_filename("..%2F..%2Fetc%2Fpasswd");
    assert!(!sneaky.contains('/'));
    assert!(!sneaky.is_empty());
}

#[test]
fn illegal_characters_are_stripped_from_the_segment() {
    // The sanitizer really transforms the name: separators and reserved
    // characters are deleted, not echoed back.
    assert_eq!(resolve_filename("/a/fi:le*na?me.txt"), "filename.txt");
    assert_eq!(resolve_filename("/a/he<llo>.bin"), "hello.bin");
}

#[test]
fn windows_reserved_names_fall_back() {
    // The fixed sanitization policy applies the reserved-name rules
    // everywhere, so a device name yields nothing and the fallback is used.
    assert_eq!(resolve_filename("/files/con"), "downloaded_file");
}

#[test]
fn empty_and_slash_paths_fall_back() {
    assert_eq!(resolve_filename(""), "downloaded_file");
    assert_eq!(resolve_filename("/"), "downloaded_file");
    assert_eq!(resolve_filename("/dir/sub/"), "downloaded_file");
    assert_eq!(resolve_filename("..."), "downloaded_file");
}

#[test]
fn cleanup_plan_lists_both_files_with_the_fixed_delay() {
    let target = resolve_target("/reports/q1.csv");
    let plan = plan_cleanup(&target);
    assert_eq!(plan.delay_secs, CLEANUP_DELAY_SECS);
    assert_eq!(plan.delay_secs, 5);
    assert_eq!(plan.paths, vec!["q1.csv".to_string(), "q1.csv.zip".to_string()]);
}

#[test]
fn observer_attached_after_completion_sees_nothing() {
    let mut registry = ProgressRegistry::new();
    let mut early = registry.subscribe();
    let mut progress = DownloadProgress::new(Some(100));
    progress.record_chunk(&mut registry, 50);
    progress.record_chunk(&mut registry, 50);
    DownloadProgress::conclude(&mut registry);
    assert_eq!(registry.observer_count(), 0);

    let mut late = registry.subscribe();
    assert!(late.try_next().is_err(), "a late observer must see no events");

    assert_eq!(early.try_next().unwrap(), Some("50.00".to_string()));
    assert_eq!(early.try_next().unwrap(), Some("100.00".to_string()));
    // The completed download's sender set was dropped, so the early
    // observer's stream has closed.
    assert_eq!(early.try_next().unwrap(), None);
}

#[test]
fn unknown_total_publishes_the_zero_sentinel() {
    let mut registry = ProgressRegistry::new();
    let mut rx = registry.subscribe();
    let mut progress = DownloadProgress::new(None);
    let p1 = progress.record_chunk(&mut registry, 4096);
    let p2 = progress.record_chunk(&mut registry, 4096);
    assert_eq!(p1, 0);
    assert_eq!(p2, 0);
    assert_eq!(rx.try_next().unwrap(), Some("0.00".to_string()));
    assert_eq!(rx.try_next().unwrap(), Some("0.00".to_string()));
}

#[test]
fn only_the_success_status_class_allows_a_download() {
    assert!(status_allows_download(200));
    assert!(status_allows_download(204));
    assert!(status_allows_download(299));
    assert!(!status_allows_download(199));
    assert!(!status_allows_download(301));
    assert!(!status_allows_download(404));
    assert!(!status_allows_download(500));
}

#[test]
fn error_messages_match_the_interface() {
    assert_eq!(
        PipelineError::FetchFailed.user_message(),
        "Failed to download file"
    );
    assert_eq!(
        PipelineError::ArchiveFailed.user_message(),
        "Failed to archive file"
    );
    assert_eq!(
        PipelineError::ArtifactUnavailable.user_message(),
        "Archive is no longer available"
    );
}
