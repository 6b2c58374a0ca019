use yetalauncher::download::{
    chunk_progress, AttemptOutcome, Download, DownloadErr, DownloadStep,
    Downloader, FileProbe, Retry, MAX_TRIES,
};
use yetalauncher::notifier::{InternalNotifType, NotificationState, Notifier};

const ABC_SHA1: &str = "a9993e364706816aba3e25717850c26c9cd0d89d";

fn artifact(sha1: Option<&str>, size: Option<u32>) -> Download {
    Download::new("/data/a.jar".to_string(), "https://x/a.jar", sha1.map(String::from), size)
}

fn found(len: u64) -> FileProbe {
    FileProbe::Found { is_file: true, len }
}

#[test]
fn new_download_keeps_its_parts() {
    let d = artifact(Some("abc"), Some(10));
    assert_eq!(d.path, "/data/a.jar");
    assert_eq!(d.url, "https://x/a.jar");
    assert_eq!(d.sha1.as_deref(), Some("abc"));
    assert_eq!(d.size, Some(10));
    assert_eq!(d.status_text(), "Downloading: https://x/a.jar");
}

#[test]
fn downloads_are_identified_by_destination() {
    let a = Download::new("/p".to_string(), "u1", None, None);
    let b = Download::new("/p".to_string(), "u2", Some("x".to_string()), Some(1));
    let c = Download::new("/q".to_string(), "u1", None, None);
    assert!(a.same_target(&b));
    assert!(!a.same_target(&c));
}

#[test]
fn missing_file_is_downloaded() {
    let d = artifact(Some(ABC_SHA1), Some(3));
    assert!(matches!(d.should_download(FileProbe::Missing, None), Ok(true)));
}

#[test]
fn unreadable_metadata_is_fatal() {
    let d = artifact(None, None);
    let result = d.should_download(FileProbe::Failed("permission denied".to_string()), None);
    assert!(matches!(result, Err(DownloadErr::NoFilePerm(reason)) if reason == "permission denied"));
}

#[test]
fn directory_at_destination_is_fatal() {
    let d = artifact(None, None);
    let result = d.should_download(FileProbe::Found { is_file: false, len: 0 }, None);
    assert!(matches!(result, Err(DownloadErr::NotAFile)));
}

#[test]
fn matching_size_and_digest_skip_the_download() {
    let d = artifact(Some(ABC_SHA1), Some(3));
    assert!(matches!(d.should_download(found(3), Some(b"abc")), Ok(false)));
}

#[test]
fn size_mismatch_forces_the_download() {
    let d = artifact(Some(ABC_SHA1), Some(4));
    assert!(matches!(d.should_download(found(3), Some(b"abc")), Ok(true)));
}

#[test]
fn digest_mismatch_forces_the_download() {
    let d = artifact(Some(ABC_SHA1), Some(3));
    assert!(matches!(d.should_download(found(3), Some(b"abd")), Ok(true)));
}

#[test]
fn unreadable_contents_count_as_mismatch() {
    let d = artifact(Some(ABC_SHA1), Some(3));
    assert!(matches!(d.should_download(found(3), None), Ok(true)));
}

#[test]
fn absent_expectations_are_not_checked() {
    assert!(matches!(artifact(None, None).should_download(found(77), None), Ok(false)));
    assert!(matches!(artifact(None, Some(77)).should_download(found(77), None), Ok(false)));
    assert!(matches!(artifact(None, Some(78)).should_download(found(77), None), Ok(true)));
    assert!(matches!(artifact(Some(ABC_SHA1), None).should_download(found(3), Some(b"abc")), Ok(false)));
}

#[test]
fn digest_is_compared_as_lower_case_hex() {
    let upper = ABC_SHA1.to_uppercase();
    let d = artifact(Some(&upper), None);
    assert!(!d.checksum_matches(Some(b"abc")));
    assert!(artifact(Some(ABC_SHA1), None).checksum_matches(Some(b"abc")));
    assert!(artifact(Some("da39a3ee5e6b4b0d3255bfef95601890afd80709"), None).checksum_matches(Some(b"")));
}

#[test]
fn decision_from_a_given_digest() {
    let d = artifact(Some("abc"), Some(10));
    assert!(matches!(d.should_download_given(found(10), Some("abc")), Ok(false)));
    assert!(matches!(d.should_download_given(found(10), Some("abd")), Ok(true)));
    assert!(matches!(d.should_download_given(found(11), Some("abc")), Ok(true)));
    assert!(matches!(d.should_download_given(found(10), None), Ok(true)));
}

#[test]
fn contents_are_wanted_only_when_the_digest_decides() {
    let d = artifact(Some("abc"), Some(10));
    assert!(d.wants_contents(&found(10)));
    assert!(!d.wants_contents(&found(11)));
    assert!(!d.wants_contents(&FileProbe::Missing));
    assert!(!d.wants_contents(&FileProbe::Found { is_file: false, len: 10 }));
    assert!(!artifact(None, Some(10)).wants_contents(&found(10)));
}

#[test]
fn always_failing_download_runs_out_after_eight_attempts() {
    let d = artifact(None, None);
    let mut retry = Retry::new();
    let mut attempts = 0;
    let end = loop {
        let check = d.should_download(FileProbe::Missing, None);
        match retry.on_check(check) {
            DownloadStep::Attempt => {
                attempts += 1;
                assert!(retry.on_attempt(AttemptOutcome::BadStatus(500)).is_ok());
            }
            other => break other,
        }
        assert!(attempts <= 100);
    };
    assert_eq!(attempts, 8);
    assert_eq!(MAX_TRIES, 8);
    assert!(matches!(end, DownloadStep::Failed(DownloadErr::OutOfRetries)));
    assert!(matches!(retry.last_failure, Some(DownloadErr::Response(500))));
}

#[test]
fn transport_failures_are_retried_too() {
    let mut retry = Retry::new();
    assert!(matches!(retry.on_check(Ok(true)), DownloadStep::Attempt));
    assert!(retry.on_attempt(AttemptOutcome::RequestFailed("timeout".to_string())).is_ok());
    assert_eq!(retry.tries, 1);
    assert!(matches!(&retry.last_failure, Some(DownloadErr::Request(reason)) if reason == "timeout"));
    assert!(matches!(retry.on_check(Ok(true)), DownloadStep::Attempt));
    assert_eq!(retry.tries, 2);
}

#[test]
fn successful_download_finishes_after_the_recheck() {
    let mut retry = Retry::new();
    assert!(matches!(retry.on_check(Ok(true)), DownloadStep::Attempt));
    assert!(retry.on_attempt(AttemptOutcome::Stored).is_ok());
    assert!(matches!(retry.on_check(Ok(false)), DownloadStep::Finished));
    assert_eq!(retry.tries, 1);
}

#[test]
fn local_failures_end_the_download_at_once() {
    let mut retry = Retry::new();
    assert!(matches!(retry.on_check(Ok(true)), DownloadStep::Attempt));
    assert!(matches!(
        retry.on_attempt(AttemptOutcome::CreateFailed("no space".to_string())),
        Err(DownloadErr::FileCreate(reason)) if reason == "no space"
    ));
    assert!(matches!(
        retry.on_attempt(AttemptOutcome::WriteFailed("io".to_string())),
        Err(DownloadErr::FileWrite(reason)) if reason == "io"
    ));
    assert!(matches!(
        retry.on_check(Err(DownloadErr::NotAFile)),
        DownloadStep::Failed(DownloadErr::NotAFile)
    ));
}

#[test]
fn success_statuses_are_200_to_299() {
    assert!(Retry::accepts(200));
    assert!(Retry::accepts(299));
    assert!(!Retry::accepts(199));
    assert!(!Retry::accepts(300));
    assert!(!Retry::accepts(404));
}

#[test]
fn chunk_progress_is_in_kilobytes() {
    assert_eq!(chunk_progress(5_999, 10_000), (5, 10));
    assert_eq!(chunk_progress(0, 999), (0, 0));
    assert_eq!(chunk_progress(u64::MAX, 4_294_967_295_000), (u32::MAX, u32::MAX));
    assert_eq!(chunk_progress(4_294_967_294_999, 0), (4_294_967_294, 0));
}

fn queue(n: usize, concurrency: usize) -> Downloader {
    let mut downloader = Downloader::new(Notifier { id: 1, progress: None }, concurrency);
    for i in 0..n {
        downloader.add_from(format!("/p/{i}"), format!("https://x/{i}"), None, Some(i as u32));
    }
    downloader
}

#[test]
fn download_all_cuts_the_queue_into_shards() {
    let mut downloader = queue(5, 2);
    let (job, event) = downloader.download_all(false, "Minecraft assets");
    assert_eq!(job.batches.len(), 2);
    let paths: Vec<Vec<&str>> =
        job.batches.iter().map(|b| b.iter().map(|d| d.path.as_str()).collect()).collect();
    assert_eq!(paths, vec![vec!["/p/0", "/p/1", "/p/2"], vec!["/p/3", "/p/4"]]);
    assert_eq!((job.count, job.total), (0, 5));
    assert_eq!(downloader.downloads.len(), 5);
    assert_eq!(event.inner.text, "Downloading Minecraft assets...");
    assert_eq!((event.inner.progress, event.inner.max_progress), (0, 5));
    assert_eq!(event.inner.status, NotificationState::Running);
    assert_eq!(event.typ, InternalNotifType::Schedule);
    assert_eq!(event.id, job.notifier.id);
}

#[test]
fn shuffled_queue_holds_the_same_downloads() {
    let mut downloader = queue(60, 8);
    let before: Vec<String> = downloader.downloads.iter().map(|d| d.path.clone()).collect();
    let (job, _) = downloader.download_all(true, "Minecraft libraries");
    let after: Vec<String> = downloader.downloads.iter().map(|d| d.path.clone()).collect();
    assert_ne!(before, after);
    let mut sorted_before = before.clone();
    let mut sorted_after = after.clone();
    sorted_before.sort();
    sorted_after.sort();
    assert_eq!(sorted_before, sorted_after);
    let flat: Vec<String> = job.batches.iter().flatten().map(|d| d.path.clone()).collect();
    assert_eq!(flat, after);
    assert_eq!(job.batches.len(), 8);
    assert!(job.batches.iter().all(|b| b.len() == 7 || b.len() == 8));
}

#[test]
fn empty_queue_is_complete_at_once() {
    let mut downloader = queue(0, 3);
    let (mut job, _) = downloader.download_all(true, "nothing");
    assert!(job.is_complete());
    assert_eq!(job.batches.len(), 3);
    let done = job.finish();
    assert_eq!(done.inner.text, "Finished downloading 0 nothing");
}

#[test]
fn queue_without_workers_has_no_shards() {
    let mut downloader = queue(2, 0);
    let (job, _) = downloader.download_all(false, "x");
    assert!(job.batches.is_empty());
    assert_eq!(job.total, 2);
}

#[test]
fn progress_counts_up_to_the_total() {
    let mut downloader = queue(2, 1);
    let (mut job, _) = downloader.download_all(false, "files");
    assert!(!job.is_complete());
    let first = job.unit_done();
    assert_eq!((first.inner.progress, first.inner.max_progress), (1, 2));
    assert_eq!(first.inner.text, "Downloading files...");
    assert!(!job.is_complete());
    let second = job.unit_done();
    assert_eq!((second.inner.progress, second.inner.max_progress), (2, 2));
    assert!(job.is_complete());
    let extra = job.unit_done();
    assert_eq!((extra.inner.progress, extra.inner.max_progress), (2, 2));
    let done = job.finish();
    assert_eq!(done.inner.text, "Finished downloading 2 files");
    assert_eq!(done.inner.status, NotificationState::Success);
    assert_eq!((done.inner.progress, done.inner.max_progress), (0, 0));
    assert_eq!(job.notifier.progress, Some((0, 0)));
}
