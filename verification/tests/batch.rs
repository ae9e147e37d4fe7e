use carbon::batch::{Batch, DeepReply, Phase};
use carbon::checksum::Checksum;
use carbon::descriptor::Downloadable;
use carbon::error::DownloadError;
use carbon::freshness::{LocalFile, Plan};
use carbon::progress::Progress;
use carbon::transfer::TransferOutcome;

const HELLO_SHA1: &str = "2aae6c35c94fcfb415dbe95f408b9ce91ee846ed";

fn file(name: &str) -> Downloadable {
    Downloadable::new(&format!("https://example.org/{name}"), &format!("/tmp/{name}"))
}

fn download(batch: &mut Batch, i: usize, chunks: &[&[u8]]) -> Result<(), DownloadError> {
    assert_eq!(batch.local_checked(i, LocalFile::Missing), Some(Plan::Transfer));
    assert!(batch.try_admit(i));
    assert_eq!(batch.response_received(i, 200), Some(Ok(())));
    for chunk in chunks {
        assert!(batch.chunk_received(i, chunk).is_some());
    }
    batch.stream_finished(i).unwrap().1
}

#[test]
fn exact_size_payload_is_downloaded() {
    let mut batch = Batch::new(vec![file("a").with_size(1024)], 4, false, false);
    let payload = vec![7u8; 1024];
    assert_eq!(download(&mut batch, 0, &[&payload[..512], &payload[512..]]), Ok(()));
    assert_eq!(batch.outcome(0), Some(TransferOutcome::Downloaded));
    assert_eq!(batch.verdict(), Some(Ok(true)));
    assert_eq!(
        batch.snapshot(),
        Progress { total_count: 1, current_count: 1, total_size: 1024, current_size: 1024 }
    );
}

#[test]
fn short_payload_is_a_size_mismatch() {
    let mut batch = Batch::new(vec![file("a").with_size(1024)], 4, false, false);
    let payload = vec![7u8; 900];
    let expected = DownloadError::SizeMismatch { expected: 1024, actual: 900 };
    assert_eq!(download(&mut batch, 0, &[&payload]), Err(expected.clone()));
    assert_eq!(batch.outcome(0), Some(TransferOutcome::Failed(expected.clone())));
    assert_eq!(batch.verdict(), Some(Err(expected)));
}

#[test]
fn fresh_files_need_no_transfer() {
    let files = vec![file("a").with_size(10), file("b")];
    let mut batch = Batch::new(files, 4, false, false);
    assert_eq!(
        batch.local_checked(0, LocalFile::Present { len: Some(10) }),
        Some(Plan::Skip)
    );
    assert_eq!(
        batch.local_checked(1, LocalFile::Present { len: Some(77) }),
        Some(Plan::Skip)
    );
    assert!(!batch.try_admit(0));
    assert!(!batch.try_admit(1));
    assert_eq!(batch.in_flight(), 0);
    assert_eq!(batch.outcome(0), Some(TransferOutcome::Fresh));
    assert_eq!(batch.outcome(1), Some(TransferOutcome::Fresh));
    assert_eq!(batch.verdict(), Some(Ok(false)));
}

#[test]
fn dry_run_reports_without_transfer() {
    let mut batch = Batch::new(vec![file("a")], 4, false, true);
    assert_eq!(batch.local_checked(0, LocalFile::Missing), Some(Plan::Report));
    assert_eq!(batch.phase(0), Some(Phase::Done));
    assert!(!batch.try_admit(0));
    assert_eq!(batch.chunk_received(0, b"x"), None);
    assert_eq!(batch.outcome(0), Some(TransferOutcome::Required));
    assert_eq!(batch.verdict(), Some(Ok(true)));
    assert_eq!(
        batch.snapshot(),
        Progress { total_count: 1, current_count: 0, total_size: 0, current_size: 0 }
    );
}

#[test]
fn second_batch_after_a_verified_download_is_fresh() {
    let descriptor = file("a")
        .with_size(11)
        .with_checksum(Some(Checksum::Sha1(HELLO_SHA1.to_string())));
    let mut first = Batch::new(vec![descriptor.clone()], 1, true, false);
    assert_eq!(download(&mut first, 0, &[b"hello world"]), Ok(()));
    assert_eq!(first.verdict(), Some(Ok(true)));

    let mut second = Batch::new(vec![descriptor], 1, true, false);
    assert_eq!(
        second.local_checked(0, LocalFile::Present { len: Some(11) }),
        Some(Plan::DeepVerify)
    );
    assert!(matches!(
        second.deep_verified(0, b"hello world"),
        Some(DeepReply::Confirmed(_))
    ));
    assert!(!second.try_admit(0));
    assert_eq!(second.verdict(), Some(Ok(false)));
}

#[test]
fn batch_starts_with_the_declared_sizes() {
    let files = vec![file("a").with_size(100), file("b"), file("c").with_size(23)];
    let batch = Batch::new(files, 2, false, false);
    assert_eq!(batch.len(), 3);
    assert_eq!(
        batch.snapshot(),
        Progress { total_count: 3, current_count: 0, total_size: 123, current_size: 0 }
    );
    assert_eq!(batch.phase(0), Some(Phase::Pending));
    assert_eq!(batch.phase(3), None);
    assert_eq!(batch.file(1), Some(&file("b")));
    assert_eq!(batch.file(3), None);
    assert_eq!(batch.outcome(0), None);
    assert_eq!(batch.verdict(), None);
}

#[test]
fn empty_batch_is_done_at_once() {
    let batch = Batch::new(vec![], 1, false, false);
    assert_eq!(batch.len(), 0);
    assert_eq!(batch.verdict(), Some(Ok(false)));
    assert_eq!(batch.snapshot(), Progress::new());
}

#[test]
fn declared_sizes_wrap_in_the_seed() {
    let files = vec![file("a").with_size(u64::MAX), file("b").with_size(3)];
    let batch = Batch::new(files, 1, false, false);
    assert_eq!(batch.snapshot().total_size, 2);
}

#[test]
fn deep_check_confirms_and_credits_the_declared_size() {
    let descriptor = file("a")
        .with_size(11)
        .with_checksum(Some(Checksum::Sha1(HELLO_SHA1.to_string())));
    let mut batch = Batch::new(vec![descriptor, file("b").with_size(5)], 1, true, false);
    assert_eq!(
        batch.local_checked(0, LocalFile::Present { len: Some(11) }),
        Some(Plan::DeepVerify)
    );
    assert_eq!(batch.phase(0), Some(Phase::Verifying));
    let expected = Progress { total_count: 2, current_count: 1, total_size: 16, current_size: 11 };
    assert_eq!(
        batch.deep_verified(0, b"hello world"),
        Some(DeepReply::Confirmed(expected))
    );
    assert_eq!(batch.outcome(0), Some(TransferOutcome::Fresh));
    assert_eq!(batch.snapshot(), expected);
}

#[test]
fn deep_check_mismatch_leads_to_download_even_in_dry_run() {
    let descriptor = file("a")
        .with_size(11)
        .with_checksum(Some(Checksum::Sha1(HELLO_SHA1.to_string())));
    let mut batch = Batch::new(vec![descriptor], 1, true, true);
    assert_eq!(
        batch.local_checked(0, LocalFile::Present { len: Some(11) }),
        Some(Plan::DeepVerify)
    );
    assert_eq!(batch.deep_verified(0, b"hello w0rld"), Some(DeepReply::Rejected));
    assert_eq!(batch.phase(0), Some(Phase::Queued));
    assert!(batch.try_admit(0));
    assert!(batch.chunk_received(0, b"hello world").is_some());
    assert_eq!(batch.stream_finished(0).unwrap().1, Ok(()));
    assert_eq!(batch.verdict(), Some(Ok(true)));
}

#[test]
fn deep_check_without_checksum_is_fresh_without_hashing() {
    let files = vec![file("a").with_size(3), file("b")];
    let mut batch = Batch::new(files, 1, true, false);
    assert_eq!(
        batch.local_checked(0, LocalFile::Present { len: Some(3) }),
        Some(Plan::Skip)
    );
    assert_eq!(
        batch.local_checked(1, LocalFile::Present { len: None }),
        Some(Plan::Skip)
    );
    assert_eq!(batch.deep_verified(0, b"abc"), None);
    assert!(!batch.try_admit(0));
    assert!(!batch.try_admit(1));
    assert_eq!(batch.in_flight(), 0);
    assert_eq!(batch.outcome(0), Some(TransferOutcome::Fresh));
    assert_eq!(batch.verdict(), Some(Ok(false)));
}

#[test]
fn deep_check_without_checksum_still_needs_the_declared_size() {
    let mut batch = Batch::new(vec![file("a").with_size(3)], 1, true, false);
    assert_eq!(
        batch.local_checked(0, LocalFile::Present { len: Some(4) }),
        Some(Plan::Transfer)
    );
    assert_eq!(batch.phase(0), Some(Phase::Queued));
}

#[test]
fn deep_verdict_takes_the_digest_text() {
    let descriptor = file("a").with_checksum(Some(Checksum::Md5("abcd".to_string())));
    let mut batch = Batch::new(vec![descriptor.clone(), descriptor], 1, true, false);
    assert_eq!(
        batch.local_checked(0, LocalFile::Present { len: None }),
        Some(Plan::DeepVerify)
    );
    assert_eq!(
        batch.local_checked(1, LocalFile::Present { len: None }),
        Some(Plan::DeepVerify)
    );
    let right = "abcd".to_string();
    let wrong = "ABCD".to_string();
    assert!(matches!(batch.deep_verdict(0, Some(&right)), Some(DeepReply::Confirmed(_))));
    assert_eq!(batch.deep_verdict(1, Some(&wrong)), Some(DeepReply::Rejected));
    assert_eq!(batch.deep_verdict(1, Some(&right)), None);
    assert_eq!(batch.snapshot().current_count, 1);
    assert_eq!(batch.snapshot().current_size, 0);
}

#[test]
fn undeclared_size_grows_the_expected_total() {
    let mut batch = Batch::new(vec![file("a"), file("b").with_size(50)], 2, false, false);
    assert_eq!(batch.local_checked(0, LocalFile::Missing), Some(Plan::Transfer));
    assert!(batch.try_admit(0));
    assert_eq!(
        batch.chunk_received(0, &[1u8; 100]),
        Some(Progress { total_count: 2, current_count: 0, total_size: 150, current_size: 100 })
    );
    assert_eq!(
        batch.chunk_received(0, &[1u8; 200]),
        Some(Progress { total_count: 2, current_count: 0, total_size: 350, current_size: 300 })
    );
    let (progress, result) = batch.stream_finished(0).unwrap();
    assert_eq!(result, Ok(()));
    assert_eq!(
        progress,
        Progress { total_count: 2, current_count: 1, total_size: 350, current_size: 300 }
    );
}

#[test]
fn declared_size_zero_grows_like_no_size() {
    let mut batch = Batch::new(vec![file("a").with_size(0)], 1, false, false);
    assert_eq!(batch.local_checked(0, LocalFile::Missing), Some(Plan::Transfer));
    assert!(batch.try_admit(0));
    let progress = batch.chunk_received(0, &[0u8; 64]).unwrap();
    assert_eq!(progress.total_size, 64);
    assert_eq!(progress.current_size, 64);
    assert_eq!(
        batch.stream_finished(0).unwrap().1,
        Err(DownloadError::SizeMismatch { expected: 0, actual: 64 })
    );
}

#[test]
fn declared_size_is_a_lower_bound_of_the_total() {
    let mut batch = Batch::new(vec![file("a").with_size(1000)], 1, false, false);
    assert_eq!(batch.local_checked(0, LocalFile::Missing), Some(Plan::Transfer));
    assert!(batch.try_admit(0));
    let first = batch.chunk_received(0, &[0u8; 600]).unwrap();
    assert_eq!((first.current_size, first.total_size), (600, 1000));
    let second = batch.chunk_received(0, &[0u8; 600]).unwrap();
    assert_eq!((second.current_size, second.total_size), (1200, 1200));
    let empty = batch.chunk_received(0, &[]).unwrap();
    assert_eq!(empty, second);
}

#[test]
fn at_most_limit_transfers_hold_a_permit() {
    let files: Vec<Downloadable> = (0..5).map(|i| file(&format!("f{i}"))).collect();
    let mut batch = Batch::new(files, 2, false, false);
    for i in 0..5 {
        assert_eq!(batch.local_checked(i, LocalFile::Missing), Some(Plan::Transfer));
    }
    assert!(batch.try_admit(3));
    assert!(batch.try_admit(0));
    assert_eq!(batch.in_flight(), 2);
    assert!(!batch.try_admit(1));
    assert!(!batch.try_admit(2));
    assert!(!batch.try_admit(4));
    assert_eq!(batch.in_flight(), 2);
    assert_eq!(batch.phase(1), Some(Phase::Queued));
    assert_eq!(batch.stream_finished(3).unwrap().1, Ok(()));
    assert_eq!(batch.in_flight(), 1);
    assert!(batch.try_admit(1));
    assert!(!batch.try_admit(2));
    assert!(batch.fail(0, DownloadError::Transport("reset".to_string())).is_some());
    assert_eq!(batch.in_flight(), 1);
    assert!(batch.try_admit(2));
    assert!(!batch.try_admit(4));
    assert_eq!(batch.in_flight(), 2);
}

#[test]
fn no_permits_means_no_admission() {
    let mut batch = Batch::new(vec![file("a")], 0, false, false);
    assert_eq!(batch.local_checked(0, LocalFile::Missing), Some(Plan::Transfer));
    assert!(!batch.try_admit(0));
    assert_eq!(batch.phase(0), Some(Phase::Queued));
    assert_eq!(batch.verdict(), None);
}

#[test]
fn failure_in_mid_stream_takes_the_bytes_back_out() {
    let mut batch = Batch::new(vec![file("a").with_size(10), file("b")], 2, false, false);
    assert_eq!(batch.local_checked(0, LocalFile::Missing), Some(Plan::Transfer));
    assert_eq!(batch.local_checked(1, LocalFile::Missing), Some(Plan::Transfer));
    assert!(batch.try_admit(0));
    assert!(batch.try_admit(1));
    assert!(batch.chunk_received(0, &[0u8; 30]).is_some());
    assert!(batch.chunk_received(1, &[0u8; 5]).is_some());
    let error = DownloadError::Transport("connection reset".to_string());
    assert_eq!(
        batch.fail(0, error.clone()),
        Some(Progress { total_count: 2, current_count: 0, total_size: 35, current_size: 5 })
    );
    assert_eq!(batch.in_flight(), 1);
    assert_eq!(batch.outcome(0), Some(TransferOutcome::Failed(error.clone())));
    assert_eq!(batch.fail(0, DownloadError::GenericDownload("again".to_string())), None);
    assert_eq!(batch.verdict(), Some(Err(error)));
}

#[test]
fn failure_before_admission_changes_no_counter() {
    let descriptor = file("a")
        .with_size(10)
        .with_checksum(Some(Checksum::Sha1(HELLO_SHA1.to_string())));
    let mut batch = Batch::new(vec![descriptor], 1, true, false);
    assert_eq!(
        batch.local_checked(0, LocalFile::Present { len: Some(10) }),
        Some(Plan::DeepVerify)
    );
    let error = DownloadError::GenericDownload("permission denied".to_string());
    assert_eq!(
        batch.fail(0, error.clone()),
        Some(Progress { total_count: 1, current_count: 0, total_size: 10, current_size: 0 })
    );
    assert_eq!(batch.in_flight(), 0);
    assert_eq!(batch.verdict(), Some(Err(error)));
}

#[test]
fn refused_response_fails_the_transfer() {
    let mut batch = Batch::new(vec![file("a")], 1, false, false);
    assert_eq!(batch.response_received(0, 200), None);
    assert_eq!(batch.local_checked(0, LocalFile::Missing), Some(Plan::Transfer));
    assert!(batch.try_admit(0));
    let error = DownloadError::Non200StatusCode(file("a"), 404);
    assert_eq!(batch.response_received(0, 404), Some(Err(error.clone())));
    assert_eq!(batch.in_flight(), 0);
    assert_eq!(batch.phase(0), Some(Phase::Done));
    assert_eq!(batch.chunk_received(0, b"x"), None);
    assert_eq!(batch.stream_finished(0), None);
    assert_eq!(batch.verdict(), Some(Err(error)));
}

#[test]
fn checksum_is_verified_over_the_streamed_payload() {
    let good = file("good").with_checksum(Some(Checksum::Sha1(HELLO_SHA1.to_string())));
    let bad = file("bad").with_checksum(Some(Checksum::Sha1(HELLO_SHA1.to_string())));
    let mut batch = Batch::new(vec![good, bad], 2, false, false);
    assert_eq!(download(&mut batch, 0, &[b"hello", b" ", b"world"]), Ok(()));
    assert_eq!(
        download(&mut batch, 1, &[b"hello", b"world"]),
        Err(DownloadError::ChecksumMismatch {
            expected: HELLO_SHA1.to_string(),
            actual: "6adfb183a4a2c94a2f92dab5ade762a47889a5a1".to_string(),
            url: "https://example.org/bad".to_string(),
            path: "/tmp/bad".to_string(),
        })
    );
    assert_eq!(batch.snapshot().current_count, 2);
    assert!(matches!(
        batch.verdict(),
        Some(Err(DownloadError::ChecksumMismatch { .. }))
    ));
}

#[test]
fn checksum_mismatch_wins_over_size_mismatch() {
    let descriptor = file("a")
        .with_size(3)
        .with_checksum(Some(Checksum::Md5("00".to_string())));
    let mut batch = Batch::new(vec![descriptor], 1, false, false);
    assert!(matches!(
        download(&mut batch, 0, &[b"abcd"]),
        Err(DownloadError::ChecksumMismatch { .. })
    ));
}

#[test]
fn verdict_waits_for_descriptors_before_the_first_failure() {
    let mut batch = Batch::new(vec![file("a"), file("b")], 2, false, false);
    assert_eq!(batch.local_checked(1, LocalFile::Missing), Some(Plan::Transfer));
    let error = DownloadError::Transport("timeout".to_string());
    assert!(batch.fail(1, error).is_some());
    assert_eq!(batch.verdict(), None);
    assert_eq!(
        batch.local_checked(0, LocalFile::Present { len: None }),
        Some(Plan::Skip)
    );
    assert!(matches!(batch.verdict(), Some(Err(DownloadError::Transport(_)))));
}

#[test]
fn verdict_is_the_first_failure_in_descriptor_order() {
    let mut batch = Batch::new(vec![file("a"), file("b")], 2, false, false);
    let early = DownloadError::GenericDownload("first descriptor".to_string());
    let late = DownloadError::GenericDownload("second descriptor".to_string());
    assert!(batch.fail(1, late).is_some());
    assert!(batch.fail(0, early.clone()).is_some());
    assert_eq!(batch.verdict(), Some(Err(early)));
}

#[test]
fn events_out_of_turn_change_nothing() {
    let mut batch = Batch::new(vec![file("a").with_size(4)], 1, true, false);
    let before = batch.snapshot();
    assert_eq!(batch.deep_verified(0, b"abcd"), None);
    assert!(!batch.try_admit(0));
    assert_eq!(batch.response_received(0, 500), None);
    assert_eq!(batch.chunk_received(0, b"abcd"), None);
    assert_eq!(batch.stream_finished(0), None);
    assert_eq!(batch.local_checked(7, LocalFile::Missing), None);
    assert_eq!(batch.fail(7, DownloadError::GenericDownload("x".to_string())), None);
    assert_eq!(batch.phase(0), Some(Phase::Pending));
    assert_eq!(batch.snapshot(), before);
    assert_eq!(batch.local_checked(0, LocalFile::Missing), Some(Plan::Transfer));
    assert_eq!(batch.local_checked(0, LocalFile::Missing), None);
}

#[test]
fn mixed_batch_requires_download() {
    let mut batch = Batch::new(vec![file("a"), file("b"), file("c")], 1, false, false);
    assert_eq!(
        batch.local_checked(0, LocalFile::Present { len: Some(1) }),
        Some(Plan::Skip)
    );
    assert_eq!(download(&mut batch, 1, &[b"payload"]), Ok(()));
    assert_eq!(batch.verdict(), None);
    assert_eq!(
        batch.local_checked(2, LocalFile::Present { len: Some(1) }),
        Some(Plan::Skip)
    );
    assert_eq!(batch.verdict(), Some(Ok(true)));
    assert_eq!(
        batch.snapshot(),
        Progress { total_count: 3, current_count: 1, total_size: 7, current_size: 7 }
    );
}
