use live_captions_gtk::downloader::archive::check_archive_name;
use live_captions_gtk::downloader::http::{
    accepts_byte_ranges, check_download_size, check_merged_size, check_part_size,
    content_length, content_range_total, download_ranges, is_retryable_status,
    part_path, partial_file_name, report_progress, retry_delay, use_parallel_download,
    ByteRange, RequestOutcome, RetryAction, RetryState, PROGRESS_STEP,
};
use live_captions_gtk::downloader::archive_file_name;
use live_captions_gtk::presets::DownloadMsg;

#[test]
fn archive_name_is_the_last_url_segment() {
    assert_eq!(
        archive_file_name("https://example.org/asr-models/model-a.tar.bz2"),
        "model-a.tar.bz2"
    );
    assert_eq!(archive_file_name("https://example.org/dir/"), "");
    assert_eq!(archive_file_name("no-slash"), "model.tar.bz2");
}

#[test]
fn only_bzip2_tarballs_are_extracted() {
    assert!(check_archive_name("a.tar.bz2").is_ok());
    assert!(check_archive_name("a.tbz2").is_ok());
    assert_eq!(check_archive_name("a.zip"), Err("不支持的压缩格式: a.zip".to_string()));
    assert_eq!(check_archive_name(""), Err("不支持的压缩格式: ".to_string()));
}

#[test]
fn parallel_ranges_tile_the_file() {
    let total: u64 = 300 * 1024 * 1024 + 5;
    let ranges = download_ranges(total);
    assert_eq!(ranges.len(), 6);
    assert_eq!(ranges[0].start, 0);
    for pair in ranges.windows(2) {
        assert_eq!(pair[1].start, pair[0].end + 1);
    }
    assert_eq!(ranges[5].end, total - 1);
    let chunk = total / 6;
    assert_eq!(ranges[1].start, chunk);
    assert_eq!(ranges[0].end, chunk - 1);
}

#[test]
fn small_files_are_split_in_two() {
    let ranges = download_ranges(3);
    assert_eq!(ranges.len(), 2);
    assert_eq!((ranges[0].start, ranges[0].end), (0, 0));
    assert_eq!((ranges[1].start, ranges[1].end), (1, 2));
    let ranges = download_ranges(3 * 1024 * 1024);
    assert_eq!(ranges.len(), 4);
}

#[test]
fn parallel_download_needs_ranges_and_a_large_file() {
    assert!(use_parallel_download(100 * 1024 * 1024 + 1, true));
    assert!(!use_parallel_download(100 * 1024 * 1024, true));
    assert!(!use_parallel_download(u64::MAX, false));
}

#[test]
fn retryable_statuses() {
    assert!(is_retryable_status(408));
    assert!(is_retryable_status(429));
    assert!(is_retryable_status(500));
    assert!(is_retryable_status(599));
    assert!(!is_retryable_status(404));
    assert!(!is_retryable_status(600));
    assert!(!is_retryable_status(200));
}

#[test]
fn retry_delay_doubles_from_four_hundred_milliseconds() {
    assert_eq!(retry_delay(1), 400_000_000);
    assert_eq!(retry_delay(2), 800_000_000);
    assert_eq!(retry_delay(3), 1_600_000_000);
    assert_eq!(retry_delay(0), 400_000_000);
}

#[test]
fn retries_stop_after_three_attempts() {
    let mut state = RetryState::new();
    match state.on_outcome(RequestOutcome::Status { code: 503, text: "503 Service Unavailable".into() }) {
        RetryAction::RetryAfter(delay) => assert_eq!(delay, 400_000_000),
        other => panic!("expected a retry, got {other:?}"),
    }
    match state.on_outcome(RequestOutcome::NetworkError("timed out".into())) {
        RetryAction::RetryAfter(delay) => assert_eq!(delay, 800_000_000),
        other => panic!("expected a retry, got {other:?}"),
    }
    match state.on_outcome(RequestOutcome::Status { code: 429, text: "429 Too Many Requests".into() }) {
        RetryAction::Fail(message) => assert_eq!(message, "服务器返回 429 Too Many Requests"),
        other => panic!("expected a failure, got {other:?}"),
    }
}

#[test]
fn success_is_accepted_and_client_errors_fail_at_once() {
    let mut state = RetryState::new();
    assert!(matches!(
        state.on_outcome(RequestOutcome::Status { code: 206, text: "206 Partial Content".into() }),
        RetryAction::Accept
    ));
    match state.on_outcome(RequestOutcome::Status { code: 404, text: "404 Not Found".into() }) {
        RetryAction::Fail(message) => assert_eq!(message, "服务器返回 404 Not Found"),
        other => panic!("expected a failure, got {other:?}"),
    }
    let mut state = RetryState::new();
    assert!(matches!(state.on_failure("a".into()), RetryAction::RetryAfter(_)));
    assert!(matches!(state.on_failure("b".into()), RetryAction::RetryAfter(_)));
    match state.on_failure("c".into()) {
        RetryAction::Fail(message) => assert_eq!(message, "c"),
        other => panic!("expected a failure, got {other:?}"),
    }
    let mut state = RetryState::new();
    state.on_outcome(RequestOutcome::NetworkError("x".into()));
    state.on_outcome(RequestOutcome::NetworkError("y".into()));
    match state.on_outcome(RequestOutcome::NetworkError("reset".into())) {
        RetryAction::Fail(message) => assert_eq!(message, "网络请求失败: reset"),
        other => panic!("expected a failure, got {other:?}"),
    }
}

#[test]
fn progress_is_reported_once_per_mebibyte_and_at_the_end() {
    let mut last = 0u64;
    assert!(report_progress(PROGRESS_STEP - 1, 10, &mut last, false).is_none());
    assert_eq!(last, 0);
    match report_progress(PROGRESS_STEP, 10, &mut last, false) {
        Some(DownloadMsg::Progress { downloaded, total }) => {
            assert_eq!(downloaded, PROGRESS_STEP);
            assert_eq!(total, 10);
        }
        _ => panic!("progress should be reported"),
    }
    assert_eq!(last, PROGRESS_STEP);
    assert!(report_progress(PROGRESS_STEP + 1, 10, &mut last, true).is_some());
    assert_eq!(last, PROGRESS_STEP + 1);
}

#[test]
fn temporary_download_names() {
    assert_eq!(partial_file_name("model.tar.bz2"), ".model.tar.bz2.part");
    assert_eq!(part_path("/tmp/.a.part", 3), "/tmp/.a.part.part_3");
    assert_eq!(part_path("x", 12), "x.part_12");
}

#[test]
fn size_checks_report_expected_and_actual_bytes() {
    assert!(check_download_size(0, 5).is_ok());
    assert!(check_download_size(5, 5).is_ok());
    assert_eq!(
        check_download_size(10, 4),
        Err("下载大小不匹配：期望 10 字节，实际 4 字节".to_string())
    );
    assert!(check_part_size(ByteRange { start: 0, end: 9 }, 10).is_ok());
    assert_eq!(
        check_part_size(ByteRange { start: 10, end: 19 }, 3),
        Err("分片大小不匹配：期望 10 字节，实际 3 字节".to_string())
    );
    assert!(check_merged_size(7, 7).is_ok());
    assert_eq!(
        check_merged_size(7, 8),
        Err("分块合并大小不匹配：期望 7 字节，实际 8 字节".to_string())
    );
}

#[test]
fn header_values_are_parsed() {
    assert_eq!(content_length(Some("1234")), Some(1234));
    assert_eq!(content_length(Some("12x")), None);
    assert_eq!(content_length(None), None);
    assert_eq!(content_range_total(Some("bytes 0-0/98765")), Some(98765));
    assert_eq!(content_range_total(Some("bytes 0-0/*")), None);
    assert_eq!(content_range_total(Some("98765")), None);
    assert_eq!(content_range_total(None), None);
    assert!(accepts_byte_ranges(Some("bytes")));
    assert!(!accepts_byte_ranges(Some("none")));
    assert!(!accepts_byte_ranges(None));
}
