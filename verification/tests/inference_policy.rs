use std::time::Duration;

use live_captions_gtk::asr::{InferenceMetrics, InferencePolicy, InferenceSnapshot};

fn nanos(d: Duration) -> u128 {
    d.as_nanos()
}

fn real_time_factor(snapshot: &InferenceSnapshot) -> f64 {
    let audio_seconds = Duration::from_nanos(snapshot.audio_duration as u64).as_secs_f64();
    if audio_seconds == 0.0 {
        0.0
    } else {
        Duration::from_nanos(snapshot.inference_duration as u64).as_secs_f64() / audio_seconds
    }
}

#[test]
fn automatic_policy_derives_thread_count_without_user_profiles() {
    let one_core = InferencePolicy::from_parallelism(1);
    let four_cores = InferencePolicy::from_parallelism(4);
    let many_cores = InferencePolicy::from_parallelism(64);

    assert_eq!(one_core.num_threads, 1);
    assert_eq!(four_cores.num_threads, 3);
    assert_eq!(many_cores.num_threads, 8);
    assert_eq!(four_cores.decoding_method, "greedy_search");
}

#[test]
fn audio_block_size_follows_input_sample_rate() {
    let policy = InferencePolicy::from_parallelism(4);

    assert_eq!(policy.audio_block_samples(16_000), 1_600);
    assert_eq!(policy.audio_block_samples(48_000), 4_800);
    assert_eq!(policy.audio_block_samples(0), 1);
}

#[test]
fn metrics_emit_a_snapshot_only_after_the_window() {
    let start: u128 = 1_000_000_000;
    let mut metrics = InferenceMetrics::new(nanos(Duration::from_secs(5)), start);

    assert!(metrics
        .record(
            start + nanos(Duration::from_secs(4)),
            nanos(Duration::from_secs(1)),
            nanos(Duration::from_millis(200)),
            false,
        )
        .is_none());
    metrics.record_drops(2);

    let snapshot = metrics
        .record(
            start + nanos(Duration::from_secs(5)),
            nanos(Duration::from_secs(1)),
            nanos(Duration::from_millis(300)),
            true,
        )
        .expect("窗口结束后应生成诊断快照");

    assert_eq!(snapshot.blocks, 2);
    assert_eq!(snapshot.dropped_blocks, 2);
    assert_eq!(snapshot.endpoints, 1);
    assert!((real_time_factor(&snapshot) - 0.25).abs() < f64::EPSILON);
}

#[test]
fn zero_and_two_cores_both_get_one_thread() {
    assert_eq!(InferencePolicy::from_parallelism(0).num_threads, 1);
    assert_eq!(InferencePolicy::from_parallelism(2).num_threads, 1);
    assert_eq!(InferencePolicy::from_parallelism(9).num_threads, 8);
    let policy = InferencePolicy::from_parallelism(3);
    assert_eq!(policy.audio_block_duration, 100_000_000);
    assert_eq!(policy.punctuation_interval, 400_000_000);
}

#[test]
fn metrics_start_a_fresh_window_after_a_snapshot() {
    let mut metrics = InferenceMetrics::new(10, 100);
    let first = metrics.record(110, 7, 3, false).expect("the window has elapsed");
    assert_eq!(first.audio_duration, 7);
    assert_eq!(first.inference_duration, 3);
    assert_eq!(first.blocks, 1);
    assert_eq!(first.endpoints, 0);
    // The new window started at 110, so 115 is still inside it.
    assert!(metrics.record(115, 1, 1, true).is_none());
    let second = metrics.record(120, 2, 2, false).expect("the second window has elapsed");
    assert_eq!(second.audio_duration, 3);
    assert_eq!(second.blocks, 2);
    assert_eq!(second.endpoints, 1);
    assert_eq!(second.dropped_blocks, 0);
}

#[test]
fn metrics_clock_going_backwards_counts_as_no_time() {
    let mut metrics = InferenceMetrics::new(5, 100);
    assert!(metrics.record(50, 1, 1, false).is_none());
    let mut zero_window = InferenceMetrics::new(0, 100);
    assert!(zero_window.record(50, 1, 1, false).is_some());
}
