use std::time::Duration;

use live_captions_gtk::asr::PunctuationScheduler;

fn at(start: u128, offset: Duration) -> u128 {
    start + offset.as_nanos()
}

#[test]
fn punctuation_is_debounced_until_text_stabilizes() {
    let start: u128 = 7_000_000_000;
    let mut scheduler = PunctuationScheduler::new(Duration::from_millis(400).as_nanos());

    assert!(scheduler.should_run("你好", false, start));
    scheduler.record("你好", false, start);
    assert!(!scheduler.should_run("你好", false, at(start, Duration::from_millis(100))));
    assert!(!scheduler.should_run("你好世界", false, at(start, Duration::from_millis(100))));
    assert!(scheduler.should_run("你好世界", false, at(start, Duration::from_millis(400))));
}

#[test]
fn endpoint_forces_one_final_punctuation_pass() {
    let start: u128 = 7_000_000_000;
    let mut scheduler = PunctuationScheduler::new(Duration::from_secs(10).as_nanos());

    scheduler.record("完成", false, start);
    assert!(scheduler.should_run("完成", true, at(start, Duration::from_millis(1))));
    scheduler.record("完成", true, at(start, Duration::from_millis(1)));
    assert!(!scheduler.should_run("完成", true, at(start, Duration::from_millis(2))));
}

#[test]
fn empty_text_is_never_punctuated() {
    let scheduler = PunctuationScheduler::new(0);
    assert!(!scheduler.should_run("", true, 0));
}

#[test]
fn reset_forgets_the_last_run() {
    let mut scheduler = PunctuationScheduler::new(1_000);
    scheduler.record("abc", true, 10);
    assert!(!scheduler.should_run("abc", true, 20));
    scheduler.reset();
    assert!(scheduler.should_run("abc", false, 20));
    assert!(scheduler.should_run("abcd", true, 20));
}
