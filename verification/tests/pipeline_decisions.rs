use live_captions_gtk::pipeline::{
    asr_model_for_dir, capture_block_samples, punctuation_model_file, punctuation_model_path,
    strip_trailing_punctuation, RecognitionTracker,
};
use live_captions_gtk::presets::{asr_models, punct_models, ModelCategory, Settings};

fn names(files: &[live_captions_gtk::presets::ModelFile]) -> Vec<String> {
    files.iter().map(|f| f.filename.to_string()).collect()
}

#[test]
fn capture_blocks_hold_a_fifth_of_a_second() {
    assert_eq!(capture_block_samples(16_000), 3_200);
    assert_eq!(capture_block_samples(44_100), 8_820);
    assert_eq!(capture_block_samples(48_000), 9_600);
    assert_eq!(capture_block_samples(4), 1);
    assert_eq!(capture_block_samples(0), 1);
}

#[test]
fn only_recognition_models_are_loaded_by_the_pipeline() {
    let asr = asr_model_for_dir(&names(asr_models()[0].files)).expect("complete recognition model");
    assert_eq!(asr.category, ModelCategory::Asr);
    assert!(asr_model_for_dir(&names(punct_models()[0].files)).is_none());
    assert!(asr_model_for_dir(&[]).is_none());
}

#[test]
fn trailing_punctuation_is_removed() {
    assert_eq!(strip_trailing_punctuation("你好，世界。"), "你好，世界");
    assert_eq!(strip_trailing_punctuation("Hello, world?!."), "Hello, world");
    assert_eq!(strip_trailing_punctuation("。！"), "");
    assert_eq!(strip_trailing_punctuation("no change"), "no change");
}

#[test]
fn captions_are_sent_only_when_they_change() {
    let mut tracker = RecognitionTracker::new();
    assert_eq!(tracker.publish("你好".to_string(), false), Some("你好".to_string()));
    assert_eq!(tracker.publish("你好".to_string(), false), None);
    assert_eq!(tracker.publish(String::new(), false), None);
    assert_eq!(tracker.publish("你好世界".to_string(), true), Some("你好世界".to_string()));
    // The endpoint ended the utterance: the same words start a new caption.
    assert_eq!(tracker.publish("你好世界".to_string(), false), Some("你好世界".to_string()));
}

#[test]
fn dropped_audio_restarts_recognition_once() {
    let mut tracker = RecognitionTracker::new();
    assert!(!tracker.observe_drops(0));
    tracker.publish("abc".to_string(), false);
    assert!(tracker.observe_drops(2));
    assert!(!tracker.observe_drops(2));
    assert_eq!(tracker.publish("abc".to_string(), false), Some("abc".to_string()));
}

#[test]
fn punctuation_model_is_used_only_when_enabled_and_configured() {
    let mut settings = Settings::defaults("/home/u/.config");
    assert_eq!(punctuation_model_path(&settings), None);
    settings.punct_model_path = "  /models/punct \n".to_string();
    assert_eq!(punctuation_model_path(&settings), Some("/models/punct".to_string()));
    settings.auto_punctuation = false;
    assert_eq!(punctuation_model_path(&settings), None);
    assert_eq!(punctuation_model_file("/models/punct", true), "/models/punct/model.int8.onnx");
    assert_eq!(punctuation_model_file("/models/p.onnx", false), "/models/p.onnx");
}
