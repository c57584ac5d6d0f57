use live_captions_gtk::asr::engine::{missing_file_message, recognizer_plan, ModelRole};
use live_captions_gtk::presets::asr_models;
use live_captions_gtk::pipeline::PipelineMsg;
use live_captions_gtk::ui::{
    caption_size, clamp_line_width, CaptionBoard, CaptionPage, CaptionTab, LOADING_TEXT,
};

#[test]
fn zipformer_plan_checks_four_files_in_order() {
    let plan = recognizer_plan(asr_models()[0].kind).expect("recognition model");
    assert_eq!(plan.model_type, "zipformer2");
    assert!(plan.transducer);
    let roles: Vec<(ModelRole, &str)> = plan.required.iter().map(|f| (f.role, f.filename)).collect();
    assert_eq!(
        roles,
        vec![
            (ModelRole::Encoder, "encoder.int8.onnx"),
            (ModelRole::Decoder, "decoder.onnx"),
            (ModelRole::Joiner, "joiner.int8.onnx"),
            (ModelRole::Tokens, "tokens.txt"),
        ]
    );
    assert_eq!(plan.num_threads, 4);
    assert_eq!(plan.provider, "cpu");
    assert_eq!(plan.decoding_method, "greedy_search");
    assert!(plan.enable_endpoint);
    assert!(plan.bpe_vocab.is_none());
}

#[test]
fn paraformer_plan_has_no_joiner() {
    let plan = recognizer_plan(asr_models()[1].kind).expect("recognition model");
    assert_eq!(plan.model_type, "paraformer");
    assert!(!plan.transducer);
    assert_eq!(plan.required.len(), 3);
    assert!(recognizer_plan(None).is_none());
}

#[test]
fn missing_files_are_named_by_role() {
    assert_eq!(missing_file_message(ModelRole::Encoder, "/m/e"), "缺少编码器: /m/e");
    assert_eq!(missing_file_message(ModelRole::Decoder, "/m/d"), "缺少解码器: /m/d");
    assert_eq!(missing_file_message(ModelRole::Joiner, "/m/j"), "缺少连接器: /m/j");
    assert_eq!(missing_file_message(ModelRole::Tokens, "/m/t"), "缺少词表: /m/t");
}

#[test]
fn caption_window_geometry() {
    assert_eq!(clamp_line_width(5), 10);
    assert_eq!(clamp_line_width(50), 50);
    assert_eq!(clamp_line_width(500), 200);
    let size = caption_size(600, 30);
    assert_eq!(size.caption_height, 64);
    assert_eq!(size.window_width, 680);
    assert_eq!(size.window_height, 84);
}

#[test]
fn captions_alternate_between_labels() {
    let mut board = CaptionBoard::new();
    assert!(board.toggle());
    assert!(board.is_listening());
    let loading = board.on_message(PipelineMsg::Loading);
    assert_eq!(loading.text, Some((CaptionTab::A, LOADING_TEXT.to_string())));
    assert_eq!(loading.page, CaptionPage::Caption);
    let ready = board.on_message(PipelineMsg::Ready);
    assert_eq!(ready.page, CaptionPage::Listening);
    assert!(ready.text.is_none());
    let first = board.on_message(PipelineMsg::Text("你好".to_string()));
    assert_eq!(first.text, Some((CaptionTab::B, "你好".to_string())));
    assert_eq!(first.show_tab, Some(CaptionTab::B));
    let second = board.on_message(PipelineMsg::Text("世界".to_string()));
    assert_eq!(second.text, Some((CaptionTab::A, "世界".to_string())));
    assert_eq!(second.reveal, Some(true));
    assert!(!second.stop);
}

#[test]
fn pipeline_error_stops_listening() {
    let mut board = CaptionBoard::new();
    board.toggle();
    board.on_message(PipelineMsg::Text("a".to_string()));
    let err = board.on_message(PipelineMsg::Error("模型加载失败".to_string()));
    assert!(err.stop);
    assert_eq!(err.text, Some((CaptionTab::A, "模型加载失败".to_string())));
    assert!(!board.is_listening());
}

#[test]
fn settings_change_and_toggle_stop_listening() {
    let mut board = CaptionBoard::new();
    assert!(!board.settings_changed());
    board.toggle();
    assert!(board.settings_changed());
    assert!(!board.is_listening());
    assert!(board.toggle());
    assert!(!board.toggle());
}
