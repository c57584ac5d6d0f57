use live_captions_gtk::presets::models::detect_model_type;
use live_captions_gtk::presets::{
    all_models, asr_models, find_model_by_dir, punct_models, ModelCategory, ModelInfo,
};

fn names(model: &ModelInfo) -> Vec<String> {
    model.files.iter().map(|f| f.filename.to_string()).collect()
}

#[test]
fn every_catalog_file_declares_a_required_name() {
    for model in asr_models().iter().chain(punct_models()) {
        assert!(model
            .archive_url
            .starts_with("https://github.com/k2-fsa/sherpa-onnx/releases/download/"));
        assert!(model.archive_url.ends_with(".tar.bz2"));
        for file in model.files {
            assert!(!file.filename.is_empty());
        }
    }
}

#[test]
fn model_completion_requires_all_non_empty_files() {
    let model: &ModelInfo = &asr_models()[0];
    let mut present: Vec<String> = Vec::new();

    assert!(!model.is_complete(&present));
    present.extend(names(model));
    assert!(model.is_complete(&present));
    assert_eq!(
        find_model_by_dir(&present).map(|model| model.category),
        Some(ModelCategory::Asr)
    );
}

#[test]
fn catalogue_lists_recognition_models_before_punctuation_models() {
    let models = all_models();
    assert_eq!(models.len(), 3);
    assert_eq!(models[0].dir_name, "sherpa-onnx-streaming-zipformer-zh-int8-2025-06-30");
    assert_eq!(models[1].dir_name, "sherpa-onnx-streaming-paraformer-bilingual-zh-en");
    assert_eq!(models[2].category, ModelCategory::Punctuation);
    assert!(models[2].kind.is_none());
}

#[test]
fn missing_file_makes_a_model_incomplete() {
    let model = &asr_models()[1];
    let mut present = names(model);
    present.pop();
    assert!(!model.is_complete(&present));
    assert!(find_model_by_dir(&present).is_none());
}

#[test]
fn directory_is_recognised_as_its_first_complete_model() {
    let punct = &punct_models()[0];
    let found = find_model_by_dir(&names(punct)).expect("the punctuation model is complete");
    assert_eq!(found.dir_name, punct.dir_name);
    assert_eq!(found.category, ModelCategory::Punctuation);

    let mut both = names(&asr_models()[1]);
    both.extend(names(&asr_models()[0]));
    let found = find_model_by_dir(&both).expect("both recognition models are complete");
    assert_eq!(found.name, asr_models()[0].name);
}

#[test]
fn detected_model_type_names_the_recognition_model() {
    assert_eq!(
        detect_model_type(&names(&asr_models()[1])),
        (true, "Streaming Paraformer (中英双语)")
    );
    assert_eq!(detect_model_type(&names(&punct_models()[0])), (false, ""));
}
