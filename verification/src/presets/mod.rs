//! Application presets: default settings, paths and the model catalogue.
pub mod app;
pub mod models;

pub use app::{
    config_dir, default_auto_punctuation, default_font, default_language, default_line_width,
    default_model_path, default_punct_model_path, default_use_microphone, models_dir,
    settings_path, APP_ID, APP_NAME,
};
pub use models::{
    all_models, asr_models, find_model_by_dir, punct_models, DownloadMsg, ModelCategory,
    ModelFile, ModelInfo, ModelKind,
};
pub mod settings;

pub use settings::Settings;
