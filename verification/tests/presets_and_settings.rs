use live_captions_gtk::presets::app::join_path;
use live_captions_gtk::presets::settings::{settings_source, temporary_file_name, SettingsSource};
use live_captions_gtk::presets::{
    config_dir, default_auto_punctuation, default_font, default_language, default_line_width,
    default_model_path, default_punct_model_path, default_use_microphone, models_dir,
    settings_path, ModelCategory, Settings,
};

#[test]
fn paths_are_joined_like_unix_path_buffers() {
    assert_eq!(join_path("/a", "b"), "/a/b");
    assert_eq!(join_path("/a/", "b"), "/a/b");
    assert_eq!(join_path("", "b"), "b");
    assert_eq!(join_path("/a", "/b"), "/b");
    for (base, component) in [("/home/u", ".config"), ("rel", "x"), ("/", "y")] {
        assert_eq!(
            join_path(base, component),
            std::path::Path::new(base).join(component).to_string_lossy()
        );
    }
}

#[test]
fn configuration_directory_follows_the_environment() {
    assert_eq!(config_dir(Some("/xdg".into()), Some("/home/u".into())), "/xdg");
    assert_eq!(config_dir(None, Some("/home/u".into())), "/home/u/.config");
    assert_eq!(config_dir(None, None), ".");
}

#[test]
fn application_paths_live_under_the_configuration_directory() {
    assert_eq!(models_dir("/c"), "/c/live.captions.gtk/models");
    assert_eq!(settings_path("/c"), "/c/live.captions.gtk/settings.toml");
    assert_eq!(
        default_model_path("/c"),
        "/c/live.captions.gtk/models/sherpa-onnx-streaming-zipformer-zh-int8-2025-06-30"
    );
    assert_eq!(Settings::models_dir("/c"), "/c/live.captions.gtk/models");
}

#[test]
fn default_settings() {
    assert_eq!(default_language(), "auto");
    assert_eq!(default_font(), "Sans Regular 24");
    assert!(!default_use_microphone());
    assert_eq!(default_punct_model_path(), "");
    assert!(default_auto_punctuation());
    assert_eq!(default_line_width(), 50);
    let s = Settings::defaults("/c");
    assert_eq!(s.model_path, default_model_path("/c"));
    assert_eq!(s.language, "auto");
    assert!(s.installed_models.is_empty());
    assert_eq!(s.font_name, "Sans Regular 24");
    assert_eq!(s.line_width, 50);
    assert!(!s.use_microphone);
    assert_eq!(s.punct_model_path, "");
    assert!(s.auto_punctuation);
}

#[test]
fn downloads_register_models_once() {
    let mut s = Settings::defaults("/c");
    s.record_download("/m/a".into(), ModelCategory::Asr);
    s.record_download("/m/a".into(), ModelCategory::Asr);
    assert_eq!(s.installed_models, vec!["/m/a".to_string()]);
    assert_eq!(s.model_path, "/m/a");
    s.record_download("/m/p".into(), ModelCategory::Punctuation);
    assert_eq!(s.punct_model_path, "/m/p");
    assert_eq!(s.installed_models, vec!["/m/a".to_string()]);
    assert_eq!(s.model_path, "/m/a");
}

#[test]
fn removing_a_model_clears_it_everywhere() {
    let mut s = Settings::defaults("/c");
    assert!(s.add_installed_model("/m/a".into()));
    assert!(s.add_installed_model("/m/b".into()));
    assert!(!s.add_installed_model("/m/a".into()));
    s.model_path = "/m/a".into();
    s.remove_model("/m/a");
    assert_eq!(s.installed_models, vec!["/m/b".to_string()]);
    assert_eq!(s.model_path, "");
    s.model_path = "/m/b".into();
    s.remove_model("/m/zzz");
    assert_eq!(s.installed_models, vec!["/m/b".to_string()]);
    assert_eq!(s.model_path, "/m/b");
    assert!(s.is_installed("/m/b"));
    assert!(!s.is_installed("/m/a"));
}

#[test]
fn language_choices_map_to_list_positions() {
    let mut s = Settings::defaults("/c");
    assert_eq!(s.language_index(), 0);
    s.set_language_index(1);
    assert_eq!(s.language, "zh");
    assert_eq!(s.language_index(), 1);
    s.set_language_index(2);
    assert_eq!(s.language, "en");
    assert_eq!(s.language_index(), 2);
    s.language = "fr".into();
    assert_eq!(s.language_index(), 0);
}

#[test]
fn settings_are_read_from_toml_then_legacy_json_then_defaults() {
    assert_eq!(settings_source(true, true), SettingsSource::Toml);
    assert_eq!(settings_source(false, true), SettingsSource::LegacyJson);
    assert_eq!(settings_source(false, false), SettingsSource::Defaults);
    assert_eq!(temporary_file_name("settings.toml", 4321), ".settings.toml.4321.tmp");
}
