//! Application identity, configuration paths and default setting values.
//!
//! Paths are strings on a Unix file system. The configuration directory comes
//! from the environment, which the caller reads and hands in.
use vstd::prelude::*;

verus! {

pub const APP_ID: &'static str = "live.captions.gtk";

pub const APP_NAME: &'static str = "Live Captions";

/// Name of the settings file inside the application's configuration directory.
pub const SETTINGS_FILENAME: &'static str = "settings.toml";

/// Name of the application's directory inside the configuration directory.
pub const APP_CONFIG_DIR: &'static str = "live.captions.gtk";

/// Name of the models directory inside the application's directory.
pub const MODELS_SUBDIR: &'static str = "models";

/// Directory name of the default recognition model.
pub const DEFAULT_MODEL_DIR: &'static str = "sherpa-onnx-streaming-zipformer-zh-int8-2025-06-30";

/// Whether `s` ends with the path separator `/`.
pub open spec fn ends_with_separator(s: Seq<char>) -> bool {
    s.len() > 0 && s[s.len() - 1] == '/'
}

/// Appending `component` to the path `base`, as a Unix path buffer does: an
/// absolute component replaces the path; otherwise a `/` separates the two
/// unless `base` is empty or already ends with one.
pub open spec fn spec_join(base: Seq<char>, component: Seq<char>) -> Seq<char> {
    if component.len() > 0 && component[0] == '/' {
        component
    } else if base.len() == 0 || ends_with_separator(base) {
        base + component
    } else {
        base + seq!['/'] + component
    }
}

/// Joins `component` onto the path `base` (see [`spec_join`]).
pub fn join_path(base: &str, component: &str) -> (r: String)
    ensures
        r@ == spec_join(base@, component@),
{
    let comp_len = component.unicode_len();
    if comp_len > 0 && component.get_char(0) == '/' {
        return component.to_owned();
    }
    let base_len = base.unicode_len();
    let mut r = base.to_owned();
    if base_len > 0 && base.get_char(base_len - 1) != '/' {
        r.append("/");
        proof {
            reveal_strlit("/");
        }
    }
    r.append(component);
    r
}

/// The configuration directory chosen from the environment: `$XDG_CONFIG_HOME`
/// when set, else `$HOME/.config` when `HOME` is set, else the current directory.
pub open spec fn spec_config_dir(xdg_config_home: Option<Seq<char>>, home: Option<Seq<char>>) -> Seq<char> {
    match xdg_config_home {
        Some(x) => x,
        None => match home {
            Some(h) => spec_join(h, ".config"@),
            None => "."@,
        },
    }
}

/// The configuration directory, from the values of `XDG_CONFIG_HOME` and `HOME`
/// (`None` when a variable is unset or not valid Unicode).
pub fn config_dir(xdg_config_home: Option<String>, home: Option<String>) -> (r: String)
    ensures
        r@ == spec_config_dir(
            match xdg_config_home {
                Some(x) => Some(x@),
                None => None,
            },
            match home {
                Some(h) => Some(h@),
                None => None,
            },
        ),
{
    match xdg_config_home {
        Some(x) => x,
        None => match home {
            Some(h) => join_path(h.as_str(), ".config"),
            None => String::from_str("."),
        },
    }
}

/// The directory holding downloaded models.
pub open spec fn spec_models_dir(config_dir: Seq<char>) -> Seq<char> {
    spec_join(spec_join(config_dir, APP_CONFIG_DIR@), MODELS_SUBDIR@)
}

/// The directory holding downloaded models, under the configuration directory.
pub fn models_dir(config_dir: &str) -> (r: String)
    ensures
        r@ == spec_models_dir(config_dir@),
{
    let app_dir = join_path(config_dir, APP_CONFIG_DIR);
    join_path(app_dir.as_str(), MODELS_SUBDIR)
}

/// The settings file, under the configuration directory.
pub fn settings_path(config_dir: &str) -> (r: String)
    ensures
        r@ == spec_join(spec_join(config_dir@, APP_CONFIG_DIR@), SETTINGS_FILENAME@),
{
    let app_dir = join_path(config_dir, APP_CONFIG_DIR);
    join_path(app_dir.as_str(), SETTINGS_FILENAME)
}

/// The directory of the default recognition model.
pub open spec fn spec_default_model_path(config_dir: Seq<char>) -> Seq<char> {
    spec_join(spec_models_dir(config_dir), DEFAULT_MODEL_DIR@)
}

/// The directory of the default recognition model, under the models directory.
pub fn default_model_path(config_dir: &str) -> (r: String)
    ensures
        r@ == spec_default_model_path(config_dir@),
{
    let models = models_dir(config_dir);
    join_path(models.as_str(), DEFAULT_MODEL_DIR)
}

/// Default recognition language: detected automatically.
pub fn default_language() -> (r: String)
    ensures
        r@ == "auto"@,
{
    String::from_str("auto")
}

/// Default caption font.
pub fn default_font() -> (r: String)
    ensures
        r@ == "Sans Regular 24"@,
{
    String::from_str("Sans Regular 24")
}

/// By default the system audio, not the microphone, is captioned.
pub fn default_use_microphone() -> (r: bool)
    ensures
        !r,
{
    false
}

/// By default no punctuation model is configured.
pub fn default_punct_model_path() -> (r: String)
    ensures
        r@ == Seq::<char>::empty(),
{
    String::new()
}

/// Punctuation is restored automatically by default.
pub fn default_auto_punctuation() -> (r: bool)
    ensures
        r,
{
    true
}

/// Default caption width, in characters per line.
pub fn default_line_width() -> (r: i32)
    ensures
        r == 50,
{
    50
}

} // verus!
