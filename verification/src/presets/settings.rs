//! User settings and the edits the settings window makes to them.
//!
//! Reading and writing the settings file is the caller's business; this module
//! holds the values and the rules that change them.
use vstd::prelude::*;

use super::app;
use super::models::{string_views, ModelCategory};
use crate::text::{decimal, spec_decimal};

verus! {

/// Persistent user settings.
#[derive(Clone, Debug)]
pub struct Settings {
    pub model_path: String,
    pub language: String,
    pub installed_models: Vec<String>,
    pub font_name: String,
    pub line_width: i32,
    pub use_microphone: bool,
    pub punct_model_path: String,
    pub auto_punctuation: bool,
}

/// Abstract value of [`Settings`].
pub struct SettingsView {
    pub model_path: Seq<char>,
    pub language: Seq<char>,
    pub installed_models: Seq<Seq<char>>,
    pub font_name: Seq<char>,
    pub line_width: i32,
    pub use_microphone: bool,
    pub punct_model_path: Seq<char>,
    pub auto_punctuation: bool,
}

impl View for Settings {
    type V = SettingsView;

    open spec fn view(&self) -> SettingsView {
        SettingsView {
            model_path: self.model_path@,
            language: self.language@,
            installed_models: string_views(self.installed_models@),
            font_name: self.font_name@,
            line_width: self.line_width,
            use_microphone: self.use_microphone,
            punct_model_path: self.punct_model_path@,
            auto_punctuation: self.auto_punctuation,
        }
    }
}

/// The recognition languages offered, in the order the settings window lists them.
pub open spec fn spec_languages() -> Seq<Seq<char>> {
    seq!["auto"@, "zh"@, "en"@]
}

/// Position of `language` among [`spec_languages`], or 0 when it is not listed.
pub open spec fn spec_language_index(language: Seq<char>) -> int {
    if language == spec_languages()[0] {
        0
    } else if language == spec_languages()[1] {
        1
    } else if language == spec_languages()[2] {
        2
    } else {
        0
    }
}

/// `names` with every occurrence of `name` left out.
pub open spec fn without(names: Seq<Seq<char>>, name: Seq<char>) -> Seq<Seq<char>> {
    names.filter(differs_from(name))
}

/// The predicate "differs from `name`".
pub open spec fn differs_from(name: Seq<char>) -> spec_fn(Seq<char>) -> bool {
    |n: Seq<char>| n != name
}

/// The settings after a model downloaded to `path` has been registered: a
/// punctuation model becomes the punctuation model; a recognition model is added
/// to the installed models (once) and becomes the current model.
pub open spec fn spec_record_download(s: SettingsView, path: Seq<char>, category: ModelCategory) -> SettingsView {
    match category {
        ModelCategory::Punctuation => SettingsView { punct_model_path: path, ..s },
        ModelCategory::Asr => SettingsView {
            installed_models: if s.installed_models.contains(path) {
                s.installed_models
            } else {
                s.installed_models.push(path)
            },
            model_path: path,
            ..s
        },
    }
}

impl Settings {
    /// The default settings, for the given configuration directory.
    pub fn defaults(config_dir: &str) -> (r: Settings)
        ensures
            r@.model_path == app::spec_default_model_path(config_dir@),
            r@.language == "auto"@,
            r@.installed_models == Seq::<Seq<char>>::empty(),
            r@.font_name == "Sans Regular 24"@,
            r@.line_width == 50,
            !r@.use_microphone,
            r@.punct_model_path == Seq::<char>::empty(),
            r@.auto_punctuation,
    {
        let r = Settings {
            model_path: app::default_model_path(config_dir),
            language: app::default_language(),
            installed_models: Vec::new(),
            font_name: app::default_font(),
            line_width: app::default_line_width(),
            use_microphone: app::default_use_microphone(),
            punct_model_path: app::default_punct_model_path(),
            auto_punctuation: app::default_auto_punctuation(),
        };
        proof {
            assert(string_views(r.installed_models@) =~= Seq::<Seq<char>>::empty());
        }
        r
    }

    /// The directory holding downloaded models, under the configuration directory.
    pub fn models_dir(config_dir: &str) -> (r: String)
        ensures
            r@ == app::spec_models_dir(config_dir@),
    {
        app::models_dir(config_dir)
    }

    /// Whether `path` is among the installed models.
    pub fn is_installed(&self, path: &str) -> (r: bool)
        ensures
            r == self@.installed_models.contains(path@),
    {
        super::models::contains_name(self.installed_models.as_slice(), path)
    }

    /// Adds `path` to the installed models unless it is already there; returns
    /// whether it was added.
    pub fn add_installed_model(&mut self, path: String) -> (r: bool)
        ensures
            r == !old(self)@.installed_models.contains(path@),
            final(self)@ == (SettingsView {
                installed_models: if r {
                    old(self)@.installed_models.push(path@)
                } else {
                    old(self)@.installed_models
                },
                ..old(self)@
            }),
    {
        if self.is_installed(path.as_str()) {
            return false;
        }
        let ghost before = self.installed_models@;
        self.installed_models.push(path);
        proof {
            assert(string_views(self.installed_models@) =~= string_views(before).push(path@));
        }
        true
    }

    /// Registers a model that finished downloading to `path` (see [`spec_record_download`]).
    pub fn record_download(&mut self, path: String, category: ModelCategory)
        ensures
            final(self)@ == spec_record_download(old(self)@, path@, category),
            category == ModelCategory::Asr ==> final(self)@.model_path == path@,
            category == ModelCategory::Asr ==> final(self)@.installed_models.contains(path@),
            category == ModelCategory::Asr && old(self)@.installed_models.contains(path@)
                ==> final(self)@.installed_models == old(self)@.installed_models,
            forall|m: Seq<char>| old(self)@.installed_models.contains(m) ==> #[trigger] final(self)@.installed_models.contains(m),
            category == ModelCategory::Punctuation ==> final(self)@.punct_model_path == path@
                && final(self)@.model_path == old(self)@.model_path
                && final(self)@.installed_models == old(self)@.installed_models,
    {
        match category {
            ModelCategory::Punctuation => {
                self.punct_model_path = path;
            },
            ModelCategory::Asr => {
                let copy = path.clone();
                self.add_installed_model(copy);
                self.model_path = path;
                proof {
                    lemma_downloaded_model_becomes_current(old(self)@, path@);
                }
            },
        }
    }

    /// Forgets the installed model at `path`; when it was the current model, no
    /// model is current any more.
    pub fn remove_model(&mut self, path: &str)
        ensures
            final(self)@ == (SettingsView {
                installed_models: without(old(self)@.installed_models, path@),
                model_path: if old(self)@.model_path == path@ {
                    Seq::<char>::empty()
                } else {
                    old(self)@.model_path
                },
                ..old(self)@
            }),
    {
        let wanted = path.to_owned();
        let ghost old_names = self@.installed_models;
        let mut kept: Vec<String> = Vec::new();
        let mut i: usize = 0;
        while i < self.installed_models.len()
            invariant
                i <= self.installed_models@.len(),
                wanted@ == path@,
                old_names == string_views(self.installed_models@),
                string_views(kept@) == without(old_names.subrange(0, i as int), path@),
            decreases self.installed_models@.len() - i,
        {
            let name = self.installed_models[i].clone();
            proof {
                assert(old_names.subrange(0, i + 1) =~= old_names.subrange(0, i as int).push(name@));
                old_names.subrange(0, i as int).lemma_filter_push(name@, differs_from(path@));
            }
            if name != wanted {
                let ghost before = kept@;
                kept.push(name);
                proof {
                    assert(string_views(kept@) =~= string_views(before).push(name@));
                }
            }
            i = i + 1;
        }
        proof {
            assert(old_names.subrange(0, old_names.len() as int) =~= old_names);
        }
        self.installed_models = kept;
        if self.model_path == wanted {
            self.model_path = String::new();
        }
    }

    /// Position of the current language in the settings window's list
    /// (`auto`, `zh`, `en`), or 0 when it is not listed.
    pub fn language_index(&self) -> (r: u32)
        ensures
            r as int == spec_language_index(self@.language),
    {
        proof {
            reveal_strlit("auto");
            reveal_strlit("zh");
            reveal_strlit("en");
        }
        if self.language == String::from_str("auto") {
            0
        } else if self.language == String::from_str("zh") {
            1
        } else if self.language == String::from_str("en") {
            2
        } else {
            0
        }
    }

    /// Selects the language at position `index` of the settings window's list.
    pub fn set_language_index(&mut self, index: u32)
        requires
            index < 3,
        ensures
            final(self)@ == (SettingsView { language: spec_languages()[index as int], ..old(self)@ }),
    {
        if index == 0 {
            self.language = String::from_str("auto");
        } else if index == 1 {
            self.language = String::from_str("zh");
        } else {
            self.language = String::from_str("en");
        }
    }
}

/// Where the settings are read from.
#[derive(Clone, Copy, Debug, PartialEq, Eq, Structural)]
pub enum SettingsSource {
    /// The TOML settings file.
    Toml,
    /// The legacy JSON file next to it, which is then migrated to TOML.
    LegacyJson,
    /// Neither exists: the defaults, which are then saved.
    Defaults,
}

/// Name of the legacy JSON settings file, next to the TOML file.
pub const LEGACY_SETTINGS_FILENAME: &'static str = "settings.json";

/// Chooses where to read the settings from: the TOML file when it exists, else
/// the legacy JSON file when it exists, else the defaults.
pub fn settings_source(toml_exists: bool, legacy_exists: bool) -> (r: SettingsSource)
    ensures
        toml_exists ==> r == SettingsSource::Toml,
        !toml_exists && legacy_exists ==> r == SettingsSource::LegacyJson,
        !toml_exists && !legacy_exists ==> r == SettingsSource::Defaults,
{
    if toml_exists {
        SettingsSource::Toml
    } else if legacy_exists {
        SettingsSource::LegacyJson
    } else {
        SettingsSource::Defaults
    }
}

/// Name of the temporary file the settings file `file_name` is first written to
/// by process `pid`, before it atomically replaces the settings file.
pub fn temporary_file_name(file_name: &str, pid: u32) -> (r: String)
    ensures
        r@ == "."@ + file_name@ + "."@ + spec_decimal(pid as nat) + ".tmp"@,
{
    let mut r = String::from_str(".");
    r.append(file_name);
    r.append(".");
    let digits = decimal(pid as u64);
    r.append(digits.as_str());
    r.append(".tmp");
    r
}

/// Registering the same download twice changes nothing the second time.
pub proof fn lemma_record_download_idempotent(s: SettingsView, path: Seq<char>, category: ModelCategory)
    ensures
        spec_record_download(spec_record_download(s, path, category), path, category)
            == spec_record_download(s, path, category),
{
    let pushed = s.installed_models.push(path);
    assert(pushed[pushed.len() - 1] == path);
    assert(pushed.contains(path));
}

/// Registering downloads never lists an installed model twice.
pub proof fn lemma_record_download_keeps_models_distinct(
    s: SettingsView,
    path: Seq<char>,
    category: ModelCategory,
)
    requires
        s.installed_models.no_duplicates(),
    ensures
        spec_record_download(s, path, category).installed_models.no_duplicates(),
{
    if category == ModelCategory::Asr && !s.installed_models.contains(path) {
        let after = s.installed_models.push(path);
        assert forall|i: int, j: int| 0 <= i < after.len() && 0 <= j < after.len() && i != j
            implies after[i] != after[j] by {
            if i == s.installed_models.len() as int {
                assert(s.installed_models[j] == after[j]);
            } else if j == s.installed_models.len() as int {
                assert(s.installed_models[i] == after[i]);
            }
        }
    }
}

/// After a model is removed it is no longer installed, and every other
/// installed model stays.
pub proof fn lemma_removed_model_is_gone(names: Seq<Seq<char>>, path: Seq<char>, other: Seq<char>)
    requires
        other != path,
    ensures
        !without(names, path).contains(path),
        without(names, path).contains(other) == names.contains(other),
{
    let pred = differs_from(path);
    if without(names, path).contains(path) {
        let k = choose|k: int| 0 <= k < without(names, path).len() && without(names, path)[k] == path;
        names.lemma_filter_pred(pred, k);
    }
    if names.contains(other) {
        let k = choose|k: int| 0 <= k < names.len() && names[k] == other;
        names.lemma_filter_contains(pred, k);
    }
    if without(names, path).contains(other) {
        names.lemma_filter_contains_rev(pred, other);
    }
}

/// A downloaded recognition model becomes the current model and is installed,
/// whether or not it was installed before; a model already installed is not
/// listed again, and every model installed before stays installed.
pub proof fn lemma_downloaded_model_becomes_current(s: SettingsView, path: Seq<char>)
    ensures
        ({
            let after = spec_record_download(s, path, ModelCategory::Asr);
            &&& after.model_path == path
            &&& after.installed_models.contains(path)
            &&& s.installed_models.contains(path) ==> after.installed_models == s.installed_models
            &&& forall|m: Seq<char>| s.installed_models.contains(m) ==> #[trigger] after.installed_models.contains(m)
        }),
{
    let pushed = s.installed_models.push(path);
    assert(pushed[pushed.len() - 1] == path);
    assert forall|m: Seq<char>| s.installed_models.contains(m) implies #[trigger] spec_record_download(
        s,
        path,
        ModelCategory::Asr,
    ).installed_models.contains(m) by {
        if !s.installed_models.contains(path) {
            let k = choose|k: int| 0 <= k < s.installed_models.len() && s.installed_models[k] == m;
            assert(pushed[k] == m);
        }
    }
}

} // verus!
