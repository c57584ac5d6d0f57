//! Catalogue of built-in models.
//!
//! Each model lists the files it needs and, for recognition models, tells the
//! engine how to load them ([`ModelKind`]).
use vstd::prelude::*;

verus! {

/// How the recognition engine loads a model.
#[derive(Clone, Copy, Debug)]
pub enum ModelKind {
    /// Streaming Zipformer transducer: encoder, decoder and joiner.
    StreamingZipformer {
        encoder: &'static str,
        decoder: &'static str,
        joiner: &'static str,
        tokens: &'static str,
        bpe_vocab: Option<&'static str>,
    },
    /// Streaming Paraformer: encoder and decoder only.
    Paraformer { encoder: &'static str, decoder: &'static str, tokens: &'static str },
}

/// What a model is used for.
#[derive(Clone, Copy, Debug, PartialEq, Eq, Structural)]
pub enum ModelCategory {
    /// Speech recognition.
    Asr,
    /// Punctuation restoration.
    Punctuation,
}

/// One file a model needs in its directory.
#[derive(Clone, Copy, Debug)]
pub struct ModelFile {
    pub filename: &'static str,
}

/// Metadata of a built-in model.
#[derive(Clone, Copy, Debug)]
pub struct ModelInfo {
    pub name: &'static str,
    pub description: &'static str,
    pub dir_name: &'static str,
    /// Release archive of the model.
    pub archive_url: &'static str,
    /// How the engine loads the model (recognition models only).
    pub kind: Option<ModelKind>,
    pub category: ModelCategory,
    pub files: &'static [ModelFile],
}

/// Progress of a model download, as reported to the user interface.
#[derive(Debug)]
pub enum DownloadMsg {
    Progress { downloaded: u64, total: u64 },
    Done(String),
    Error(String),
}

/// Abstract value of a [`ModelKind`].
pub enum KindView {
    StreamingZipformer {
        encoder: Seq<char>,
        decoder: Seq<char>,
        joiner: Seq<char>,
        tokens: Seq<char>,
        bpe_vocab: Option<Seq<char>>,
    },
    Paraformer { encoder: Seq<char>, decoder: Seq<char>, tokens: Seq<char> },
}

/// Abstract value of a [`ModelInfo`].
pub struct ModelView {
    pub name: Seq<char>,
    pub description: Seq<char>,
    pub dir_name: Seq<char>,
    pub archive_url: Seq<char>,
    pub kind: Option<KindView>,
    pub category: ModelCategory,
    pub files: Seq<Seq<char>>,
}

impl View for ModelKind {
    type V = KindView;

    open spec fn view(&self) -> KindView {
        match *self {
            ModelKind::StreamingZipformer { encoder, decoder, joiner, tokens, bpe_vocab } =>
                KindView::StreamingZipformer {
                encoder: encoder@,
                decoder: decoder@,
                joiner: joiner@,
                tokens: tokens@,
                bpe_vocab: match bpe_vocab {
                    Some(b) => Some(b@),
                    None => None,
                },
            },
            ModelKind::Paraformer { encoder, decoder, tokens } => KindView::Paraformer {
                encoder: encoder@,
                decoder: decoder@,
                tokens: tokens@,
            },
        }
    }
}

/// Release archives of every built-in model are served from this location.
pub open spec fn release_url_prefix() -> Seq<char> {
    "https://github.com/k2-fsa/sherpa-onnx/releases/download/"@
}

/// Whether `s` starts with `prefix`.
pub open spec fn has_prefix(s: Seq<char>, prefix: Seq<char>) -> bool {
    prefix.len() <= s.len() && s.subrange(0, prefix.len() as int) == prefix
}

/// Whether `s` ends with `suffix`.
pub open spec fn has_suffix(s: Seq<char>, suffix: Seq<char>) -> bool {
    suffix.len() <= s.len() && s.subrange(s.len() - suffix.len(), s.len() as int) == suffix
}

/// Whether a catalogue entry is well formed: its archive is a `.tar.bz2`
/// release archive and every file it needs has a non-empty name.
pub open spec fn catalog_entry_ok(m: ModelView) -> bool {
    &&& has_prefix(m.archive_url, release_url_prefix())
    &&& has_suffix(m.archive_url, ".tar.bz2"@)
    &&& forall|j: int| 0 <= j < m.files.len() ==> (#[trigger] m.files[j]).len() > 0
}

/// The names of `files`.
pub open spec fn file_names(files: Seq<ModelFile>) -> Seq<Seq<char>> {
    files.map_values(|f: ModelFile| f.filename@)
}

impl View for ModelInfo {
    type V = ModelView;

    open spec fn view(&self) -> ModelView {
        ModelView {
            name: self.name@,
            description: self.description@,
            dir_name: self.dir_name@,
            archive_url: self.archive_url@,
            kind: match self.kind {
                Some(k) => Some(k@),
                None => None,
            },
            category: self.category,
            files: file_names(self.files@),
        }
    }
}

/// The abstract values of `models`, in order.
pub open spec fn model_views(models: Seq<ModelInfo>) -> Seq<ModelView> {
    models.map_values(|m: ModelInfo| m@)
}

/// The strings held by `names`, in order.
pub open spec fn string_views(names: Seq<String>) -> Seq<Seq<char>> {
    names.map_values(|s: String| s@)
}

/// The built-in recognition models.
pub open spec fn spec_asr_models() -> Seq<ModelView> {
    seq![
        ModelView {
            name: "Streaming Zipformer (中文)"@,
            description: "流式 Zipformer 中文 (int8，推荐)"@,
            dir_name: "sherpa-onnx-streaming-zipformer-zh-int8-2025-06-30"@,
            archive_url: "https://github.com/k2-fsa/sherpa-onnx/releases/download/asr-models/sherpa-onnx-streaming-zipformer-zh-int8-2025-06-30.tar.bz2"@,
            kind: Some(KindView::StreamingZipformer {
                encoder: "encoder.int8.onnx"@,
                decoder: "decoder.onnx"@,
                joiner: "joiner.int8.onnx"@,
                tokens: "tokens.txt"@,
                bpe_vocab: None,
            }),
            category: ModelCategory::Asr,
            files: seq!["encoder.int8.onnx"@, "decoder.onnx"@, "joiner.int8.onnx"@, "tokens.txt"@],
        },
        ModelView {
            name: "Streaming Paraformer (中英双语)"@,
            description: "流式 Paraformer 中英双语 (int8，支持方言/hotwords/language_hints)"@,
            dir_name: "sherpa-onnx-streaming-paraformer-bilingual-zh-en"@,
            archive_url: "https://github.com/k2-fsa/sherpa-onnx/releases/download/asr-models/sherpa-onnx-streaming-paraformer-bilingual-zh-en.tar.bz2"@,
            kind: Some(KindView::Paraformer {
                encoder: "encoder.int8.onnx"@,
                decoder: "decoder.int8.onnx"@,
                tokens: "tokens.txt"@,
            }),
            category: ModelCategory::Asr,
            files: seq!["encoder.int8.onnx"@, "decoder.int8.onnx"@, "tokens.txt"@],
        },
    ]
}

/// The built-in punctuation models.
pub open spec fn spec_punct_models() -> Seq<ModelView> {
    seq![
        ModelView {
            name: "Punctuation CT-Transformer (中英)"@,
            description: "标点恢复 (int8)，自动添加逗号句号问号"@,
            dir_name: "sherpa-onnx-punct-ct-transformer-zh-en-vocab272727-2024-04-12-int8"@,
            archive_url: "https://github.com/k2-fsa/sherpa-onnx/releases/download/punctuation-models/sherpa-onnx-punct-ct-transformer-zh-en-vocab272727-2024-04-12-int8.tar.bz2"@,
            kind: None,
            category: ModelCategory::Punctuation,
            files: seq!["model.int8.onnx"@],
        },
    ]
}

/// The whole catalogue: recognition models first, then punctuation models.
pub open spec fn spec_all_models() -> Seq<ModelView> {
    spec_asr_models() + spec_punct_models()
}

/// Whether every file `m` needs is among `present` (the names of the non-empty
/// regular files found in the model directory).
pub open spec fn spec_is_complete(m: ModelView, present: Seq<Seq<char>>) -> bool {
    forall|i: int| 0 <= i < m.files.len() ==> present.contains(#[trigger] m.files[i])
}

/// Index of the first model of `models` that is complete for `present`, if any.
pub open spec fn first_complete(models: Seq<ModelView>, present: Seq<Seq<char>>) -> Option<int>
    decreases models.len(),
{
    if models.len() == 0 {
        None
    } else if spec_is_complete(models[0], present) {
        Some(0)
    } else {
        match first_complete(models.drop_first(), present) {
            Some(i) => Some(i + 1),
            None => None,
        }
    }
}

/// The built-in recognition models.
pub fn asr_models() -> (r: &'static [ModelInfo])
    ensures
        model_views(r@) == spec_asr_models(),
{
    let r: &'static [ModelInfo] = &[
        ModelInfo {
            name: "Streaming Zipformer (中文)",
            description: "流式 Zipformer 中文 (int8，推荐)",
            dir_name: "sherpa-onnx-streaming-zipformer-zh-int8-2025-06-30",
            archive_url: "https://github.com/k2-fsa/sherpa-onnx/releases/download/asr-models/sherpa-onnx-streaming-zipformer-zh-int8-2025-06-30.tar.bz2",
            category: ModelCategory::Asr,
            kind: Some(
                ModelKind::StreamingZipformer {
                    encoder: "encoder.int8.onnx",
                    decoder: "decoder.onnx",
                    joiner: "joiner.int8.onnx",
                    tokens: "tokens.txt",
                    bpe_vocab: None,
                },
            ),
            files: &[
                ModelFile { filename: "encoder.int8.onnx" },
                ModelFile { filename: "decoder.onnx" },
                ModelFile { filename: "joiner.int8.onnx" },
                ModelFile { filename: "tokens.txt" },
            ],
        },
        ModelInfo {
            name: "Streaming Paraformer (中英双语)",
            description: "流式 Paraformer 中英双语 (int8，支持方言/hotwords/language_hints)",
            dir_name: "sherpa-onnx-streaming-paraformer-bilingual-zh-en",
            archive_url: "https://github.com/k2-fsa/sherpa-onnx/releases/download/asr-models/sherpa-onnx-streaming-paraformer-bilingual-zh-en.tar.bz2",
            category: ModelCategory::Asr,
            kind: Some(
                ModelKind::Paraformer {
                    encoder: "encoder.int8.onnx",
                    decoder: "decoder.int8.onnx",
                    tokens: "tokens.txt",
                },
            ),
            files: &[
                ModelFile { filename: "encoder.int8.onnx" },
                ModelFile { filename: "decoder.int8.onnx" },
                ModelFile { filename: "tokens.txt" },
            ],
        },
    ];
    proof {
        assert(file_names(r@[0].files@) =~= spec_asr_models()[0].files);
        assert(file_names(r@[1].files@) =~= spec_asr_models()[1].files);
        assert(model_views(r@) =~= spec_asr_models());
    }
    r
}

/// The built-in punctuation models.
pub fn punct_models() -> (r: &'static [ModelInfo])
    ensures
        model_views(r@) == spec_punct_models(),
{
    let r: &'static [ModelInfo] = &[
        ModelInfo {
            name: "Punctuation CT-Transformer (中英)",
            description: "标点恢复 (int8)，自动添加逗号句号问号",
            dir_name: "sherpa-onnx-punct-ct-transformer-zh-en-vocab272727-2024-04-12-int8",
            category: ModelCategory::Punctuation,
            kind: None,
            archive_url: "https://github.com/k2-fsa/sherpa-onnx/releases/download/punctuation-models/sherpa-onnx-punct-ct-transformer-zh-en-vocab272727-2024-04-12-int8.tar.bz2",
            files: &[ModelFile { filename: "model.int8.onnx" }],
        },
    ];
    proof {
        assert(file_names(r@[0].files@) =~= spec_punct_models()[0].files);
        assert(model_views(r@) =~= spec_punct_models());
    }
    r
}

/// Every catalogue entry downloads a `.tar.bz2` release archive and names
/// each file it needs.
pub proof fn lemma_catalog_well_formed()
    ensures
        forall|i: int| 0 <= i < spec_all_models().len() ==> catalog_entry_ok(#[trigger] spec_all_models()[i]),
{
    reveal_strlit("https://github.com/k2-fsa/sherpa-onnx/releases/download/");
    reveal_strlit(".tar.bz2");
    reveal_strlit("https://github.com/k2-fsa/sherpa-onnx/releases/download/asr-models/sherpa-onnx-streaming-zipformer-zh-int8-2025-06-30.tar.bz2");
    reveal_strlit("https://github.com/k2-fsa/sherpa-onnx/releases/download/asr-models/sherpa-onnx-streaming-paraformer-bilingual-zh-en.tar.bz2");
    reveal_strlit("https://github.com/k2-fsa/sherpa-onnx/releases/download/punctuation-models/sherpa-onnx-punct-ct-transformer-zh-en-vocab272727-2024-04-12-int8.tar.bz2");
    reveal_strlit("encoder.int8.onnx");
    reveal_strlit("decoder.onnx");
    reveal_strlit("joiner.int8.onnx");
    reveal_strlit("tokens.txt");
    reveal_strlit("decoder.int8.onnx");
    reveal_strlit("model.int8.onnx");
    let all = spec_all_models();
    assert(all.len() == 3);
    assert(all[0] == spec_asr_models()[0]);
    assert(all[1] == spec_asr_models()[1]);
    assert(all[2] == spec_punct_models()[0]);
    assert(catalog_entry_ok(all[0])) by {
        assert(all[0].archive_url.subrange(0, 56) =~= release_url_prefix());
        assert(all[0].archive_url.subrange(all[0].archive_url.len() - 8, all[0].archive_url.len() as int) =~= ".tar.bz2"@);
    }
    assert(catalog_entry_ok(all[1])) by {
        assert(all[1].archive_url.subrange(0, 56) =~= release_url_prefix());
        assert(all[1].archive_url.subrange(all[1].archive_url.len() - 8, all[1].archive_url.len() as int) =~= ".tar.bz2"@);
    }
    assert(catalog_entry_ok(all[2])) by {
        assert(all[2].archive_url.subrange(0, 56) =~= release_url_prefix());
        assert(all[2].archive_url.subrange(all[2].archive_url.len() - 8, all[2].archive_url.len() as int) =~= ".tar.bz2"@);
    }
}

/// Whether `name` is one of `names`.
pub fn contains_name(names: &[String], name: &str) -> (r: bool)
    ensures
        r == string_views(names@).contains(name@),
{
    let wanted = name.to_owned();
    let mut j: usize = 0;
    while j < names.len()
        invariant
            j <= names@.len(),
            wanted@ == name@,
            forall|k: int| 0 <= k < j ==> names@[k]@ != name@,
        decreases names@.len() - j,
    {
        if names[j] == wanted {
            proof {
                assert(string_views(names@)[j as int] == name@);
            }
            return true;
        }
        j = j + 1;
    }
    proof {
        if string_views(names@).contains(name@) {
            let k = choose|k: int| 0 <= k < string_views(names@).len() && string_views(names@)[k] == name@;
            assert(names@[k]@ == name@);
        }
    }
    false
}

impl ModelInfo {
    /// Whether the model directory holds every file this model needs, given the
    /// names of the non-empty regular files found in it.
    pub fn is_complete(&self, present_files: &[String]) -> (r: bool)
        ensures
            r == spec_is_complete(self@, string_views(present_files@)),
    {
        let mut i: usize = 0;
        while i < self.files.len()
            invariant
                i <= self.files@.len(),
                forall|k: int| 0 <= k < i ==> string_views(present_files@).contains(#[trigger] self@.files[k]),
            decreases self.files@.len() - i,
        {
            if !contains_name(present_files, self.files[i].filename) {
                proof {
                    assert(self@.files[i as int] == self.files@[i as int].filename@);
                }
                return false;
            }
            i = i + 1;
        }
        true
    }
}

/// The whole catalogue: recognition models first, then punctuation models.
pub fn all_models() -> (r: Vec<ModelInfo>)
    ensures
        model_views(r@) == spec_all_models(),
{
    let asr = asr_models();
    let punct = punct_models();
    let mut r: Vec<ModelInfo> = Vec::new();
    let mut i: usize = 0;
    while i < asr.len()
        invariant
            i <= asr@.len(),
            model_views(asr@) == spec_asr_models(),
            r@.len() == i,
            model_views(r@) == spec_asr_models().subrange(0, i as int),
        decreases asr@.len() - i,
    {
        let m = asr[i];
        r.push(m);
        proof {
            assert(m == asr@[i as int]);
            assert(model_views(asr@)[i as int] == asr@[i as int]@);
            assert(r@[i as int] == m);
            assert(model_views(r@) =~= spec_asr_models().subrange(0, i + 1));
        }
        i = i + 1;
    }
    let mut j: usize = 0;
    while j < punct.len()
        invariant
            j <= punct@.len(),
            model_views(asr@) == spec_asr_models(),
            model_views(punct@) == spec_punct_models(),
            r@.len() == asr@.len() + j,
            model_views(r@) == spec_asr_models() + spec_punct_models().subrange(0, j as int),
        decreases punct@.len() - j,
    {
        let m = punct[j];
        r.push(m);
        proof {
            assert(m == punct@[j as int]);
            assert(model_views(punct@)[j as int] == punct@[j as int]@);
            assert(model_views(r@) =~= spec_asr_models() + spec_punct_models().subrange(0, j + 1));
        }
        j = j + 1;
    }
    proof {
        assert(spec_punct_models().subrange(0, spec_punct_models().len() as int) =~= spec_punct_models());
    }
    r
}

/// If the first `i` models are incomplete and model `i` is complete, it is the first complete one.
proof fn lemma_first_complete_at(models: Seq<ModelView>, present: Seq<Seq<char>>, i: int)
    requires
        0 <= i < models.len(),
        forall|k: int| 0 <= k < i ==> !spec_is_complete(#[trigger] models[k], present),
        spec_is_complete(models[i], present),
    ensures
        first_complete(models, present) == Some(i),
    decreases i,
{
    if i > 0 {
        assert forall|k: int| 0 <= k < i - 1 implies !spec_is_complete(
            #[trigger] models.drop_first()[k],
            present,
        ) by {
            assert(models.drop_first()[k] == models[k + 1]);
        }
        lemma_first_complete_at(models.drop_first(), present, i - 1);
    }
}

/// The first complete model, when there is one, is a model of the list.
proof fn lemma_first_complete_bounds(models: Seq<ModelView>, present: Seq<Seq<char>>)
    ensures
        first_complete(models, present) matches Some(i) ==> 0 <= i < models.len(),
    decreases models.len(),
{
    if models.len() > 0 {
        lemma_first_complete_bounds(models.drop_first(), present);
    }
}

/// If no model is complete, there is no first complete one.
proof fn lemma_first_complete_none(models: Seq<ModelView>, present: Seq<Seq<char>>)
    requires
        forall|k: int| 0 <= k < models.len() ==> !spec_is_complete(#[trigger] models[k], present),
    ensures
        first_complete(models, present).is_none(),
    decreases models.len(),
{
    if models.len() > 0 {
        assert forall|k: int| 0 <= k < models.len() - 1 implies !spec_is_complete(
            #[trigger] models.drop_first()[k],
            present,
        ) by {
            assert(models.drop_first()[k] == models[k + 1]);
        }
        lemma_first_complete_none(models.drop_first(), present);
    }
}

/// Index of the first model in `models` that is complete for `present_files`.
fn find_complete(models: &[ModelInfo], present_files: &[String]) -> (r: Option<usize>)
    ensures
        match first_complete(model_views(models@), string_views(present_files@)) {
            Some(i) => 0 <= i < models@.len() && r == Some(i as usize),
            None => r.is_none(),
        },
{
    let ghost views = model_views(models@);
    let ghost present = string_views(present_files@);
    proof {
        lemma_first_complete_bounds(views, present);
    }
    let mut i: usize = 0;
    while i < models.len()
        invariant
            i <= models@.len(),
            views == model_views(models@),
            present == string_views(present_files@),
            forall|k: int| 0 <= k < i ==> !spec_is_complete(#[trigger] views[k], present),
        decreases models@.len() - i,
    {
        if models[i].is_complete(present_files) {
            proof {
                lemma_first_complete_at(views, present, i as int);
            }
            return Some(i);
        }
        i = i + 1;
    }
    proof {
        lemma_first_complete_none(views, present);
    }
    None
}

/// Identifies the built-in model stored in a directory: the first catalogue
/// entry (in [`all_models`] order) whose files are all among `present_files`,
/// the names of the non-empty regular files found in the directory.
pub fn find_model_by_dir(present_files: &[String]) -> (r: Option<ModelInfo>)
    ensures
        match first_complete(spec_all_models(), string_views(present_files@)) {
            Some(i) => r.is_some() && r.unwrap()@ == spec_all_models()[i],
            None => r.is_none(),
        },
{
    let models = all_models();
    let slice = models.as_slice();
    let found = find_complete(slice, present_files);
    match found {
        Some(i) => {
            proof {
                assert(model_views(models@)[i as int] == models@[i as int]@);
            }
            let m = models[i];
            proof {
                let ghost present = string_views(present_files@);
                assert(model_views(slice@) == spec_all_models());
                assert(first_complete(spec_all_models(), present) == Some(i as int));
                assert(m == models@[i as int]);
                assert(m@ == spec_all_models()[i as int]);
            }
            Some(m)
        },
        None => None,
    }
}

/// Recognises the recognition model stored in a directory from the names of the
/// files that exist in it: `(true, name)` of the first built-in recognition model
/// whose files all exist, or `(false, "")` when there is none.
pub fn detect_model_type(existing_files: &[String]) -> (r: (bool, &'static str))
    ensures
        match first_complete(spec_asr_models(), string_views(existing_files@)) {
            Some(i) => r.0 && r.1@ == spec_asr_models()[i].name,
            None => !r.0 && r.1@ == ""@,
        },
{
    let models = asr_models();
    match find_complete(models, existing_files) {
        Some(i) => {
            proof {
                assert(model_views(models@)[i as int] == models@[i as int]@);
            }
            (true, models[i].name)
        },
        None => (false, ""),
    }
}

} // verus!
