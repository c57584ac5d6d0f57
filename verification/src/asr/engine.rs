//! How the streaming recogniser is configured for a catalogue model.
//!
//! The recogniser itself is a native library driven by the caller; this module
//! says which files it needs, in which order they are checked, and with which
//! options it is created.
use vstd::prelude::*;

use crate::presets::models::{KindView, ModelKind};

verus! {

/// The part of a recognition model a file provides.
#[derive(Clone, Copy, Debug, PartialEq, Eq, Structural)]
pub enum ModelRole {
    Encoder,
    Decoder,
    Joiner,
    Tokens,
}

/// A file the recogniser needs, with its role.
#[derive(Clone, Copy, Debug)]
pub struct RequiredFile {
    pub role: ModelRole,
    pub filename: &'static str,
}

/// Threads the recogniser runs on.
pub const RECOGNIZER_THREADS: i32 = 4;

/// How to create the recogniser for a model.
pub struct RecognizerPlan {
    /// Model type passed to the recogniser.
    pub model_type: &'static str,
    /// Whether the model is a transducer (encoder, decoder and joiner) rather than a Paraformer.
    pub transducer: bool,
    /// Files that must exist, in the order they are checked.
    pub required: Vec<RequiredFile>,
    /// BPE vocabulary, used only when the file exists.
    pub bpe_vocab: Option<&'static str>,
    pub num_threads: i32,
    pub provider: &'static str,
    pub decoding_method: &'static str,
    pub enable_endpoint: bool,
}

/// The (role, file name) pairs of `files`, in order.
pub open spec fn required_views(files: Seq<RequiredFile>) -> Seq<(ModelRole, Seq<char>)> {
    files.map_values(|f: RequiredFile| (f.role, f.filename@))
}

/// The plan for a recognition model of kind `kind`; `None` when the model has
/// no kind (it cannot be used for recognition).
pub fn recognizer_plan(kind: Option<ModelKind>) -> (r: Option<RecognizerPlan>)
    ensures
        match kind {
            None => r.is_none(),
            Some(k) => r matches Some(p) && {
                &&& p.num_threads == RECOGNIZER_THREADS
                &&& p.provider@ == "cpu"@
                &&& p.decoding_method@ == "greedy_search"@
                &&& p.enable_endpoint
                &&& match k@ {
                    KindView::StreamingZipformer { encoder, decoder, joiner, tokens, bpe_vocab } => {
                        &&& p.transducer
                        &&& p.model_type@ == "zipformer2"@
                        &&& required_views(p.required@) == seq![
                            (ModelRole::Encoder, encoder),
                            (ModelRole::Decoder, decoder),
                            (ModelRole::Joiner, joiner),
                            (ModelRole::Tokens, tokens),
                        ]
                        &&& match bpe_vocab {
                            Some(b) => p.bpe_vocab matches Some(x) && x@ == b,
                            None => p.bpe_vocab.is_none(),
                        }
                    },
                    KindView::Paraformer { encoder, decoder, tokens } => {
                        &&& !p.transducer
                        &&& p.model_type@ == "paraformer"@
                        &&& required_views(p.required@) == seq![
                            (ModelRole::Encoder, encoder),
                            (ModelRole::Decoder, decoder),
                            (ModelRole::Tokens, tokens),
                        ]
                        &&& p.bpe_vocab.is_none()
                    },
                }
            },
        },
{
    match kind {
        None => None,
        Some(ModelKind::StreamingZipformer { encoder, decoder, joiner, tokens, bpe_vocab }) => {
            let mut required: Vec<RequiredFile> = Vec::new();
            required.push(RequiredFile { role: ModelRole::Encoder, filename: encoder });
            required.push(RequiredFile { role: ModelRole::Decoder, filename: decoder });
            required.push(RequiredFile { role: ModelRole::Joiner, filename: joiner });
            required.push(RequiredFile { role: ModelRole::Tokens, filename: tokens });
            proof {
                assert(required_views(required@) =~= seq![
                    (ModelRole::Encoder, encoder@),
                    (ModelRole::Decoder, decoder@),
                    (ModelRole::Joiner, joiner@),
                    (ModelRole::Tokens, tokens@),
                ]);
            }
            Some(
                RecognizerPlan {
                    model_type: "zipformer2",
                    transducer: true,
                    required,
                    bpe_vocab,
                    num_threads: RECOGNIZER_THREADS,
                    provider: "cpu",
                    decoding_method: "greedy_search",
                    enable_endpoint: true,
                },
            )
        },
        Some(ModelKind::Paraformer { encoder, decoder, tokens }) => {
            let mut required: Vec<RequiredFile> = Vec::new();
            required.push(RequiredFile { role: ModelRole::Encoder, filename: encoder });
            required.push(RequiredFile { role: ModelRole::Decoder, filename: decoder });
            required.push(RequiredFile { role: ModelRole::Tokens, filename: tokens });
            proof {
                assert(required_views(required@) =~= seq![
                    (ModelRole::Encoder, encoder@),
                    (ModelRole::Decoder, decoder@),
                    (ModelRole::Tokens, tokens@),
                ]);
            }
            Some(
                RecognizerPlan {
                    model_type: "paraformer",
                    transducer: false,
                    required,
                    bpe_vocab: None,
                    num_threads: RECOGNIZER_THREADS,
                    provider: "cpu",
                    decoding_method: "greedy_search",
                    enable_endpoint: true,
                },
            )
        },
    }
}

/// How a missing file of this role is described to the user.
pub open spec fn spec_missing_label(role: ModelRole) -> Seq<char> {
    match role {
        ModelRole::Encoder => "缺少编码器: "@,
        ModelRole::Decoder => "缺少解码器: "@,
        ModelRole::Joiner => "缺少连接器: "@,
        ModelRole::Tokens => "缺少词表: "@,
    }
}

/// The message reported when the file of `role` is missing at `path`.
pub fn missing_file_message(role: ModelRole, path: &str) -> (r: String)
    ensures
        r@ == spec_missing_label(role) + path@,
{
    let mut r = match role {
        ModelRole::Encoder => String::from_str("缺少编码器: "),
        ModelRole::Decoder => String::from_str("缺少解码器: "),
        ModelRole::Joiner => String::from_str("缺少连接器: "),
        ModelRole::Tokens => String::from_str("缺少词表: "),
    };
    r.append(path);
    r
}

} // verus!
