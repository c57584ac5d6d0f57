//! Decisions of the audio → recognition → caption pipeline.
//!
//! The worker threads, the recogniser and the punctuation model are driven by
//! the caller; this module decides what to do with what they produce.
use vstd::prelude::*;

use crate::presets::models::{
    find_model_by_dir, first_complete, spec_all_models, string_views, ModelCategory, ModelInfo,
};
use crate::presets::app::{join_path, spec_join};
use crate::presets::settings::Settings;
use crate::text::{spec_trim, strip_end, trim};

verus! {

/// Status messages sent from the pipeline to the caption window.
#[derive(Debug)]
pub enum PipelineMsg {
    Loading,
    Ready,
    Text(String),
    Error(String),
}

/// Samples per captured block: a fifth of a second of audio at `sample_rate`
/// Hz, and at least one.
pub fn capture_block_samples(sample_rate: u32) -> (r: usize)
    ensures
        r == if sample_rate / 5 < 1 { 1 } else { sample_rate / 5 },
{
    let n: u32 = sample_rate / 5;
    if n < 1 {
        1
    } else {
        n as usize
    }
}

/// The recognition model stored in a directory, given the names of the
/// non-empty files in it: the first complete catalogue entry, provided it is a
/// recognition model.
pub fn asr_model_for_dir(present_files: &[String]) -> (r: Option<ModelInfo>)
    ensures
        match first_complete(spec_all_models(), string_views(present_files@)) {
            Some(i) => if spec_all_models()[i].category == ModelCategory::Asr {
                r.is_some() && r.unwrap()@ == spec_all_models()[i]
            } else {
                r.is_none()
            },
            None => r.is_none(),
        },
{
    match find_model_by_dir(present_files) {
        Some(m) => {
            if m.category == ModelCategory::Asr {
                Some(m)
            } else {
                None
            }
        },
        None => None,
    }
}

/// Where the punctuation model is configured, if it should be used: punctuation
/// must be enabled and the configured path, trimmed of white space, non-empty.
pub fn punctuation_model_path(settings: &Settings) -> (r: Option<String>)
    ensures
        !settings@.auto_punctuation ==> r.is_none(),
        settings@.auto_punctuation && spec_trim(settings@.punct_model_path).len() == 0 ==> r.is_none(),
        settings@.auto_punctuation && spec_trim(settings@.punct_model_path).len() > 0 ==> (r matches Some(
            p,
        ) && p@ == spec_trim(settings@.punct_model_path)),
{
    if !settings.auto_punctuation {
        return None;
    }
    let path = trim(settings.punct_model_path.as_str());
    if path.as_str().is_empty() {
        None
    } else {
        Some(path)
    }
}

/// File name of the punctuation model inside a model directory.
pub const PUNCTUATION_MODEL_FILE: &'static str = "model.int8.onnx";

/// The punctuation model file for a configured `path`: the model file inside it
/// when it is a directory, else the path itself.
pub fn punctuation_model_file(path: &str, is_dir: bool) -> (r: String)
    ensures
        is_dir ==> r@ == spec_join(path@, PUNCTUATION_MODEL_FILE@),
        !is_dir ==> r@ == path@,
{
    if is_dir {
        join_path(path, PUNCTUATION_MODEL_FILE)
    } else {
        path.to_owned()
    }
}

/// Punctuation the punctuation model tends to append at the end of a caption.
pub open spec fn is_trailing_punctuation(c: char) -> bool {
    c == '。' || c == '，' || c == '、' || c == '！' || c == '？' || c == '.' || c == ',' || c == '!' || c == '?'
}

/// The predicate [`is_trailing_punctuation`].
pub open spec fn trailing_punctuation() -> spec_fn(char) -> bool {
    |c: char| is_trailing_punctuation(c)
}

/// Whether `c` is punctuation the model tends to append (see [`is_trailing_punctuation`]).
pub fn is_trailing_punctuation_char(c: char) -> (r: bool)
    ensures
        r == is_trailing_punctuation(c),
        r <==> (c == '。' || c == '，' || c == '、' || c == '！' || c == '？' || c == '.' || c == ',' || c == '!' || c == '?'),
{
    c == '。' || c == '，' || c == '、' || c == '！' || c == '？' || c == '.' || c == ',' || c == '!' || c == '?'
}

/// Removes the punctuation the model appended at the end of a caption.
pub fn strip_trailing_punctuation(s: &str) -> (r: String)
    ensures
        r@ == strip_end(s@, trailing_punctuation()),
        r@ == s@.subrange(0, r@.len() as int),
        r@.len() > 0 ==> !(r@.last() == '。' || r@.last() == '，' || r@.last() == '、' || r@.last() == '！' || r@.last() == '？' || r@.last() == '.' || r@.last() == ',' || r@.last() == '!' || r@.last() == '?'),
        forall|i: int| #![trigger s@[i]] r@.len() <= i < s@.len() ==> (s@[i] == '。' || s@[i] == '，' || s@[i] == '、' || s@[i] == '！' || s@[i] == '？' || s@[i] == '.' || s@[i] == ',' || s@[i] == '!' || s@[i] == '?'),
{
    let n = s.unicode_len();
    let mut b: usize = n;
    while b > 0 && is_trailing_punctuation_char(s.get_char(b - 1))
        invariant
            b <= n,
            n == s@.len(),
            forall|i: int| b <= i < n ==> is_trailing_punctuation(#[trigger] s@[i]),
        decreases b,
    {
        b = b - 1;
    }
    proof {
        crate::text::lemma_strip_end_prefix(s@, trailing_punctuation(), b as int);
    }
    proof {
        lemma_stripped_caption_ends_without_punctuation(s@);
    }
    s.substring_char(0, b).to_owned()
}

/// A caption with its trailing punctuation removed no longer ends with
/// punctuation, and differs from the original only by the punctuation removed
/// from its end.
pub proof fn lemma_stripped_caption_shape(s: Seq<char>)
    ensures
        ({
            let r = strip_end(s, trailing_punctuation());
            &&& r == s.subrange(0, r.len() as int)
            &&& r.len() > 0 ==> !is_trailing_punctuation(r.last())
            &&& forall|i: int| r.len() <= i < s.len() ==> is_trailing_punctuation(#[trigger] s[i])
        }),
{
    crate::text::lemma_strip_end_shape(s, trailing_punctuation());
    let r = strip_end(s, trailing_punctuation());
    assert forall|i: int| r.len() <= i < s.len() implies is_trailing_punctuation(#[trigger] s[i]) by {
        assert(trailing_punctuation()(s[i]));
    }
    if r.len() > 0 {
        assert(!trailing_punctuation()(r.last()));
    }
}

/// Tracks what the caption shows, so that a caption is sent only when it changes.
pub struct RecognitionTracker {
    last_text: String,
    observed_drops: u64,
}

/// Abstract state of a [`RecognitionTracker`].
pub struct TrackerView {
    pub last_text: Seq<char>,
    pub observed_drops: u64,
}

impl View for RecognitionTracker {
    type V = TrackerView;

    closed spec fn view(&self) -> TrackerView {
        TrackerView { last_text: self.last_text@, observed_drops: self.observed_drops }
    }
}

impl RecognitionTracker {
    /// Nothing shown yet and no audio dropped.
    pub fn new() -> (r: RecognitionTracker)
        ensures
            r@.last_text == Seq::<char>::empty(),
            r@.observed_drops == 0,
    {
        RecognitionTracker { last_text: String::new(), observed_drops: 0 }
    }

    /// Takes note of the capture side's count of dropped audio blocks. When it
    /// changed, returns `true`: the recognition stream must restart from fresh
    /// audio, and the shown caption is forgotten.
    pub fn observe_drops(&mut self, drops: u64) -> (r: bool)
        ensures
            r == (drops != old(self)@.observed_drops),
            r ==> final(self)@ == (TrackerView { last_text: Seq::<char>::empty(), observed_drops: drops }),
            !r ==> final(self)@ == old(self)@,
    {
        if drops != self.observed_drops {
            self.observed_drops = drops;
            self.last_text = String::new();
            true
        } else {
            false
        }
    }

    /// Offers a new caption (see [`spec_publish`]).
    pub fn publish(&mut self, text: String, endpoint: bool) -> (r: Option<String>)
        ensures
            text@.len() > 0 && text@ != old(self)@.last_text ==> (r matches Some(x) && x@ == text@),
            text@.len() == 0 || text@ == old(self)@.last_text ==> r.is_none(),
            endpoint ==> final(self)@.last_text == Seq::<char>::empty(),
            !endpoint && r.is_some() ==> final(self)@.last_text == text@,
            final(self)@.observed_drops == old(self)@.observed_drops,
            ({
                let (after, shown) = spec_publish(old(self)@, text@, endpoint);
                &&& final(self)@ == after
                &&& match shown {
                    Some(t) => r matches Some(x) && x@ == t,
                    None => r.is_none(),
                }
            }),
    {
        let mut r: Option<String> = None;
        if !text.as_str().is_empty() && text != self.last_text {
            self.last_text = text.clone();
            r = Some(text);
        }
        if endpoint {
            self.last_text = String::new();
        }
        r
    }
}

/// Offering caption `text` in state `t`: it is shown when non-empty and different
/// from the caption shown; at an `endpoint` the utterance is over and the shown
/// caption is forgotten.
pub open spec fn spec_publish(t: TrackerView, text: Seq<char>, endpoint: bool) -> (TrackerView, Option<Seq<char>>) {
    let shown = text.len() > 0 && text != t.last_text;
    let last = if endpoint {
        Seq::<char>::empty()
    } else if shown {
        text
    } else {
        t.last_text
    };
    (TrackerView { last_text: last, ..t }, if shown { Some(text) } else { None })
}

/// Within an utterance the same caption is not sent twice in a row: after a
/// caption is offered without an endpoint, offering it again shows nothing.
pub proof fn lemma_no_repeated_caption(t: TrackerView, text: Seq<char>, endpoint: bool)
    ensures
        spec_publish(spec_publish(t, text, false).0, text, endpoint).1.is_none(),
{
}

/// An empty caption is never shown.
pub proof fn lemma_empty_caption_not_shown(t: TrackerView, endpoint: bool)
    ensures
        spec_publish(t, Seq::<char>::empty(), endpoint).1.is_none(),
{
}

/// Once trailing punctuation is stripped, the caption is a prefix of the
/// original that is empty or ends in none of `。，、！？.,!?`, and every character
/// removed is one of them.
pub proof fn lemma_stripped_caption_ends_without_punctuation(s: Seq<char>)
    ensures
        ({
            let r = strip_end(s, trailing_punctuation());
            &&& r == s.subrange(0, r.len() as int)
            &&& r.len() > 0 ==> !(r.last() == '。' || r.last() == '，' || r.last() == '、' || r.last() == '！' || r.last() == '？' || r.last() == '.' || r.last() == ',' || r.last() == '!' || r.last() == '?')
            &&& forall|i: int| #![trigger s[i]] r.len() <= i < s.len() ==> (s[i] == '。' || s[i] == '，' || s[i] == '、' || s[i] == '！' || s[i] == '？' || s[i] == '.' || s[i] == ',' || s[i] == '!' || s[i] == '?')
        }),
{
    lemma_stripped_caption_shape(s);
}

/// A non-empty caption that differs in any way from the one shown is sent.
pub proof fn lemma_changed_caption_is_shown(t: TrackerView, text: Seq<char>, endpoint: bool)
    requires
        text.len() > 0,
        text != t.last_text,
    ensures
        spec_publish(t, text, endpoint).1 == Some(text),
{
}

/// Within an utterance, a revision of the caption just offered (any change of
/// content, whatever its length) is sent.
pub proof fn lemma_revised_caption_is_shown(t: TrackerView, first: Seq<char>, revised: Seq<char>, endpoint: bool)
    requires
        first.len() > 0,
        revised.len() > 0,
        revised != first,
    ensures
        spec_publish(spec_publish(t, first, false).0, revised, endpoint).1 == Some(revised),
{
}

} // verus!
