//! Debouncing of punctuation restoration.
//!
//! Instants are nanosecond readings of a monotonic clock; the interval is in
//! nanoseconds.
use vstd::prelude::*;

use super::metrics::elapsed;

verus! {

/// Decides when the (expensive) punctuation model should run on the live transcript.
pub struct PunctuationScheduler {
    interval: u128,
    last_input: String,
    last_run: Option<u128>,
    last_run_was_endpoint: bool,
}

/// Abstract state of [`PunctuationScheduler`].
pub struct SchedulerView {
    pub interval: nat,
    pub last_input: Seq<char>,
    pub last_run: Option<nat>,
    pub last_run_was_endpoint: bool,
}

/// Whether punctuation should run on `text` in state `s` at instant `now`:
/// never on empty text; on unchanged text only for the first endpoint; on new
/// text at an endpoint, on the first run, or once the interval has passed.
pub open spec fn spec_should_run(s: SchedulerView, text: Seq<char>, endpoint: bool, now: int) -> bool {
    if text.len() == 0 {
        false
    } else if text == s.last_input {
        endpoint && !s.last_run_was_endpoint
    } else {
        endpoint || match s.last_run {
            None => true,
            Some(last) => elapsed(now, last as int) >= s.interval,
        }
    }
}

impl View for PunctuationScheduler {
    type V = SchedulerView;

    closed spec fn view(&self) -> SchedulerView {
        SchedulerView {
            interval: self.interval as nat,
            last_input: self.last_input@,
            last_run: match self.last_run {
                None => None,
                Some(t) => Some(t as nat),
            },
            last_run_was_endpoint: self.last_run_was_endpoint,
        }
    }
}

impl PunctuationScheduler {
    /// A scheduler with the given minimal spacing between runs and no history.
    pub fn new(interval: u128) -> (r: PunctuationScheduler)
        ensures
            r@.interval == interval,
            r@.last_input == Seq::<char>::empty(),
            r@.last_run.is_none(),
            !r@.last_run_was_endpoint,
    {
        PunctuationScheduler {
            interval,
            last_input: String::new(),
            last_run: None,
            last_run_was_endpoint: false,
        }
    }

    /// Whether punctuation should run now on `text` (see [`spec_should_run`]).
    pub fn should_run(&self, text: &str, endpoint: bool, now: u128) -> (r: bool)
        ensures
            r == spec_should_run(self@, text@, endpoint, now as int),
            text@.len() == 0 ==> !r,
            text@.len() > 0 && text@ != self@.last_input && endpoint ==> r,
            text@.len() > 0 && text@ != self@.last_input && self@.last_run.is_none() ==> r,
    {
        if text.is_empty() {
            return false;
        }
        let owned = text.to_owned();
        if owned == self.last_input {
            return endpoint && !self.last_run_was_endpoint;
        }
        if endpoint {
            return true;
        }
        match self.last_run {
            None => {
                true
            },
            Some(last) => {
                let since: u128 = if now >= last { now - last } else { 0 };
                since >= self.interval
            },
        }
    }

    /// Remembers that punctuation ran on `text` at `now`.
    pub fn record(&mut self, text: &str, endpoint: bool, now: u128)
        ensures
            final(self)@ == (SchedulerView {
                interval: old(self)@.interval,
                last_input: text@,
                last_run: Some(now as nat),
                last_run_was_endpoint: endpoint,
            }),
    {
        self.last_input = text.to_owned();
        self.last_run = Some(now);
        self.last_run_was_endpoint = endpoint;
    }

    /// Forgets the history, keeping the interval.
    pub fn reset(&mut self)
        ensures
            final(self)@ == (SchedulerView {
                interval: old(self)@.interval,
                last_input: Seq::<char>::empty(),
                last_run: None,
                last_run_was_endpoint: false,
            }),
    {
        self.last_input = String::new();
        self.last_run = None;
        self.last_run_was_endpoint = false;
    }
}

/// After a run is recorded on `text`, the same text is not punctuated again
/// unless it reaches an endpoint that the recorded run was not.
pub proof fn lemma_recorded_text_is_not_repeated(
    s: SchedulerView,
    text: Seq<char>,
    recorded_endpoint: bool,
    now: int,
    endpoint: bool,
    later: int,
)
    ensures
        ({
            let after = SchedulerView {
                last_input: text,
                last_run: Some(now as nat),
                last_run_was_endpoint: recorded_endpoint,
                ..s
            };
            spec_should_run(after, text, endpoint, later) <==> (text.len() > 0 && endpoint
                && !recorded_endpoint)
        }),
{
}

/// Within the interval after a non-endpoint run, new text is only punctuated at an endpoint.
pub proof fn lemma_debounced_within_interval(
    s: SchedulerView,
    previous: Seq<char>,
    now: nat,
    text: Seq<char>,
    later: int,
)
    requires
        text != previous,
        elapsed(later, now as int) < s.interval,
    ensures
        ({
            let after = SchedulerView {
                last_input: previous,
                last_run: Some(now),
                last_run_was_endpoint: false,
                ..s
            };
            !spec_should_run(after, text, false, later)
        }),
{
}

/// New, non-empty text that reaches an endpoint is always punctuated, however
/// recently the model last ran.
pub proof fn lemma_endpoint_punctuates_new_text(s: SchedulerView, text: Seq<char>, now: int)
    requires
        text.len() > 0,
        text != s.last_input,
    ensures
        spec_should_run(s, text, true, now),
{
}

/// Empty text is never punctuated, at an endpoint or not.
pub proof fn lemma_empty_text_never_punctuated(s: SchedulerView, endpoint: bool, now: int)
    ensures
        !spec_should_run(s, Seq::<char>::empty(), endpoint, now),
{
}

/// Right after a non-endpoint run on `previous`, changed text that reaches an
/// endpoint is punctuated at once, even before the interval has passed.
pub proof fn lemma_endpoint_overrides_interval(
    s: SchedulerView,
    previous: Seq<char>,
    now: nat,
    text: Seq<char>,
    later: int,
)
    requires
        text.len() > 0,
        text != previous,
    ensures
        ({
            let after = SchedulerView {
                last_input: previous,
                last_run: Some(now),
                last_run_was_endpoint: false,
                ..s
            };
            spec_should_run(after, text, true, later)
        }),
{
}

} // verus!
