//! Windowed inference metrics, used for diagnostics only.
//!
//! Instants are nanosecond readings of a monotonic clock; durations are
//! nanosecond counts.
use vstd::prelude::*;

verus! {

/// Totals accumulated over one metrics window.
#[derive(Clone, Copy, Debug)]
pub struct InferenceSnapshot {
    pub audio_duration: u128,
    pub inference_duration: u128,
    pub blocks: u64,
    pub dropped_blocks: u64,
    pub endpoints: u64,
}

/// Accumulates per-block timings and emits a snapshot once per window.
pub struct InferenceMetrics {
    window: u128,
    window_started: u128,
    audio_duration: u128,
    inference_duration: u128,
    blocks: u64,
    dropped_blocks: u64,
    endpoints: u64,
}

/// Abstract state of [`InferenceMetrics`].
pub struct MetricsView {
    pub window: nat,
    pub window_started: nat,
    pub totals: InferenceSnapshot,
}

/// Time elapsed from `earlier` to `now`, saturating at zero when `now` is earlier.
pub open spec fn elapsed(now: int, earlier: int) -> int {
    if now >= earlier {
        now - earlier
    } else {
        0
    }
}

/// A snapshot with every counter at zero.
pub open spec fn zero_snapshot() -> InferenceSnapshot {
    InferenceSnapshot {
        audio_duration: 0,
        inference_duration: 0,
        blocks: 0,
        dropped_blocks: 0,
        endpoints: 0,
    }
}

/// The totals after adding one recognised block to `t`.
pub open spec fn add_block(
    t: InferenceSnapshot,
    audio_duration: u128,
    inference_duration: u128,
    endpoint: bool,
) -> InferenceSnapshot {
    InferenceSnapshot {
        audio_duration: (t.audio_duration + audio_duration) as u128,
        inference_duration: (t.inference_duration + inference_duration) as u128,
        blocks: (t.blocks + 1) as u64,
        dropped_blocks: t.dropped_blocks,
        endpoints: (t.endpoints + if endpoint { 1int } else { 0int }) as u64,
    }
}

/// Whether adding one block to `t` stays within the counters' ranges.
pub open spec fn can_add_block(t: InferenceSnapshot, audio_duration: u128, inference_duration: u128) -> bool {
    &&& t.audio_duration + audio_duration <= u128::MAX
    &&& t.inference_duration + inference_duration <= u128::MAX
    &&& t.blocks + 1 <= u64::MAX
    &&& t.endpoints + 1 <= u64::MAX
}

impl View for InferenceMetrics {
    type V = MetricsView;

    closed spec fn view(&self) -> MetricsView {
        MetricsView {
            window: self.window as nat,
            window_started: self.window_started as nat,
            totals: InferenceSnapshot {
                audio_duration: self.audio_duration,
                inference_duration: self.inference_duration,
                blocks: self.blocks,
                dropped_blocks: self.dropped_blocks,
                endpoints: self.endpoints,
            },
        }
    }
}

impl InferenceMetrics {
    /// Starts a window of length `window` at instant `now`, with all counters at zero.
    pub fn new(window: u128, now: u128) -> (r: InferenceMetrics)
        ensures
            r@.window == window,
            r@.window_started == now,
            r@.totals == zero_snapshot(),
    {
        InferenceMetrics {
            window,
            window_started: now,
            audio_duration: 0,
            inference_duration: 0,
            blocks: 0,
            dropped_blocks: 0,
            endpoints: 0,
        }
    }

    /// Records one recognised block. Once the window has elapsed at `now`, returns the
    /// window's totals (including this block) and starts a new, empty window at `now`;
    /// otherwise returns `None` and keeps accumulating.
    pub fn record(
        &mut self,
        now: u128,
        audio_duration: u128,
        inference_duration: u128,
        endpoint: bool,
    ) -> (r: Option<InferenceSnapshot>)
        requires
            can_add_block(old(self)@.totals, audio_duration, inference_duration),
        ensures
            ({
                let added = add_block(old(self)@.totals, audio_duration, inference_duration, endpoint);
                if elapsed(now as int, old(self)@.window_started as int) < old(self)@.window {
                    &&& r.is_none()
                    &&& final(self)@.window == old(self)@.window
                    &&& final(self)@.window_started == old(self)@.window_started
                    &&& final(self)@.totals == added
                } else {
                    &&& r == Some(added)
                    &&& final(self)@.window == old(self)@.window
                    &&& final(self)@.window_started == now
                    &&& final(self)@.totals == zero_snapshot()
                }
            }),
    {
        self.audio_duration = self.audio_duration + audio_duration;
        self.inference_duration = self.inference_duration + inference_duration;
        self.blocks = self.blocks + 1;
        if endpoint {
            self.endpoints = self.endpoints + 1;
        }
        let since: u128 = if now >= self.window_started {
            now - self.window_started
        } else {
            0
        };
        if since < self.window {
            return None;
        }
        let snapshot = InferenceSnapshot {
            audio_duration: self.audio_duration,
            inference_duration: self.inference_duration,
            blocks: self.blocks,
            dropped_blocks: self.dropped_blocks,
            endpoints: self.endpoints,
        };
        self.window_started = now;
        self.audio_duration = 0;
        self.inference_duration = 0;
        self.blocks = 0;
        self.dropped_blocks = 0;
        self.endpoints = 0;
        Some(snapshot)
    }

    /// Adds `dropped_blocks` audio blocks lost before recognition to the current window.
    pub fn record_drops(&mut self, dropped_blocks: u64)
        requires
            old(self)@.totals.dropped_blocks + dropped_blocks <= u64::MAX,
        ensures
            final(self)@.window == old(self)@.window,
            final(self)@.window_started == old(self)@.window_started,
            final(self)@.totals == (InferenceSnapshot {
                dropped_blocks: (old(self)@.totals.dropped_blocks + dropped_blocks) as u64,
                ..old(self)@.totals
            }),
    {
        self.dropped_blocks = self.dropped_blocks + dropped_blocks;
    }
}

} // verus!
