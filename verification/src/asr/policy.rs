//! Automatic inference policy derived from the host's parallelism.
use vstd::prelude::*;

verus! {

/// Upper bound on the number of inference threads.
pub const MAX_INFERENCE_THREADS: usize = 8;

/// Length of one audio block handed to the recogniser, in nanoseconds (100 ms).
pub const AUDIO_BLOCK_NANOS: u128 = 100_000_000;

/// Minimal spacing between two punctuation passes, in nanoseconds (400 ms).
pub const PUNCTUATION_INTERVAL_NANOS: u128 = 400_000_000;

/// Runtime inference parameters. Durations are in nanoseconds.
#[derive(Clone, Copy, Debug)]
pub struct InferencePolicy {
    pub num_threads: i32,
    pub decoding_method: &'static str,
    pub audio_block_duration: u128,
    pub punctuation_interval: u128,
}

/// The thread count chosen for `parallelism` available cores:
/// one core is left for capture, and the result lies in `1..=8`.
pub open spec fn spec_thread_count(parallelism: int) -> int {
    let spare = if parallelism >= 1 { parallelism - 1 } else { 0 };
    if spare < 1 {
        1
    } else if spare > MAX_INFERENCE_THREADS {
        MAX_INFERENCE_THREADS as int
    } else {
        spare
    }
}

impl InferencePolicy {
    /// Derives the policy for a host with `parallelism` available cores.
    pub fn from_parallelism(parallelism: usize) -> (r: InferencePolicy)
        ensures
            r.num_threads == spec_thread_count(parallelism as int),
            r.decoding_method@ == "greedy_search"@,
            r.audio_block_duration == AUDIO_BLOCK_NANOS,
            r.punctuation_interval == PUNCTUATION_INTERVAL_NANOS,
    {
        let spare = parallelism.saturating_sub(1);
        let n: usize = if spare < 1 {
            1
        } else if spare > MAX_INFERENCE_THREADS {
            MAX_INFERENCE_THREADS
        } else {
            spare
        };
        InferencePolicy {
            num_threads: n as i32,
            decoding_method: "greedy_search",
            audio_block_duration: AUDIO_BLOCK_NANOS,
            punctuation_interval: PUNCTUATION_INTERVAL_NANOS,
        }
    }

    /// Number of samples in one audio block at `sample_rate` Hz: the block
    /// duration in whole milliseconds times the rate, over 1000, and at least one.
    pub fn audio_block_samples(self, sample_rate: u32) -> (r: usize)
        requires
            sample_rate * ((self.audio_block_duration / 1_000_000) as u64) <= u64::MAX,
        ensures
            r == ({
                let samples = sample_rate * ((self.audio_block_duration / 1_000_000) as u64) / 1000;
                if samples < 1 { 1 } else { samples }
            }) as usize,
    {
        let millis: u64 = (self.audio_block_duration / 1_000_000) as u64;
        let samples: u64 = sample_rate as u64 * millis / 1000;
        let at_least_one: u64 = if samples < 1 { 1 } else { samples };
        at_least_one as usize
    }
}

} // verus!
