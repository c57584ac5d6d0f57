//! Speech recognition: recogniser configuration, inference policy, metrics and
//! punctuation debouncing.
pub mod engine;
pub mod metrics;
pub mod policy;
pub mod punctuation;

pub use metrics::{InferenceMetrics, InferenceSnapshot};
pub use policy::InferencePolicy;
pub use punctuation::PunctuationScheduler;
