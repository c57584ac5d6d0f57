//! Verified core of a live-captioning desktop application.
//!
//! Audio is captured, assembled into fixed-size blocks, recognised by a
//! streaming speech recogniser, optionally punctuated, and shown as a floating
//! caption. This crate holds the rules of that flow: recogniser configuration,
//! scheduling and metrics, audio block assembly and source choice, model
//! catalogue and settings, download planning and caption bookkeeping. Devices,
//! files, the network, the native recogniser and the user interface are driven
//! by the application around it.
use vstd::prelude::*;

pub mod asr;
pub mod audio;
pub mod downloader;
pub mod pipeline;
pub mod presets;
pub mod text;
pub mod ui;

verus! {

} // verus!
