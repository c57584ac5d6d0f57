//! Audio capture logic: block assembly, source selection and sample decoding.
pub mod block;
pub mod device;
pub mod gstreamer;
pub mod source;

pub use block::AudioBlockAssembler;
pub use device::AudioSource;
pub use gstreamer::DroppedBufferCounter;
