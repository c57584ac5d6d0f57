//! The standard capture format, decoding of captured buffers and accounting of
//! buffers the capture queue dropped.
use vstd::prelude::*;

verus! {

/// Sample format of every capture pipeline: 32-bit little-endian floats.
pub const STANDARD_FORMAT: &'static str = "F32LE";

/// Channel layout of every capture pipeline.
pub const STANDARD_LAYOUT: &'static str = "interleaved";

/// Channel count of every capture pipeline.
pub const STANDARD_CHANNELS: u32 = 1;

/// Sample rate of every capture pipeline, in Hz.
pub const STANDARD_RATE: u32 = 16_000;

/// The audio format negotiated for a captured sample.
#[derive(Debug)]
pub struct NegotiatedFormat {
    /// Samples are 32-bit little-endian floats.
    pub f32_le: bool,
    /// Channels are interleaved.
    pub interleaved: bool,
    pub channels: u32,
    pub rate: u32,
}

/// Whether `f` is the standard format: F32LE, interleaved, mono, 16 kHz.
pub open spec fn spec_is_standard(f: NegotiatedFormat) -> bool {
    f.f32_le && f.interleaved && f.channels == STANDARD_CHANNELS && f.rate == STANDARD_RATE
}

/// Whether `f` is the standard format (see [`spec_is_standard`]).
pub fn is_standard_format(f: &NegotiatedFormat) -> (r: bool)
    ensures
        r == spec_is_standard(*f),
{
    f.f32_le && f.interleaved && f.channels == STANDARD_CHANNELS && f.rate == STANDARD_RATE
}

/// The 32-bit little-endian word starting at byte `4 * i` of `bytes`.
pub open spec fn le_word(bytes: Seq<u8>, i: int) -> u32 {
    (bytes[4 * i] as int + bytes[4 * i + 1] as int * 0x100 + bytes[4 * i + 2] as int * 0x1_0000 + bytes[4
        * i + 3] as int * 0x100_0000) as u32
}

/// Splits a buffer of F32LE samples into the bit patterns of its samples, each
/// read little-endian; `None` when the buffer does not hold whole samples.
pub fn sample_words(bytes: &[u8]) -> (r: Option<Vec<u32>>)
    ensures
        bytes@.len() % 4 != 0 ==> r.is_none(),
        bytes@.len() % 4 == 0 ==> (r matches Some(w) && w@.len() == bytes@.len() / 4 && forall|i: int|
            0 <= i < w@.len() ==> #[trigger] w@[i] == le_word(bytes@, i)),
{
    let n = bytes.len();
    if n % 4 != 0 {
        return None;
    }
    let count = n / 4;
    let mut words: Vec<u32> = Vec::new();
    let mut i: usize = 0;
    while i < count
        invariant
            i <= count,
            count == bytes@.len() / 4,
            n == bytes@.len(),
            n % 4 == 0,
            words@.len() == i,
            forall|k: int| 0 <= k < i ==> #[trigger] words@[k] == le_word(bytes@, k),
        decreases count - i,
    {
        let b = 4 * i;
        let w: u32 = bytes[b] as u32 + (bytes[b + 1] as u32) * 0x100 + (bytes[b + 2] as u32) * 0x1_0000
            + (bytes[b + 3] as u32) * 0x100_0000;
        words.push(w);
        i = i + 1;
    }
    Some(words)
}

/// Converts the appsink's running count of dropped buffers into the number
/// dropped since the previous reading.
pub struct DroppedBufferCounter {
    last: u64,
}

impl View for DroppedBufferCounter {
    type V = u64;

    closed spec fn view(&self) -> u64 {
        self.last
    }
}

impl DroppedBufferCounter {
    /// Starts from the count read when capture started.
    pub fn new(initial: u64) -> (r: DroppedBufferCounter)
        ensures
            r@ == initial,
    {
        DroppedBufferCounter { last: initial }
    }

    /// The buffers dropped since the previous reading, given the current running
    /// count (0 if the count went backwards); remembers the count.
    pub fn take(&mut self, dropped: u64) -> (r: u64)
        ensures
            r == if dropped >= old(self)@ { dropped - old(self)@ } else { 0 },
            final(self)@ == dropped,
    {
        let delta: u64 = if dropped >= self.last { dropped - self.last } else { 0 };
        self.last = dropped;
        delta
    }
}

} // verus!
