//! The negotiated configuration of one hardware input stream.

use vstd::prelude::*;

verus! {

/// The sample encodings a hardware input device can deliver. Anything that
/// is neither 16-bit integer nor 32-bit float is rejected up front.
#[derive(Clone, Copy, PartialEq, Eq, Structural, Debug)]
pub enum NativeFormat {
    Int16,
    Float32,
    Other,
}

/// Sample rate, channel count and native sample format of the active input
/// device; derived once per capture and immutable for its lifetime.
#[derive(Clone, Copy, PartialEq, Eq, Structural, Debug)]
pub struct AudioConfig {
    pub sample_rate: u32,
    pub channels: u16,
    pub sample_format: NativeFormat,
}

/// A usable stream configuration: positive rate and channel count, with a
/// byte rate and a block alignment that the container's header fields can
/// hold.
pub open spec fn audio_config_wf(c: AudioConfig) -> bool {
    &&& c.sample_rate >= 1
    &&& c.channels >= 1
    &&& c.sample_rate as int * c.channels as int * 2 <= u32::MAX as int
    &&& c.channels as int * 2 <= u16::MAX as int
}

/// Whether the device's native sample format is one the sink can
/// canonicalize.
pub open spec fn format_supported(f: NativeFormat) -> bool {
    f == NativeFormat::Int16 || f == NativeFormat::Float32
}

impl AudioConfig {
    /// Runtime check matching [`audio_config_wf`].
    pub fn is_usable(&self) -> (r: bool)
        ensures
            r == audio_config_wf(*self),
    {
        proof {
            assert((self.sample_rate as int) * (self.channels as int) * 2 <= (u32::MAX as int) * (
            u16::MAX as int) * 2) by (nonlinear_arith)
                requires
                    0 <= self.sample_rate <= u32::MAX,
                    0 <= self.channels <= u16::MAX,
            ;
        }
        self.sample_rate >= 1 && self.channels >= 1 && (self.sample_rate as u64) * (self.channels
            as u64) * 2 <= u32::MAX as u64 && (self.channels as u32) * 2 <= u16::MAX as u32
    }
}

} // verus!
