use vstd::prelude::*;

verus! {

/// How an engine instance is constructed: explicit FFT window and hop sizes,
/// or parameters derived from the sample rate by one of two presets.
///
/// The configuration is the sole source of truth for rebuilding an
/// equivalent engine: duplicating a handle replays the stored variant
/// through its matching constructor.
#[derive(Clone, Copy, Debug, PartialEq, Eq, Structural)]
pub enum Config {
    /// Direct FFT window size (`block_length`) and hop size (`interval`),
    /// both in samples.
    Explicit { channel_count: u32, block_length: usize, interval: usize },
    /// Window and hop derived from the sample rate, balanced for quality.
    PresetDefault { channel_count: u32, sample_rate: u32 },
    /// Window and hop derived from the sample rate, biased toward lower
    /// computational cost.
    PresetCheaper { channel_count: u32, sample_rate: u32 },
}

impl Config {
    /// The number of interleaved channels this configuration was made for.
    pub open spec fn spec_channel_count(self) -> u32 {
        match self {
            Config::Explicit { channel_count, .. } => channel_count,
            Config::PresetDefault { channel_count, .. } => channel_count,
            Config::PresetCheaper { channel_count, .. } => channel_count,
        }
    }

    /// A configuration is usable only with at least one channel: every
    /// frame-count derivation divides a buffer length by the channel count.
    pub open spec fn valid(self) -> bool {
        self.spec_channel_count() >= 1
    }

    /// Returns the channel count stored in the variant.
    pub fn channel_count(&self) -> (r: u32)
        ensures
            r == self.spec_channel_count(),
    {
        match self {
            Config::Explicit { channel_count, .. } => *channel_count,
            Config::PresetDefault { channel_count, .. } => *channel_count,
            Config::PresetCheaper { channel_count, .. } => *channel_count,
        }
    }
}

/// Why a handle could not be constructed.
#[derive(Clone, Copy, Debug, PartialEq, Eq, Structural)]
pub enum ConfigError {
    /// The requested channel count was zero, which would make every
    /// frame-count derivation divide by zero.
    ZeroChannelCount,
}

} // verus!
