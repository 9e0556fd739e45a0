//! Audio processing configuration: mono conversion and resampling to 16 kHz.

use vstd::prelude::*;

verus! {

/// Target sample rate for STT models (16kHz)
pub const TARGET_SAMPLE_RATE: u32 = 16000;

/// Audio Processor settings: the input rate and channel count, and whether
/// the input has to be resampled to the target rate.
pub struct AudioProcessor {
    input_sample_rate: u32,
    channels: usize,
    needs_resampling: bool,
}

impl AudioProcessor {
    /// The input sample rate.
    pub closed spec fn input_rate(&self) -> u32 {
        self.input_sample_rate
    }

    /// The number of interleaved input channels.
    pub closed spec fn channel_count(&self) -> usize {
        self.channels
    }

    /// Whether input must be resampled.
    pub closed spec fn resamples(&self) -> bool {
        self.needs_resampling
    }

    /// Create a new audio processor with the given input configuration
    pub fn new(input_sample_rate: u32, channels: usize) -> (r: Self)
        ensures
            r.input_rate() == input_sample_rate,
            r.channel_count() == channels,
            r.resamples() == (input_sample_rate != TARGET_SAMPLE_RATE),
    {
        let needs_resampling = input_sample_rate != TARGET_SAMPLE_RATE;
        AudioProcessor { input_sample_rate, channels, needs_resampling }
    }

    /// The input sample rate.
    pub fn input_sample_rate(&self) -> (r: u32)
        ensures
            r == self.input_rate(),
    {
        self.input_sample_rate
    }

    /// The number of interleaved input channels.
    pub fn channels(&self) -> (r: usize)
        ensures
            r == self.channel_count(),
    {
        self.channels
    }

    /// Whether input must be resampled to the target rate.
    pub fn needs_resampling(&self) -> (r: bool)
        ensures
            r == self.resamples(),
    {
        self.needs_resampling
    }

    /// Get the target sample rate
    pub fn target_sample_rate() -> (r: u32)
        ensures
            r == TARGET_SAMPLE_RATE,
    {
        TARGET_SAMPLE_RATE
    }
}

} // verus!
