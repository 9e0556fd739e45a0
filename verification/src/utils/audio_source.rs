//! A source that hands out 16-bit mono samples one at a time.

use vstd::prelude::*;

verus! {

/// Plays samples directly from a `Vec<i16>`, mono, at a given sample rate.
pub struct DirectSampleSource {
    samples: Vec<i16>,
    sample_rate: u32,
    channels: u16,
    position: usize,
}

impl DirectSampleSource {
    #[verifier::type_invariant]
    spec fn inv(self) -> bool {
        self.position <= self.samples@.len() && self.channels == 1
    }

    /// The samples not yet handed out.
    pub closed spec fn remaining(&self) -> Seq<i16> {
        self.samples@.skip(self.position as int)
    }

    /// All samples of the source.
    pub closed spec fn all_samples(&self) -> Seq<i16> {
        self.samples@
    }

    /// The sample rate in Hz.
    pub closed spec fn rate(&self) -> u32 {
        self.sample_rate
    }

    /// Create a new source from i16 samples
    pub fn new(samples: Vec<i16>, sample_rate: u32) -> (r: Self)
        ensures
            r.remaining() == samples@,
            r.all_samples() == samples@,
            r.rate() == sample_rate,
    {
        let r = DirectSampleSource { samples, sample_rate, channels: 1, position: 0 };
        assert(r.samples@.skip(0) == r.samples@);
        r
    }

    /// The next sample, or `None` once all have been handed out.
    pub fn next_sample(&mut self) -> (r: Option<i16>)
        ensures
            old(self).remaining().len() == 0 ==> r is None && final(self).remaining() == old(self).remaining(),
            old(self).remaining().len() > 0 ==> r == Some(old(self).remaining()[0])
                && final(self).remaining() == old(self).remaining().drop_first(),
            final(self).rate() == old(self).rate(),
            final(self).all_samples() == old(self).all_samples(),
    {
        proof {
            use_type_invariant(&*self);
        }
        if self.position < self.samples.len() {
            let s = self.samples[self.position];
            self.position = self.position + 1;
            assert(self.samples@.skip(self.position as int) =~= old(self).remaining().drop_first());
            Some(s)
        } else {
            None
        }
    }

    /// The number of samples not yet handed out.
    pub fn current_span_len(&self) -> (r: Option<usize>)
        ensures
            r == Some(self.remaining().len() as usize),
    {
        proof {
            use_type_invariant(self);
        }
        Some(self.samples.len() - self.position)
    }

    /// The number of channels (always 1).
    pub fn channels(&self) -> (r: u16)
        ensures
            r == 1,
    {
        proof {
            use_type_invariant(self);
        }
        self.channels
    }

    /// The sample rate in Hz.
    pub fn sample_rate(&self) -> (r: u32)
        ensures
            r == self.rate(),
    {
        self.sample_rate
    }

    /// The total number of samples.
    pub fn total_samples(&self) -> (r: usize)
        ensures
            r == self.all_samples().len(),
    {
        proof {
            use_type_invariant(self);
        }
        self.samples.len()
    }
}

} // verus!
