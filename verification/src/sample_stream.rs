use vstd::prelude::*;

verus! {

/// A finite stream of samples, read front to back.
///
/// It stands for a source of randomness: whoever owns the source draws the
/// samples, and construction takes them from the stream one at a time, in
/// order. A stream is passed by exclusive reference through nested
/// constructors, so that each continues where the one before stopped.
pub struct SampleStream<T> {
    samples: Vec<T>,
    taken: usize,
}

impl<T> SampleStream<T> {
    /// No more samples have been drawn than the stream was given.
    #[verifier::type_invariant]
    spec fn within_samples(&self) -> bool {
        self.taken <= self.samples@.len()
    }
}

impl<T: Copy> SampleStream<T> {
    /// The samples not yet drawn, the next one first.
    pub closed spec fn remaining(&self) -> Seq<T> {
        self.samples@.skip(self.taken as int)
    }

    /// The number of samples drawn so far.
    pub closed spec fn position(&self) -> nat {
        self.taken as nat
    }

    /// A stream that yields `samples` from the first to the last.
    pub fn new(samples: Vec<T>) -> (stream: Self)
        ensures
            stream.remaining() == samples@,
            stream.position() == 0,
    {
        SampleStream { samples, taken: 0 }
    }

    /// The number of samples not yet drawn.
    pub fn remaining_len(&self) -> (n: usize)
        ensures
            n == self.remaining().len(),
    {
        proof {
            use_type_invariant(self);
        }
        self.samples.len() - self.taken
    }

    /// The number of samples drawn so far.
    pub fn consumed(&self) -> (n: usize)
        ensures
            n == self.position(),
    {
        self.taken
    }

    /// Draws the next sample, or returns `None` where none is left.
    pub fn draw(&mut self) -> (sample: Option<T>)
        ensures
            sample is Some <==> old(self).remaining().len() > 0,
            sample matches Some(drawn) ==> {
                &&& drawn == old(self).remaining()[0]
                &&& final(self).remaining() == old(self).remaining().skip(1)
                &&& final(self).position() == old(self).position() + 1
            },
            sample is None ==> *final(self) == *old(self),
    {
        proof {
            use_type_invariant(&*self);
        }
        if self.taken < self.samples.len() {
            let sample = self.samples[self.taken];
            self.taken = self.taken + 1;
            Some(sample)
        } else {
            None
        }
    }
}

} // verus!
