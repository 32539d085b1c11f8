//! Samplers: map next-step logits to one token id.
use crate::llm::backend::{sample_logits, Logits};
use crate::llm::LlmError;
use candle_transformers::generation::LogitsProcessor;
use vstd::prelude::*;

verus! {

/// A sampler that ignores the logits and returns 0, 1, 2, ... in turn.
pub struct DummySampler {
    index: u32,
}

impl DummySampler {
    /// The id that the next draw returns.
    pub closed spec fn next_id(&self) -> u32 {
        self.index
    }

    /// A sampler whose first draw is 0.
    pub fn new() -> (r: DummySampler)
        ensures
            r.next_id() == 0,
    {
        DummySampler { index: 0 }
    }

    /// Draws the next id of the count; `None` once the count has reached `u32::MAX`.
    pub fn draw(&mut self) -> (r: Option<u32>)
        ensures
            old(self).next_id() < u32::MAX ==> r == Some(old(self).next_id())
                && final(self).next_id() == old(self).next_id() + 1,
            old(self).next_id() == u32::MAX ==> r is None && final(self).next_id() == u32::MAX,
    {
        if self.index == u32::MAX {
            None
        } else {
            let id = self.index;
            self.index = self.index + 1;
            Some(id)
        }
    }
}

impl Default for DummySampler {
    fn default() -> (r: DummySampler)
        ensures
            r.next_id() == 0,
    {
        DummySampler::new()
    }
}

/// The sampling policies: the seeded temperature / top-p sampler, or the counting
/// test double.
pub enum Sampler {
    /// Temperature and nucleus sampling from a seeded random generator.
    Logits(LogitsProcessor),
    /// The counting test double.
    Dummy(DummySampler),
}

impl Sampler {
    /// The id that the counting double would draw next, if this is the double.
    pub open spec fn counter(&self) -> Option<u32> {
        match self {
            Sampler::Dummy(d) => Some(d.next_id()),
            Sampler::Logits(_) => None,
        }
    }

    /// Chooses one token id from `logits`.
    pub fn sample(&mut self, logits: &Logits) -> (r: Result<u32, LlmError>)
        requires
            logits.size() >= 1,
        ensures
            final(self).counter() is Some <==> old(self).counter() is Some,
            old(self).counter() matches Some(c) ==> {
                if c < u32::MAX {
                    r == Ok::<u32, LlmError>(c) && final(self).counter() == Some((c + 1) as u32)
                } else {
                    r == Err::<u32, LlmError>(LlmError::Generation) && final(self).counter() == Some(c)
                }
            },
            old(self).counter() is None ==> (r matches Ok(t) ==> (t as nat) < logits.size()),
            r matches Err(e) ==> e == LlmError::Generation,
    {
        match self {
            Sampler::Logits(p) => match sample_logits(p, logits) {
                Ok(id) => Ok(id),
                Err(_) => Err(LlmError::Generation),
            },
            Sampler::Dummy(d) => match d.draw() {
                Some(id) => Ok(id),
                None => Err(LlmError::Generation),
            },
        }
    }
}

} // verus!
