//! A decoding loop double that emits the counting sampler's ids.
use crate::llm::generate_parameter::GenerateParameter;
use crate::llm::sampler::DummySampler;
use crate::llm::token_generator::{TokenGeneratorResult, PROBABILITY_ONE_BITS};
use crate::llm::{FinishReason, LlmError};
use vstd::prelude::*;

verus! {

/// A decoding loop that needs no model: step `k` (from 0) emits the counter's next
/// id until `max_new_tokens` tokens were emitted, then reports `Finish(Length)`.
pub struct DummyTokenGenerator {
    parameter: GenerateParameter,
    index: usize,
    sampler: DummySampler,
}

impl DummyTokenGenerator {
    /// Tokens emitted since the last `init`.
    pub closed spec fn steps(&self) -> nat {
        self.index as nat
    }

    /// The id that the next emitted token carries.
    pub closed spec fn next_id(&self) -> u32 {
        self.sampler.next_id()
    }

    /// The parameters of the generation.
    pub closed spec fn parameter(&self) -> GenerateParameter {
        self.parameter
    }

    /// A double whose first token is 0.
    pub fn new(parameter: GenerateParameter) -> (r: DummyTokenGenerator)
        ensures
            r.steps() == 0,
            r.next_id() == 0,
            r.parameter() == parameter,
    {
        DummyTokenGenerator { parameter, index: 0, sampler: DummySampler::new() }
    }

    /// Starts a new generation; the prompt is ignored and the count of ids goes on.
    pub fn init(&mut self, _prompt_tokens: Vec<u32>) -> (r: Result<(), LlmError>)
        ensures
            r is Ok,
            final(self).steps() == 0,
            final(self).next_id() == old(self).next_id(),
            final(self).parameter() == old(self).parameter(),
    {
        self.index = 0;
        Ok(())
    }

    /// The next step: the counter's id while fewer than `max_new_tokens` tokens were
    /// emitted, else `Finish(Length)`.
    pub fn next(&mut self) -> (r: Result<TokenGeneratorResult, LlmError>)
        ensures
            final(self).parameter() == old(self).parameter(),
            old(self).steps() >= old(self).parameter().max_new_tokens ==> r == Ok::<
                TokenGeneratorResult,
                LlmError,
            >(TokenGeneratorResult::Finish(FinishReason::Length)) && *final(self) == *old(self),
            old(self).steps() < old(self).parameter().max_new_tokens && old(self).next_id()
                < u32::MAX ==> r == Ok::<TokenGeneratorResult, LlmError>(
                TokenGeneratorResult::Token((old(self).next_id(), PROBABILITY_ONE_BITS)),
            ) && final(self).steps() == old(self).steps() + 1 && final(self).next_id()
                == old(self).next_id() + 1,
            old(self).steps() < old(self).parameter().max_new_tokens && old(self).next_id()
                == u32::MAX ==> r == Err::<TokenGeneratorResult, LlmError>(LlmError::Generation)
                && final(self).steps() == old(self).steps() && final(self).next_id()
                == old(self).next_id(),
    {
        if self.index >= self.parameter.max_new_tokens {
            return Ok(TokenGeneratorResult::Finish(FinishReason::Length));
        }
        match self.sampler.draw() {
            Some(id) => {
                self.index = self.index + 1;
                Ok(TokenGeneratorResult::Token((id, PROBABILITY_ONE_BITS)))
            },
            None => Err(LlmError::Generation),
        }
    }
}

} // verus!
