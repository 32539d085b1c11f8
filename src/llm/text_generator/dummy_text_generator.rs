//! A text generator double that hands out its whole text in one step.
use crate::llm::text_generator::TextGeneratorResult;
use crate::llm::token_generator::PROBABILITY_ONE_BITS;
use crate::llm::{FinishReason, LlmError};
use vstd::prelude::*;

verus! {

/// Gives out its text as one piece, then reports `Finish(Length)`.
pub struct DummyTextGenerator {
    text: String,
}

impl DummyTextGenerator {
    /// The text not yet given out.
    pub closed spec fn text(&self) -> Seq<char> {
        self.text@
    }

    /// A double holding `text`.
    pub fn new(text: String) -> (r: DummyTextGenerator)
        ensures
            r.text() == text@,
    {
        DummyTextGenerator { text }
    }

    /// Replaces the held text with the prompt.
    pub fn init(&mut self, prompt: String) -> (r: Result<(), LlmError>)
        ensures
            r is Ok,
            final(self).text() == prompt@,
    {
        self.text = prompt;
        Ok(())
    }

    /// The held text as one piece while there is any, else `Finish(Length)`.
    pub fn next(&mut self) -> (r: Result<TextGeneratorResult, LlmError>)
        ensures
            old(self).text().len() > 0 ==> (r matches Ok(TextGeneratorResult::Token((t, p)))
                && t@ == old(self).text() && p == PROBABILITY_ONE_BITS),
            old(self).text().len() == 0 ==> r == Ok::<TextGeneratorResult, LlmError>(
                TextGeneratorResult::Finish(FinishReason::Length),
            ),
            final(self).text() == Seq::<char>::empty(),
    {
        if self.text.as_str().unicode_len() > 0 {
            let mut text = String::new();
            std::mem::swap(&mut text, &mut self.text);
            Ok(TextGeneratorResult::Token((text, PROBABILITY_ONE_BITS)))
        } else {
            Ok(TextGeneratorResult::Finish(FinishReason::Length))
        }
    }
}

} // verus!
