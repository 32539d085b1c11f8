//! Language model components: the model catalogue, the decoding loop, the sampler,
//! the text assembler and the generation session.
use vstd::prelude::*;

pub mod backend;
pub mod dummy_text_generator;
pub mod generate_parameter;
pub mod loader;
pub mod model_processor;
pub mod models;
pub mod sampler;
pub mod text_assembler;
pub mod text_generation;
pub mod text_generator;
pub mod token_generator;

verus! {

/// Why a generation stopped.
#[derive(Debug, Clone, Copy, PartialEq, Eq, Structural)]
pub enum FinishReason {
    /// The maximum number of new tokens was reached.
    Length,
    /// The model produced a stop token.
    EosToken,
    /// A stop sequence was found in the text.
    StopSequence,
}

/// Why a generation could not be served.
#[derive(Debug, Clone, Copy, PartialEq, Eq, Structural)]
pub enum LlmError {
    /// The shared model is busy or could not be loaded.
    ModelUnavailable,
    /// The prompt could not be turned into tokens.
    Tokenize,
    /// A forward pass, a draw of the sampler or a decode failed.
    Generation,
    /// The generation ended before it produced anything.
    IncompleteGeneration,
    /// A request parameter is out of range.
    InvalidInput,
}

impl LlmError {
    /// The HTTP status that reports this error.
    pub fn status_code(&self) -> (r: u16)
        ensures
            r == match *self {
                LlmError::ModelUnavailable => 429u16,
                LlmError::Tokenize => 422u16,
                LlmError::Generation => 424u16,
                LlmError::IncompleteGeneration => 500u16,
                LlmError::InvalidInput => 422u16,
            },
    {
        match self {
            LlmError::ModelUnavailable => 429,
            LlmError::Tokenize => 422,
            LlmError::Generation => 424,
            LlmError::IncompleteGeneration => 500,
            LlmError::InvalidInput => 422,
        }
    }

    /// The message that reports this error.
    pub open spec fn message_view(&self) -> Seq<char> {
        match *self {
            LlmError::ModelUnavailable => "Model is overloaded"@,
            LlmError::Tokenize => "Input validation error"@,
            LlmError::Generation => "Request failed during generation"@,
            LlmError::IncompleteGeneration => "Incomplete generation"@,
            LlmError::InvalidInput => "Input validation error"@,
        }
    }

    /// The message that reports this error.
    pub fn message(&self) -> (r: &'static str)
        ensures
            r@ == self.message_view(),
    {
        proof {
            reveal_strlit("Model is overloaded");
            reveal_strlit("Input validation error");
            reveal_strlit("Request failed during generation");
            reveal_strlit("Incomplete generation");
        }
        match self {
            LlmError::ModelUnavailable => "Model is overloaded",
            LlmError::Tokenize => "Input validation error",
            LlmError::Generation => "Request failed during generation",
            LlmError::IncompleteGeneration => "Incomplete generation",
            LlmError::InvalidInput => "Input validation error",
        }
    }
}

} // verus!
