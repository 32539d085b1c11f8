//! Request and response values of the HTTP interface.
use crate::llm::generate_parameter::GenerateParameter;
use crate::llm::LlmError;
use vstd::prelude::*;
use vstd::string::*;

verus! {

/// Why a generation finished, as clients see it.
#[derive(Debug, Clone, Copy, PartialEq, Eq, Structural)]
pub enum FinishReason {
    /// The maximum length was reached.
    Length,
    /// The model produced an end-of-sequence token.
    EosToken,
    /// A stop sequence was reached.
    StopSequence,
}

/// The finish reason reported to clients: a length stop as such, any other stop as
/// an end-of-sequence token.
pub fn finish_reason_of(reason: crate::llm::FinishReason) -> (r: FinishReason)
    ensures
        r == (if reason == crate::llm::FinishReason::Length {
            FinishReason::Length
        } else {
            FinishReason::EosToken
        }),
{
    match reason {
        crate::llm::FinishReason::Length => FinishReason::Length,
        _ => FinishReason::EosToken,
    }
}

/// What the last event of a stream tells about the generation.
#[derive(Debug, Clone, Copy, PartialEq, Eq, Structural)]
pub struct StreamDetails {
    /// Why the generation finished.
    pub finish_reason: FinishReason,
    /// How many tokens were generated.
    pub generated_tokens: i32,
    /// The sampler's seed.
    pub seed: Option<i64>,
}

/// The largest count that fits an `i32`, the count itself where it fits.
pub open spec fn clamp_count(n: nat) -> i32 {
    if n <= i32::MAX {
        n as i32
    } else {
        i32::MAX
    }
}

impl StreamDetails {
    /// The details of a finished generation. A count beyond the range of `i32` is
    /// reported as `i32::MAX`; the seed keeps its 64 bits.
    pub fn new(reason: crate::llm::FinishReason, generated_tokens: usize, seed: u64) -> (r:
        StreamDetails)
        ensures
            r.finish_reason == (if reason == crate::llm::FinishReason::Length {
                FinishReason::Length
            } else {
                FinishReason::EosToken
            }),
            r.generated_tokens == clamp_count(generated_tokens as nat),
            r.seed == Some(#[verifier::truncate] (seed as i64)),
    {
        let generated_tokens = if generated_tokens <= i32::MAX as usize {
            generated_tokens as i32
        } else {
            i32::MAX
        };
        StreamDetails {
            finish_reason: finish_reason_of(reason),
            generated_tokens,
            seed: Some(#[verifier::truncate] (seed as i64)),
        }
    }
}

/// An error reported to a client.
#[derive(Debug, Clone, PartialEq, Eq)]
pub struct ErrorResponse {
    /// What went wrong.
    pub error: String,
    /// The kind of error, where one is given.
    pub error_type: Option<String>,
}

impl ErrorResponse {
    /// The response that reports `e`.
    pub fn from_error(e: LlmError) -> (r: ErrorResponse)
        ensures
            r.error@ == e.message_view(),
            r.error_type is None,
    {
        ErrorResponse { error: String::from_str(e.message()), error_type: None }
    }
}

/// The text of a blocking generation.
#[derive(Debug, Clone, PartialEq, Eq)]
pub struct GenerateResponse {
    /// The generated text.
    pub generated_text: String,
}

/// The values of a request's generation parameters that the service reads.
/// Real-valued settings are the bits of their IEEE-754 values.
#[derive(Debug, Clone, Copy, PartialEq, Eq, Structural)]
pub struct RequestParameters {
    /// Sampling temperature (bits of a double-precision value).
    pub temperature_bits: Option<u64>,
    /// Nucleus cutoff (bits of a double-precision value).
    pub top_p_bits: Option<u64>,
    /// Repetition penalty (bits of a single-precision value).
    pub repetition_penalty_bits: Option<u32>,
    /// Size of the repetition window.
    pub top_n_tokens: Option<i32>,
    /// Largest number of new tokens.
    pub max_new_tokens: Option<i32>,
    /// Seed of the sampler.
    pub seed: Option<i64>,
}

/// Bit pattern of the single-precision value nearest to 1.1, the repetition penalty
/// of a request that names none.
pub const REQUEST_PENALTY_BITS: u32 = 0x3F8C_CCCD;

/// The sampler seed of requests that name none.
pub const REQUEST_SEED: u64 = 42;

/// The generation parameters of a request: temperature and top-p 0.0 where absent,
/// penalty 1.1, window 64, 50 new tokens and seed 42 where absent. A seed keeps its
/// 64 bits. A negative window or token count is rejected.
pub fn generate_parameter_from_request(parameters: &Option<RequestParameters>) -> (r: Result<
    GenerateParameter,
    LlmError,
>)
    ensures
        r is Err <==> (parameters matches Some(p) && ((p.top_n_tokens matches Some(n) && n < 0) || (
        p.max_new_tokens matches Some(m) && m < 0))),
        r matches Err(e) ==> e == LlmError::InvalidInput,
        r matches Ok(g) ==> {
            &&& g.seed == match parameters {
                Some(p) => match p.seed {
                    Some(s) => #[verifier::truncate] (s as u64),
                    None => REQUEST_SEED,
                },
                None => REQUEST_SEED,
            }
            &&& g.temperature_bits == match parameters {
                Some(p) => match p.temperature_bits {
                    Some(t) => t,
                    None => 0,
                },
                None => 0,
            }
            &&& g.top_p_bits == match parameters {
                Some(p) => match p.top_p_bits {
                    Some(t) => t,
                    None => 0,
                },
                None => 0,
            }
            &&& g.repeat_penalty_bits == match parameters {
                Some(p) => match p.repetition_penalty_bits {
                    Some(t) => t,
                    None => REQUEST_PENALTY_BITS,
                },
                None => REQUEST_PENALTY_BITS,
            }
            &&& g.repeat_last_n as int == match parameters {
                Some(p) => match p.top_n_tokens {
                    Some(n) => n as int,
                    None => 64,
                },
                None => 64,
            }
            &&& g.max_new_tokens as int == match parameters {
                Some(p) => match p.max_new_tokens {
                    Some(n) => n as int,
                    None => 50,
                },
                None => 50,
            }
        },
{
    let p = match parameters {
        Some(p) => *p,
        None => RequestParameters {
            temperature_bits: None,
            top_p_bits: None,
            repetition_penalty_bits: None,
            top_n_tokens: None,
            max_new_tokens: None,
            seed: None,
        },
    };
    let repeat_last_n: i32 = match p.top_n_tokens {
        Some(n) => n,
        None => 64,
    };
    let max_new_tokens: i32 = match p.max_new_tokens {
        Some(n) => n,
        None => 50,
    };
    if repeat_last_n < 0 || max_new_tokens < 0 {
        return Err(LlmError::InvalidInput);
    }
    Ok(
        GenerateParameter {
            max_new_tokens: max_new_tokens as usize,
            seed: match p.seed {
                Some(s) => #[verifier::truncate] (s as u64),
                None => REQUEST_SEED,
            },
            temperature_bits: match p.temperature_bits {
                Some(t) => t,
                None => 0,
            },
            top_p_bits: match p.top_p_bits {
                Some(t) => t,
                None => 0,
            },
            repeat_penalty_bits: match p.repetition_penalty_bits {
                Some(t) => t,
                None => REQUEST_PENALTY_BITS,
            },
            repeat_last_n: repeat_last_n as usize,
        },
    )
}

} // verus!
