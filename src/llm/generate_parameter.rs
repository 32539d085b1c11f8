//! Parameters of one generation.
//!
//! Real-valued settings are held as the bit patterns of their IEEE-754 values:
//! the engine only compares them with fixed values and hands them on unchanged
//! to the sampler and the repetition penalty.
use vstd::prelude::*;

verus! {

/// Bit pattern of the single-precision value 1.0: a repetition penalty of 1.0 is
/// no penalty.
pub const PENALTY_DISABLED_BITS: u32 = 0x3F80_0000;

/// Bit pattern of the double-precision value 1.0.
pub const ONE_DOUBLE_BITS: u64 = 0x3FF0_0000_0000_0000;

/// Bit pattern of the double-precision value nearest to 0.9.
pub const NINE_TENTHS_DOUBLE_BITS: u64 = 0x3FEC_CCCC_CCCC_CCCD;

/// Settings that shape one generation. They do not change while it runs.
#[derive(Debug, Clone, Copy, PartialEq, Eq, Structural)]
pub struct GenerateParameter {
    /// Largest number of tokens to generate.
    pub max_new_tokens: usize,
    /// Seed of the sampler's random generator.
    pub seed: u64,
    /// Sampling temperature, as the bits of a double-precision value.
    pub temperature_bits: u64,
    /// Nucleus sampling cutoff, as the bits of a double-precision value.
    pub top_p_bits: u64,
    /// Repetition penalty, as the bits of a single-precision value.
    pub repeat_penalty_bits: u32,
    /// How many of the latest tokens the repetition penalty looks at.
    pub repeat_last_n: usize,
}

impl GenerateParameter {
    /// Whether the repetition penalty changes any logit: it does unless it is exactly 1.0.
    pub open spec fn spec_penalty_enabled(&self) -> bool {
        self.repeat_penalty_bits != PENALTY_DISABLED_BITS
    }

    /// Whether the repetition penalty changes any logit.
    pub fn penalty_enabled(&self) -> (r: bool)
        ensures
            r == self.spec_penalty_enabled(),
    {
        self.repeat_penalty_bits != PENALTY_DISABLED_BITS
    }
}

/// Default largest number of new tokens.
pub fn default_max_new_tokens() -> (r: usize)
    ensures
        r == 50,
{
    50
}

/// Default sampler seed.
pub fn default_seed() -> (r: u64)
    ensures
        r == 299792458,
{
    299792458
}

/// Default temperature: 1.0.
pub fn default_temperature_bits() -> (r: u64)
    ensures
        r == ONE_DOUBLE_BITS,
{
    ONE_DOUBLE_BITS
}

/// Default nucleus cutoff: 0.9.
pub fn default_top_p_bits() -> (r: u64)
    ensures
        r == NINE_TENTHS_DOUBLE_BITS,
{
    NINE_TENTHS_DOUBLE_BITS
}

/// Default repetition penalty: 1.0, which disables it.
pub fn default_repeat_penalty_bits() -> (r: u32)
    ensures
        r == PENALTY_DISABLED_BITS,
{
    PENALTY_DISABLED_BITS
}

/// Default size of the repetition window.
pub fn default_repeat_last_n() -> (r: usize)
    ensures
        r == 64,
{
    64
}

impl Default for GenerateParameter {
    fn default() -> (r: GenerateParameter)
        ensures
            r == (GenerateParameter {
                max_new_tokens: 50,
                seed: 299792458,
                temperature_bits: ONE_DOUBLE_BITS,
                top_p_bits: NINE_TENTHS_DOUBLE_BITS,
                repeat_penalty_bits: PENALTY_DISABLED_BITS,
                repeat_last_n: 64,
            }),
    {
        GenerateParameter {
            max_new_tokens: default_max_new_tokens(),
            seed: default_seed(),
            temperature_bits: default_temperature_bits(),
            top_p_bits: default_top_p_bits(),
            repeat_penalty_bits: default_repeat_penalty_bits(),
            repeat_last_n: default_repeat_last_n(),
        }
    }
}

} // verus!
