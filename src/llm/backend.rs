//! The tensor and tokenizer library seen from the decoding engine.
//!
//! Tensors, model weights, the sampler and the tokenizer are opaque here: their
//! values are carried through, and each call into them is a small wrapper below.
//! Nothing is assumed of a tensor's contents; what the engine knows of a call is
//! only whether it failed.
use candle_core::{DType, Device, Tensor};
use candle_transformers::generation::LogitsProcessor;
use candle_transformers::models::quantized_llama::ModelWeights;
use candle_transformers::models::quantized_mixformer::MixFormerSequentialForCausalLM;
use tokenizers::Tokenizer;
use vstd::prelude::*;

verus! {

/// A tensor of the compute library.
#[verifier::external_type_specification]
#[verifier::external_body]
pub struct ExTensor(Tensor);

/// The compute library's error.
#[verifier::external_type_specification]
#[verifier::external_body]
pub struct ExCandleError(candle_core::Error);

/// Quantized Llama weights, with their attention cache.
#[verifier::external_type_specification]
#[verifier::external_body]
pub struct ExModelWeights(ModelWeights);

/// Quantized MixFormer (Phi) weights, with their attention cache.
#[verifier::external_type_specification]
#[verifier::external_body]
pub struct ExMixFormer(MixFormerSequentialForCausalLM);

/// The seeded temperature / top-p sampler.
#[verifier::external_type_specification]
#[verifier::external_body]
pub struct ExLogitsProcessor(LogitsProcessor);

/// A subword tokenizer.
#[verifier::external_type_specification]
#[verifier::external_body]
pub struct ExTokenizer(Tokenizer);

/// Next-step logits: a one-dimensional tensor and its length. Only the functions
/// of this module make one, each from a tensor that it has checked or built to be
/// one-dimensional with that length.
pub struct Logits {
    tensor: Tensor,
    len: usize,
}

impl Logits {
    /// How many logits there are.
    pub closed spec fn size(&self) -> nat {
        self.len as nat
    }

    /// How many logits there are.
    pub fn len(&self) -> (r: usize)
        ensures
            r == self.size(),
    {
        self.len
    }

    /// The logits as a tensor.
    pub fn tensor(&self) -> &Tensor {
        &self.tensor
    }

    /// Relies on `Tensor::dims1`: it fails unless the tensor is one-dimensional, and
    /// else gives its length.
    #[verifier::external_body]
    pub fn from_tensor(tensor: Tensor) -> (r: Result<Logits, candle_core::Error>) {
        let len = tensor.dims1()?;
        Ok(Logits { tensor, len })
    }
}

/// Relies on `Tensor::new` and `Tensor::to_dtype`, which cannot fail on the CPU for a
/// one-element integer array turned single-precision: the one-element logits `[value]`.
#[verifier::external_body]
pub(crate) fn value_logits(value: u32) -> (r: Result<Logits, candle_core::Error>)
    ensures
        r is Ok,
        r matches Ok(l) ==> l.size() == 1,
{
    Ok(Logits { tensor: Tensor::new(&[value], &Device::Cpu)?.to_dtype(DType::F32)?, len: 1 })
}

/// Relies on `ModelWeights::forward`: next-step logits for the ids placed from
/// `index_pos` on, updating the attention cache. The ids become a batch of one
/// (`Tensor::new`, `unsqueeze`) and the logits lose that batch dimension (`squeeze`,
/// `dims1`). The rotary embedding of the forward pass panics on an empty input,
/// which the precondition leaves out.
#[verifier::external_body]
pub(crate) fn llama_forward(m: &mut ModelWeights, ids: &[u32], index_pos: usize) -> (r: Result<
    Logits,
    candle_core::Error,
>)
    requires
        ids@.len() > 0,
{
    let x = Tensor::new(ids, &Device::Cpu)?.unsqueeze(0)?;
    Logits::from_tensor(m.forward(&x, index_pos)?.squeeze(0)?)
}

/// Relies on `MixFormerSequentialForCausalLM::forward`: next-step logits for the ids,
/// updating the attention cache; converted as for `llama_forward`.
#[verifier::external_body]
pub(crate) fn mixformer_forward(m: &mut MixFormerSequentialForCausalLM, ids: &[u32]) -> (r: Result<
    Logits,
    candle_core::Error,
>)
    requires
        ids@.len() > 0,
{
    let x = Tensor::new(ids, &Device::Cpu)?.unsqueeze(0)?;
    Logits::from_tensor(m.forward(&x)?.squeeze(0)?)
}

/// Relies on `ModelWeights::clone`: a copy that shares the weights and owns a copy of
/// the attention cache.
#[verifier::external_body]
pub(crate) fn clone_llama(m: &ModelWeights) -> (r: ModelWeights) {
    m.clone()
}

/// Relies on `MixFormerSequentialForCausalLM::clone`: a copy that shares the weights
/// and owns a copy of the attention cache.
#[verifier::external_body]
pub(crate) fn clone_mixformer(m: &MixFormerSequentialForCausalLM) -> (r: MixFormerSequentialForCausalLM) {
    m.clone()
}

/// Relies on `LogitsProcessor::new`: a sampler seeded with `seed`, whose temperature
/// and top-p are the double-precision values with the given bit patterns
/// (`bytemuck::cast` only reinterprets the bits).
#[verifier::external_body]
pub(crate) fn logits_processor(seed: u64, temperature_bits: u64, top_p_bits: u64) -> (r: LogitsProcessor) {
    LogitsProcessor::new(seed, Some(bytemuck::cast(temperature_bits)), Some(bytemuck::cast(top_p_bits)))
}

/// Relies on `LogitsProcessor::sample`: draws one token id from `logits`, an index into
/// them (an argmax or a weighted draw over them). Its softmax panics on logits that
/// are not at least one long, which the precondition leaves out.
#[verifier::external_body]
pub(crate) fn sample_logits(p: &mut LogitsProcessor, logits: &Logits) -> (r: Result<
    u32,
    candle_core::Error,
>)
    requires
        logits.size() >= 1,
    ensures
        r matches Ok(t) ==> (t as nat) < logits.size(),
{
    p.sample(&logits.tensor)
}

/// Relies on `candle_transformers::utils::apply_repeat_penalty`: rescales the logits of
/// the ids in `context` by the single-precision penalty with the given bit pattern
/// (`bytemuck::cast` only reinterprets the bits). The result has as many logits as
/// the input: it is rebuilt from the input's values.
#[verifier::external_body]
pub(crate) fn repeat_penalty(logits: &Logits, penalty_bits: u32, context: &[u32]) -> (r: Result<
    Logits,
    candle_core::Error,
>)
    ensures
        r matches Ok(l) ==> l.size() == logits.size(),
{
    let t = candle_transformers::utils::apply_repeat_penalty(
        &logits.tensor,
        bytemuck::cast(penalty_bits),
        context,
    )?;
    Ok(Logits { tensor: t, len: logits.len })
}

/// Relies on `Tokenizer::encode` (with special tokens added): the ids of `text`, or
/// `None` where the tokenizer fails.
#[verifier::external_body]
pub(crate) fn encode_text(t: &Tokenizer, text: &str) -> (r: Option<Vec<u32>>) {
    match t.encode(text, true) {
        Ok(encoding) => Some(encoding.get_ids().to_vec()),
        Err(_) => None,
    }
}

/// Relies on `Tokenizer::decode` (special tokens skipped): the text of `ids`, or `None`
/// where the tokenizer fails.
#[verifier::external_body]
pub(crate) fn decode_ids(t: &Tokenizer, ids: &[u32]) -> (r: Option<String>) {
    t.decode(ids, true).ok()
}

/// Relies on `Tokenizer::token_to_id`: the id of the vocabulary entry `token`.
#[verifier::external_body]
pub(crate) fn token_id(t: &Tokenizer, token: &str) -> (r: Option<u32>) {
    t.token_to_id(token)
}

/// Relies on `Tokenizer::clone`: an independent copy of the tokenizer.
#[verifier::external_body]
pub(crate) fn clone_tokenizer(t: &Tokenizer) -> (r: Tokenizer) {
    t.clone()
}

} // verus!
