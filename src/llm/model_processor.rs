//! The model forward capability: given context tokens and a position, produce
//! next-step logits.
use crate::llm::backend::{
    clone_llama, clone_mixformer, llama_forward, mixformer_forward, value_logits, Logits,
};
use crate::llm::LlmError;
use candle_transformers::models::quantized_llama::ModelWeights;
use candle_transformers::models::quantized_mixformer::MixFormerSequentialForCausalLM;
use vstd::prelude::*;

verus! {

/// Loaded weights of one of the supported architectures.
pub enum Model {
    /// Quantized Llama-type weights.
    Llama(ModelWeights),
    /// Quantized MixFormer (Phi) weights.
    MixFormer(MixFormerSequentialForCausalLM),
}

impl Model {
    /// Next-step logits for the input ids placed from `index_pos` on. The MixFormer
    /// network tracks positions itself and is not given `index_pos`. An empty input
    /// is refused before the network sees it.
    pub fn forward(&mut self, ids: &[u32], index_pos: usize) -> (r: Result<Logits, LlmError>)
        ensures
            *final(self) is Llama <==> *old(self) is Llama,
            ids@.len() == 0 ==> r is Err,
            r matches Err(e) ==> e == LlmError::Generation,
    {
        if ids.len() == 0 {
            return Err(LlmError::Generation);
        }
        let out = match self {
            Model::Llama(m) => llama_forward(m, ids, index_pos),
            Model::MixFormer(m) => mixformer_forward(m, ids),
        };
        match out {
            Ok(t) => Ok(t),
            Err(_) => Err(LlmError::Generation),
        }
    }

    /// A copy for one request: it shares the weights and has its own copy of the
    /// attention cache, so the request's forward passes leave this model untouched.
    pub fn duplicate(&self) -> (r: Model)
        ensures
            r is Llama <==> *self is Llama,
    {
        match self {
            Model::Llama(m) => Model::Llama(clone_llama(m)),
            Model::MixFormer(m) => Model::MixFormer(clone_mixformer(m)),
        }
    }
}

/// A model double that ignores its input and answers the n-th call with the
/// one-element tensor `[n]`, counting from 0.
pub struct DummyModelProcessor {
    index: u32,
}

impl DummyModelProcessor {
    /// How many calls were answered.
    pub closed spec fn calls(&self) -> u32 {
        self.index
    }

    /// A double that has answered no call.
    pub fn new() -> (r: DummyModelProcessor)
        ensures
            r.calls() == 0,
    {
        DummyModelProcessor { index: 0 }
    }

    /// The logits `[n]` for the n-th call.
    pub fn forward(&mut self, _ids: &[u32], _index_pos: usize) -> (r: Result<Logits, LlmError>)
        ensures
            old(self).calls() < u32::MAX ==> final(self).calls() == old(self).calls() + 1
                && (r matches Ok(l) && l.size() == 1),
            old(self).calls() == u32::MAX ==> r is Err && final(self).calls() == u32::MAX,
            r matches Err(e) ==> e == LlmError::Generation,
    {
        if self.index == u32::MAX {
            return Err(LlmError::Generation);
        }
        let n = self.index;
        self.index = self.index + 1;
        match value_logits(n) {
            Ok(t) => Ok(t),
            Err(_) => Err(LlmError::Generation),
        }
    }
}

impl Default for DummyModelProcessor {
    fn default() -> (r: DummyModelProcessor)
        ensures
            r.calls() == 0,
    {
        DummyModelProcessor::new()
    }
}

/// The model behind a decoding loop: real weights or the counting double.
pub enum ModelProcessor {
    /// Loaded weights.
    Model(Model),
    /// The counting double.
    Dummy(DummyModelProcessor),
}

impl ModelProcessor {
    /// How many calls the counting double has answered, where the model is that double.
    pub open spec fn counter(&self) -> Option<u32> {
        match self {
            ModelProcessor::Dummy(d) => Some(d.calls()),
            ModelProcessor::Model(_) => None,
        }
    }

    /// Next-step logits for the input ids placed from `index_pos` on.
    pub fn forward(&mut self, ids: &[u32], index_pos: usize) -> (r: Result<Logits, LlmError>)
        ensures
            final(self).counter() is Some <==> old(self).counter() is Some,
            old(self).counter() matches Some(c) ==> (c < u32::MAX ==> (r matches Ok(l) && l.size()
                == 1) && final(self).counter() == Some((c + 1) as u32)),
            old(self).counter() is Some ==> (r matches Ok(l) ==> l.size() == 1),
            r matches Err(e) ==> e == LlmError::Generation,
    {
        match self {
            ModelProcessor::Model(m) => m.forward(ids, index_pos),
            ModelProcessor::Dummy(d) => d.forward(ids, index_pos),
        }
    }
}

} // verus!
