//! The decoding loop: turns a primed model, a sampler and the stop rules into a
//! sequence of tokens, one step per call.
//!
//! The loop's behaviour is stated over `DecodeView`, a mathematical picture of its
//! state, and the transition `advance`: a step that draws the id `t` moves from
//! `s` to `advance(s, t).0` and reports `advance(s, t).1`.
use crate::llm::backend::{repeat_penalty, token_id, Logits};
use crate::llm::text_generation::{present_ids, stop_set_of};
use tokenizers::Tokenizer;
use crate::llm::generate_parameter::GenerateParameter;
use crate::llm::model_processor::ModelProcessor;
use crate::llm::sampler::Sampler;
use crate::llm::{FinishReason, LlmError};
use std::collections::HashSet;
use vstd::prelude::*;
use vstd::slice::slice_subrange;

pub mod dummy;

verus! {

broadcast use vstd::std_specs::hash::group_hash_axioms;

/// Bit pattern of the single-precision value 1.0, the probability reported with
/// every token.
pub const PROBABILITY_ONE_BITS: u32 = 0x3F80_0000;

/// What one step of the loop reports.
#[derive(Debug, Clone, Copy, PartialEq, Eq)]
pub enum TokenGeneratorResult {
    /// A generated token id with its probability (bits of a single-precision value).
    Token((u32, u32)),
    /// The generation is over.
    Finish(FinishReason),
}

/// Where the loop stands.
#[derive(Debug, Clone, Copy, PartialEq, Eq, Structural)]
pub enum DecodeStatus {
    /// No prompt was given yet.
    Idle,
    /// Primed with a prompt and producing tokens.
    Running,
    /// Over, for the given reason; every later step reports the same reason.
    Finished(FinishReason),
    /// A forward pass or a draw failed; the loop produces nothing more.
    Failed,
}

/// The state of a decoding loop, as mathematics.
pub struct DecodeView {
    /// Tokens emitted so far, the prompt excluded.
    pub index: nat,
    /// The prompt followed by every generated token, a stop token included.
    pub all_tokens: Seq<u32>,
    /// Length of the prompt at the head of `all_tokens`.
    pub prompt_len: nat,
    /// Largest number of tokens to emit.
    pub max_new_tokens: nat,
    /// Ids that end the generation.
    pub stop: Set<u32>,
    /// Where the loop stands.
    pub status: DecodeStatus,
}

/// Whether the next step asks the sampler for a token.
pub open spec fn draws(s: DecodeView) -> bool {
    s.status == DecodeStatus::Running && s.index < s.max_new_tokens
}

/// One step of the loop from `s`, where `t` is the id that the sampler draws (it
/// matters only where the step draws).
pub open spec fn advance(s: DecodeView, t: u32) -> (DecodeView, TokenGeneratorResult) {
    match s.status {
        DecodeStatus::Running => {
            if s.index >= s.max_new_tokens {
                (
                    DecodeView { status: DecodeStatus::Finished(FinishReason::Length), ..s },
                    TokenGeneratorResult::Finish(FinishReason::Length),
                )
            } else if s.stop.contains(t) {
                (
                    DecodeView {
                        all_tokens: s.all_tokens.push(t),
                        status: DecodeStatus::Finished(FinishReason::EosToken),
                        ..s
                    },
                    TokenGeneratorResult::Finish(FinishReason::EosToken),
                )
            } else {
                (
                    DecodeView { all_tokens: s.all_tokens.push(t), index: s.index + 1, ..s },
                    TokenGeneratorResult::Token((t, PROBABILITY_ONE_BITS)),
                )
            }
        },
        DecodeStatus::Finished(r) => (s, TokenGeneratorResult::Finish(r)),
        _ => (s, TokenGeneratorResult::Finish(FinishReason::Length)),
    }
}

/// The tokens emitted so far.
pub open spec fn generated(s: DecodeView) -> Seq<u32> {
    s.all_tokens.subrange(s.prompt_len as int, (s.prompt_len + s.index) as int)
}

/// The invariant of the loop's state: the history is the prompt, the emitted
/// tokens and, after a stop, the stop token; never more than the maximum is emitted.
pub open spec fn view_wf(s: DecodeView) -> bool {
    &&& s.index <= s.max_new_tokens
    &&& s.prompt_len <= s.all_tokens.len()
    &&& if s.status == DecodeStatus::Finished(FinishReason::EosToken) {
        &&& s.all_tokens.len() == s.prompt_len + s.index + 1
        &&& s.stop.contains(s.all_tokens.last())
    } else {
        s.all_tokens.len() == s.prompt_len + s.index
    }
    &&& forall|i: int| 0 <= i < s.index ==> !s.stop.contains(#[trigger] generated(s)[i])
    &&& s.status == DecodeStatus::Idle ==> s.index == 0
}

/// The positions of the history that the repetition penalty looks at: the last
/// `n` tokens, or all of them where there are fewer.
pub open spec fn penalty_window(all_tokens: Seq<u32>, n: nat) -> Seq<u32> {
    if all_tokens.len() > n {
        all_tokens.subrange(all_tokens.len() - n, all_tokens.len() as int)
    } else {
        all_tokens
    }
}

/// What the latest `init` or `next` got from the model and the sampler.
pub enum StepOutcome {
    /// No call was made to the model or the sampler.
    NoCall,
    /// The prompt pass succeeded.
    Primed,
    /// A forward pass failed.
    ModelFailed,
    /// The repetition penalty failed.
    PenaltyFailed,
    /// The model gave no logits to draw from.
    NoLogits,
    /// The sampler failed.
    DrawFailed,
    /// The sampler drew this id.
    Drew(u32),
}

/// Whether a call to the model or the sampler failed.
pub open spec fn is_failure(o: StepOutcome) -> bool {
    o is ModelFailed || o is PenaltyFailed || o is NoLogits || o is DrawFailed
}

/// The decoding loop over a model, a sampler and a set of stop ids.
pub struct TokenGenerator {
    index: usize,
    stop_tokens: HashSet<u32>,
    parameter: GenerateParameter,
    prompt_len: usize,
    sampler: Sampler,
    model: ModelProcessor,
    pending_logits: Option<Logits>,
    all_tokens: Vec<u32>,
    status: DecodeStatus,
    feeds: Ghost<Seq<(Seq<u32>, nat)>>,
    last_logits: Ghost<Option<(Logits, Logits)>>,
    last_window: Ghost<Option<Seq<u32>>>,
    outcome: Ghost<StepOutcome>,
}

impl TokenGenerator {
    /// The loop's state.
    pub closed spec fn state(&self) -> DecodeView {
        DecodeView {
            index: self.index as nat,
            all_tokens: self.all_tokens@,
            prompt_len: self.prompt_len as nat,
            max_new_tokens: self.parameter.max_new_tokens as nat,
            stop: self.stop_tokens@,
            status: self.status,
        }
    }

    /// Every input handed to the model so far, with the position it was placed at.
    pub closed spec fn feeds(&self) -> Seq<(Seq<u32>, nat)> {
        self.feeds@
    }

    /// The parameters of the generation.
    pub closed spec fn parameter(&self) -> GenerateParameter {
        self.parameter
    }

    /// For the latest draw: the logits that the model produced and the logits that
    /// the sampler was given.
    pub closed spec fn last_logits(&self) -> Option<(Logits, Logits)> {
        self.last_logits@
    }

    /// The history window last handed to the repetition penalty.
    pub closed spec fn last_window(&self) -> Option<Seq<u32>> {
        self.last_window@
    }

    /// What the latest `init` or `next` got from the model and the sampler.
    pub closed spec fn outcome(&self) -> StepOutcome {
        self.outcome@
    }

    /// The id that the counting sampler draws next, where the sampler is that double.
    pub closed spec fn sampler_counter(&self) -> Option<u32> {
        self.sampler.counter()
    }

    /// How many calls the counting model answered, where the model is that double.
    pub closed spec fn model_counter(&self) -> Option<u32> {
        self.model.counter()
    }

    /// The invariant of the loop: its state is well formed, and primed logits wait
    /// exactly until the first draw.
    pub open spec fn wf(&self) -> bool {
        &&& view_wf(self.state())
        &&& self.primed_wf()
    }

    /// Primed logits wait exactly until the first draw; the counting model's are never
    /// empty.
    pub closed spec fn primed_wf(&self) -> bool {
        &&& self.status == DecodeStatus::Running ==> (self.pending_logits is Some <==> self.index
            == 0)
        &&& self.model.counter() is Some ==> (self.pending_logits matches Some(l) ==> l.size() >= 1)
    }

    /// A loop that waits for its prompt.
    pub fn new(
        stop_tokens: HashSet<u32>,
        parameter: GenerateParameter,
        model: ModelProcessor,
        sampler: Sampler,
    ) -> (r: TokenGenerator)
        ensures
            r.wf(),
            r.state() == (DecodeView {
                index: 0,
                all_tokens: Seq::empty(),
                prompt_len: 0,
                max_new_tokens: parameter.max_new_tokens as nat,
                stop: stop_tokens@,
                status: DecodeStatus::Idle,
            }),
            r.feeds() == Seq::<(Seq<u32>, nat)>::empty(),
            r.outcome() == StepOutcome::NoCall,
            r.parameter() == parameter,
            r.sampler_counter() == sampler.counter(),
            r.model_counter() == model.counter(),
    {
        TokenGenerator {
            index: 0,
            stop_tokens,
            parameter,
            prompt_len: 0,
            sampler,
            model,
            pending_logits: None,
            all_tokens: Vec::new(),
            status: DecodeStatus::Idle,
            feeds: Ghost(Seq::empty()),
            last_logits: Ghost(None),
            last_window: Ghost(None),
            outcome: Ghost(StepOutcome::NoCall),
        }
    }

    /// Runs the model on `ids` placed from `index_pos` on.
    fn forward_ids(&mut self, ids: &[u32], index_pos: usize) -> (r: Result<Logits, LlmError>)
        ensures
            final(self).feeds@ == old(self).feeds@.push((ids@, index_pos as nat)),
            final(self).index == old(self).index,
            final(self).stop_tokens@ == old(self).stop_tokens@,
            final(self).parameter == old(self).parameter,
            final(self).prompt_len == old(self).prompt_len,
            final(self).sampler == old(self).sampler,
            final(self).pending_logits == old(self).pending_logits,
            final(self).all_tokens@ == old(self).all_tokens@,
            final(self).status == old(self).status,
            final(self).outcome == old(self).outcome,
            final(self).model.counter() is Some <==> old(self).model.counter() is Some,
            old(self).model.counter() matches Some(c) ==> (c < u32::MAX ==> (r matches Ok(l)
                && l.size() == 1) && final(self).model.counter() == Some((c + 1) as u32)),
            old(self).model.counter() is Some ==> (r matches Ok(l) ==> l.size() == 1),
            r matches Err(e) ==> e == LlmError::Generation,
    {
        proof {
            self.feeds@ = self.feeds@.push((ids@, index_pos as nat));
        }
        self.model.forward(ids, index_pos)
    }

    /// The logits that the sampler receives: the model's own where the penalty is
    /// 1.0, else the model's rescaled over `penalty_window` of the history.
    pub fn adjust_logits(&mut self, logits: Logits) -> (r: Result<Logits, LlmError>)
        ensures
            final(self).wf() == old(self).wf(),
            final(self).state() == old(self).state(),
            final(self).feeds() == old(self).feeds(),
            final(self).parameter() == old(self).parameter(),
            final(self).outcome() == old(self).outcome(),
            final(self).last_logits() == old(self).last_logits(),
            final(self).sampler_counter() == old(self).sampler_counter(),
            final(self).model_counter() == old(self).model_counter(),
            !old(self).parameter().spec_penalty_enabled() ==> r == Ok::<Logits, LlmError>(logits)
                && final(self).last_window() == old(self).last_window(),
            old(self).parameter().spec_penalty_enabled() ==> final(self).last_window() == Some(
                penalty_window(old(self).state().all_tokens, old(self).parameter().repeat_last_n as nat),
            ),
            r matches Ok(l) ==> l.size() == logits.size(),
            r matches Err(e) ==> e == LlmError::Generation,
    {
        self.penalize(logits)
    }

    fn penalize(&mut self, logits: Logits) -> (r: Result<Logits, LlmError>)
        ensures
            final(self).index == old(self).index,
            final(self).stop_tokens == old(self).stop_tokens,
            final(self).parameter == old(self).parameter,
            final(self).prompt_len == old(self).prompt_len,
            final(self).sampler == old(self).sampler,
            final(self).model == old(self).model,
            final(self).pending_logits == old(self).pending_logits,
            final(self).all_tokens == old(self).all_tokens,
            final(self).status == old(self).status,
            final(self).feeds == old(self).feeds,
            final(self).outcome == old(self).outcome,
            final(self).last_logits == old(self).last_logits,
            !old(self).parameter.spec_penalty_enabled() ==> r == Ok::<Logits, LlmError>(logits)
                && final(self).last_window == old(self).last_window,
            old(self).parameter.spec_penalty_enabled() ==> final(self).last_window@ == Some(
                penalty_window(old(self).all_tokens@, old(self).parameter.repeat_last_n as nat),
            ),
            r matches Ok(l) ==> l.size() == logits.size(),
            r matches Err(e) ==> e == LlmError::Generation,
    {
        if !self.parameter.penalty_enabled() {
            return Ok(logits);
        }
        let len = self.all_tokens.len();
        let start = if len > self.parameter.repeat_last_n {
            len - self.parameter.repeat_last_n
        } else {
            0
        };
        let window = slice_subrange(self.all_tokens.as_slice(), start, len);
        assert(window@ == penalty_window(self.all_tokens@, self.parameter.repeat_last_n as nat));
        proof {
            self.last_window@ = Some(window@);
        }
        match repeat_penalty(&logits, self.parameter.repeat_penalty_bits, window) {
            Ok(l) => Ok(l),
            Err(_) => Err(LlmError::Generation),
        }
    }

    /// How many tokens were emitted since the prompt.
    pub fn emitted_count(&self) -> (r: usize)
        ensures
            r == self.state().index,
    {
        self.index
    }

    /// The latest id of the history, the prompt included.
    pub fn last_token(&self) -> (r: Option<u32>)
        ensures
            r == (if self.state().all_tokens.len() > 0 {
                Some(self.state().all_tokens.last())
            } else {
                None
            }),
    {
        let n = self.all_tokens.len();
        if n > 0 {
            Some(self.all_tokens[n - 1])
        } else {
            None
        }
    }

    /// Whether `token` ends the generation.
    pub fn is_stop_token(&self, token: &u32) -> (r: bool)
        ensures
            r == self.state().stop.contains(*token),
    {
        self.stop_tokens.contains(token)
    }

    /// Seeds the history with the prompt and primes the model with it in one forward
    /// pass at position 0. Any earlier history is dropped.
    pub fn init(&mut self, prompt_tokens: Vec<u32>) -> (r: Result<(), LlmError>)
        requires
            old(self).wf(),
        ensures
            final(self).wf(),
            final(self).parameter() == old(self).parameter(),
            final(self).sampler_counter() == old(self).sampler_counter(),
            final(self).model_counter() is Some <==> old(self).model_counter() is Some,
            final(self).state() == (DecodeView {
                index: 0,
                all_tokens: prompt_tokens@,
                prompt_len: prompt_tokens@.len(),
                status: if r is Ok {
                    DecodeStatus::Running
                } else {
                    DecodeStatus::Failed
                },
                ..old(self).state()
            }),
            final(self).feeds() == old(self).feeds().push((prompt_tokens@, 0nat)),
            r is Ok <==> final(self).outcome() == StepOutcome::Primed,
            r is Err ==> r == Err::<(), LlmError>(LlmError::Generation) && final(self).outcome()
                == StepOutcome::ModelFailed,
            (old(self).model_counter() matches Some(c) && c < u32::MAX) ==> r is Ok
                && final(self).model_counter() == Some((old(self).model_counter().unwrap() + 1) as u32),
    {
        self.index = 0;
        self.pending_logits = None;
        self.status = DecodeStatus::Failed;
        self.prompt_len = prompt_tokens.len();
        let primed = self.forward_ids(prompt_tokens.as_slice(), 0);
        self.all_tokens = prompt_tokens;
        assert(generated(self.state()) =~= Seq::<u32>::empty());
        match primed {
            Ok(logits) => {
                self.pending_logits = Some(logits);
                self.status = DecodeStatus::Running;
                proof {
                    self.outcome@ = StepOutcome::Primed;
                }
                Ok(())
            },
            Err(e) => {
                proof {
                    self.outcome@ = StepOutcome::ModelFailed;
                }
                Err(e)
            },
        }
    }

    /// Draws the next token: from the prompt's logits on the first step, else from
    /// a forward pass over the last token alone, placed at its position.
    fn draw(&mut self) -> (r: Result<u32, LlmError>)
        requires
            old(self).wf(),
            draws(old(self).state()),
        ensures
            final(self).index == old(self).index,
            final(self).stop_tokens@ == old(self).stop_tokens@,
            final(self).parameter == old(self).parameter,
            final(self).prompt_len == old(self).prompt_len,
            final(self).all_tokens@ == old(self).all_tokens@,
            final(self).status == old(self).status,
            final(self).pending_logits is None,
            final(self).model.counter() is Some <==> old(self).model.counter() is Some,
            old(self).index > 0 && (old(self).model.counter() matches Some(c) && c < u32::MAX)
                ==> final(self).model.counter() == Some((old(self).model.counter().unwrap() + 1) as u32),
            old(self).index == 0 ==> final(self).model == old(self).model,
            r matches Ok(t) ==> final(self).outcome@ == StepOutcome::Drew(t),
            r is Err ==> is_failure(final(self).outcome@) && r == Err::<u32, LlmError>(
                LlmError::Generation,
            ),
            old(self).index > 0 ==> final(self).feeds@ == old(self).feeds@.push(
                (seq![old(self).all_tokens@.last()], (old(self).all_tokens@.len() - 1) as nat),
            ),
            old(self).index == 0 ==> final(self).feeds@ == old(self).feeds@,
            final(self).outcome@ is Drew ==> (final(self).last_logits@ matches Some((raw, given))
                && (!final(self).parameter.spec_penalty_enabled() ==> given == raw)),
            old(self).parameter.spec_penalty_enabled() && !(final(self).outcome@ is ModelFailed)
                ==> final(self).last_window@ == Some(
                penalty_window(old(self).all_tokens@, old(self).parameter.repeat_last_n as nat),
            ),
            final(self).sampler.counter() is Some <==> old(self).sampler.counter() is Some,
            old(self).sampler.counter() matches Some(c) ==> (r is Ok ==> r == Ok::<u32, LlmError>(c)
                && final(self).sampler.counter() == Some((c + 1) as u32)),
            (old(self).model.counter() matches Some(mc) && (old(self).index == 0 || mc
                < u32::MAX)) && !old(self).parameter.spec_penalty_enabled() && (old(self).sampler.counter() matches Some(sc) && sc < u32::MAX) ==> r is Ok,
    {
        let logits = match self.pending_logits.take() {
            Some(l) => l,
            None => {
                let len = self.all_tokens.len();
                let last = self.all_tokens[len - 1];
                let ids = [last];
                let tail = ids.as_slice();
                assert(tail@ == seq![last]);
                match self.forward_ids(tail, len - 1) {
                    Ok(l) => l,
                    Err(e) => {
                        proof {
                            self.outcome@ = StepOutcome::ModelFailed;
                        }
                        return Err(e);
                    },
                }
            },
        };
        let ghost raw = logits;
        let adjusted = match self.penalize(logits) {
            Ok(a) => a,
            Err(e) => {
                proof {
                    self.outcome@ = StepOutcome::PenaltyFailed;
                }
                return Err(e);
            },
        };
        proof {
            self.last_logits@ = Some((raw, adjusted));
        }
        if adjusted.len() == 0 {
            proof {
                self.outcome@ = StepOutcome::NoLogits;
            }
            return Err(LlmError::Generation);
        }
        match self.sampler.sample(&adjusted) {
            Ok(t) => {
                proof {
                    self.outcome@ = StepOutcome::Drew(t);
                }
                Ok(t)
            },
            Err(e) => {
                proof {
                    self.outcome@ = StepOutcome::DrawFailed;
                }
                Err(e)
            },
        }
    }

    /// Applies a drawn id to the loop: a stop id is kept in the history and ends the
    /// generation, any other id is emitted.
    fn step_with(&mut self, token: u32) -> (r: TokenGeneratorResult)
        requires
            view_wf(old(self).state()),
            draws(old(self).state()),
            old(self).pending_logits is None,
        ensures
            (final(self).state(), r) == advance(old(self).state(), token),
            view_wf(final(self).state()),
            final(self).pending_logits is None,
            final(self).parameter == old(self).parameter,
            final(self).sampler == old(self).sampler,
            final(self).model == old(self).model,
            final(self).feeds == old(self).feeds,
            final(self).outcome == old(self).outcome,
            final(self).last_logits == old(self).last_logits,
            final(self).last_window == old(self).last_window,
    {
        let ghost before = self.state();
        if self.stop_tokens.contains(&token) {
            self.all_tokens.push(token);
            self.status = DecodeStatus::Finished(FinishReason::EosToken);
            assert(generated(self.state()) =~= generated(before));
            return TokenGeneratorResult::Finish(FinishReason::EosToken);
        }
        self.all_tokens.push(token);
        self.index = self.index + 1;
        assert(generated(self.state()) =~= generated(before).push(token));
        TokenGeneratorResult::Token((token, PROBABILITY_ONE_BITS))
    }

    /// Advances the loop by one step.
    ///
    /// Once the maximum is reached the step reports `Finish(Length)` without calling
    /// the model. Otherwise it draws an id (see `outcome`): a drawn stop id is kept in
    /// the history, is not emitted, and ends the generation with `Finish(EosToken)`;
    /// any other id is emitted. A failed forward pass or draw ends the loop for good.
    pub fn next(&mut self) -> (r: Result<TokenGeneratorResult, LlmError>)
        requires
            old(self).wf(),
        ensures
            final(self).wf(),
            final(self).parameter() == old(self).parameter(),
            final(self).model_counter() is Some <==> old(self).model_counter() is Some,
            final(self).sampler_counter() is Some <==> old(self).sampler_counter() is Some,
            !draws(old(self).state()) ==> final(self).outcome() == StepOutcome::NoCall
                && final(self).feeds() == old(self).feeds() && final(self).sampler_counter()
                == old(self).sampler_counter() && final(self).model_counter()
                == old(self).model_counter(),
            !draws(old(self).state()) && (old(self).state().status is Finished || old(self).state().status == DecodeStatus::Running) ==> (r matches Ok(res) && (
            final(self).state(),
            res,
        ) == advance(old(self).state(), 0)),
            old(self).state().status == DecodeStatus::Idle || old(self).state().status
                == DecodeStatus::Failed ==> r == Err::<TokenGeneratorResult, LlmError>(
                LlmError::Generation,
            ) && final(self).state() == (DecodeView {
                status: DecodeStatus::Failed,
                ..old(self).state()
            }),
            draws(old(self).state()) ==> match final(self).outcome() {
                StepOutcome::Drew(t) => r == Ok::<TokenGeneratorResult, LlmError>(
                    advance(old(self).state(), t).1,
                ) && final(self).state() == advance(old(self).state(), t).0,
                o => is_failure(o) && r == Err::<TokenGeneratorResult, LlmError>(
                    LlmError::Generation,
                ) && final(self).state() == (DecodeView {
                    status: DecodeStatus::Failed,
                    ..old(self).state()
                }),
            },
            draws(old(self).state()) && old(self).state().index > 0 ==> final(self).feeds()
                == old(self).feeds().push(
                (
                    seq![old(self).state().all_tokens.last()],
                    (old(self).state().all_tokens.len() - 1) as nat,
                ),
            ),
            draws(old(self).state()) && old(self).state().index == 0 ==> final(self).feeds()
                == old(self).feeds() && final(self).model_counter() == old(self).model_counter(),
            draws(old(self).state()) && old(self).state().index > 0 && (old(self).model_counter() matches Some(c)
                && c < u32::MAX) ==> final(self).model_counter() == Some(
                (old(self).model_counter().unwrap() + 1) as u32,
            ),
            draws(old(self).state()) && final(self).outcome() is Drew ==> (final(self).last_logits() matches Some((raw, given)) && (
            !final(self).parameter().spec_penalty_enabled() ==> given == raw)),
            draws(old(self).state()) && old(self).parameter().spec_penalty_enabled() && !(final(self).outcome() is ModelFailed) ==> final(self).last_window() == Some(
                penalty_window(old(self).state().all_tokens, old(self).parameter().repeat_last_n as nat),
            ),
            draws(old(self).state()) && (old(self).sampler_counter() matches Some(c)) && final(self).outcome() is Drew ==> final(self).outcome() == StepOutcome::Drew(
                old(self).sampler_counter().unwrap(),
            ) && final(self).sampler_counter() == Some((old(self).sampler_counter().unwrap() + 1) as u32),
            draws(old(self).state()) && (old(self).model_counter() matches Some(mc) && (old(self).state().index == 0 || mc < u32::MAX)) && !old(self).parameter().spec_penalty_enabled()
                && (old(self).sampler_counter() matches Some(sc) && sc < u32::MAX) ==> final(self).outcome() == StepOutcome::Drew(old(self).sampler_counter().unwrap()),
    {
        match self.status {
            DecodeStatus::Finished(reason) => {
                proof {
                    self.outcome@ = StepOutcome::NoCall;
                }
                return Ok(TokenGeneratorResult::Finish(reason));
            },
            DecodeStatus::Running => {},
            _ => {
                let ghost before = self.state();
                self.status = DecodeStatus::Failed;
                proof {
                    self.outcome@ = StepOutcome::NoCall;
                }
                assert(generated(self.state()) =~= generated(before));
                return Err(LlmError::Generation);
            },
        }
        let ghost before = self.state();
        if self.index >= self.parameter.max_new_tokens {
            self.status = DecodeStatus::Finished(FinishReason::Length);
            proof {
                self.outcome@ = StepOutcome::NoCall;
            }
            assert(generated(self.state()) =~= generated(before));
            return Ok(TokenGeneratorResult::Finish(FinishReason::Length));
        }
        let token = match self.draw() {
            Ok(t) => t,
            Err(e) => {
                self.status = DecodeStatus::Failed;
                assert(self.state() == DecodeView { status: DecodeStatus::Failed, ..before });
                assert(generated(self.state()) =~= generated(before));
                return Err(e);
            },
        };
        Ok(self.step_with(token))
    }

    /// Replaces the stop ids with the ids that `tokenizer` gives the strings of
    /// `stop_tokens`; strings it does not know are left out. The stop set is fixed
    /// once a prompt is given, so this is for a loop that waits for its prompt.
    pub fn set_stop_tokens(&mut self, stop_tokens: Option<Vec<String>>, tokenizer: &Tokenizer)
        requires
            old(self).wf(),
            old(self).state().status == DecodeStatus::Idle,
        ensures
            final(self).wf(),
            final(self).state() == (DecodeView { stop: final(self).state().stop, ..old(self).state() }),
            exists|ids: Seq<Option<u32>>| ids.len() == (match stop_tokens {
                Some(v) => v@.len(),
                None => 0,
            }) && final(self).state().stop == present_ids(ids),
            final(self).feeds() == old(self).feeds(),
            final(self).parameter() == old(self).parameter(),
            final(self).sampler_counter() == old(self).sampler_counter(),
            final(self).model_counter() == old(self).model_counter(),
    {
        let names = match stop_tokens {
            Some(v) => v,
            None => Vec::new(),
        };
        let mut ids: Vec<Option<u32>> = Vec::new();
        let mut i: usize = 0;
        while i < names.len()
            invariant
                i <= names@.len(),
                ids@.len() == i,
            decreases names.len() - i,
        {
            ids.push(token_id(tokenizer, names[i].as_str()));
            i = i + 1;
        }
        self.stop_tokens = stop_set_of(&ids);
        assert(ids@.len() == names@.len() && self.stop_tokens@ == present_ids(ids@));
        assert(generated(self.state()) =~= Seq::<u32>::empty());
    }

    /// Returns the loop to waiting for a prompt, with no history and no stop ids.
    pub fn reset(&mut self)
        requires
            old(self).wf(),
        ensures
            final(self).wf(),
            final(self).state() == (DecodeView {
                index: 0,
                all_tokens: Seq::empty(),
                prompt_len: 0,
                stop: Set::empty(),
                status: DecodeStatus::Idle,
                ..old(self).state()
            }),
            final(self).feeds() == old(self).feeds(),
            final(self).parameter() == old(self).parameter(),
            final(self).sampler_counter() == old(self).sampler_counter(),
            final(self).model_counter() == old(self).model_counter(),
    {
        self.index = 0;
        self.prompt_len = 0;
        self.stop_tokens = HashSet::new();
        self.all_tokens = Vec::new();
        self.pending_logits = None;
        self.status = DecodeStatus::Idle;
        assert(generated(self.state()) =~= Seq::<u32>::empty());
    }
}

/// The state reached and the reports made by successive steps from `s` that draw
/// the ids of `ids` in turn.
pub open spec fn run_steps(s: DecodeView, ids: Seq<u32>) -> (DecodeView, Seq<TokenGeneratorResult>)
    decreases ids.len(),
{
    if ids.len() == 0 {
        (s, Seq::empty())
    } else {
        let (s1, r) = advance(s, ids[0]);
        let (s2, rs) = run_steps(s1, ids.drop_first());
        (s2, seq![r] + rs)
    }
}

/// How many reports in `rs` are emitted tokens.
pub open spec fn count_tokens(rs: Seq<TokenGeneratorResult>) -> nat
    decreases rs.len(),
{
    if rs.len() == 0 {
        0
    } else {
        (if rs[0] is Token {
            1nat
        } else {
            0nat
        }) + count_tokens(rs.drop_first())
    }
}

/// The state right after a successful `init` with `prompt` on a loop with the given
/// maximum and stop ids.
pub open spec fn primed_view(prompt: Seq<u32>, max_new_tokens: nat, stop: Set<u32>) -> DecodeView {
    DecodeView {
        index: 0,
        all_tokens: prompt,
        prompt_len: prompt.len(),
        max_new_tokens,
        stop,
        status: DecodeStatus::Running,
    }
}

/// A finished loop stays finished: every later step reports the same reason and
/// changes nothing.
pub proof fn lemma_finished_is_final(s: DecodeView, ids: Seq<u32>, reason: FinishReason)
    requires
        s.status == DecodeStatus::Finished(reason),
    ensures
        run_steps(s, ids).0 == s,
        run_steps(s, ids).1.len() == ids.len(),
        forall|j: int| 0 <= j < ids.len() ==> run_steps(s, ids).1[j]
            == TokenGeneratorResult::Finish(reason),
    decreases ids.len(),
{
    if ids.len() > 0 {
        lemma_finished_is_final(s, ids.drop_first(), reason);
        let rs = run_steps(s, ids).1;
        assert forall|j: int| 0 <= j < ids.len() implies rs[j] == TokenGeneratorResult::Finish(
            reason,
        ) by {
            if j > 0 {
                assert(rs[j] == run_steps(s, ids.drop_first()).1[j - 1]);
            }
        }
    }
}

/// Steps from a state that respects the maximum: each emitted token raises the
/// step count by one, nothing else does, and the count never passes the maximum.
pub proof fn lemma_count_tracks_tokens(s: DecodeView, ids: Seq<u32>)
    requires
        s.index <= s.max_new_tokens,
    ensures
        run_steps(s, ids).0.index == s.index + count_tokens(run_steps(s, ids).1),
        run_steps(s, ids).0.index <= s.max_new_tokens,
        run_steps(s, ids).0.max_new_tokens == s.max_new_tokens,
        run_steps(s, ids).1.len() == ids.len(),
    decreases ids.len(),
{
    if ids.len() > 0 {
        let (s1, r) = advance(s, ids[0]);
        lemma_count_tracks_tokens(s1, ids.drop_first());
        let rs = run_steps(s, ids).1;
        assert(rs.drop_first() =~= run_steps(s1, ids.drop_first()).1);
    }
}

/// With any stop set (an empty one included), a generation of at most `N` new
/// tokens emits at most `N` tokens, whatever the sampler draws and however many
/// steps run, and its step count equals the number of tokens it emitted.
pub proof fn lemma_emits_at_most_max(
    prompt: Seq<u32>,
    max_new_tokens: nat,
    stop: Set<u32>,
    ids: Seq<u32>,
)
    ensures
        count_tokens(run_steps(primed_view(prompt, max_new_tokens, stop), ids).1)
            <= max_new_tokens,
        run_steps(primed_view(prompt, max_new_tokens, stop), ids).0.index == count_tokens(
            run_steps(primed_view(prompt, max_new_tokens, stop), ids).1,
        ),
{
    lemma_count_tracks_tokens(primed_view(prompt, max_new_tokens, stop), ids);
}

/// From a running state, drawing `k` ordinary ids and then a stop id emits exactly
/// those `k` ids, then ends with `Finish(EosToken)` and keeps reporting it.
pub proof fn lemma_stop_from(s: DecodeView, ids: Seq<u32>, k: nat)
    requires
        s.status == DecodeStatus::Running,
        s.index + k < s.max_new_tokens,
        k < ids.len(),
        s.stop.contains(ids[k as int]),
        forall|j: int| 0 <= j < k ==> !s.stop.contains(#[trigger] ids[j]),
    ensures
        run_steps(s, ids).1.len() == ids.len(),
        forall|j: int| 0 <= j < k ==> run_steps(s, ids).1[j] == TokenGeneratorResult::Token(
            (ids[j], PROBABILITY_ONE_BITS),
        ),
        forall|j: int| k <= j < ids.len() ==> run_steps(s, ids).1[j]
            == TokenGeneratorResult::Finish(FinishReason::EosToken),
        run_steps(s, ids).0 == (DecodeView {
            all_tokens: s.all_tokens + ids.take(k + 1int),
            index: s.index + k,
            status: DecodeStatus::Finished(FinishReason::EosToken),
            ..s
        }),
    decreases k,
{
    let (s1, r) = advance(s, ids[0]);
    let rest = ids.drop_first();
    let rs = run_steps(s, ids).1;
    if k == 0 {
        lemma_finished_is_final(s1, rest, FinishReason::EosToken);
        assert forall|j: int| 0 <= j < ids.len() implies rs[j] == TokenGeneratorResult::Finish(
            FinishReason::EosToken,
        ) by {
            if j > 0 {
                assert(rs[j] == run_steps(s1, rest).1[j - 1]);
            }
        }
        assert(ids.take(1) =~= seq![ids[0]]);
        assert(s.all_tokens + ids.take(1) =~= s.all_tokens.push(ids[0]));
        assert(run_steps(s, ids).0 == s1);
    } else {
        assert(!s.stop.contains(ids[0]));
        assert forall|j: int| 0 <= j < (k - 1) as nat implies !s1.stop.contains(#[trigger] rest[j]) by {
            assert(rest[j] == ids[j + 1]);
        }
        lemma_stop_from(s1, rest, (k - 1) as nat);
        assert(run_steps(s, ids).0 == run_steps(s1, rest).0);
        assert forall|j: int| 0 <= j < ids.len() implies rs[j] == (if j < k {
            TokenGeneratorResult::Token((ids[j], PROBABILITY_ONE_BITS))
        } else {
            TokenGeneratorResult::Finish(FinishReason::EosToken)
        }) by {
            if j > 0 {
                assert(rs[j] == run_steps(s1, rest).1[j - 1]);
                assert(rest[j - 1] == ids[j]);
            }
        }
        assert(s.all_tokens.push(ids[0]) + rest.take(k as int) =~= s.all_tokens + ids.take(
            k + 1int,
        ));
    }
}

/// A stop id drawn at generated position `k < N` halts the generation there: the
/// first `k` steps emit the ids drawn before it, the step that draws it and every
/// later one report `Finish(EosToken)`, and the emitted tokens leave the stop id out.
pub proof fn lemma_stop_token_halts(
    prompt: Seq<u32>,
    max_new_tokens: nat,
    stop: Set<u32>,
    ids: Seq<u32>,
    k: nat,
)
    requires
        k < max_new_tokens,
        k < ids.len(),
        stop.contains(ids[k as int]),
        forall|j: int| 0 <= j < k ==> !stop.contains(#[trigger] ids[j]),
    ensures
        forall|j: int| 0 <= j < k ==> run_steps(primed_view(prompt, max_new_tokens, stop), ids).1[j]
            == TokenGeneratorResult::Token((ids[j], PROBABILITY_ONE_BITS)),
        forall|j: int| k <= j < ids.len() ==> run_steps(
            primed_view(prompt, max_new_tokens, stop),
            ids,
        ).1[j] == TokenGeneratorResult::Finish(FinishReason::EosToken),
        run_steps(primed_view(prompt, max_new_tokens, stop), ids).0.status
            == DecodeStatus::Finished(FinishReason::EosToken),
        generated(run_steps(primed_view(prompt, max_new_tokens, stop), ids).0) == ids.take(
            k as int,
        ),
{
    let s0 = primed_view(prompt, max_new_tokens, stop);
    lemma_stop_from(s0, ids, k);
    let s = run_steps(s0, ids).0;
    assert(generated(s) =~= ids.take(k as int));
}

} // verus!
