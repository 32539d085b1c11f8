//! The text generator: a decoding loop whose tokens are turned into text.
use crate::llm::backend::{decode_ids, encode_text};
use crate::llm::text_assembler::{
    concat, deltas, flush_delta, given_out, lemma_deltas_push, step_delta, TextAssembler,
};
use crate::llm::token_generator::{
    advance, draws, generated, DecodeStatus, DecodeView, StepOutcome, TokenGenerator,
    TokenGeneratorResult,
};
use crate::llm::{FinishReason, LlmError};
use tokenizers::Tokenizer;
use vstd::prelude::*;
use vstd::string::*;

pub mod dummy_text_generator;

verus! {

/// What one step of a text generator reports.
#[derive(Debug, PartialEq)]
pub enum TextGeneratorResult {
    /// New text (possibly empty while a character is still incomplete) with the
    /// probability of its token (bits of a single-precision value).
    Token((String, u32)),
    /// The generation is over.
    Finish(FinishReason),
}

/// The outcome of a generation run to its end.
pub struct Generation {
    /// The generated text: every delta followed by the final flush.
    pub text: String,
    /// Why the generation stopped.
    pub finish_reason: FinishReason,
    /// How many tokens were generated.
    pub generated_tokens: usize,
}

/// The text that `accept` gives out for `text` after `emitted`: the delta, or
/// nothing.
pub open spec fn delta_text(emitted: Seq<char>, text: Seq<char>) -> Seq<char> {
    match step_delta(emitted, text) {
        Some(d) => d,
        None => Seq::empty(),
    }
}

/// The text of a generation whose decodings after each emitted token were `texts`
/// and whose final decoding was `whole`: every delta, then the flush.
pub open spec fn generation_text(texts: Seq<Seq<char>>, whole: Seq<char>) -> Seq<char> {
    given_out(concat(deltas(texts)), flush_delta(concat(deltas(texts)), whole))
}

/// A generation that ended normally with at most `max_new_tokens` tokens: at the
/// maximum for `Length`, at a stop id for `EosToken`.
pub open spec fn finished_run(d: DecodeView, max_new_tokens: nat) -> bool {
    &&& crate::llm::token_generator::view_wf(d)
    &&& d.max_new_tokens == max_new_tokens
    &&& (d.status == DecodeStatus::Finished(FinishReason::Length) && d.index == max_new_tokens)
        || d.status == DecodeStatus::Finished(FinishReason::EosToken)
}

/// Turns the tokens of a decoding loop into text.
pub struct TextGenerator {
    tokenizer: Tokenizer,
    assembler: TextAssembler,
    token_generator: TokenGenerator,
    failed: bool,
    encoded: Ghost<Option<Seq<u32>>>,
    decoded: Ghost<Option<Seq<char>>>,
    decodes: Ghost<Seq<Seq<char>>>,
    decoded_ids: Ghost<Seq<u32>>,
    decode_inputs: Ghost<Seq<Seq<u32>>>,
}

impl TextGenerator {
    /// The state of the decoding loop.
    pub closed spec fn decoder(&self) -> DecodeView {
        self.token_generator.state()
    }

    /// What the latest step of the decoding loop got from the model and the sampler.
    pub closed spec fn outcome(&self) -> StepOutcome {
        self.token_generator.outcome()
    }

    /// How many calls the counting model answered, where the model is that double.
    pub closed spec fn model_counter(&self) -> Option<u32> {
        self.token_generator.model_counter()
    }

    /// The id that the counting sampler draws next, where the sampler is that double.
    pub closed spec fn sampler_counter(&self) -> Option<u32> {
        self.token_generator.sampler_counter()
    }

    /// The text given out so far.
    pub closed spec fn emitted(&self) -> Seq<char> {
        self.assembler.emitted()
    }

    /// The ids whose text the assembler gives out.
    pub closed spec fn assembled(&self) -> Seq<u32> {
        self.assembler.tokens()
    }

    /// Whether a decode failed, which ends the generation.
    pub closed spec fn failed(&self) -> bool {
        self.failed
    }

    /// What the latest `init` got from the tokenizer: the prompt's ids, or `None`.
    pub closed spec fn encoded(&self) -> Option<Seq<u32>> {
        self.encoded@
    }

    /// What the latest decode gave: the text of every emitted token, or `None`.
    pub closed spec fn decoded(&self) -> Option<Seq<char>> {
        self.decoded@
    }

    /// The decodings handed to the assembler since `init`, one per emitted token.
    pub closed spec fn decodes(&self) -> Seq<Seq<char>> {
        self.decodes@
    }

    /// The ids that the latest decode was given.
    pub closed spec fn decoded_ids(&self) -> Seq<u32> {
        self.decoded_ids@
    }

    /// The ids given to each decode of `decodes`, in order.
    pub closed spec fn decode_inputs(&self) -> Seq<Seq<u32>> {
        self.decode_inputs@
    }

    /// Every input handed to the model so far, with the position it was placed at.
    pub closed spec fn feeds(&self) -> Seq<(Seq<u32>, nat)> {
        self.token_generator.feeds()
    }

    /// The invariant: the loop is well formed and the assembler holds exactly the
    /// tokens that the loop emitted, so a stop token's text is never given out.
    pub open spec fn wf(&self) -> bool {
        &&& crate::llm::token_generator::view_wf(self.decoder())
        &&& self.assembled() == generated(self.decoder())
        &&& self.inner_wf()
    }

    /// The decoding loop keeps its own invariant.
    pub closed spec fn inner_wf(&self) -> bool {
        self.token_generator.wf()
    }

    /// A text generator over `tokenizer` and a decoding loop that has emitted nothing.
    pub fn new(tokenizer: Tokenizer, token_generator: TokenGenerator) -> (r: TextGenerator)
        requires
            token_generator.wf(),
            token_generator.state().index == 0,
        ensures
            r.wf(),
            r.decoder() == token_generator.state(),
            r.emitted() == Seq::<char>::empty(),
            !r.failed(),
            r.feeds() == token_generator.feeds(),
            r.model_counter() == token_generator.model_counter(),
            r.sampler_counter() == token_generator.sampler_counter(),
    {
        let r = TextGenerator {
            tokenizer,
            assembler: TextAssembler::new(),
            token_generator,
            failed: false,
            encoded: Ghost(None),
            decoded: Ghost(None),
            decodes: Ghost(Seq::empty()),
            decoded_ids: Ghost(Seq::empty()),
            decode_inputs: Ghost(Seq::empty()),
        };
        assert(generated(r.token_generator.state()) =~= Seq::<u32>::empty());
        r
    }

    /// Encodes the prompt and primes the decoding loop with it. A prompt that the
    /// tokenizer rejects is a `Tokenize` error, raised before any model call.
    pub fn init(&mut self, prompt: &str) -> (r: Result<(), LlmError>)
        requires
            old(self).wf(),
        ensures
            final(self).wf(),
            final(self).decoder().max_new_tokens == old(self).decoder().max_new_tokens,
            final(self).decoder().stop == old(self).decoder().stop,
            final(self).model_counter() is Some <==> old(self).model_counter() is Some,
            final(self).sampler_counter() == old(self).sampler_counter(),
            final(self).encoded() is None ==> r == Err::<(), LlmError>(LlmError::Tokenize)
                && final(self).decoder() == old(self).decoder() && final(self).feeds()
                == old(self).feeds() && final(self).model_counter() == old(self).model_counter(),
            final(self).encoded() matches Some(ids) ==> final(self).feeds() == old(self).feeds().push((ids, 0nat)),
            final(self).encoded() is Some && (old(self).model_counter() matches Some(c) && c
                < u32::MAX) ==> final(self).model_counter() == Some((old(self).model_counter().unwrap() + 1) as u32),
            final(self).encoded() matches Some(ids) ==> final(self).decoder().all_tokens == ids
                && final(self).decoder().prompt_len == ids.len() && final(self).decoder().index
                == 0 && (r is Ok <==> final(self).outcome() == StepOutcome::Primed),
            final(self).encoded() is Some && (old(self).model_counter() matches Some(c) && c
                < u32::MAX) ==> r is Ok,
            r is Ok ==> final(self).emitted() == Seq::<char>::empty() && final(self).decoder().status
                == DecodeStatus::Running && final(self).decodes() == Seq::<Seq<char>>::empty()
                && final(self).decode_inputs() == Seq::<Seq<u32>>::empty()
                && !final(self).failed(),
            r matches Err(e) ==> e == LlmError::Tokenize || e == LlmError::Generation,
            r == Err::<(), LlmError>(LlmError::Tokenize) <==> final(self).encoded() is None,
            r == Err::<(), LlmError>(LlmError::Generation) ==> final(self).decoder().status
                == DecodeStatus::Failed,
    {
        let ids = match encode_text(&self.tokenizer, prompt) {
            Some(ids) => ids,
            None => {
                proof {
                    self.encoded@ = None;
                }
                return Err(LlmError::Tokenize);
            },
        };
        proof {
            self.encoded@ = Some(ids@);
        }
        self.assembler = TextAssembler::new();
        self.failed = false;
        proof {
            self.decodes@ = Seq::empty();
            self.decode_inputs@ = Seq::empty();
        }
        let r = self.token_generator.init(ids);
        assert(generated(self.token_generator.state()) =~= Seq::<u32>::empty());
        r
    }

    /// How many tokens were generated.
    pub fn token_count(&self) -> (r: usize)
        ensures
            r == self.decoder().index,
    {
        self.token_generator.emitted_count()
    }

    /// The latest id of the history.
    pub fn last_token(&self) -> (r: Option<u32>)
        ensures
            r == (if self.decoder().all_tokens.len() > 0 {
                Some(self.decoder().all_tokens.last())
            } else {
                None
            }),
    {
        self.token_generator.last_token()
    }

    /// Decodes every token emitted so far; a failure ends the generation.
    fn decode_all(&mut self) -> (r: Result<String, LlmError>)
        ensures
            final(self).tokenizer == old(self).tokenizer,
            final(self).assembler == old(self).assembler,
            final(self).token_generator == old(self).token_generator,
            final(self).encoded == old(self).encoded,
            final(self).decodes == old(self).decodes,
            final(self).decode_inputs == old(self).decode_inputs,
            final(self).decoded_ids@ == old(self).assembler.tokens(),
            r matches Ok(t) ==> final(self).decoded@ == Some(t@) && final(self).failed
                == old(self).failed,
            r is Err ==> final(self).decoded@ is None && final(self).failed && r == Err::<
                String,
                LlmError,
            >(LlmError::Generation),
    {
        proof {
            self.decoded_ids@ = self.assembler.tokens();
        }
        match decode_ids(&self.tokenizer, self.assembler.token_ids()) {
            Some(text) => {
                proof {
                    self.decoded@ = Some(text@);
                }
                Ok(text)
            },
            None => {
                proof {
                    self.decoded@ = None;
                }
                self.failed = true;
                Err(LlmError::Generation)
            },
        }
    }

    /// Advances the decoding loop by one step. An emitted token is handed to the
    /// assembler and the text of every emitted token decoded; the report is the
    /// assembler's delta. A stop token never reaches the assembler, so its text is
    /// never given out.
    pub fn next(&mut self) -> (r: Result<TextGeneratorResult, LlmError>)
        requires
            old(self).wf(),
        ensures
            final(self).wf(),
            final(self).decoder().max_new_tokens == old(self).decoder().max_new_tokens,
            final(self).decoder().stop == old(self).decoder().stop,
            final(self).decoder().prompt_len == old(self).decoder().prompt_len,
            final(self).encoded() == old(self).encoded(),
            final(self).feeds().len() >= old(self).feeds().len(),
            forall|i: int| 0 <= i < old(self).feeds().len() ==> #[trigger] final(self).feeds()[i] == old(self).feeds()[i],
            final(self).model_counter() is Some <==> old(self).model_counter() is Some,
            final(self).sampler_counter() is Some <==> old(self).sampler_counter() is Some,
            old(self).failed() ==> r == Err::<TextGeneratorResult, LlmError>(LlmError::Generation)
                && final(self).decoder() == old(self).decoder() && final(self).failed()
                && final(self).emitted() == old(self).emitted(),
            r matches Ok(TextGeneratorResult::Token((text, p))) ==> p
                == crate::llm::token_generator::PROBABILITY_ONE_BITS && draws(old(self).decoder())
                && final(self).outcome() is Drew && final(self).decoder() == advance(
                old(self).decoder(),
                final(self).decoder().all_tokens.last(),
            ).0 && final(self).decoder().index == old(self).decoder().index + 1
                && final(self).decoder().status == DecodeStatus::Running && (final(self).decoded() matches Some(d) && text@ == delta_text(old(self).emitted(), d)
                && final(self).decodes() == old(self).decodes().push(d)) && final(self).decode_inputs()
                == old(self).decode_inputs().push(generated(final(self).decoder()))
                && final(self).emitted()
                == old(self).emitted() + text@ && !final(self).failed(),
            r matches Ok(TextGeneratorResult::Finish(reason)) ==> advance(
                old(self).decoder(),
                final(self).decoder().all_tokens.last(),
            ) == (final(self).decoder(), TokenGeneratorResult::Finish(reason))
                && final(self).emitted() == old(self).emitted() && final(self).decodes()
                == old(self).decodes() && final(self).decode_inputs() == old(self).decode_inputs()
                && final(self).failed() == old(self).failed(),
            old(self).failed() ==> final(self).feeds() == old(self).feeds() && final(self).model_counter() == old(self).model_counter() && final(self).sampler_counter()
                == old(self).sampler_counter(),
            !draws(old(self).decoder()) ==> final(self).feeds() == old(self).feeds() && final(self).model_counter() == old(self).model_counter() && final(self).sampler_counter()
                == old(self).sampler_counter(),
            !old(self).failed() && draws(old(self).decoder()) && old(self).decoder().index > 0
                ==> final(self).feeds() == old(self).feeds().push(
                (
                    seq![old(self).decoder().all_tokens.last()],
                    (old(self).decoder().all_tokens.len() - 1) as nat,
                ),
            ),
            !old(self).failed() && draws(old(self).decoder()) && old(self).decoder().index == 0
                ==> final(self).feeds() == old(self).feeds(),
            !old(self).failed() && draws(old(self).decoder()) && old(self).decoder().index > 0 && (
            old(self).model_counter() matches Some(c) && c < u32::MAX) ==> final(self).model_counter() == Some((old(self).model_counter().unwrap() + 1) as u32),
            !old(self).failed() && draws(old(self).decoder()) && old(self).decoder().index == 0
                ==> final(self).model_counter() == old(self).model_counter(),
            !old(self).failed() && draws(old(self).decoder()) && (old(self).sampler_counter() matches Some(c))
                && final(self).outcome() is Drew ==> final(self).sampler_counter() == Some(
                (old(self).sampler_counter().unwrap() + 1) as u32,
            ),
            !old(self).failed() && !draws(old(self).decoder()) && (old(self).decoder().status is Finished
                || old(self).decoder().status == DecodeStatus::Running) ==> r is Ok,
            !old(self).failed() && draws(old(self).decoder()) ==> match final(self).outcome() {
                StepOutcome::Drew(t) => if old(self).decoder().stop.contains(t) {
                    r == Ok::<TextGeneratorResult, LlmError>(
                        TextGeneratorResult::Finish(FinishReason::EosToken),
                    )
                } else {
                    (r is Ok <==> final(self).decoded() is Some) && (r is Err ==> final(self).failed())
                },
                _ => r is Err && final(self).decoder().status == DecodeStatus::Failed,
            },
            draws(old(self).decoder()) && (old(self).model_counter() matches Some(mc) && (old(self).decoder().index == 0 || mc < u32::MAX)) && (old(self).sampler_counter() matches Some(sc) && sc < u32::MAX) && !old(self).failed() ==> (final(self).outcome() is Drew
                ==> final(self).outcome() == StepOutcome::Drew(old(self).sampler_counter().unwrap())),
            old(self).decoder().status == DecodeStatus::Idle || old(self).decoder().status
                == DecodeStatus::Failed ==> r is Err,
            r is Err ==> final(self).decoder().status == DecodeStatus::Failed || final(self).failed(),
            r is Err ==> final(self).emitted() == old(self).emitted(),
            r matches Err(e) ==> e == LlmError::Generation,
    {
        if self.failed {
            return Err(LlmError::Generation);
        }
        let step = self.token_generator.next()?;
        match step {
            TokenGeneratorResult::Token((id, p)) => {
                self.assembler.push(id);
                assert(generated(self.token_generator.state()) =~= generated(
                    old(self).token_generator.state(),
                ).push(id));
                let text = self.decode_all()?;
                proof {
                    self.decodes@ = self.decodes@.push(text@);
                    self.decode_inputs@ = self.decode_inputs@.push(self.decoded_ids@);
                }
                match self.assembler.accept(text.as_str()) {
                    Some(delta) => Ok(TextGeneratorResult::Token((delta, p))),
                    None => {
                        let empty = String::new();
                        assert(self.assembler.emitted() =~= old(self).assembler.emitted()
                            + empty@);
                        Ok(TextGeneratorResult::Token((empty, p)))
                    },
                }
            },
            TokenGeneratorResult::Finish(reason) => {
                assert(generated(self.token_generator.state()) =~= generated(
                    old(self).token_generator.state(),
                ));
                Ok(TextGeneratorResult::Finish(reason))
            },
        }
    }

    /// Gives out whatever text of the emitted tokens is still held back, complete or
    /// not. Called once when the generation is over.
    pub fn flush(&mut self) -> (r: Result<Option<String>, LlmError>)
        requires
            old(self).wf(),
        ensures
            final(self).wf(),
            final(self).decoder() == old(self).decoder(),
            final(self).decodes() == old(self).decodes(),
            final(self).decode_inputs() == old(self).decode_inputs(),
            final(self).feeds() == old(self).feeds(),
            final(self).encoded() == old(self).encoded(),
            final(self).decoded_ids() == generated(old(self).decoder()),
            r is Ok ==> (final(self).decoded() matches Some(d) && final(self).emitted() == given_out(
                old(self).emitted(),
                flush_delta(old(self).emitted(), d),
            ) && final(self).failed() == old(self).failed()),
            r matches Ok(Some(text)) ==> final(self).emitted() == old(self).emitted() + text@,
            r matches Ok(None) ==> final(self).emitted() == old(self).emitted(),
            r is Err ==> final(self).failed() && final(self).emitted() == old(self).emitted(),
            r matches Err(e) ==> e == LlmError::Generation,
    {
        let text = self.decode_all()?;
        Ok(self.assembler.flush(text.as_str()))
    }

    /// Runs the generation to its end and returns its text: every delta followed by
    /// the flush. At most `max_new_tokens` tokens are generated; the generation
    /// stops at the first stop token, whose text is left out. It fails only where a
    /// forward pass, a draw or a decode failed.
    pub fn run_to_end(&mut self) -> (r: Result<Generation, LlmError>)
        requires
            old(self).wf(),
            old(self).decoder().status == DecodeStatus::Running,
            old(self).decoder().index == 0,
            old(self).emitted() == Seq::<char>::empty(),
            old(self).decodes() == Seq::<Seq<char>>::empty(),
            old(self).decode_inputs() == Seq::<Seq<u32>>::empty(),
            !old(self).failed(),
        ensures
            final(self).wf(),
            final(self).decoder().max_new_tokens == old(self).decoder().max_new_tokens,
            final(self).decoder().stop == old(self).decoder().stop,
            final(self).decoder().prompt_len == old(self).decoder().prompt_len,
            r matches Ok(g) ==> {
                &&& g.text@ == final(self).emitted()
                &&& g.generated_tokens == final(self).decoder().index
                &&& g.generated_tokens <= final(self).decoder().max_new_tokens
                &&& final(self).decoder().status == DecodeStatus::Finished(g.finish_reason)
                &&& g.finish_reason == FinishReason::Length || g.finish_reason
                    == FinishReason::EosToken
                &&& g.finish_reason == FinishReason::Length ==> g.generated_tokens
                    == final(self).decoder().max_new_tokens
                &&& final(self).decodes().len() == g.generated_tokens
                &&& final(self).decoded() matches Some(whole) && g.text@ == generation_text(
                    final(self).decodes(),
                    whole,
                )
                &&& final(self).decoded_ids() == generated(final(self).decoder())
                &&& final(self).decode_inputs().len() == g.generated_tokens
                &&& forall|i: int|
                    0 <= i < g.generated_tokens ==> #[trigger] final(self).decode_inputs()[i]
                        == generated(final(self).decoder()).take(i + 1)
                &&& !final(self).failed()
            },
            old(self).decoder().max_new_tokens == 0 ==> final(self).feeds() == old(self).feeds(),
            final(self).encoded() == old(self).encoded(),
            final(self).feeds().len() >= old(self).feeds().len(),
            forall|i: int| 0 <= i < old(self).feeds().len() ==> #[trigger] final(self).feeds()[i] == old(self).feeds()[i],
            r is Err ==> final(self).decoder().status == DecodeStatus::Failed || final(self).failed(),
            r matches Err(e) ==> e == LlmError::Generation,
    {
        let mut text = String::new();
        let reason;
        assert(concat(deltas(self.decodes())) =~= Seq::<char>::empty());
        loop
            invariant_except_break
                self.decoder().status == DecodeStatus::Running,
            invariant
                self.wf(),
                !self.failed(),
                text@ == self.emitted(),
                self.emitted() == concat(deltas(self.decodes())),
                self.decodes().len() == self.decoder().index,
                self.decode_inputs().len() == self.decoder().index,
                forall|i: int|
                    0 <= i < self.decoder().index ==> #[trigger] self.decode_inputs()[i]
                        == generated(self.decoder()).take(i + 1),
                old(self).decoder().max_new_tokens == 0 ==> self.feeds() == old(self).feeds(),
                self.encoded() == old(self).encoded(),
                self.feeds().len() >= old(self).feeds().len(),
                forall|i: int| 0 <= i < old(self).feeds().len() ==> #[trigger] self.feeds()[i] == old(self).feeds()[i],
                self.decoder().max_new_tokens == old(self).decoder().max_new_tokens,
                self.decoder().stop == old(self).decoder().stop,
                self.decoder().prompt_len == old(self).decoder().prompt_len,
            ensures
                self.decoder().status == DecodeStatus::Finished(reason),
                reason == FinishReason::Length || reason == FinishReason::EosToken,
                reason == FinishReason::Length ==> self.decoder().index
                    == self.decoder().max_new_tokens,
            decreases self.decoder().max_new_tokens - self.decoder().index,
        {
            let ghost before = self.decodes();
            let ghost gen_before = generated(self.decoder());
            match self.next()? {
                TextGeneratorResult::Token((delta, _)) => {
                    proof {
                        lemma_deltas_push(before, self.decodes().last());
                        assert(self.decodes() == before.push(self.decodes().last()));
                        let g = generated(self.decoder());
                        assert(g.len() == gen_before.len() + 1);
                        assert forall|i: int| 0 <= i < self.decoder().index implies #[trigger] self.decode_inputs()[i]
                            == g.take(i + 1) by {
                            if i < gen_before.len() {
                                assert(g.take(i + 1) =~= gen_before.take(i + 1)) by {
                                    assert forall|j: int| 0 <= j < i + 1 implies g[j] == gen_before[j] by {
                                        assert(g[j] == self.decoder().all_tokens[self.decoder().prompt_len + j]);
                                    }
                                }
                            } else {
                                assert(g.take(i + 1) =~= g);
                            }
                        }
                    }
                    text.append(delta.as_str());
                },
                TextGeneratorResult::Finish(r) => {
                    reason = r;
                    break;
                },
            }
        }
        if let Some(rest) = self.flush()? {
            text.append(rest.as_str());
        }
        let generated_tokens = self.token_generator.emitted_count();
        Ok(Generation { text, finish_reason: reason, generated_tokens })
    }
}

} // verus!
