//! The generation session: one request's prompt and parameters turned into text,
//! either all at once (`run`) or as a finite sequence of stream events.
use crate::llm::backend::{clone_tokenizer, logits_processor, token_id};
use crate::llm::generate_parameter::GenerateParameter;
use crate::llm::model_processor::{Model, ModelProcessor};
use crate::llm::sampler::Sampler;
use crate::llm::text_generator::{
    finished_run, generation_text, TextGenerator, TextGeneratorResult,
};
use crate::llm::token_generator::{
    advance, generated, DecodeStatus, DecodeView, TokenGenerator, TokenGeneratorResult,
    PROBABILITY_ONE_BITS,
};
use crate::llm::{FinishReason, LlmError};
use std::collections::HashSet;
use tokenizers::Tokenizer;
use vstd::prelude::*;
use vstd::string::*;

verus! {

broadcast use vstd::std_specs::hash::group_hash_axioms;

/// The ids among `ids` that exist.
pub open spec fn present_ids(ids: Seq<Option<u32>>) -> Set<u32> {
    Set::new(|t: u32| ids.contains(Some(t)))
}

/// The set of the ids that were found, the missing ones left out.
pub fn stop_set_of(ids: &Vec<Option<u32>>) -> (r: HashSet<u32>)
    ensures
        r@ == present_ids(ids@),
{
    let mut set: HashSet<u32> = HashSet::new();
    let mut i: usize = 0;
    while i < ids.len()
        invariant
            i <= ids@.len(),
            set@ == present_ids(ids@.take(i as int)),
        decreases ids.len() - i,
    {
        let ghost before = set@;
        if let Some(x) = ids[i] {
            set.insert(x);
        }
        proof {
            let s0 = ids@.take(i as int);
            let s1 = ids@.take(i + 1);
            assert(s1 =~= s0.push(ids@[i as int]));
            assert forall|t: u32| #[trigger] set@.contains(t) == s1.contains(Some(t)) by {
                if s1.contains(Some(t)) {
                    let k = choose|k: int| 0 <= k < s1.len() && s1[k] == Some(t);
                    if k < i {
                        assert(s0[k] == Some(t));
                        assert(before.contains(t));
                    } else {
                        assert(ids@[i as int] == Some(t));
                    }
                }
                if set@.contains(t) {
                    if before.contains(t) {
                        let k = choose|k: int| 0 <= k < s0.len() && s0[k] == Some(t);
                        assert(s1[k] == Some(t));
                    } else {
                        assert(ids@[i as int] == Some(t));
                        assert(s1[i as int] == Some(t));
                    }
                }
            }
        }
        assert(set@ =~= present_ids(ids@.take(i + 1)));
        i = i + 1;
    }
    assert(ids@.take(ids@.len() as int) =~= ids@);
    set
}

/// One event of a streamed generation.
#[derive(Debug, PartialEq)]
pub enum StreamEvent {
    /// Text of the token `token_id`, generated at step `index` (counting from 0).
    Delta { text: String, token_id: u32, index: usize },
    /// The end of the stream. `text` is the tail that was still held back (often
    /// empty); `generated_text` is the whole generated text.
    Finish {
        text: String,
        reason: FinishReason,
        generated_tokens: usize,
        generated_text: String,
        seed: u64,
    },
}

/// A streamed generation: a finite sequence of events that cannot be restarted.
pub struct StreamSession {
    generator: TextGenerator,
    text: String,
    seed: u64,
    done: bool,
}

impl StreamSession {
    /// A stream over a primed text generator that has produced nothing yet; `seed`
    /// is reported with the last event.
    pub fn new(generator: TextGenerator, seed: u64) -> (r: StreamSession)
        requires
            generator.wf(),
            generator.decoder().status == DecodeStatus::Running,
            generator.decoder().index == 0,
            generator.emitted() == Seq::<char>::empty(),
            !generator.failed(),
        ensures
            r.wf(),
            r.decoder() == generator.decoder(),
            !r.done(),
            r.steps() == 0,
            r.text() == Seq::<char>::empty(),
    {
        StreamSession { generator, text: String::new(), seed, done: false }
    }

    /// The text sent so far.
    pub closed spec fn text(&self) -> Seq<char> {
        self.text@
    }

    /// Whether the stream has ended.
    pub closed spec fn done(&self) -> bool {
        self.done
    }

    /// The state of the decoding loop.
    pub closed spec fn decoder(&self) -> DecodeView {
        self.generator.decoder()
    }

    /// Whether a decode failed.
    pub closed spec fn failed(&self) -> bool {
        self.generator.failed()
    }

    /// Tokens generated so far.
    pub closed spec fn steps(&self) -> nat {
        self.generator.decoder().index
    }

    /// An upper bound on the number of events still to come.
    pub open spec fn remaining(&self) -> nat {
        if self.done() {
            0
        } else {
            (self.decoder().max_new_tokens - self.decoder().index + 1) as nat
        }
    }

    /// The invariant of the session.
    pub closed spec fn wf(&self) -> bool {
        &&& self.generator.wf()
        &&& self.text@ == self.generator.emitted()
        &&& !self.done ==> self.generator.decoder().status == DecodeStatus::Running
            && !self.generator.failed()
    }

    /// The next event, or `None` once the stream has ended. Every event but the last
    /// is a `Delta`; the last is a `Finish` whose text completes the deltas to the
    /// whole generated text. A failure ends the stream without a `Finish`.
    pub fn next_event(&mut self) -> (r: Option<StreamEvent>)
        requires
            old(self).wf(),
        ensures
            final(self).wf(),
            old(self).done() ==> r is None && final(self).done(),
            r is None ==> final(self).done(),
            r is Some ==> final(self).remaining() < old(self).remaining(),
            final(self).steps() <= final(self).decoder().max_new_tokens,
            r is Some ==> !final(self).failed() && final(self).decoder().status
                != DecodeStatus::Failed,
            r matches Some(StreamEvent::Delta { token_id, .. }) ==> (
                final(self).decoder(),
                TokenGeneratorResult::Token((token_id, PROBABILITY_ONE_BITS)),
            ) == advance(old(self).decoder(), token_id),
            r matches Some(StreamEvent::Finish { reason, .. }) ==> advance(
                old(self).decoder(),
                final(self).decoder().all_tokens.last(),
            ) == (final(self).decoder(), TokenGeneratorResult::Finish(reason)),
            final(self).decoder().max_new_tokens == old(self).decoder().max_new_tokens,
            final(self).decoder().stop == old(self).decoder().stop,
            r matches Some(StreamEvent::Delta { text, token_id, index }) ==> !final(self).done()
                && final(self).text() == old(self).text() + text@ && index == old(self).steps()
                && final(self).steps() == old(self).steps() + 1 && final(self).decoder().all_tokens
                == old(self).decoder().all_tokens.push(token_id) && !final(self).decoder().stop.contains(token_id),
            r matches Some(
                StreamEvent::Finish { text, reason, generated_tokens, generated_text, .. },
            ) ==> final(self).done() && final(self).text() == old(self).text() + text@
                && generated_text@ == final(self).text() && generated_tokens
                == final(self).steps() && final(self).decoder().status == DecodeStatus::Finished(
                reason,
            ) && (reason == FinishReason::Length || reason == FinishReason::EosToken),
            r is None && !old(self).done() ==> final(self).decoder().status
                == DecodeStatus::Failed || final(self).failed(),
    {
        if self.done {
            return None;
        }
        let step = self.generator.token_count();
        match self.generator.next() {
            Ok(TextGeneratorResult::Token((text, _))) => {
                self.text.append(text.as_str());
                let token_id = match self.generator.last_token() {
                    Some(t) => t,
                    None => 0,
                };
                Some(StreamEvent::Delta { text, token_id, index: step })
            },
            Ok(TextGeneratorResult::Finish(reason)) => {
                self.done = true;
                let tail = match self.generator.flush() {
                    Ok(Some(t)) => t,
                    Ok(None) => {
                        let empty = String::new();
                        assert(self.text@ + empty@ =~= self.text@);
                        empty
                    },
                    Err(_) => {
                        return None;
                    },
                };
                self.text.append(tail.as_str());
                let generated_text = self.text.clone();
                Some(
                    StreamEvent::Finish {
                        text: tail,
                        reason,
                        generated_tokens: self.generator.token_count(),
                        generated_text,
                        seed: self.seed,
                    },
                )
            },
            Err(_) => {
                self.done = true;
                None
            },
        }
    }
}

/// The stop strings that end every generation.
pub fn default_stop_names() -> (r: Vec<String>)
    ensures
        r@.len() == 2,
        r@[0]@ == "<|endoftext|>"@,
        r@[1]@ == "</s>"@,
{
    let mut v: Vec<String> = Vec::new();
    v.push(String::from_str("<|endoftext|>"));
    v.push(String::from_str("</s>"));
    v
}

/// How many stop strings a request uses: the caller's where it names any, else the
/// two default ones.
pub open spec fn stop_names_len(stop_tokens: Option<Vec<String>>) -> nat {
    match stop_tokens {
        Some(v) => if v@.len() > 0 {
            v@.len()
        } else {
            2
        },
        None => 2,
    }
}

/// The stop strings of a request: the caller's where it names any, else the
/// default ones.
pub fn stop_names_for(stop_tokens: Option<Vec<String>>) -> (r: Vec<String>)
    ensures
        (stop_tokens matches Some(v) && v@.len() > 0) ==> r@ == stop_tokens.unwrap()@,
        (match stop_tokens {
            Some(v) => v@.len() == 0,
            None => true,
        }) ==> r@.len() == 2 && r@[0]@ == "<|endoftext|>"@ && r@[1]@ == "</s>"@,
{
    match stop_tokens {
        Some(v) => {
            if v.len() > 0 {
                v
            } else {
                default_stop_names()
            }
        },
        None => default_stop_names(),
    }
}

/// A loaded model and its tokenizer, shared by the requests that use them in turn.
pub struct TextGeneration {
    model: Model,
    tokenizer: Tokenizer,
    last_run: Ghost<Option<TextGenerator>>,
}

impl TextGeneration {
    /// The text generator that the latest `run` drove, as it was when the run ended.
    pub closed spec fn last_run(&self) -> Option<TextGenerator> {
        self.last_run@
    }

    /// A session factory over `model` and `tokenizer`.
    pub fn new(model: Model, tokenizer: Tokenizer) -> (r: TextGeneration) {
        TextGeneration { model, tokenizer, last_run: Ghost(None) }
    }

    /// The ids of the stop strings that the tokenizer knows.
    fn stop_ids(&self, names: &Vec<String>) -> (r: HashSet<u32>)
        ensures
            exists|ids: Seq<Option<u32>>| ids.len() == names@.len() && r@ == present_ids(ids),
    {
        let mut ids: Vec<Option<u32>> = Vec::new();
        let mut i: usize = 0;
        while i < names.len()
            invariant
                i <= names@.len(),
                ids@.len() == i,
            decreases names.len() - i,
        {
            ids.push(token_id(&self.tokenizer, names[i].as_str()));
            i = i + 1;
        }
        let r = stop_set_of(&ids);
        assert(ids@.len() == names@.len() && r@ == present_ids(ids@));
        r
    }

    /// A text generator for one request: its own copy of the model and a sampler
    /// seeded from the parameters.
    fn generator(&self, parameter: GenerateParameter, stop_names: &Vec<String>) -> (r:
        TextGenerator)
        ensures
            r.wf(),
            r.decoder().status == DecodeStatus::Idle,
            r.decoder().max_new_tokens == parameter.max_new_tokens,
            r.emitted() == Seq::<char>::empty(),
            !r.failed(),
            r.feeds() == Seq::<(Seq<u32>, nat)>::empty(),
            exists|ids: Seq<Option<u32>>| ids.len() == stop_names@.len() && r.decoder().stop
                == present_ids(ids),
    {
        let stop = self.stop_ids(stop_names);
        let sampler = Sampler::Logits(
            logits_processor(parameter.seed, parameter.temperature_bits, parameter.top_p_bits),
        );
        let model = ModelProcessor::Model(self.model.duplicate());
        let tokens = TokenGenerator::new(stop, parameter, model, sampler);
        TextGenerator::new(clone_tokenizer(&self.tokenizer), tokens)
    }

    /// Generates the whole text for `prompt`, stopping at the default stop strings.
    ///
    /// The generator it drives is kept as `last_run`. On success the run finished
    /// normally within `max_new_tokens` tokens and no step failed; the text is every
    /// assembler delta over that run's own decodings followed by the flush of the
    /// final decoding, which was given exactly the emitted tokens (so never the stop
    /// token). With a maximum of 0 the model is called only for the prompt pass. A
    /// failed step makes the result an error, never partial text.
    pub fn run(&mut self, prompt: &str, parameter: GenerateParameter) -> (r: Result<
        Option<String>,
        LlmError,
    >)
        ensures
            final(self).last_run() is Some,
            r matches Ok(o) ==> o is Some,
            r matches Ok(Some(t)) ==> ({
                let g = final(self).last_run().unwrap();
                &&& finished_run(g.decoder(), parameter.max_new_tokens as nat)
                &&& !g.failed()
                &&& g.encoded() matches Some(ids) && g.decoder().prompt_len == ids.len()
                    && g.feeds()[0] == (ids, 0nat)
                &&& g.decodes().len() == g.decoder().index
                &&& g.decode_inputs().len() == g.decoder().index
                &&& forall|i: int|
                    0 <= i < g.decoder().index ==> #[trigger] g.decode_inputs()[i]
                        == generated(g.decoder()).take(i + 1)
                &&& g.decoded_ids() == generated(g.decoder())
                &&& g.decoded() matches Some(whole) && t@ == generation_text(g.decodes(), whole)
                &&& parameter.max_new_tokens == 0 ==> g.feeds().len() == 1
                &&& exists|ids: Seq<Option<u32>>| ids.len() == 2 && g.decoder().stop
                    == present_ids(ids)
            }),
            r matches Err(e) ==> (e == LlmError::Tokenize && final(self).last_run().unwrap().encoded()
                is None) || (e == LlmError::Generation && (final(self).last_run().unwrap().decoder().status
                == DecodeStatus::Failed || final(self).last_run().unwrap().failed())),
    {
        let names = default_stop_names();
        let mut generator = self.generator(parameter, &names);
        let started = generator.init(prompt);
        if let Err(e) = started {
            proof {
                self.last_run@ = Some(generator);
            }
            return Err(e);
        }
        let generation = generator.run_to_end();
        proof {
            self.last_run@ = Some(generator);
        }
        match generation {
            Ok(g) => Ok(Some(g.text)),
            Err(e) => Err(e),
        }
    }

    /// Starts a streamed generation for `prompt`. The stop strings are those of
    /// `stop_tokens` where it names any, else the default ones.
    pub fn run_stream(
        &mut self,
        prompt: &str,
        parameter: GenerateParameter,
        stop_tokens: Option<Vec<String>>,
    ) -> (r: Result<StreamSession, LlmError>)
        ensures
            r matches Ok(s) ==> s.wf() && !s.done() && s.steps() == 0 && s.text()
                == Seq::<char>::empty() && s.decoder().max_new_tokens == parameter.max_new_tokens
                && exists|ids: Seq<Option<u32>>|
                ids.len() == stop_names_len(stop_tokens) && s.decoder().stop == present_ids(ids),
            r matches Err(e) ==> e == LlmError::Tokenize || e == LlmError::Generation,
    {
        let names = stop_names_for(stop_tokens);
        let mut generator = self.generator(parameter, &names);
        generator.init(prompt)?;
        Ok(StreamSession::new(generator, parameter.seed))
    }
}

} // verus!
