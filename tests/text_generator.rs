use chat_flame_backend::llm::generate_parameter::GenerateParameter;
use chat_flame_backend::llm::model_processor::{DummyModelProcessor, ModelProcessor};
use chat_flame_backend::llm::sampler::{DummySampler, Sampler};
use chat_flame_backend::llm::text_assembler::TextAssembler;
use chat_flame_backend::llm::text_generation::{
    default_stop_names, stop_names_for, stop_set_of, StreamEvent, StreamSession,
};
use chat_flame_backend::llm::text_generator::dummy_text_generator::DummyTextGenerator;
use chat_flame_backend::llm::text_generator::{TextGenerator, TextGeneratorResult};
use chat_flame_backend::llm::token_generator::{TokenGenerator, PROBABILITY_ONE_BITS};
use chat_flame_backend::llm::FinishReason;
use std::collections::HashSet;
use tokenizers::models::bpe::BPE;
use tokenizers::Tokenizer;

fn counting_text_generator(tokenizer: Tokenizer, stop: HashSet<u32>, max: usize) -> TextGenerator {
    let tokens = TokenGenerator::new(
        stop,
        GenerateParameter { max_new_tokens: max, ..Default::default() },
        ModelProcessor::Dummy(DummyModelProcessor::new()),
        Sampler::Dummy(DummySampler::new()),
    );
    TextGenerator::new(tokenizer, tokens)
}

fn letters_tokenizer() -> Tokenizer {
    let vocab = [
        ("a".to_string(), 0u32),
        ("b".to_string(), 1),
        ("c".to_string(), 2),
        ("d".to_string(), 3),
        ("e".to_string(), 4),
    ];
    let bpe = BPE::builder().vocab_and_merges(vocab, vec![]).build().unwrap();
    Tokenizer::new(bpe)
}

#[test]
fn test_text_generator() {
    let mut text_generator =
        counting_text_generator(Tokenizer::new(BPE::default()), HashSet::new(), 10);
    text_generator.init("Hello World").unwrap();
    for _ in 0..10 {
        assert!(match text_generator.next().unwrap() {
            TextGeneratorResult::Token((_, _)) => true,
            _ => false,
        });
    }
    assert_eq!(
        text_generator.next().unwrap(),
        TextGeneratorResult::Finish(FinishReason::Length)
    );
}

#[test]
fn run_to_end_decodes_tokens() {
    let tokenizer = letters_tokenizer();
    let mut text_generator = counting_text_generator(letters_tokenizer(), HashSet::new(), 4);
    text_generator.init("ab").unwrap();
    let generation = text_generator.run_to_end().unwrap();
    assert_eq!(generation.finish_reason, FinishReason::Length);
    assert_eq!(generation.generated_tokens, 4);
    assert_eq!(generation.text, tokenizer.decode(&[0, 1, 2, 3], true).unwrap());
    assert_eq!(generation.text, "a b c d");
}

#[test]
fn run_to_end_leaves_out_stop_token() {
    let mut text_generator =
        counting_text_generator(letters_tokenizer(), vec![3].into_iter().collect(), 10);
    text_generator.init("ab").unwrap();
    let generation = text_generator.run_to_end().unwrap();
    assert_eq!(generation.finish_reason, FinishReason::EosToken);
    assert_eq!(generation.generated_tokens, 3);
    assert_eq!(generation.text, "a b c");
}

#[test]
fn run_to_end_with_zero_max() {
    let mut text_generator = counting_text_generator(letters_tokenizer(), HashSet::new(), 0);
    text_generator.init("abc").unwrap();
    let generation = text_generator.run_to_end().unwrap();
    assert_eq!(generation.finish_reason, FinishReason::Length);
    assert_eq!(generation.generated_tokens, 0);
    assert_eq!(generation.text, "");
}

#[test]
fn stream_events_end_with_finish() {
    let mut text_generator =
        counting_text_generator(letters_tokenizer(), vec![2].into_iter().collect(), 10);
    text_generator.init("a").unwrap();
    let mut session = StreamSession::new(text_generator, 42);
    let mut events = Vec::new();
    while let Some(event) = session.next_event() {
        events.push(event);
    }
    assert_eq!(events.len(), 3);
    assert_eq!(events[0], StreamEvent::Delta { text: "a".to_string(), token_id: 0, index: 0 });
    assert_eq!(events[1], StreamEvent::Delta { text: " b".to_string(), token_id: 1, index: 1 });
    assert_eq!(
        events[2],
        StreamEvent::Finish {
            text: String::new(),
            reason: FinishReason::EosToken,
            generated_tokens: 2,
            generated_text: "a b".to_string(),
            seed: 42,
        }
    );
    assert_eq!(session.next_event(), None);
}

#[test]
fn assembler_waits_for_complete_characters() {
    let mut assembler = TextAssembler::new();
    assembler.push(1);
    assert_eq!(assembler.accept("He"), Some("He".to_string()));
    assembler.push(2);
    assert_eq!(assembler.accept("He\u{FFFD}"), None);
    assembler.push(3);
    assert_eq!(assembler.accept("Hé"), None);
    assembler.push(4);
    assert_eq!(assembler.accept("Hé!"), None);
    assert_eq!(assembler.token_ids(), &[1, 2, 3, 4]);
    // The flush gives out everything beyond what was given out, so nothing is lost.
    assert_eq!(assembler.flush("Hé! x\u{FFFD}"), Some("! x\u{FFFD}".to_string()));
}

#[test]
fn assembler_round_trip() {
    let texts = ["ab", "ab\u{FFFD}", "ab\u{e9}", "ab\u{e9} c", "ab\u{e9} cd\u{FFFD}"];
    let whole = "ab\u{e9} cd\u{FFFD}\u{FFFD}";
    let mut assembler = TextAssembler::new();
    let mut out = String::new();
    for (i, t) in texts.iter().enumerate() {
        assembler.push(i as u32);
        if let Some(delta) = assembler.accept(t) {
            assert!(!delta.ends_with('\u{FFFD}'));
            out.push_str(&delta);
        }
    }
    assert_eq!(out, "ab\u{e9} c");
    if let Some(rest) = assembler.flush(whole) {
        out.push_str(&rest);
    }
    assert_eq!(out, whole);
}

#[test]
fn stop_set_keeps_found_ids() {
    let set = stop_set_of(&vec![Some(2), None, Some(5), Some(2)]);
    let expected: HashSet<u32> = vec![2, 5].into_iter().collect();
    assert_eq!(set, expected);
}

#[test]
fn test_dummy_text_generator() {
    let mut generator = DummyTextGenerator::new("Hello World".to_string());
    generator.init("Test".to_string()).unwrap();

    match generator.next().unwrap() {
        TextGeneratorResult::Token((text, _)) => assert_eq!(text, "Test"),
        _ => panic!("Unexpected result on first call to next"),
    }

    assert_eq!(
        generator.next().unwrap(),
        TextGeneratorResult::Finish(FinishReason::Length)
    );
}

#[test]
fn dummy_text_generator_reports_probability_one() {
    let mut generator = DummyTextGenerator::new("x".to_string());
    assert_eq!(
        generator.next().unwrap(),
        TextGeneratorResult::Token(("x".to_string(), PROBABILITY_ONE_BITS))
    );
}

#[test]
fn stop_names_default_or_callers() {
    assert_eq!(default_stop_names(), vec!["<|endoftext|>".to_string(), "</s>".to_string()]);
    assert_eq!(stop_names_for(None), default_stop_names());
    assert_eq!(stop_names_for(Some(vec![])), default_stop_names());
    assert_eq!(stop_names_for(Some(vec!["###".to_string()])), vec!["###".to_string()]);
}

#[test]
fn stop_tokens_from_strings() {
    let mut tokens = TokenGenerator::new(
        HashSet::new(),
        GenerateParameter::default(),
        ModelProcessor::Dummy(DummyModelProcessor::new()),
        Sampler::Dummy(DummySampler::new()),
    );
    tokens.set_stop_tokens(Some(vec!["c".to_string(), "zz".to_string()]), &letters_tokenizer());
    assert!(tokens.is_stop_token(&2));
    assert!(!tokens.is_stop_token(&0));
    tokens.set_stop_tokens(None, &letters_tokenizer());
    assert!(!tokens.is_stop_token(&2));
}

#[test]
fn stream_runs_to_the_maximum() {
    let mut text_generator = counting_text_generator(letters_tokenizer(), HashSet::new(), 3);
    text_generator.init("a").unwrap();
    let mut session = StreamSession::new(text_generator, 9);
    let mut deltas = 0;
    let mut last = None;
    while let Some(event) = session.next_event() {
        match event {
            StreamEvent::Delta { token_id, index, .. } => {
                assert_eq!(token_id as usize, index);
                deltas += 1;
            }
            finish => last = Some(finish),
        }
    }
    assert_eq!(deltas, 3);
    assert_eq!(
        last,
        Some(StreamEvent::Finish {
            text: String::new(),
            reason: FinishReason::Length,
            generated_tokens: 3,
            generated_text: "a b c".to_string(),
            seed: 9,
        })
    );
}
