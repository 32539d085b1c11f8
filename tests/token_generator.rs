use candle_core::{Device, Tensor};
use chat_flame_backend::llm::backend::Logits;
use chat_flame_backend::llm::generate_parameter::{GenerateParameter, PENALTY_DISABLED_BITS};
use chat_flame_backend::llm::model_processor::{DummyModelProcessor, ModelProcessor};
use chat_flame_backend::llm::sampler::{DummySampler, Sampler};
use chat_flame_backend::llm::token_generator::dummy::DummyTokenGenerator;
use chat_flame_backend::llm::token_generator::{
    TokenGenerator, TokenGeneratorResult, PROBABILITY_ONE_BITS,
};
use chat_flame_backend::llm::{FinishReason, LlmError};
use std::collections::HashSet;

fn dummy_generator(stop_tokens: HashSet<u32>, parameter: GenerateParameter) -> TokenGenerator {
    TokenGenerator::new(
        stop_tokens,
        parameter,
        ModelProcessor::Dummy(DummyModelProcessor::new()),
        Sampler::Dummy(DummySampler::new()),
    )
}

#[test]
fn test_token_generator_finish() {
    let mut token_generator = dummy_generator(
        HashSet::new(),
        GenerateParameter {
            max_new_tokens: 10,
            repeat_penalty_bits: 1.0f32.to_bits(),
            ..Default::default()
        },
    );
    token_generator.init(vec![0, 1, 2]).unwrap();
    // The prompt pass only primes the model: the first draw is the first token.
    for index in 0..10 {
        assert_eq!(
            token_generator.next().unwrap(),
            TokenGeneratorResult::Token((index, PROBABILITY_ONE_BITS))
        );
    }
    assert_eq!(
        token_generator.next().unwrap(),
        TokenGeneratorResult::Finish(FinishReason::Length)
    );
}

#[test]
fn test_token_generator_eos_token() {
    let stop_token = 3;
    let mut token_generator = dummy_generator(
        vec![stop_token].into_iter().collect(),
        GenerateParameter {
            max_new_tokens: 10,
            repeat_penalty_bits: 1.0f32.to_bits(),
            ..Default::default()
        },
    );
    token_generator.init(vec![0, 1, 2]).unwrap();
    for index in 0..3 {
        assert_eq!(
            token_generator.next().unwrap(),
            TokenGeneratorResult::Token((index, PROBABILITY_ONE_BITS))
        );
    }
    assert_eq!(
        token_generator.next().unwrap(),
        TokenGeneratorResult::Finish(FinishReason::EosToken)
    );
}

#[test]
fn counter_stops_at_seven() {
    let mut token_generator = dummy_generator(
        vec![7].into_iter().collect(),
        GenerateParameter { max_new_tokens: 50, ..Default::default() },
    );
    token_generator.init(vec![5, 6]).unwrap();
    for index in 0..7 {
        assert_eq!(
            token_generator.next().unwrap(),
            TokenGeneratorResult::Token((index, PROBABILITY_ONE_BITS))
        );
    }
    assert_eq!(
        token_generator.next().unwrap(),
        TokenGeneratorResult::Finish(FinishReason::EosToken)
    );
    assert_eq!(token_generator.emitted_count(), 7);
    // Finished for good: no further tokens.
    assert_eq!(
        token_generator.next().unwrap(),
        TokenGeneratorResult::Finish(FinishReason::EosToken)
    );
}

#[test]
fn zero_max_finishes_at_once() {
    let mut token_generator = dummy_generator(
        HashSet::new(),
        GenerateParameter { max_new_tokens: 0, ..Default::default() },
    );
    token_generator.init(vec![10, 11, 12]).unwrap();
    assert_eq!(
        token_generator.next().unwrap(),
        TokenGeneratorResult::Finish(FinishReason::Length)
    );
    assert_eq!(token_generator.emitted_count(), 0);
}

#[test]
fn emits_at_most_max() {
    for max in 0..6usize {
        let mut token_generator = dummy_generator(
            HashSet::new(),
            GenerateParameter { max_new_tokens: max, ..Default::default() },
        );
        token_generator.init(vec![1]).unwrap();
        let mut tokens = 0;
        for _ in 0..20 {
            match token_generator.next().unwrap() {
                TokenGeneratorResult::Token(_) => tokens += 1,
                TokenGeneratorResult::Finish(reason) => {
                    assert_eq!(reason, FinishReason::Length);
                    break;
                }
            }
        }
        assert_eq!(tokens, max);
        assert_eq!(token_generator.emitted_count(), max);
    }
}

#[test]
fn next_before_init_fails() {
    let mut token_generator = dummy_generator(HashSet::new(), GenerateParameter::default());
    assert_eq!(token_generator.next(), Err(LlmError::Generation));
}

#[test]
fn stop_membership() {
    let token_generator = dummy_generator(vec![3, 9].into_iter().collect(), Default::default());
    assert!(token_generator.is_stop_token(&3));
    assert!(token_generator.is_stop_token(&9));
    assert!(!token_generator.is_stop_token(&4));
}

#[test]
fn reset_returns_to_idle() {
    let mut token_generator = dummy_generator(vec![3].into_iter().collect(), Default::default());
    token_generator.init(vec![1, 2]).unwrap();
    token_generator.next().unwrap();
    token_generator.reset();
    assert_eq!(token_generator.emitted_count(), 0);
    assert!(!token_generator.is_stop_token(&3));
    assert_eq!(token_generator.next(), Err(LlmError::Generation));
}

#[test]
fn disabled_penalty_keeps_logits() {
    let mut token_generator = dummy_generator(
        HashSet::new(),
        GenerateParameter { repeat_penalty_bits: PENALTY_DISABLED_BITS, ..Default::default() },
    );
    let logits =
        Logits::from_tensor(Tensor::new(&[1.5f32, -2.0, 3.25], &Device::Cpu).unwrap()).unwrap();
    let adjusted = token_generator.adjust_logits(logits).unwrap();
    assert_eq!(adjusted.tensor().to_vec1::<f32>().unwrap(), vec![1.5, -2.0, 3.25]);
}

#[test]
fn enabled_penalty_rescales_window() {
    let mut token_generator = dummy_generator(
        HashSet::new(),
        GenerateParameter {
            repeat_penalty_bits: 2.0f32.to_bits(),
            repeat_last_n: 2,
            ..Default::default()
        },
    );
    // History [2, 0, 1]: the window of the last two tokens holds ids 0 and 1.
    token_generator.init(vec![2, 0, 1]).unwrap();
    let logits =
        Logits::from_tensor(Tensor::new(&[1.5f32, -2.0, 3.0], &Device::Cpu).unwrap()).unwrap();
    let adjusted = token_generator.adjust_logits(logits).unwrap();
    assert_eq!(adjusted.len(), 3);
    assert_eq!(adjusted.tensor().to_vec1::<f32>().unwrap(), vec![0.75, -4.0, 3.0]);
}

#[test]
fn test_dummy_token_generator_with_zero_max_tokens() {
    let mut token_generator = DummyTokenGenerator::new(GenerateParameter {
        max_new_tokens: 0,
        ..Default::default()
    });
    assert_eq!(
        token_generator.next().unwrap(),
        TokenGeneratorResult::Finish(FinishReason::Length)
    );
}

#[test]
fn test_dummy_token_generator_with_repeat_penalty() {
    let mut token_generator = DummyTokenGenerator::new(GenerateParameter {
        max_new_tokens: 5,
        repeat_penalty_bits: 1.5f32.to_bits(),
        ..Default::default()
    });
    for index in 0..5 {
        assert_eq!(
            token_generator.next().unwrap(),
            TokenGeneratorResult::Token((index, PROBABILITY_ONE_BITS))
        );
    }
}

#[test]
fn test_dummy_token_generator_with_high_max_tokens() {
    let mut token_generator = DummyTokenGenerator::new(GenerateParameter {
        max_new_tokens: 1000,
        ..Default::default()
    });
    for _ in 0..1000 {
        if let TokenGeneratorResult::Finish(_) = token_generator.next().unwrap() {
            break;
        }
    }
}

#[test]
fn test_dummy_token_generator_initialization() {
    let mut token_generator = DummyTokenGenerator::new(Default::default());
    token_generator.init(vec![1, 2, 3]).unwrap();
    assert_eq!(
        token_generator.next().unwrap(),
        TokenGeneratorResult::Token((0, PROBABILITY_ONE_BITS))
    );
    token_generator.init(vec![4, 5, 6]).unwrap();
    assert_eq!(
        token_generator.next().unwrap(),
        TokenGeneratorResult::Token((1, PROBABILITY_ONE_BITS))
    );
}

#[test]
fn dummy_token_generator_counts_ten() {
    let mut token_generator = DummyTokenGenerator::new(GenerateParameter {
        max_new_tokens: 10,
        ..Default::default()
    });
    for index in 0..10 {
        assert_eq!(
            token_generator.next().unwrap(),
            TokenGeneratorResult::Token((index, PROBABILITY_ONE_BITS))
        );
    }
    assert_eq!(
        token_generator.next().unwrap(),
        TokenGeneratorResult::Finish(FinishReason::Length)
    );
}

#[test]
fn test_dummy_sampler() {
    let mut sampler = Sampler::Dummy(DummySampler::new());
    let logits = || Logits::from_tensor(Tensor::new(&[1.0], &Device::Cpu).unwrap()).unwrap();
    assert_eq!(sampler.sample(&logits()).unwrap(), 0);
    assert_eq!(sampler.sample(&logits()).unwrap(), 1);
}

#[test]
fn test_dummy_model_processor() {
    let mut model_processor = DummyModelProcessor::new();
    let x = [0u32];

    for index in 0..10usize {
        let y = model_processor
            .forward(&x, index)
            .unwrap()
            .tensor()
            .to_vec1::<f32>()
            .unwrap();
        assert_eq!(y, vec![index as f32]);
    }
}

#[test]
fn logits_must_be_one_dimensional() {
    let scalar = Tensor::new(1.0f32, &Device::Cpu).unwrap();
    assert!(Logits::from_tensor(scalar).is_err());
    let row = Tensor::new(&[1.0f32, 2.0], &Device::Cpu).unwrap();
    assert_eq!(Logits::from_tensor(row).unwrap().len(), 2);
}

#[test]
fn counting_sampler_draws_from_counting_model() {
    let mut token_generator = dummy_generator(
        HashSet::new(),
        GenerateParameter { max_new_tokens: 3, ..Default::default() },
    );
    token_generator.init(vec![4]).unwrap();
    assert_eq!(token_generator.last_token(), Some(4));
    token_generator.next().unwrap();
    assert_eq!(token_generator.last_token(), Some(0));
}
