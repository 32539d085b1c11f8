use chat_flame_backend::api::health::check_server_health;
use chat_flame_backend::api::model::{
    finish_reason_of, generate_parameter_from_request, ErrorResponse, FinishReason,
    RequestParameters, StreamDetails,
};
use chat_flame_backend::llm::generate_parameter::{
    default_max_new_tokens, default_repeat_last_n, default_repeat_penalty_bits, default_seed,
    default_temperature_bits, default_top_p_bits, GenerateParameter,
};
use chat_flame_backend::llm::{self, LlmError};

#[test]
fn test_default_generate_parameter() {
    let param = GenerateParameter::default();
    assert_eq!(param.max_new_tokens, default_max_new_tokens());
    assert_eq!(param.seed, default_seed());
    assert_eq!(param.temperature_bits, default_temperature_bits());
    assert_eq!(param.top_p_bits, default_top_p_bits());
    assert_eq!(param.repeat_penalty_bits, default_repeat_penalty_bits());
    assert_eq!(param.repeat_last_n, default_repeat_last_n());
}

#[test]
fn default_values() {
    assert_eq!(default_max_new_tokens(), 50);
    assert_eq!(default_seed(), 299792458);
    assert_eq!(f64::from_bits(default_temperature_bits()), 1.0);
    assert_eq!(f64::from_bits(default_top_p_bits()), 0.9);
    assert_eq!(f32::from_bits(default_repeat_penalty_bits()), 1.0);
    assert_eq!(default_repeat_last_n(), 64);
    assert!(!GenerateParameter::default().penalty_enabled());
}

#[test]
fn request_defaults() {
    let p = generate_parameter_from_request(&None).unwrap();
    assert_eq!(p.max_new_tokens, 50);
    assert_eq!(p.repeat_last_n, 64);
    assert_eq!(p.seed, 42);
    assert_eq!(f64::from_bits(p.temperature_bits), 0.0);
    assert_eq!(f64::from_bits(p.top_p_bits), 0.0);
    assert_eq!(f32::from_bits(p.repeat_penalty_bits), 1.1);
}

#[test]
fn request_values() {
    let request = RequestParameters {
        temperature_bits: Some(0.7f64.to_bits()),
        top_p_bits: Some(0.95f64.to_bits()),
        repetition_penalty_bits: Some(1.0f32.to_bits()),
        top_n_tokens: Some(16),
        max_new_tokens: Some(7),
        seed: Some(7),
    };
    let p = generate_parameter_from_request(&Some(request)).unwrap();
    assert_eq!(p.max_new_tokens, 7);
    assert_eq!(p.repeat_last_n, 16);
    assert_eq!(p.seed, 7);
    assert_eq!(f64::from_bits(p.temperature_bits), 0.7);
    assert_eq!(f64::from_bits(p.top_p_bits), 0.95);
    assert!(!p.penalty_enabled());
}

#[test]
fn request_rejects_negative_counts() {
    let request = RequestParameters {
        temperature_bits: None,
        top_p_bits: None,
        repetition_penalty_bits: None,
        top_n_tokens: None,
        max_new_tokens: Some(-1),
        seed: None,
    };
    assert_eq!(generate_parameter_from_request(&Some(request)), Err(LlmError::InvalidInput));
    let request = RequestParameters { top_n_tokens: Some(-5), max_new_tokens: None, ..request };
    assert_eq!(generate_parameter_from_request(&Some(request)), Err(LlmError::InvalidInput));
}

#[test]
fn error_statuses() {
    assert_eq!(LlmError::ModelUnavailable.status_code(), 429);
    assert_eq!(LlmError::Tokenize.status_code(), 422);
    assert_eq!(LlmError::InvalidInput.status_code(), 422);
    assert_eq!(LlmError::Generation.status_code(), 424);
    assert_eq!(LlmError::IncompleteGeneration.status_code(), 500);
    assert_eq!(LlmError::Generation.message(), "Request failed during generation");
    let response = ErrorResponse::from_error(LlmError::IncompleteGeneration);
    assert_eq!(response.error, "Incomplete generation");
    assert_eq!(response.error_type, None);
}

#[test]
fn stream_details() {
    assert_eq!(finish_reason_of(llm::FinishReason::Length), FinishReason::Length);
    assert_eq!(finish_reason_of(llm::FinishReason::EosToken), FinishReason::EosToken);
    assert_eq!(finish_reason_of(llm::FinishReason::StopSequence), FinishReason::EosToken);
    let d = StreamDetails::new(llm::FinishReason::Length, 12, 42);
    assert_eq!(d.finish_reason, FinishReason::Length);
    assert_eq!(d.generated_tokens, 12);
    assert_eq!(d.seed, Some(42));
    let d = StreamDetails::new(llm::FinishReason::EosToken, usize::MAX, u64::MAX);
    assert_eq!(d.generated_tokens, i32::MAX);
    assert_eq!(d.seed, Some(-1));
}

#[test]
fn server_is_healthy() {
    assert!(check_server_health());
}

#[test]
fn request_seed_keeps_its_bits() {
    let request = RequestParameters {
        temperature_bits: None,
        top_p_bits: None,
        repetition_penalty_bits: None,
        top_n_tokens: None,
        max_new_tokens: None,
        seed: Some(-1),
    };
    let p = generate_parameter_from_request(&Some(request)).unwrap();
    assert_eq!(p.seed, u64::MAX);
    let request = RequestParameters { seed: None, ..request };
    assert_eq!(generate_parameter_from_request(&Some(request)).unwrap().seed, 42);
}
