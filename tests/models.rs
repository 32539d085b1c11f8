use chat_flame_backend::config::Config;
use chat_flame_backend::llm::models::{Architecture, Models, ALL_MODELS};

#[test]
fn names_round_trip() {
    for m in ALL_MODELS.iter() {
        assert_eq!(Models::from_name(m.name()), Some(*m));
    }
    assert_eq!(Models::from_name("7b-open-chat-3.5"), Some(Models::OpenChat35));
    assert_eq!(Models::from_name("32b-code"), Some(Models::L34bCode));
    assert_eq!(Models::from_name("gpt-9"), None);
    assert_eq!(Models::from_name(""), None);
}

#[test]
fn families() {
    assert!(Models::Mistral7b.is_mistral());
    assert!(Models::OpenChat35.is_mistral());
    assert!(!Models::L7b.is_mistral());
    assert!(Models::Zephyr7bBeta.is_zephyr());
    assert!(!Models::Mistral7b.is_zephyr());
    assert!(Models::Starling7bAlpha.is_open_chat());
    assert!(!Models::Mixtral.is_open_chat());
    assert!(Models::PhiV2.is_phi());
    assert!(!Models::Leo7b.is_phi());
}

#[test]
fn repositories() {
    assert_eq!(Models::L13b.tokenizer_repo(), "hf-internal-testing/llama-tokenizer");
    assert_eq!(Models::OpenChat35.tokenizer_repo(), "openchat/openchat_3.5");
    assert_eq!(Models::PhiV1_5.tokenizer_repo(), "microsoft/phi-1.5");
    assert_eq!(
        Models::OpenChat35.repo_path(),
        ("TheBloke/openchat_3.5-GGUF", "openchat_3.5.Q4_K_M.gguf")
    );
    assert_eq!(Models::PhiV2.repo_path(), ("lmz/candle-quantized-phi", "model-v2-q4k.gguf"));
    assert_eq!(
        Models::L7b.repo_path(),
        ("TheBloke/Llama-2-7B-GGML", "llama-2-7b.ggmlv3.q4_0.bin")
    );
}

#[test]
fn loading_choices() {
    assert_eq!(Models::L7b.default_gqa(), 1);
    assert_eq!(Models::L70b.default_gqa(), 8);
    assert_eq!(Models::OpenChat35.default_gqa(), 8);
    assert_eq!(Models::PhiHermes.default_gqa(), 4);
    assert_eq!(Models::PhiV1.architecture(), Architecture::MixFormer);
    assert_eq!(Models::Mixtral.architecture(), Architecture::Llama);
}

#[test]
fn default_config() {
    let config = Config::default();
    assert_eq!(config.port, 0);
    assert_eq!(config.cache_dir, None);
    assert_eq!(config.model, Models::OpenChat35);
    assert_eq!(config.keep_in_memory, None);
    assert_eq!(Models::default(), Models::OpenChat35);
}
