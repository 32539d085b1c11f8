//! The catalogue of supported models: their names, where their weights and
//! tokenizers are published, and which architecture and grouping they use.
use crate::text::str_equal;
use vstd::prelude::*;

verus! {

/// A model that the service can load.
#[derive(Debug, Clone, Copy, PartialEq, Eq, Structural)]
pub enum Models {
    /// Llama 2, 7B. Named `7b`.
    L7b,
    /// Llama 2, 13B. Named `13b`.
    L13b,
    /// Llama 2, 70B. Named `70b`.
    L70b,
    /// Llama 2 chat, 7B. Named `7b-chat`.
    L7bChat,
    /// Llama 2 chat, 13B. Named `13b-chat`.
    L13bChat,
    /// Llama 2 chat, 70B. Named `70b-chat`.
    L70bChat,
    /// Code Llama, 7B. Named `7b-code`.
    L7bCode,
    /// Code Llama, 13B. Named `13b-code`.
    L13bCode,
    /// Code Llama, 34B. Named `32b-code`.
    L34bCode,
    /// LeoLM, 7B. Named `7b-leo`.
    Leo7b,
    /// LeoLM, 13B. Named `13b-leo`.
    Leo13b,
    /// Mistral, 7B. Named `7b-mistral`.
    Mistral7b,
    /// Mistral instruct, 7B. Named `7b-mistral-instruct`.
    Mistral7bInstruct,
    /// Zephyr alpha, 7B. Named `7b-zephyr-a`.
    Zephyr7bAlpha,
    /// Zephyr beta, 7B. Named `7b-zephyr-b`.
    Zephyr7bBeta,
    /// OpenChat 3.5, 7B (the default). Named `7b-open-chat-3.5`.
    OpenChat35,
    /// Starling alpha, 7B. Named `7b-starling-a`.
    Starling7bAlpha,
    /// Mixtral 8x7B. Named `mixtral`.
    Mixtral,
    /// Mixtral 8x7B instruct. Named `mixtral-instruct`.
    MixtralInstruct,
    /// Phi Hermes 1.3B. Named `phi-hermes`.
    PhiHermes,
    /// Phi 1. Named `phi-v1`.
    PhiV1,
    /// Phi 1.5. Named `phi-v1.5`.
    PhiV1_5,
    /// Phi 2. Named `phi-v2`.
    PhiV2,
}

/// The network architecture that runs a model's weights.
#[derive(Debug, Clone, Copy, PartialEq, Eq, Structural)]
pub enum Architecture {
    /// The quantized Llama network (also used for Mistral-type weights).
    Llama,
    /// The quantized MixFormer network of the Phi models.
    MixFormer,
}

/// The external name of each model, as used in configuration files and URLs.
pub open spec fn model_name(m: Models) -> Seq<char> {
    match m {
        Models::L7b => "7b"@,
        Models::L13b => "13b"@,
        Models::L70b => "70b"@,
        Models::L7bChat => "7b-chat"@,
        Models::L13bChat => "13b-chat"@,
        Models::L70bChat => "70b-chat"@,
        Models::L7bCode => "7b-code"@,
        Models::L13bCode => "13b-code"@,
        Models::L34bCode => "32b-code"@,
        Models::Leo7b => "7b-leo"@,
        Models::Leo13b => "13b-leo"@,
        Models::Mistral7b => "7b-mistral"@,
        Models::Mistral7bInstruct => "7b-mistral-instruct"@,
        Models::Zephyr7bAlpha => "7b-zephyr-a"@,
        Models::Zephyr7bBeta => "7b-zephyr-b"@,
        Models::OpenChat35 => "7b-open-chat-3.5"@,
        Models::Starling7bAlpha => "7b-starling-a"@,
        Models::Mixtral => "mixtral"@,
        Models::MixtralInstruct => "mixtral-instruct"@,
        Models::PhiHermes => "phi-hermes"@,
        Models::PhiV1 => "phi-v1"@,
        Models::PhiV1_5 => "phi-v1.5"@,
        Models::PhiV2 => "phi-v2"@,
    }
}

/// The models in the Mistral family.
pub open spec fn spec_is_mistral(m: Models) -> bool {
    m == Models::OpenChat35 || m == Models::Starling7bAlpha || m == Models::Zephyr7bAlpha || m == Models::Zephyr7bBeta || m == Models::Mixtral || m == Models::MixtralInstruct || m == Models::Mistral7b || m == Models::Mistral7bInstruct
}

/// The models in the Phi family.
pub open spec fn spec_is_phi(m: Models) -> bool {
    m == Models::PhiHermes || m == Models::PhiV1 || m == Models::PhiV1_5 || m == Models::PhiV2
}

impl Default for Models {
    fn default() -> (r: Models)
        ensures
            r == Models::OpenChat35,
    {
        Models::OpenChat35
    }
}

impl Models {
    /// Whether the model belongs to the Mistral family.
    pub fn is_mistral(&self) -> (r: bool)
        ensures
            r == spec_is_mistral(*self),
    {
        match self {
            Self::OpenChat35
            | Self::Starling7bAlpha
            | Self::Zephyr7bAlpha
            | Self::Zephyr7bBeta
            | Self::Mixtral
            | Self::MixtralInstruct
            | Self::Mistral7b
            | Self::Mistral7bInstruct => true,
            _ => false,
        }
    }

    /// Whether the model is one of the two Zephyr models.
    pub fn is_zephyr(&self) -> (r: bool)
        ensures
            r == (*self == Models::Zephyr7bAlpha || *self == Models::Zephyr7bBeta),
    {
        match self {
            Self::Zephyr7bAlpha | Self::Zephyr7bBeta => true,
            _ => false,
        }
    }

    /// Whether the model is tuned with the OpenChat prompt format.
    pub fn is_open_chat(&self) -> (r: bool)
        ensures
            r == (*self == Models::OpenChat35 || *self == Models::Starling7bAlpha),
    {
        match self {
            Self::OpenChat35 | Self::Starling7bAlpha => true,
            _ => false,
        }
    }

    /// Whether the model belongs to the Phi family.
    pub fn is_phi(&self) -> (r: bool)
        ensures
            r == spec_is_phi(*self),
    {
        match self {
            Self::PhiHermes | Self::PhiV1 | Self::PhiV1_5 | Self::PhiV2 => true,
            _ => false,
        }
    }

    /// The external name of the model.
    pub fn name(&self) -> (r: &'static str)
        ensures
            r@ == model_name(*self),
    {
        proof {
            reveal_strlit("7b");
            reveal_strlit("13b");
            reveal_strlit("70b");
            reveal_strlit("7b-chat");
            reveal_strlit("13b-chat");
            reveal_strlit("70b-chat");
            reveal_strlit("7b-code");
            reveal_strlit("13b-code");
            reveal_strlit("32b-code");
            reveal_strlit("7b-leo");
            reveal_strlit("13b-leo");
            reveal_strlit("7b-mistral");
            reveal_strlit("7b-mistral-instruct");
            reveal_strlit("7b-zephyr-a");
            reveal_strlit("7b-zephyr-b");
            reveal_strlit("7b-open-chat-3.5");
            reveal_strlit("7b-starling-a");
            reveal_strlit("mixtral");
            reveal_strlit("mixtral-instruct");
            reveal_strlit("phi-hermes");
            reveal_strlit("phi-v1");
            reveal_strlit("phi-v1.5");
            reveal_strlit("phi-v2");
        }
        match self {
            Models::L7b => "7b",
            Models::L13b => "13b",
            Models::L70b => "70b",
            Models::L7bChat => "7b-chat",
            Models::L13bChat => "13b-chat",
            Models::L70bChat => "70b-chat",
            Models::L7bCode => "7b-code",
            Models::L13bCode => "13b-code",
            Models::L34bCode => "32b-code",
            Models::Leo7b => "7b-leo",
            Models::Leo13b => "13b-leo",
            Models::Mistral7b => "7b-mistral",
            Models::Mistral7bInstruct => "7b-mistral-instruct",
            Models::Zephyr7bAlpha => "7b-zephyr-a",
            Models::Zephyr7bBeta => "7b-zephyr-b",
            Models::OpenChat35 => "7b-open-chat-3.5",
            Models::Starling7bAlpha => "7b-starling-a",
            Models::Mixtral => "mixtral",
            Models::MixtralInstruct => "mixtral-instruct",
            Models::PhiHermes => "phi-hermes",
            Models::PhiV1 => "phi-v1",
            Models::PhiV1_5 => "phi-v1.5",
            Models::PhiV2 => "phi-v2",
        }
    }

    /// The model whose external name is `s`, if there is one.
    pub fn from_name(s: &str) -> (r: Option<Models>)
        ensures
            r matches Some(m) ==> model_name(m) == s@,
            r is None ==> forall|m: Models| model_name(m) != s@,
    {
        proof {
            lemma_all_models_complete();
        }
        let mut i: usize = 0;
        while i < ALL_MODELS.len()
            invariant
                ALL_MODELS@ == all_models(),
                ALL_MODELS@.len() == 23,
                i <= 23,
                forall|m: Models| model_name(m) == s@ ==> !all_models().take(i as int).contains(m),
            decreases ALL_MODELS.len() - i,
        {
            let m = ALL_MODELS[i];
            if str_equal(m.name(), s) {
                return Some(m);
            }
            assert(all_models().take(i + 1) =~= all_models().take(i as int).push(m));
            i = i + 1;
        }
        assert(all_models().take(23) =~= all_models());
        assert forall|m: Models| model_name(m) != s@ by {
            if model_name(m) == s@ {
                assert(all_models().contains(m));
                assert(!all_models().take(23).contains(m));
            }
        }
        None
    }

    /// The repository that publishes the model's tokenizer.
    pub fn tokenizer_repo(&self) -> (r: &'static str)
        ensures
            r@ == spec_tokenizer_repo(*self),
    {
        proof {
            reveal_strlit("LeoLM/leo-hessianai-13b");
            reveal_strlit("LeoLM/leo-hessianai-7b");
            reveal_strlit("berkeley-nest/Starling-LM-7B-alpha");
            reveal_strlit("hf-internal-testing/llama-tokenizer");
            reveal_strlit("lmz/candle-quantized-phi");
            reveal_strlit("microsoft/phi-1");
            reveal_strlit("microsoft/phi-1.5");
            reveal_strlit("microsoft/phi-2");
            reveal_strlit("mistralai/Mistral-7B-v0.1");
            reveal_strlit("mistralai/Mixtral-8x7B-Instruct-v0.1");
            reveal_strlit("mistralai/Mixtral-8x7B-v0.1");
            reveal_strlit("openchat/openchat_3.5");
        }
        match self {
            Models::L7b => "hf-internal-testing/llama-tokenizer",
            Models::L13b => "hf-internal-testing/llama-tokenizer",
            Models::L70b => "hf-internal-testing/llama-tokenizer",
            Models::L7bChat => "hf-internal-testing/llama-tokenizer",
            Models::L13bChat => "hf-internal-testing/llama-tokenizer",
            Models::L70bChat => "hf-internal-testing/llama-tokenizer",
            Models::L7bCode => "hf-internal-testing/llama-tokenizer",
            Models::L13bCode => "hf-internal-testing/llama-tokenizer",
            Models::L34bCode => "hf-internal-testing/llama-tokenizer",
            Models::Leo7b => "LeoLM/leo-hessianai-7b",
            Models::Leo13b => "LeoLM/leo-hessianai-13b",
            Models::Mistral7b => "mistralai/Mistral-7B-v0.1",
            Models::Mistral7bInstruct => "mistralai/Mistral-7B-v0.1",
            Models::Zephyr7bAlpha => "mistralai/Mistral-7B-v0.1",
            Models::Zephyr7bBeta => "mistralai/Mistral-7B-v0.1",
            Models::OpenChat35 => "openchat/openchat_3.5",
            Models::Starling7bAlpha => "berkeley-nest/Starling-LM-7B-alpha",
            Models::Mixtral => "mistralai/Mixtral-8x7B-v0.1",
            Models::MixtralInstruct => "mistralai/Mixtral-8x7B-Instruct-v0.1",
            Models::PhiHermes => "lmz/candle-quantized-phi",
            Models::PhiV1 => "microsoft/phi-1",
            Models::PhiV1_5 => "microsoft/phi-1.5",
            Models::PhiV2 => "microsoft/phi-2",
        }
    }

    /// The repository and the file name of the model's weights.
    pub fn repo_path(&self) -> (r: (&'static str, &'static str))
        ensures
            r.0@ == spec_repo_path(*self).0,
            r.1@ == spec_repo_path(*self).1,
    {
        proof {
            reveal_strlit("TheBloke/CodeLlama-13B-GGUF");
            reveal_strlit("TheBloke/CodeLlama-34B-GGUF");
            reveal_strlit("TheBloke/CodeLlama-7B-GGUF");
            reveal_strlit("TheBloke/Llama-2-13B-Chat-GGML");
            reveal_strlit("TheBloke/Llama-2-13B-GGML");
            reveal_strlit("TheBloke/Llama-2-70B-Chat-GGML");
            reveal_strlit("TheBloke/Llama-2-70B-GGML");
            reveal_strlit("TheBloke/Llama-2-7B-Chat-GGML");
            reveal_strlit("TheBloke/Llama-2-7B-GGML");
            reveal_strlit("TheBloke/Mistral-7B-Instruct-v0.1-GGUF");
            reveal_strlit("TheBloke/Mistral-7B-v0.1-GGUF");
            reveal_strlit("TheBloke/Mixtral-8x7B-Instruct-v0.1-GGUF");
            reveal_strlit("TheBloke/Mixtral-8x7B-v0.1-GGUF");
            reveal_strlit("TheBloke/Starling-LM-7B-alpha-GGUF");
            reveal_strlit("TheBloke/leo-hessianai-13B-GGUF");
            reveal_strlit("TheBloke/leo-hessianai-7B-GGUF");
            reveal_strlit("TheBloke/openchat_3.5-GGUF");
            reveal_strlit("TheBloke/zephyr-7B-alpha-GGUF");
            reveal_strlit("TheBloke/zephyr-7B-beta-GGUF");
            reveal_strlit("codellama-13b.Q8_0.gguf");
            reveal_strlit("codellama-34b.Q8_0.gguf");
            reveal_strlit("codellama-7b.Q8_0.gguf");
            reveal_strlit("leo-hessianai-13b.Q4_K_M.gguf");
            reveal_strlit("leo-hessianai-7b.Q4_K_M.gguf");
            reveal_strlit("llama-2-13b-chat.ggmlv3.q4_0.bin");
            reveal_strlit("llama-2-13b.ggmlv3.q4_0.bin");
            reveal_strlit("llama-2-70b-chat.ggmlv3.q4_0.bin");
            reveal_strlit("llama-2-70b.ggmlv3.q4_0.bin");
            reveal_strlit("llama-2-7b-chat.ggmlv3.q4_0.bin");
            reveal_strlit("llama-2-7b.ggmlv3.q4_0.bin");
            reveal_strlit("lmz/candle-quantized-phi");
            reveal_strlit("mistral-7b-instruct-v0.1.Q4_K_S.gguf");
            reveal_strlit("mistral-7b-v0.1.Q4_K_S.gguf");
            reveal_strlit("mixtral-8x7b-instruct-v0.1.Q4_K_M.gguf");
            reveal_strlit("mixtral-8x7b-v0.1.Q4_K_M.gguf");
            reveal_strlit("model-phi-hermes-1_3B-q4k.gguf");
            reveal_strlit("model-q4k.gguf");
            reveal_strlit("model-v1-q4k.gguf");
            reveal_strlit("model-v2-q4k.gguf");
            reveal_strlit("openchat_3.5.Q4_K_M.gguf");
            reveal_strlit("starling-lm-7b-alpha.Q4_K_M.gguf");
            reveal_strlit("zephyr-7b-alpha.Q4_K_M.gguf");
            reveal_strlit("zephyr-7b-beta.Q4_K_M.gguf");
        }
        match self {
            Models::L7b => ("TheBloke/Llama-2-7B-GGML", "llama-2-7b.ggmlv3.q4_0.bin"),
            Models::L13b => ("TheBloke/Llama-2-13B-GGML", "llama-2-13b.ggmlv3.q4_0.bin"),
            Models::L70b => ("TheBloke/Llama-2-70B-GGML", "llama-2-70b.ggmlv3.q4_0.bin"),
            Models::L7bChat => ("TheBloke/Llama-2-7B-Chat-GGML", "llama-2-7b-chat.ggmlv3.q4_0.bin"),
            Models::L13bChat => ("TheBloke/Llama-2-13B-Chat-GGML", "llama-2-13b-chat.ggmlv3.q4_0.bin"),
            Models::L70bChat => ("TheBloke/Llama-2-70B-Chat-GGML", "llama-2-70b-chat.ggmlv3.q4_0.bin"),
            Models::L7bCode => ("TheBloke/CodeLlama-7B-GGUF", "codellama-7b.Q8_0.gguf"),
            Models::L13bCode => ("TheBloke/CodeLlama-13B-GGUF", "codellama-13b.Q8_0.gguf"),
            Models::L34bCode => ("TheBloke/CodeLlama-34B-GGUF", "codellama-34b.Q8_0.gguf"),
            Models::Leo7b => ("TheBloke/leo-hessianai-7B-GGUF", "leo-hessianai-7b.Q4_K_M.gguf"),
            Models::Leo13b => ("TheBloke/leo-hessianai-13B-GGUF", "leo-hessianai-13b.Q4_K_M.gguf"),
            Models::Mistral7b => ("TheBloke/Mistral-7B-v0.1-GGUF", "mistral-7b-v0.1.Q4_K_S.gguf"),
            Models::Mistral7bInstruct => ("TheBloke/Mistral-7B-Instruct-v0.1-GGUF", "mistral-7b-instruct-v0.1.Q4_K_S.gguf"),
            Models::Zephyr7bAlpha => ("TheBloke/zephyr-7B-alpha-GGUF", "zephyr-7b-alpha.Q4_K_M.gguf"),
            Models::Zephyr7bBeta => ("TheBloke/zephyr-7B-beta-GGUF", "zephyr-7b-beta.Q4_K_M.gguf"),
            Models::OpenChat35 => ("TheBloke/openchat_3.5-GGUF", "openchat_3.5.Q4_K_M.gguf"),
            Models::Starling7bAlpha => ("TheBloke/Starling-LM-7B-alpha-GGUF", "starling-lm-7b-alpha.Q4_K_M.gguf"),
            Models::Mixtral => ("TheBloke/Mixtral-8x7B-v0.1-GGUF", "mixtral-8x7b-v0.1.Q4_K_M.gguf"),
            Models::MixtralInstruct => ("TheBloke/Mixtral-8x7B-Instruct-v0.1-GGUF", "mixtral-8x7b-instruct-v0.1.Q4_K_M.gguf"),
            Models::PhiHermes => ("lmz/candle-quantized-phi", "model-phi-hermes-1_3B-q4k.gguf"),
            Models::PhiV1 => ("lmz/candle-quantized-phi", "model-v1-q4k.gguf"),
            Models::PhiV1_5 => ("lmz/candle-quantized-phi", "model-q4k.gguf"),
            Models::PhiV2 => ("lmz/candle-quantized-phi", "model-v2-q4k.gguf"),
        }
    }

    /// The network that runs the model's weights when they come as GGUF.
    pub fn architecture(&self) -> (r: Architecture)
        ensures
            r == (if spec_is_phi(*self) { Architecture::MixFormer } else { Architecture::Llama }),
    {
        if self.is_phi() {
            Architecture::MixFormer
        } else {
            Architecture::Llama
        }
    }

    /// The grouped-query factor to assume when loading GGML weights.
    pub fn default_gqa(&self) -> (r: usize)
        ensures
            r == spec_default_gqa(*self),
    {
        match self {
            Models::L7b
            | Models::L13b
            | Models::L7bChat
            | Models::L13bChat
            | Models::L7bCode
            | Models::L13bCode
            | Models::L34bCode
            | Models::Leo7b
            | Models::Leo13b => 1,
            Models::Mixtral
            | Models::MixtralInstruct
            | Models::Mistral7b
            | Models::Mistral7bInstruct
            | Models::Zephyr7bAlpha
            | Models::Zephyr7bBeta
            | Models::L70b
            | Models::L70bChat
            | Models::OpenChat35
            | Models::Starling7bAlpha => 8,
            Models::PhiHermes
            | Models::PhiV1
            | Models::PhiV1_5
            | Models::PhiV2 => 4,
        }
    }
}

/// The grouped-query factor of each model's GGML weights.
pub open spec fn spec_default_gqa(m: Models) -> usize {
    if m == Models::L7b || m == Models::L13b || m == Models::L7bChat || m == Models::L13bChat || m == Models::L7bCode || m == Models::L13bCode || m == Models::L34bCode || m == Models::Leo7b || m == Models::Leo13b {
        1
    } else if spec_is_phi(m) {
        4
    } else {
        8
    }
}

/// The repository of each model's tokenizer.
pub open spec fn spec_tokenizer_repo(m: Models) -> Seq<char> {
    match m {
        Models::L7b => "hf-internal-testing/llama-tokenizer"@,
        Models::L13b => "hf-internal-testing/llama-tokenizer"@,
        Models::L70b => "hf-internal-testing/llama-tokenizer"@,
        Models::L7bChat => "hf-internal-testing/llama-tokenizer"@,
        Models::L13bChat => "hf-internal-testing/llama-tokenizer"@,
        Models::L70bChat => "hf-internal-testing/llama-tokenizer"@,
        Models::L7bCode => "hf-internal-testing/llama-tokenizer"@,
        Models::L13bCode => "hf-internal-testing/llama-tokenizer"@,
        Models::L34bCode => "hf-internal-testing/llama-tokenizer"@,
        Models::Leo7b => "LeoLM/leo-hessianai-7b"@,
        Models::Leo13b => "LeoLM/leo-hessianai-13b"@,
        Models::Mistral7b => "mistralai/Mistral-7B-v0.1"@,
        Models::Mistral7bInstruct => "mistralai/Mistral-7B-v0.1"@,
        Models::Zephyr7bAlpha => "mistralai/Mistral-7B-v0.1"@,
        Models::Zephyr7bBeta => "mistralai/Mistral-7B-v0.1"@,
        Models::OpenChat35 => "openchat/openchat_3.5"@,
        Models::Starling7bAlpha => "berkeley-nest/Starling-LM-7B-alpha"@,
        Models::Mixtral => "mistralai/Mixtral-8x7B-v0.1"@,
        Models::MixtralInstruct => "mistralai/Mixtral-8x7B-Instruct-v0.1"@,
        Models::PhiHermes => "lmz/candle-quantized-phi"@,
        Models::PhiV1 => "microsoft/phi-1"@,
        Models::PhiV1_5 => "microsoft/phi-1.5"@,
        Models::PhiV2 => "microsoft/phi-2"@,
    }
}

/// The repository and weights file of each model.
pub open spec fn spec_repo_path(m: Models) -> (Seq<char>, Seq<char>) {
    match m {
        Models::L7b => ("TheBloke/Llama-2-7B-GGML"@, "llama-2-7b.ggmlv3.q4_0.bin"@),
        Models::L13b => ("TheBloke/Llama-2-13B-GGML"@, "llama-2-13b.ggmlv3.q4_0.bin"@),
        Models::L70b => ("TheBloke/Llama-2-70B-GGML"@, "llama-2-70b.ggmlv3.q4_0.bin"@),
        Models::L7bChat => ("TheBloke/Llama-2-7B-Chat-GGML"@, "llama-2-7b-chat.ggmlv3.q4_0.bin"@),
        Models::L13bChat => ("TheBloke/Llama-2-13B-Chat-GGML"@, "llama-2-13b-chat.ggmlv3.q4_0.bin"@),
        Models::L70bChat => ("TheBloke/Llama-2-70B-Chat-GGML"@, "llama-2-70b-chat.ggmlv3.q4_0.bin"@),
        Models::L7bCode => ("TheBloke/CodeLlama-7B-GGUF"@, "codellama-7b.Q8_0.gguf"@),
        Models::L13bCode => ("TheBloke/CodeLlama-13B-GGUF"@, "codellama-13b.Q8_0.gguf"@),
        Models::L34bCode => ("TheBloke/CodeLlama-34B-GGUF"@, "codellama-34b.Q8_0.gguf"@),
        Models::Leo7b => ("TheBloke/leo-hessianai-7B-GGUF"@, "leo-hessianai-7b.Q4_K_M.gguf"@),
        Models::Leo13b => ("TheBloke/leo-hessianai-13B-GGUF"@, "leo-hessianai-13b.Q4_K_M.gguf"@),
        Models::Mistral7b => ("TheBloke/Mistral-7B-v0.1-GGUF"@, "mistral-7b-v0.1.Q4_K_S.gguf"@),
        Models::Mistral7bInstruct => ("TheBloke/Mistral-7B-Instruct-v0.1-GGUF"@, "mistral-7b-instruct-v0.1.Q4_K_S.gguf"@),
        Models::Zephyr7bAlpha => ("TheBloke/zephyr-7B-alpha-GGUF"@, "zephyr-7b-alpha.Q4_K_M.gguf"@),
        Models::Zephyr7bBeta => ("TheBloke/zephyr-7B-beta-GGUF"@, "zephyr-7b-beta.Q4_K_M.gguf"@),
        Models::OpenChat35 => ("TheBloke/openchat_3.5-GGUF"@, "openchat_3.5.Q4_K_M.gguf"@),
        Models::Starling7bAlpha => ("TheBloke/Starling-LM-7B-alpha-GGUF"@, "starling-lm-7b-alpha.Q4_K_M.gguf"@),
        Models::Mixtral => ("TheBloke/Mixtral-8x7B-v0.1-GGUF"@, "mixtral-8x7b-v0.1.Q4_K_M.gguf"@),
        Models::MixtralInstruct => ("TheBloke/Mixtral-8x7B-Instruct-v0.1-GGUF"@, "mixtral-8x7b-instruct-v0.1.Q4_K_M.gguf"@),
        Models::PhiHermes => ("lmz/candle-quantized-phi"@, "model-phi-hermes-1_3B-q4k.gguf"@),
        Models::PhiV1 => ("lmz/candle-quantized-phi"@, "model-v1-q4k.gguf"@),
        Models::PhiV1_5 => ("lmz/candle-quantized-phi"@, "model-q4k.gguf"@),
        Models::PhiV2 => ("lmz/candle-quantized-phi"@, "model-v2-q4k.gguf"@),
    }
}

/// Every model, in declaration order.
pub const ALL_MODELS: [Models; 23] = [
    Models::L7b,
    Models::L13b,
    Models::L70b,
    Models::L7bChat,
    Models::L13bChat,
    Models::L70bChat,
    Models::L7bCode,
    Models::L13bCode,
    Models::L34bCode,
    Models::Leo7b,
    Models::Leo13b,
    Models::Mistral7b,
    Models::Mistral7bInstruct,
    Models::Zephyr7bAlpha,
    Models::Zephyr7bBeta,
    Models::OpenChat35,
    Models::Starling7bAlpha,
    Models::Mixtral,
    Models::MixtralInstruct,
    Models::PhiHermes,
    Models::PhiV1,
    Models::PhiV1_5,
    Models::PhiV2,
];

/// The catalogue as a sequence.
pub open spec fn all_models() -> Seq<Models> {
    seq![Models::L7b, Models::L13b, Models::L70b, Models::L7bChat, Models::L13bChat, Models::L70bChat, Models::L7bCode, Models::L13bCode, Models::L34bCode, Models::Leo7b, Models::Leo13b, Models::Mistral7b, Models::Mistral7bInstruct, Models::Zephyr7bAlpha, Models::Zephyr7bBeta, Models::OpenChat35, Models::Starling7bAlpha, Models::Mixtral, Models::MixtralInstruct, Models::PhiHermes, Models::PhiV1, Models::PhiV1_5, Models::PhiV2]
}

proof fn lemma_all_models_complete()
    ensures
        ALL_MODELS@ == all_models(),
        forall|m: Models| all_models().contains(m),
{
    assert(ALL_MODELS@ =~= all_models());
    assert forall|m: Models| all_models().contains(m) by {
        match m {
            Models::L7b => assert(all_models()[0] == m),
            Models::L13b => assert(all_models()[1] == m),
            Models::L70b => assert(all_models()[2] == m),
            Models::L7bChat => assert(all_models()[3] == m),
            Models::L13bChat => assert(all_models()[4] == m),
            Models::L70bChat => assert(all_models()[5] == m),
            Models::L7bCode => assert(all_models()[6] == m),
            Models::L13bCode => assert(all_models()[7] == m),
            Models::L34bCode => assert(all_models()[8] == m),
            Models::Leo7b => assert(all_models()[9] == m),
            Models::Leo13b => assert(all_models()[10] == m),
            Models::Mistral7b => assert(all_models()[11] == m),
            Models::Mistral7bInstruct => assert(all_models()[12] == m),
            Models::Zephyr7bAlpha => assert(all_models()[13] == m),
            Models::Zephyr7bBeta => assert(all_models()[14] == m),
            Models::OpenChat35 => assert(all_models()[15] == m),
            Models::Starling7bAlpha => assert(all_models()[16] == m),
            Models::Mixtral => assert(all_models()[17] == m),
            Models::MixtralInstruct => assert(all_models()[18] == m),
            Models::PhiHermes => assert(all_models()[19] == m),
            Models::PhiV1 => assert(all_models()[20] == m),
            Models::PhiV1_5 => assert(all_models()[21] == m),
            Models::PhiV2 => assert(all_models()[22] == m),
        }
    }
}

} // verus!
