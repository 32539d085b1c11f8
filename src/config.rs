//! Service configuration.
use crate::llm::models::Models;
use vstd::prelude::*;

verus! {

/// Settings of the service.
#[derive(Debug, Clone, PartialEq, Eq)]
pub struct Config {
    /// Port the server listens on.
    pub port: u16,
    /// Directory where downloaded model files are kept, if not the default one.
    pub cache_dir: Option<String>,
    /// The model to serve.
    pub model: Models,
    /// Whether the default model stays loaded between requests.
    pub keep_in_memory: Option<bool>,
}

impl Default for Config {
    fn default() -> (r: Config)
        ensures
            r.port == 0,
            r.cache_dir is None,
            r.model == Models::OpenChat35,
            r.keep_in_memory is None,
    {
        Config { port: 0, cache_dir: None, model: Models::OpenChat35, keep_in_memory: None }
    }
}

} // verus!
