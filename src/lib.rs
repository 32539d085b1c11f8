//! Backend library for serving autoregressive text generation.
//!
//! The `llm` module holds the incremental decoding engine: the token loop with its
//! stop rules and repetition window, the text assembler that turns token ids into
//! text, and the session that drives both. The `api` module holds the values that
//! the HTTP layer exchanges, and `config` the service configuration.
pub mod api;
pub mod config;
pub mod llm;
pub mod text;
