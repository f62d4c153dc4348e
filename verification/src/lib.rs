//! Client-side logic of the SimpleLLM HTTP API, an OpenAI-compatible LLM
//! inference service: how a client is configured, how requests are addressed
//! and authorised, what an error response means, and how a streamed chat
//! completion is split into its chunks.

pub mod client;
pub mod config;
pub mod encoding;
pub mod error;
pub mod json;
pub mod response;
pub mod sse;
pub mod text;
pub mod transcription;

pub use client::SimpleLLM;
pub use config::ClientConfig;
pub use error::SimpleLlmError;
