//! Requests to and usage reported by an embedding provider.
use vstd::prelude::*;

verus! {

/// Texts to embed, and the model to use if not the provider's default.
#[derive(Clone, Debug)]
pub struct EmbeddingRequest {
    pub texts: Vec<String>,
    pub model: Option<String>,
}

/// Token usage reported by a provider.
#[derive(Clone, Copy, Debug, PartialEq, Eq, Structural)]
pub struct UsageStats {
    pub prompt_tokens: u32,
    pub total_tokens: u32,
}

pub fn embeddings_init_message() {
}

} // verus!
