//! Rerank request and response types, and the gateway's wire form of a request.

use vstd::prelude::*;

use crate::types::media::Float64;

verus! {

/// Parameters for a rerank request.
#[derive(Debug, Clone)]
pub struct RerankParams {
    /// The model identifier.
    pub model_id: String,
    /// The search query.
    pub query: String,
    /// The documents to rerank.
    pub documents: Vec<String>,
    /// How many of the best documents to return.
    pub top_n: Option<u32>,
    /// Maximum tokens considered per document.
    pub max_tokens_per_doc: Option<u32>,
    /// Optional end-user identifier.
    pub user: Option<String>,
}

/// A single reranked document score.
#[derive(Debug, Clone, Copy, PartialEq, Eq, Structural)]
pub struct RerankResult {
    /// The index of the document in the request.
    pub index: u32,
    /// The relevance score, as its IEEE-754 bit pattern.
    pub relevance_score: Float64,
}

/// Provider-specific billing metadata.
#[derive(Debug, Clone)]
pub struct RerankMeta {
    /// Billed units by name.
    pub billed_units: Option<Vec<(String, Float64)>>,
    /// Token counts by name.
    pub tokens: Option<Vec<(String, u32)>>,
}

/// Normalized token usage for a rerank request.
#[derive(Debug, Clone, Copy, PartialEq, Eq, Structural)]
pub struct RerankUsage {
    /// Total tokens used.
    pub total_tokens: Option<u32>,
}

/// Normalized rerank response, provider-agnostic.
#[derive(Debug, Clone)]
pub struct RerankResponse {
    /// Response identifier.
    pub id: String,
    /// The scored documents.
    pub results: Vec<RerankResult>,
    /// Billing metadata, if any.
    pub meta: Option<RerankMeta>,
    /// Token usage, if any.
    pub usage: Option<RerankUsage>,
}

/// Gateway wire format for a rerank request.
#[derive(Debug, Clone)]
pub struct GatewayRerankRequest {
    pub model: String,
    pub query: String,
    pub documents: Vec<String>,
    pub top_n: Option<u32>,
    pub max_tokens_per_doc: Option<u32>,
    pub user: Option<String>,
}

impl GatewayRerankRequest {
    /// The wire form of the parameters: every field carried over, the model
    /// identifier under `model`.
    pub fn from(params: RerankParams) -> (r: Self)
        ensures
            r.model == params.model_id,
            r.query == params.query,
            r.documents == params.documents,
            r.top_n == params.top_n,
            r.max_tokens_per_doc == params.max_tokens_per_doc,
            r.user == params.user,
    {
        GatewayRerankRequest {
            model: params.model_id,
            query: params.query,
            documents: params.documents,
            top_n: params.top_n,
            max_tokens_per_doc: params.max_tokens_per_doc,
            user: params.user,
        }
    }
}

} // verus!
