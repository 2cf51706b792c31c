//! Typed client library for the Otari LLM gateway: the request and response
//! types, the gateway and Anthropic wire formats, the resolution of a client's
//! configuration, and the mapping of failed responses to typed errors.

pub mod anthropic;
pub mod api;
pub mod client;
pub mod config;
pub mod control_plane;
pub mod error;
pub mod gateway;
pub mod http_error;
pub mod json;
pub mod openai;
pub mod provider;
pub mod stream;
pub mod text;
pub mod types;

pub use api::{CompletionOptions, RerankOptions};
pub use config::{Config, ProviderConfig};
pub use error::OtariError;
pub use json::JsonValue;
pub use types::{
    Batch, BatchRequestCounts, BatchRequestItem, BatchResult, BatchResultError, BatchResultItem,
    BatchStatus, ChatCompletion, ChatCompletionChunk, ChatCompletionMessage, Choice, ChoiceDelta,
    ChunkAccumulator, ChunkChoice, CompletionParams, CompletionUsage, Content, ContentPart,
    CreateBatchParams, Float32, Float64, Function, ImageGenerationParams, ImageUrl,
    ListBatchesOptions, Message, ModerationContentPart, ModerationImageUrl, ModerationInput,
    ModerationParams, ModerationResponse, ModerationResult, Reasoning, ReasoningEffort,
    RerankMeta, RerankParams, RerankResponse, RerankResult, RerankUsage, Role, SpeechParams,
    StopSequence, Tool, ToolCall, ToolCallDelta, ToolChoice, ToolFunction, TranscriptionParams,
};
