//! The request and response types of the library.

pub mod batch;
pub mod chunk;
pub mod completion;
pub mod media;
pub mod message;
pub mod moderation;
pub mod rerank;
pub mod tool;
pub mod usage;

pub use batch::{
    Batch, BatchRequestCounts, BatchRequestItem, BatchResult, BatchResultError, BatchResultItem,
    BatchStatus, CreateBatchParams, ListBatchesOptions,
};
pub use chunk::{
    AccumulatedToolCall, ChatCompletionChunk, ChoiceDelta, ChunkAccumulator, ChunkChoice,
};
pub use completion::{
    ChatCompletion, ChatCompletionMessage, Choice, CompletionParams, Float32, Reasoning,
    ReasoningEffort, StopSequence,
};
pub use media::{Float64, ImageGenerationParams, SpeechParams, TranscriptionParams};
pub use message::{Content, ContentPart, ImageUrl, Message, Role};
pub use moderation::{
    ModerationContentPart, ModerationImageUrl, ModerationInput, ModerationParams,
    ModerationResponse, ModerationResult,
};
pub use rerank::{GatewayRerankRequest, RerankMeta, RerankParams, RerankResponse, RerankResult, RerankUsage};
pub use tool::{
    Function, FunctionDelta, Tool, ToolBuilder, ToolCall, ToolCallDelta, ToolChoice,
    ToolChoiceFunction, ToolFunction,
};
pub use usage::CompletionUsage;
