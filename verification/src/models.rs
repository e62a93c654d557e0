//! Request bodies and the uniform response record.

use vstd::prelude::*;

verus! {

/// Body of a fill-in-the-middle completion request.
///
/// The sampling temperature is carried in thousandths; the transport
/// layer renders it as the wire's numeric type.
pub struct CompletionRequest {
    pub model: String,
    pub prompt: String,
    pub suffix: String,
    pub max_tokens: u32,
    pub temperature_milli: u32,
}

/// One role-tagged chat message.
pub struct ChatMessage {
    pub role: String,
    pub content: String,
}

/// Body of a chat completion request.
pub struct ChatCompletionRequest {
    pub model: String,
    pub messages: Vec<ChatMessage>,
    pub max_tokens: Option<u32>,
    pub temperature_milli: u32,
}

/// Which of the two endpoints a call goes to.
pub enum ApiMode {
    CodeCompletion,
    Chat,
}

/// The uniform record extracted from a response of either schema.
pub struct ApiResponse {
    pub id: String,
    pub model: String,
    pub object: String,
    pub created: i64,
    pub finish_reason: String,
    pub content: Option<String>,
    pub completion_tokens: i64,
    pub total_tokens: i64,
}

} // verus!
