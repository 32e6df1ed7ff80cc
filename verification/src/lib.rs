//! Request building and response decoding for a chat-completion and
//! audio-transcription HTTP API.
//!
//! The library prepares each exchange as plain data and turns what the
//! transport brought back into a typed result. Performing the exchange is left
//! to the caller.

pub mod data;
pub mod json;
pub mod request;
pub mod response;
pub mod schema;

pub use data::{
    Choice, ChoiceView, CompletionRequest, CompletionRequestView, CompletionResponse,
    CompletionResponseView, Message, MessageView, Model, TranscriptionResponse,
    TranscriptionResponseView, Usage,
};
pub use json::Json;
pub use request::{Header, JsonCall, TextField, UploadCall, UploadPart};
pub use response::{ApiError, ApiErrorView, Reply};
