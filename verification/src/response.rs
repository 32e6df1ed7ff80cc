//! What comes back: a transport's reply turned into a typed response or a
//! classified failure.

use vstd::prelude::*;
use crate::data::{
    CompletionResponse, CompletionResponseView, TranscriptionResponse, TranscriptionResponseView,
};
use crate::json::{json_parse, parse_text, Json};
use crate::schema::{response_of, transcription_of};

verus! {

/// What a transport brought back from one call: the reason why nothing was
/// exchanged, the reason why the body could not be read, or the body.
#[derive(Debug, Clone, PartialEq)]
pub enum Reply {
    Unsent(String),
    Unread(String),
    Body(String),
}

/// Why a call gave no response: the exchange failed, the body could not be
/// read, or the body is not the response that was expected. Each carries the
/// cause in words.
#[derive(Debug, Clone, PartialEq)]
pub enum ApiError {
    Transport(String),
    BodyRead(String),
    Decode(String),
}

/// What an `ApiError` holds.
pub enum ApiErrorView {
    Transport(Seq<char>),
    BodyRead(Seq<char>),
    Decode(Seq<char>),
}

impl View for ApiError {
    type V = ApiErrorView;

    open spec fn view(&self) -> ApiErrorView {
        match self {
            ApiError::Transport(m) => ApiErrorView::Transport(m@),
            ApiError::BodyRead(m) => ApiErrorView::BodyRead(m@),
            ApiError::Decode(m) => ApiErrorView::Decode(m@),
        }
    }
}

impl ApiErrorView {
    /// The cause, in words.
    pub open spec fn message(self) -> Seq<char> {
        match self {
            ApiErrorView::Transport(m) => m,
            ApiErrorView::BodyRead(m) => m,
            ApiErrorView::Decode(m) => m,
        }
    }
}

impl ApiError {
    /// Returns the cause, in words.
    pub fn message(&self) -> (m: &String)
        ensures
            m@ == self@.message(),
    {
        match self {
            ApiError::Transport(m) => m,
            ApiError::BodyRead(m) => m,
            ApiError::Decode(m) => m,
        }
    }
}

/// The cause given where a body is JSON but not of the expected shape.
pub open spec fn schema_mismatch() -> Seq<char> {
    "the body does not match the expected schema"@
}

/// The view of what a completion call gave.
pub open spec fn completion_view(r: Result<CompletionResponse, ApiError>) -> Result<
    CompletionResponseView,
    ApiErrorView,
> {
    match r {
        Ok(v) => Ok(v@),
        Err(e) => Err(e@),
    }
}

/// The view of what a transcription call gave.
pub open spec fn transcription_view(r: Result<TranscriptionResponse, ApiError>) -> Result<
    TranscriptionResponseView,
    ApiErrorView,
> {
    match r {
        Ok(v) => Ok(v@),
        Err(e) => Err(e@),
    }
}

/// The view of what parsing a text gave.
pub open spec fn parsed_view(parsed: Result<Json, String>) -> Result<Json, Seq<char>> {
    match parsed {
        Ok(j) => Ok(j),
        Err(e) => Err(e@),
    }
}

/// What a completion call gives once its body was parsed: the response that
/// the document is; a decode failure with the codec's message where the body
/// is not JSON, and one with `schema_mismatch` where it is JSON of another
/// shape.
pub open spec fn completion_outcome(parsed: Result<Json, Seq<char>>) -> Result<
    CompletionResponseView,
    ApiErrorView,
> {
    match parsed {
        Err(cause) => Err(ApiErrorView::Decode(cause)),
        Ok(j) => match response_of(j) {
            Some(r) => Ok(r),
            None => Err(ApiErrorView::Decode(schema_mismatch())),
        },
    }
}

/// What a transcription call gives once its body was parsed, as
/// `completion_outcome` for a completion.
pub open spec fn transcription_outcome(parsed: Result<Json, Seq<char>>) -> Result<
    TranscriptionResponseView,
    ApiErrorView,
> {
    match parsed {
        Err(cause) => Err(ApiErrorView::Decode(cause)),
        Ok(j) => match transcription_of(j) {
            Some(r) => Ok(r),
            None => Err(ApiErrorView::Decode(schema_mismatch())),
        },
    }
}

/// What a completion call gives for a reply: a transport failure where
/// nothing was exchanged, a read failure where the body could not be read,
/// and else what the parsed body gives.
pub open spec fn completion_of_reply(reply: Reply) -> Result<
    CompletionResponseView,
    ApiErrorView,
> {
    match reply {
        Reply::Unsent(cause) => Err(ApiErrorView::Transport(cause@)),
        Reply::Unread(cause) => Err(ApiErrorView::BodyRead(cause@)),
        Reply::Body(text) => completion_outcome(json_parse(text@)),
    }
}

/// What a transcription call gives for a reply, as `completion_of_reply` for
/// a completion.
pub open spec fn transcription_of_reply(reply: Reply) -> Result<
    TranscriptionResponseView,
    ApiErrorView,
> {
    match reply {
        Reply::Unsent(cause) => Err(ApiErrorView::Transport(cause@)),
        Reply::Unread(cause) => Err(ApiErrorView::BodyRead(cause@)),
        Reply::Body(text) => transcription_outcome(json_parse(text@)),
    }
}

/// Turns a parsed body into the result of a completion call.
pub fn completion_from_parsed(parsed: Result<Json, String>) -> (r: Result<
    CompletionResponse,
    ApiError,
>)
    ensures
        completion_view(r) == completion_outcome(parsed_view(parsed)),
{
    match parsed {
        Err(cause) => Err(ApiError::Decode(cause)),
        Ok(j) => match CompletionResponse::from_json(&j) {
            Some(response) => Ok(response),
            None => Err(
                ApiError::Decode("the body does not match the expected schema".to_owned()),
            ),
        },
    }
}

/// Turns a parsed body into the result of a transcription call.
pub fn transcription_from_parsed(parsed: Result<Json, String>) -> (r: Result<
    TranscriptionResponse,
    ApiError,
>)
    ensures
        transcription_view(r) == transcription_outcome(parsed_view(parsed)),
{
    match parsed {
        Err(cause) => Err(ApiError::Decode(cause)),
        Ok(j) => match TranscriptionResponse::from_json(&j) {
            Some(response) => Ok(response),
            None => Err(
                ApiError::Decode("the body does not match the expected schema".to_owned()),
            ),
        },
    }
}

/// Decodes the body of a completion reply.
pub fn decode_completion(body: &str) -> (r: Result<CompletionResponse, ApiError>)
    ensures
        completion_view(r) == completion_outcome(json_parse(body@)),
{
    completion_from_parsed(parse_text(body))
}

/// Decodes the body of a transcription reply.
pub fn decode_transcription(body: &str) -> (r: Result<TranscriptionResponse, ApiError>)
    ensures
        transcription_view(r) == transcription_outcome(json_parse(body@)),
{
    transcription_from_parsed(parse_text(body))
}

/// Turns what the transport brought back into the result of a completion
/// call.
pub fn completion_result(reply: Reply) -> (r: Result<CompletionResponse, ApiError>)
    ensures
        completion_view(r) == completion_of_reply(reply),
{
    match reply {
        Reply::Unsent(cause) => Err(ApiError::Transport(cause)),
        Reply::Unread(cause) => Err(ApiError::BodyRead(cause)),
        Reply::Body(text) => decode_completion(text.as_str()),
    }
}

/// Turns what the transport brought back into the result of a transcription
/// call.
pub fn transcription_result(reply: Reply) -> (r: Result<TranscriptionResponse, ApiError>)
    ensures
        transcription_view(r) == transcription_of_reply(reply),
{
    match reply {
        Reply::Unsent(cause) => Err(ApiError::Transport(cause)),
        Reply::Unread(cause) => Err(ApiError::BodyRead(cause)),
        Reply::Body(text) => decode_transcription(text.as_str()),
    }
}

/// A call whose exchange failed gives a transport failure with the
/// transport's cause, and no response.
pub proof fn lemma_unsent_is_transport_failure(cause: String)
    ensures
        completion_of_reply(Reply::Unsent(cause)) == Err::<
            CompletionResponseView,
            ApiErrorView,
        >(ApiErrorView::Transport(cause@)),
        transcription_of_reply(Reply::Unsent(cause)) == Err::<
            TranscriptionResponseView,
            ApiErrorView,
        >(ApiErrorView::Transport(cause@)),
{
}

/// A call whose body was read fails in one way only, as a decode failure:
/// a body that is not the expected response, whatever else it says, is told
/// apart from a transport failure and from a read failure.
pub proof fn lemma_body_fails_as_decode(body: String)
    ensures
        completion_of_reply(Reply::Body(body)) matches Err(e) ==> e is Decode,
        transcription_of_reply(Reply::Body(body)) matches Err(e) ==> e is Decode,
{
}

/// A body is a completion response exactly where it is JSON and the document
/// has the response's shape.
pub proof fn lemma_completion_succeeds_iff_shaped(body: String)
    ensures
        completion_of_reply(Reply::Body(body)) is Ok <==> (json_parse(body@) matches Ok(j)
            && response_of(j) is Some),
{
}

/// A body is a transcription response exactly where it is JSON and the
/// document is an object whose member `text` is a string; the response then
/// holds that string.
pub proof fn lemma_transcription_succeeds_iff_shaped(body: String)
    ensures
        transcription_of_reply(Reply::Body(body)) is Ok <==> (json_parse(body@) matches Ok(j)
            && j.text_member("text"@) is Some),
        transcription_of_reply(Reply::Body(body)) matches Ok(r) ==> (json_parse(
            body@,
        ) matches Ok(j) && j.text_member("text"@) == Some(r.text)),
{
}

/// Where a body parses to a document that has the response's shape, the call
/// gives the response that holds the document's values.
pub proof fn lemma_shaped_body_decodes(body: String, j: Json)
    requires
        json_parse(body@) == Ok::<Json, Seq<char>>(j),
        response_of(j) is Some,
    ensures
        completion_of_reply(Reply::Body(body)) == Ok::<CompletionResponseView, ApiErrorView>(
            response_of(j).unwrap(),
        ),
{
}

} // verus!
