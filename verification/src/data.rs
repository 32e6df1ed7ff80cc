//! The values that travel to and from the service, each with its
//! mathematical view.

use vstd::prelude::*;

verus! {

/// The chat models that a completion can be asked of.
#[derive(Debug, Clone, PartialEq)]
pub enum Model {
    GptTurbo,
    GptTurbo0301,
}

impl Model {
    /// The identifier under which the service knows this model.
    pub open spec fn wire_name(self) -> Seq<char> {
        match self {
            Model::GptTurbo => "gpt-3.5-turbo"@,
            Model::GptTurbo0301 => "gpt-3.5-turbo-0301"@,
        }
    }

    /// Returns the identifier under which the service knows this model. It is
    /// never empty.
    pub fn as_str(&self) -> (name: &'static str)
        ensures
            name@ == self.wire_name(),
            name@.len() > 0,
    {
        proof {
            reveal_strlit("gpt-3.5-turbo");
            reveal_strlit("gpt-3.5-turbo-0301");
        }
        match self {
            Model::GptTurbo => "gpt-3.5-turbo",
            Model::GptTurbo0301 => "gpt-3.5-turbo-0301",
        }
    }

    /// Every model has a name of its own: two models with one wire name are
    /// the same model.
    pub proof fn lemma_wire_name_injective(a: Model, b: Model)
        requires
            a.wire_name() == b.wire_name(),
        ensures
            a == b,
    {
        reveal_strlit("gpt-3.5-turbo");
        reveal_strlit("gpt-3.5-turbo-0301");
        assert("gpt-3.5-turbo"@.len() == 13);
        assert("gpt-3.5-turbo-0301"@.len() == 18);
    }

    /// No model has the empty string for its wire name.
    pub proof fn lemma_wire_name_nonempty(m: Model)
        ensures
            m.wire_name().len() > 0,
    {
        reveal_strlit("gpt-3.5-turbo");
        reveal_strlit("gpt-3.5-turbo-0301");
    }
}

impl Default for Model {
    fn default() -> (m: Model)
        ensures
            m == Model::GptTurbo,
    {
        Model::GptTurbo
    }
}

/// One turn of a conversation.
#[derive(Debug, Clone, PartialEq)]
pub struct Message {
    pub role: String,
    pub content: String,
}

/// What a `Message` holds.
pub struct MessageView {
    pub role: Seq<char>,
    pub content: Seq<char>,
}

impl View for Message {
    type V = MessageView;

    open spec fn view(&self) -> MessageView {
        MessageView { role: self.role@, content: self.content@ }
    }
}

impl Default for Message {
    fn default() -> (m: Message)
        ensures
            m@.role.len() == 0,
            m@.content.len() == 0,
    {
        Message { role: String::new(), content: String::new() }
    }
}

/// The views of a run of messages, in order.
pub open spec fn message_views(messages: Seq<Message>) -> Seq<MessageView> {
    messages.map_values(|m: Message| m@)
}

/// The body of a completion call: a model's wire name and the conversation.
#[derive(Debug, Clone, PartialEq)]
pub struct CompletionRequest {
    pub model: String,
    pub messages: Vec<Message>,
}

/// What a `CompletionRequest` holds.
pub struct CompletionRequestView {
    pub model: Seq<char>,
    pub messages: Seq<MessageView>,
}

impl View for CompletionRequest {
    type V = CompletionRequestView;

    open spec fn view(&self) -> CompletionRequestView {
        CompletionRequestView { model: self.model@, messages: message_views(self.messages@) }
    }
}

impl Default for CompletionRequest {
    fn default() -> (r: CompletionRequest)
        ensures
            r@.model.len() == 0,
            r@.messages.len() == 0,
    {
        CompletionRequest { model: String::new(), messages: Vec::new() }
    }
}

/// The token counts that the service reports for one completion.
#[derive(Debug, Clone, PartialEq)]
pub struct Usage {
    pub prompt_tokens: i64,
    pub completion_tokens: i64,
    pub total_tokens: i64,
}

impl Default for Usage {
    fn default() -> (u: Usage)
        ensures
            u == (Usage { prompt_tokens: 0, completion_tokens: 0, total_tokens: 0 }),
    {
        Usage { prompt_tokens: 0, completion_tokens: 0, total_tokens: 0 }
    }
}

/// One answer among those that the service offers.
#[derive(Debug, Clone, PartialEq)]
pub struct Choice {
    pub index: i64,
    pub finish_reason: String,
    pub message: Message,
}

/// What a `Choice` holds.
pub struct ChoiceView {
    pub index: i64,
    pub finish_reason: Seq<char>,
    pub message: MessageView,
}

impl View for Choice {
    type V = ChoiceView;

    open spec fn view(&self) -> ChoiceView {
        ChoiceView {
            index: self.index,
            finish_reason: self.finish_reason@,
            message: self.message@,
        }
    }
}

impl Default for Choice {
    fn default() -> (c: Choice)
        ensures
            c@.index == 0,
            c@.finish_reason.len() == 0,
            c@.message.role.len() == 0,
            c@.message.content.len() == 0,
    {
        Choice { index: 0, finish_reason: String::new(), message: Message::default() }
    }
}

/// The views of a run of choices, in order.
pub open spec fn choice_views(choices: Seq<Choice>) -> Seq<ChoiceView> {
    choices.map_values(|c: Choice| c@)
}

/// The service's answer to a completion call.
#[derive(Debug, Clone, PartialEq)]
pub struct CompletionResponse {
    pub id: String,
    pub object: String,
    pub created: i64,
    pub model: String,
    pub choices: Vec<Choice>,
    pub usage: Usage,
}

/// What a `CompletionResponse` holds.
pub struct CompletionResponseView {
    pub id: Seq<char>,
    pub object: Seq<char>,
    pub created: i64,
    pub model: Seq<char>,
    pub choices: Seq<ChoiceView>,
    pub usage: Usage,
}

impl View for CompletionResponse {
    type V = CompletionResponseView;

    open spec fn view(&self) -> CompletionResponseView {
        CompletionResponseView {
            id: self.id@,
            object: self.object@,
            created: self.created,
            model: self.model@,
            choices: choice_views(self.choices@),
            usage: self.usage,
        }
    }
}

impl Default for CompletionResponse {
    fn default() -> (r: CompletionResponse)
        ensures
            r@.id.len() == 0,
            r@.object.len() == 0,
            r@.created == 0,
            r@.model.len() == 0,
            r@.choices.len() == 0,
            r@.usage == (Usage { prompt_tokens: 0, completion_tokens: 0, total_tokens: 0 }),
    {
        CompletionResponse {
            id: String::new(),
            object: String::new(),
            created: 0,
            model: String::new(),
            choices: Vec::new(),
            usage: Usage::default(),
        }
    }
}

/// The service's answer to a transcription call.
#[derive(Debug, Clone, PartialEq)]
pub struct TranscriptionResponse {
    pub text: String,
}

/// What a `TranscriptionResponse` holds.
pub struct TranscriptionResponseView {
    pub text: Seq<char>,
}

impl View for TranscriptionResponse {
    type V = TranscriptionResponseView;

    open spec fn view(&self) -> TranscriptionResponseView {
        TranscriptionResponseView { text: self.text@ }
    }
}

impl Default for TranscriptionResponse {
    fn default() -> (r: TranscriptionResponse)
        ensures
            r@.text.len() == 0,
    {
        TranscriptionResponse { text: String::new() }
    }
}

} // verus!
