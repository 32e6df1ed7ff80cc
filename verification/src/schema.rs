//! The shapes of the documents that are exchanged: which document is a
//! message, a choice, a request or a response, and the values that it holds.

use vstd::prelude::*;
use crate::data::{
    choice_views, message_views, Choice, ChoiceView, CompletionRequest, CompletionRequestView,
    CompletionResponse, CompletionResponseView, Message, MessageView, TranscriptionResponse,
    TranscriptionResponseView, Usage,
};
use crate::json::Json;

verus! {

/// The message that a document is: an object with the strings `role` and
/// `content`.
pub open spec fn message_of(j: Json) -> Option<MessageView> {
    match (j.text_member("role"@), j.text_member("content"@)) {
        (Some(role), Some(content)) => Some(MessageView { role, content }),
        _ => None,
    }
}

/// The token counts that a document is: an object with the integers
/// `prompt_tokens`, `completion_tokens` and `total_tokens`.
pub open spec fn usage_of(j: Json) -> Option<Usage> {
    match (
        j.int_member("prompt_tokens"@),
        j.int_member("completion_tokens"@),
        j.int_member("total_tokens"@),
    ) {
        (Some(prompt_tokens), Some(completion_tokens), Some(total_tokens)) => Some(
            Usage { prompt_tokens, completion_tokens, total_tokens },
        ),
        _ => None,
    }
}

/// The choice that a document is: an object with the integer `index`, the
/// string `finish_reason` and the message `message`.
pub open spec fn choice_of(j: Json) -> Option<ChoiceView> {
    match (j.int_member("index"@), j.text_member("finish_reason"@), j.member("message"@)) {
        (Some(index), Some(finish_reason), Some(m)) => match message_of(m) {
            Some(message) => Some(ChoiceView { index, finish_reason, message }),
            None => None,
        },
        _ => None,
    }
}

/// The choices that a document is: an array of which every item is a choice.
pub open spec fn choices_of(j: Json) -> Option<Seq<ChoiceView>> {
    match j {
        Json::Array(items) => if forall|i: int|
            0 <= i < items@.len() ==> (#[trigger] choice_of(items@[i])) is Some {
            Some(Seq::new(items@.len(), |i: int| choice_of(items@[i]).unwrap()))
        } else {
            None
        },
        _ => None,
    }
}

/// The messages that a document is: an array of which every item is a
/// message.
pub open spec fn messages_of(j: Json) -> Option<Seq<MessageView>> {
    match j {
        Json::Array(items) => if forall|i: int|
            0 <= i < items@.len() ==> (#[trigger] message_of(items@[i])) is Some {
            Some(Seq::new(items@.len(), |i: int| message_of(items@[i]).unwrap()))
        } else {
            None
        },
        _ => None,
    }
}

/// The completion request that a document is: an object with the string
/// `model` and the messages `messages`.
pub open spec fn request_of(j: Json) -> Option<CompletionRequestView> {
    match (j.text_member("model"@), j.member("messages"@)) {
        (Some(model), Some(ms)) => match messages_of(ms) {
            Some(messages) => Some(CompletionRequestView { model, messages }),
            None => None,
        },
        _ => None,
    }
}

/// The completion response that a document is: an object with the strings
/// `id`, `object` and `model`, the integer `created`, the choices `choices`
/// and the token counts `usage`. Other members are passed over.
pub open spec fn response_of(j: Json) -> Option<CompletionResponseView> {
    match (
        j.text_member("id"@),
        j.text_member("object"@),
        j.int_member("created"@),
        j.text_member("model"@),
        j.member("choices"@),
        j.member("usage"@),
    ) {
        (Some(id), Some(object), Some(created), Some(model), Some(cs), Some(u)) => match (
            choices_of(cs),
            usage_of(u),
        ) {
            (Some(choices), Some(usage)) => Some(
                CompletionResponseView { id, object, created, model, choices, usage },
            ),
            _ => None,
        },
        _ => None,
    }
}

/// The transcription response that a document is: an object with the string
/// `text`.
pub open spec fn transcription_of(j: Json) -> Option<TranscriptionResponseView> {
    match j.text_member("text"@) {
        Some(text) => Some(TranscriptionResponseView { text }),
        None => None,
    }
}

impl Message {
    /// Reads a message from a document.
    pub fn from_json(j: &Json) -> (m: Option<Message>)
        ensures
            message_of(*j) == match m {
                Some(v) => Some(v@),
                None => None::<MessageView>,
            },
    {
        match (j.text_at("role"), j.text_at("content")) {
            (Some(role), Some(content)) => Some(Message { role, content }),
            _ => None,
        }
    }
}

impl Usage {
    /// Reads the token counts from a document.
    pub fn from_json(j: &Json) -> (u: Option<Usage>)
        ensures
            u == usage_of(*j),
    {
        match (j.int_at("prompt_tokens"), j.int_at("completion_tokens"), j.int_at("total_tokens")) {
            (Some(prompt_tokens), Some(completion_tokens), Some(total_tokens)) => Some(
                Usage { prompt_tokens, completion_tokens, total_tokens },
            ),
            _ => None,
        }
    }
}

impl Choice {
    /// Reads a choice from a document.
    pub fn from_json(j: &Json) -> (c: Option<Choice>)
        ensures
            choice_of(*j) == match c {
                Some(v) => Some(v@),
                None => None::<ChoiceView>,
            },
    {
        match (j.int_at("index"), j.text_at("finish_reason"), j.at("message")) {
            (Some(index), Some(finish_reason), Some(m)) => match Message::from_json(m) {
                Some(message) => Some(Choice { index, finish_reason, message }),
                None => None,
            },
            _ => None,
        }
    }

    /// Reads the choices from a document, in order.
    pub fn list_from_json(j: &Json) -> (cs: Option<Vec<Choice>>)
        ensures
            choices_of(*j) == match cs {
                Some(v) => Some(choice_views(v@)),
                None => None::<Seq<ChoiceView>>,
            },
    {
        match j {
            Json::Array(items) => {
                let mut out: Vec<Choice> = Vec::new();
                let mut i: usize = 0;
                while i < items.len()
                    invariant
                        i <= items.len(),
                        *j == Json::Array(*items),
                        out@.len() == i,
                        forall|k: int|
                            0 <= k < i ==> (#[trigger] choice_of(items@[k])) == Some(out@[k]@),
                    decreases items.len() - i,
                {
                    match Choice::from_json(&items[i]) {
                        Some(c) => {
                            out.push(c);
                        },
                        None => {
                            assert(choice_of(items@[i as int]) is None);
                            return None;
                        },
                    }
                    i = i + 1;
                }
                proof {
                    assert(choice_views(out@) =~= Seq::new(
                        items@.len(),
                        |i: int| choice_of(items@[i]).unwrap(),
                    ));
                }
                Some(out)
            },
            _ => None,
        }
    }
}

impl Message {
    /// Reads the messages from a document, in order.
    pub fn list_from_json(j: &Json) -> (ms: Option<Vec<Message>>)
        ensures
            messages_of(*j) == match ms {
                Some(v) => Some(message_views(v@)),
                None => None::<Seq<MessageView>>,
            },
    {
        match j {
            Json::Array(items) => {
                let mut out: Vec<Message> = Vec::new();
                let mut i: usize = 0;
                while i < items.len()
                    invariant
                        i <= items.len(),
                        *j == Json::Array(*items),
                        out@.len() == i,
                        forall|k: int|
                            0 <= k < i ==> (#[trigger] message_of(items@[k])) == Some(out@[k]@),
                    decreases items.len() - i,
                {
                    match Message::from_json(&items[i]) {
                        Some(m) => {
                            out.push(m);
                        },
                        None => {
                            assert(message_of(items@[i as int]) is None);
                            return None;
                        },
                    }
                    i = i + 1;
                }
                proof {
                    assert(message_views(out@) =~= Seq::new(
                        items@.len(),
                        |i: int| message_of(items@[i]).unwrap(),
                    ));
                }
                Some(out)
            },
            _ => None,
        }
    }
}

impl CompletionRequest {
    /// Reads a completion request from a document.
    pub fn from_json(j: &Json) -> (r: Option<CompletionRequest>)
        ensures
            request_of(*j) == match r {
                Some(v) => Some(v@),
                None => None::<CompletionRequestView>,
            },
    {
        match (j.text_at("model"), j.at("messages")) {
            (Some(model), Some(ms)) => match Message::list_from_json(ms) {
                Some(messages) => Some(CompletionRequest { model, messages }),
                None => None,
            },
            _ => None,
        }
    }
}

impl CompletionResponse {
    /// Reads a completion response from a document.
    pub fn from_json(j: &Json) -> (r: Option<CompletionResponse>)
        ensures
            response_of(*j) == match r {
                Some(v) => Some(v@),
                None => None::<CompletionResponseView>,
            },
    {
        match (
            j.text_at("id"),
            j.text_at("object"),
            j.int_at("created"),
            j.text_at("model"),
            j.at("choices"),
            j.at("usage"),
        ) {
            (Some(id), Some(object), Some(created), Some(model), Some(cs), Some(u)) => match (
                Choice::list_from_json(cs),
                Usage::from_json(u),
            ) {
                (Some(choices), Some(usage)) => Some(
                    CompletionResponse { id, object, created, model, choices, usage },
                ),
                _ => None,
            },
            _ => None,
        }
    }
}

impl TranscriptionResponse {
    /// Reads a transcription response from a document.
    pub fn from_json(j: &Json) -> (r: Option<TranscriptionResponse>)
        ensures
            transcription_of(*j) == match r {
                Some(v) => Some(v@),
                None => None::<TranscriptionResponseView>,
            },
    {
        match j.text_at("text") {
            Some(text) => Some(TranscriptionResponse { text }),
            None => None,
        }
    }
}

impl Message {
    /// Builds the message as a document: an object with the members
    /// `content` and `role`, in that order. Reading the document gives the
    /// message back.
    pub fn document(&self) -> (j: Json)
        ensures
            message_of(j) == Some(self@),
            j matches Json::Object(members) && members@.len() == 2 && members@[0].0@
                == "content"@ && members@[1].0@ == "role"@,
    {
        let mut members: Vec<(String, Json)> = Vec::new();
        members.push(("content".to_owned(), Json::Text(self.content.clone())));
        members.push(("role".to_owned(), Json::Text(self.role.clone())));
        let j = Json::Object(members);
        proof {
            reveal_strlit("content");
            reveal_strlit("role");
            reveal_with_fuel(Json::lookup, 3);
            assert("content"@.len() == 7 && "role"@.len() == 4);
            assert(j.text_member("role"@) == Some(self.role@));
            assert(j.text_member("content"@) == Some(self.content@));
        }
        j
    }
}

impl CompletionRequest {
    /// Builds the request as a document: an object with the members
    /// `messages`, the array of the messages' documents, and `model`, in that
    /// order. Reading the document gives the request back.
    pub fn document(&self) -> (j: Json)
        ensures
            request_of(j) == Some(self@),
            j matches Json::Object(members) && members@.len() == 2 && members@[0].0@
                == "messages"@ && members@[1].0@ == "model"@,
    {
        let mut items: Vec<Json> = Vec::new();
        let mut i: usize = 0;
        while i < self.messages.len()
            invariant
                i <= self.messages.len(),
                items@.len() == i,
                forall|k: int|
                    0 <= k < i ==> (#[trigger] message_of(items@[k])) == Some(
                        self.messages@[k]@,
                    ),
            decreases self.messages.len() - i,
        {
            items.push(self.messages[i].document());
            i = i + 1;
        }
        let array = Json::Array(items);
        proof {
            assert(message_views(self.messages@) =~= Seq::new(
                items@.len(),
                |i: int| message_of(items@[i]).unwrap(),
            ));
            assert(messages_of(array) == Some(message_views(self.messages@)));
        }
        let mut members: Vec<(String, Json)> = Vec::new();
        members.push(("messages".to_owned(), array));
        members.push(("model".to_owned(), Json::Text(self.model.clone())));
        let j = Json::Object(members);
        proof {
            reveal_strlit("messages");
            reveal_strlit("model");
            reveal_with_fuel(Json::lookup, 3);
            assert("messages"@.len() == 8 && "model"@.len() == 5);
            assert(j.member("messages"@) == Some(array));
            assert(j.text_member("model"@) == Some(self.model@));
        }
        j
    }
}

} // verus!
