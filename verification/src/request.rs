//! What is sent: each call prepared as plain data for a transport to carry.

use vstd::prelude::*;
use vstd::string::StringExecFns;
use crate::data::{message_views, CompletionRequest, CompletionRequestView, Message, MessageView, Model};
use crate::json::{json_quoted, quote};

verus! {

/// One header of a call.
#[derive(Debug, Clone, PartialEq)]
pub struct Header {
    pub name: String,
    pub value: String,
}

/// What a `Header` holds.
pub struct HeaderView {
    pub name: Seq<char>,
    pub value: Seq<char>,
}

impl View for Header {
    type V = HeaderView;

    open spec fn view(&self) -> HeaderView {
        HeaderView { name: self.name@, value: self.value@ }
    }
}

/// A POST with a JSON body: where it goes, its headers in the order in which
/// they are set, and the body.
#[derive(Debug, Clone, PartialEq)]
pub struct JsonCall {
    pub url: String,
    pub headers: Vec<Header>,
    pub body: String,
}

/// What a `JsonCall` holds.
pub struct JsonCallView {
    pub url: Seq<char>,
    pub headers: Seq<HeaderView>,
    pub body: Seq<char>,
}

impl View for JsonCall {
    type V = JsonCallView;

    open spec fn view(&self) -> JsonCallView {
        JsonCallView {
            url: self.url@,
            headers: self.headers@.map_values(|h: Header| h@),
            body: self.body@,
        }
    }
}

/// The binary part of a multipart form.
#[derive(Debug, Clone, PartialEq)]
pub struct UploadPart {
    pub name: String,
    pub file_name: String,
    pub bytes: Vec<u8>,
}

/// What an `UploadPart` holds.
pub struct UploadPartView {
    pub name: Seq<char>,
    pub file_name: Seq<char>,
    pub bytes: Seq<u8>,
}

impl View for UploadPart {
    type V = UploadPartView;

    open spec fn view(&self) -> UploadPartView {
        UploadPartView { name: self.name@, file_name: self.file_name@, bytes: self.bytes@ }
    }
}

/// A text field of a multipart form.
#[derive(Debug, Clone, PartialEq)]
pub struct TextField {
    pub name: String,
    pub value: String,
}

/// What a `TextField` holds.
pub struct TextFieldView {
    pub name: Seq<char>,
    pub value: Seq<char>,
}

impl View for TextField {
    type V = TextFieldView;

    open spec fn view(&self) -> TextFieldView {
        TextFieldView { name: self.name@, value: self.value@ }
    }
}

/// A POST with a multipart form: where it goes, its headers, the binary
/// parts and the text fields. The transport declares the form's content type
/// itself, with the boundary that it chooses.
#[derive(Debug, Clone, PartialEq)]
pub struct UploadCall {
    pub url: String,
    pub headers: Vec<Header>,
    pub parts: Vec<UploadPart>,
    pub fields: Vec<TextField>,
}

/// What an `UploadCall` holds.
pub struct UploadCallView {
    pub url: Seq<char>,
    pub headers: Seq<HeaderView>,
    pub parts: Seq<UploadPartView>,
    pub fields: Seq<TextFieldView>,
}

impl View for UploadCall {
    type V = UploadCallView;

    open spec fn view(&self) -> UploadCallView {
        UploadCallView {
            url: self.url@,
            headers: self.headers@.map_values(|h: Header| h@),
            parts: self.parts@.map_values(|p: UploadPart| p@),
            fields: self.fields@.map_values(|f: TextField| f@),
        }
    }
}

/// Where completions are asked for.
pub open spec fn completions_url() -> Seq<char> {
    "https://api.openai.com/v1/chat/completions"@
}

/// Where transcriptions are asked for.
pub open spec fn transcriptions_url() -> Seq<char> {
    "https://api.openai.com/v1/audio/transcriptions"@
}

/// The model that transcribes.
pub open spec fn transcription_model() -> Seq<char> {
    "whisper-1"@
}

/// The header that carries the credential `key`.
pub open spec fn authorization(key: Seq<char>) -> HeaderView {
    HeaderView { name: "Authorization"@, value: "Bearer "@ + key }
}

/// The header that declares a JSON body.
pub open spec fn json_content_type() -> HeaderView {
    HeaderView { name: "Content-Type"@, value: "application/json"@ }
}

/// The JSON text of one message: an object with the members `content` and
/// `role`, in that order.
pub open spec fn message_text(m: MessageView) -> Seq<char> {
    "{\"content\":"@ + json_quoted(m.content) + ",\"role\":"@ + json_quoted(m.role) + "}"@
}

/// The JSON texts of the messages, in order, with a comma between each two.
pub open spec fn messages_text(ms: Seq<MessageView>) -> Seq<char>
    decreases ms.len(),
{
    if ms.len() == 0 {
        Seq::empty()
    } else if ms.len() == 1 {
        message_text(ms[0])
    } else {
        messages_text(ms.drop_last()) + ","@ + message_text(ms.last())
    }
}

/// The JSON text of a request: an object with the members `messages`, an
/// array, and `model`, in that order, with no white space.
pub open spec fn request_text(r: CompletionRequestView) -> Seq<char> {
    "{\"messages\":["@ + messages_text(r.messages) + "],\"model\":"@ + json_quoted(r.model)
        + "}"@
}

/// The completion call for a credential, a model and a conversation.
pub open spec fn completion_call_of(key: Seq<char>, model: Model, messages: Seq<MessageView>)
    -> JsonCallView {
    JsonCallView {
        url: completions_url(),
        headers: seq![authorization(key), json_content_type()],
        body: request_text(CompletionRequestView { model: model.wire_name(), messages }),
    }
}

/// The transcription call for a credential, a recording and its file name.
pub open spec fn transcription_call_of(key: Seq<char>, file: Seq<u8>, file_name: Seq<char>)
    -> UploadCallView {
    UploadCallView {
        url: transcriptions_url(),
        headers: seq![authorization(key)],
        parts: seq![UploadPartView { name: "file"@, file_name, bytes: file }],
        fields: seq![TextFieldView { name: "model"@, value: transcription_model() }],
    }
}

/// A transcription call holds exactly one binary part, named `file`, with
/// the recording under its file name, and exactly one text field, `model`,
/// which names the transcription model.
pub proof fn lemma_transcription_call_shape(key: Seq<char>, file: Seq<u8>, file_name: Seq<char>)
    ensures
        transcription_call_of(key, file, file_name).parts.len() == 1,
        transcription_call_of(key, file, file_name).parts[0] == (UploadPartView {
            name: "file"@,
            file_name,
            bytes: file,
        }),
        transcription_call_of(key, file, file_name).fields.len() == 1,
        transcription_call_of(key, file, file_name).fields[0] == (TextFieldView {
            name: "model"@,
            value: "whisper-1"@,
        }),
{
}

/// Builds the header that carries the credential.
pub fn bearer(key: &str) -> (h: Header)
    ensures
        h@ == authorization(key@),
{
    let mut value = "Bearer ".to_owned();
    value.append(key);
    Header { name: "Authorization".to_owned(), value }
}

impl CompletionRequest {
    /// The request that asks `model` to continue `messages`.
    pub fn new(model: &Model, messages: Vec<Message>) -> (r: CompletionRequest)
        ensures
            r@.model == model.wire_name(),
            r.messages == messages,
    {
        CompletionRequest { model: model.as_str().to_owned(), messages }
    }

    /// Prints the request as JSON.
    pub fn encode(&self) -> (text: String)
        ensures
            text@ == request_text(self@),
    {
        let mut out = "{\"messages\":[".to_owned();
        let ghost views = message_views(self.messages@);
        let mut i: usize = 0;
        while i < self.messages.len()
            invariant
                i <= self.messages.len(),
                views == message_views(self.messages@),
                out@ == "{\"messages\":["@ + messages_text(views.take(i as int)),
            decreases self.messages.len() - i,
        {
            let m = &self.messages[i];
            if i > 0 {
                out.append(",");
            }
            out.append("{\"content\":");
            out.append(quote(m.content.as_str()).as_str());
            out.append(",\"role\":");
            out.append(quote(m.role.as_str()).as_str());
            out.append("}");
            proof {
                let before = views.take(i as int);
                let after = views.take(i as int + 1);
                assert(after.drop_last() =~= before);
                assert(after.last() == m@);
                assert(out@ =~= "{\"messages\":["@ + messages_text(after));
            }
            i = i + 1;
        }
        proof {
            assert(views.take(i as int) =~= views);
        }
        out.append("],\"model\":");
        out.append(quote(self.model.as_str()).as_str());
        out.append("}");
        proof {
            assert(out@ =~= request_text(self@));
        }
        out
    }
}

/// Prepares the completion call: a POST to the completions endpoint that
/// carries the credential, declares JSON and holds the request for `model`
/// and `messages` as its body.
pub fn completion_call(key: &str, model: &Model, messages: Vec<Message>) -> (call: JsonCall)
    ensures
        call@ == completion_call_of(key@, *model, message_views(messages@)),
{
    let request = CompletionRequest::new(model, messages);
    let body = request.encode();
    let mut headers: Vec<Header> = Vec::new();
    headers.push(bearer(key));
    headers.push(
        Header { name: "Content-Type".to_owned(), value: "application/json".to_owned() },
    );
    let call = JsonCall {
        url: "https://api.openai.com/v1/chat/completions".to_owned(),
        headers,
        body,
    };
    proof {
        assert(call@.headers =~= seq![authorization(key@), json_content_type()]);
        assert(request@ == (CompletionRequestView {
            model: model.wire_name(),
            messages: message_views(messages@),
        }));
    }
    call
}

/// Prepares the transcription call: a POST to the transcriptions endpoint
/// that carries the credential, one binary part named `file` with the
/// recording under its file name, and one text field `model`.
pub fn transcription_call(key: &str, file: Vec<u8>, file_name: String) -> (call: UploadCall)
    ensures
        call@ == transcription_call_of(key@, file@, file_name@),
{
    let mut headers: Vec<Header> = Vec::new();
    headers.push(bearer(key));
    let mut parts: Vec<UploadPart> = Vec::new();
    parts.push(UploadPart { name: "file".to_owned(), file_name, bytes: file });
    let mut fields: Vec<TextField> = Vec::new();
    fields.push(TextField { name: "model".to_owned(), value: "whisper-1".to_owned() });
    let call = UploadCall {
        url: "https://api.openai.com/v1/audio/transcriptions".to_owned(),
        headers,
        parts,
        fields,
    };
    proof {
        assert(call@.headers =~= seq![authorization(key@)]);
        assert(call@.parts =~= seq![
            UploadPartView { name: "file"@, file_name: file_name@, bytes: file@ },
        ]);
        assert(call@.fields =~= seq![
            TextFieldView { name: "model"@, value: transcription_model() },
        ]);
    }
    call
}

} // verus!
