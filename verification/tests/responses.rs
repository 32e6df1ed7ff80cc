use openai_api::response::{
    completion_from_parsed, completion_result, decode_completion, decode_transcription,
    transcription_from_parsed, transcription_result,
};
use openai_api::{
    ApiError, Choice, CompletionResponse, Json, Message, Reply, TranscriptionResponse, Usage,
};

const FIXED: &str = "{\"id\":\"abc\",\"object\":\"x\",\"created\":1,\"model\":\"m\",\"choices\":[],\"usage\":{\"prompt_tokens\":1,\"completion_tokens\":2,\"total_tokens\":3}}";

const MISMATCH: &str = "the body does not match the expected schema";

fn text(s: &str) -> Json {
    Json::Text(s.to_string())
}

fn member(k: &str, v: Json) -> (String, Json) {
    (k.to_string(), v)
}

#[test]
fn fixed_body_gives_its_values() {
    let r = completion_result(Reply::Body(FIXED.to_string())).expect("the body is a response");
    assert_eq!(r.id, "abc");
    assert_eq!(r.object, "x");
    assert_eq!(r.created, 1);
    assert_eq!(r.model, "m");
    assert!(r.choices.is_empty());
    assert_eq!(r.usage.prompt_tokens, 1);
    assert_eq!(r.usage.completion_tokens, 2);
    assert_eq!(r.usage.total_tokens, 3);
}

#[test]
fn body_with_choices_gives_them_in_order() {
    let body = "{\"id\":\"chatcmpl-1\",\"object\":\"chat.completion\",\"created\":1677652288,\"model\":\"gpt-3.5-turbo-0301\",\"usage\":{\"prompt_tokens\":9,\"completion_tokens\":12,\"total_tokens\":21},\"choices\":[{\"message\":{\"role\":\"assistant\",\"content\":\"Hello \\\"there\\\"\"},\"finish_reason\":\"stop\",\"index\":0},{\"message\":{\"role\":\"assistant\",\"content\":\"\"},\"finish_reason\":\"length\",\"index\":1}],\"extra\":null}";
    let expected = CompletionResponse {
        id: "chatcmpl-1".to_string(),
        object: "chat.completion".to_string(),
        created: 1677652288,
        model: "gpt-3.5-turbo-0301".to_string(),
        choices: vec![
            Choice {
                index: 0,
                finish_reason: "stop".to_string(),
                message: Message {
                    role: "assistant".to_string(),
                    content: "Hello \"there\"".to_string(),
                },
            },
            Choice {
                index: 1,
                finish_reason: "length".to_string(),
                message: Message { role: "assistant".to_string(), content: String::new() },
            },
        ],
        usage: Usage { prompt_tokens: 9, completion_tokens: 12, total_tokens: 21 },
    };
    assert_eq!(decode_completion(body), Ok(expected));
}

#[test]
fn error_shaped_body_is_a_decode_failure() {
    let body = "{\"error\":{\"message\":\"Incorrect API key provided\",\"type\":\"invalid_request_error\",\"param\":null,\"code\":\"invalid_api_key\"}}";
    assert_eq!(
        completion_result(Reply::Body(body.to_string())),
        Err(ApiError::Decode(MISMATCH.to_string()))
    );
    assert_eq!(
        transcription_result(Reply::Body(body.to_string())),
        Err(ApiError::Decode(MISMATCH.to_string()))
    );
}

#[test]
fn body_that_is_not_json_is_a_decode_failure_with_the_codec_s_words() {
    match completion_result(Reply::Body("<html>Bad Gateway</html>".to_string())) {
        Err(ApiError::Decode(cause)) => {
            assert_eq!(cause, "expected value at line 1 column 1");
        }
        other => panic!("{:?}", other),
    }
    match decode_transcription("{\"text\":\"hello\"") {
        Err(ApiError::Decode(cause)) => {
            assert!(cause.starts_with("EOF while parsing"));
        }
        other => panic!("{:?}", other),
    }
    assert!(matches!(decode_completion(""), Err(ApiError::Decode(_))));
    assert!(matches!(decode_transcription("{\"text\":\"a\"} x"), Err(ApiError::Decode(_))));
}

#[test]
fn failed_exchange_is_a_transport_failure() {
    assert_eq!(
        completion_result(Reply::Unsent("connection refused".to_string())),
        Err(ApiError::Transport("connection refused".to_string()))
    );
    assert_eq!(
        transcription_result(Reply::Unsent("connection refused".to_string())),
        Err(ApiError::Transport("connection refused".to_string()))
    );
}

#[test]
fn unreadable_body_is_a_read_failure() {
    assert_eq!(
        completion_result(Reply::Unread("broken pipe".to_string())),
        Err(ApiError::BodyRead("broken pipe".to_string()))
    );
    assert_eq!(
        transcription_result(Reply::Unread("broken pipe".to_string())),
        Err(ApiError::BodyRead("broken pipe".to_string()))
    );
}

#[test]
fn error_message_is_the_cause() {
    assert_eq!(ApiError::Transport("a".to_string()).message(), "a");
    assert_eq!(ApiError::BodyRead("b".to_string()).message(), "b");
    assert_eq!(ApiError::Decode("c".to_string()).message(), "c");
}

#[test]
fn transcription_body_gives_its_text() {
    assert_eq!(
        transcription_result(Reply::Body("{\"text\":\"hello\"}".to_string())),
        Ok(TranscriptionResponse { text: "hello".to_string() })
    );
    assert_eq!(
        decode_transcription(" { \"language\": \"en\", \"text\" : \"h\\u00e9\" } "),
        Ok(TranscriptionResponse { text: "hé".to_string() })
    );
}

#[test]
fn transcription_text_must_be_a_string() {
    for body in ["{\"text\":1}", "{\"text\":null}", "{}", "[]", "\"hello\"", "null", "{\"Text\":\"a\"}"] {
        assert_eq!(decode_transcription(body), Err(ApiError::Decode(MISMATCH.to_string())));
    }
}

#[test]
fn completion_members_must_have_their_types() {
    let bodies = [
        FIXED.replace("\"created\":1,", "\"created\":\"1\","),
        FIXED.replace("\"created\":1,", "\"created\":1.5,"),
        FIXED.replace("\"created\":1,", "\"created\":9223372036854775808,"),
        FIXED.replace("\"created\":1,", ""),
        FIXED.replace("\"id\":\"abc\"", "\"id\":null"),
        FIXED.replace("\"choices\":[]", "\"choices\":{}"),
        FIXED.replace("\"choices\":[]", "\"choices\":[{\"index\":0,\"finish_reason\":\"stop\"}]"),
        FIXED.replace("\"total_tokens\":3", "\"total_tokens\":true"),
        FIXED.replace("\"total_tokens\":3", "\"total\":3"),
        FIXED.replace("\"usage\":{", "\"usages\":{"),
    ];
    for body in bodies.iter() {
        assert_ne!(body.as_str(), FIXED);
        assert_eq!(decode_completion(body), Err(ApiError::Decode(MISMATCH.to_string())));
    }
}

#[test]
fn integers_cover_the_whole_range() {
    let body = FIXED
        .replace("\"created\":1,", "\"created\":-9223372036854775808,")
        .replace("\"total_tokens\":3", "\"total_tokens\":9223372036854775807");
    let r = decode_completion(&body).expect("the body is a response");
    assert_eq!(r.created, i64::MIN);
    assert_eq!(r.usage.total_tokens, i64::MAX);
}

#[test]
fn usage_is_taken_as_sent() {
    let body = FIXED.replace("\"total_tokens\":3", "\"total_tokens\":100");
    let r = decode_completion(&body).expect("the body is a response");
    assert_eq!(r.usage, Usage { prompt_tokens: 1, completion_tokens: 2, total_tokens: 100 });
}

#[test]
fn parse_gives_each_kind_of_document() {
    assert_eq!(Json::parse("null"), Ok(Json::Null));
    assert_eq!(Json::parse("true"), Ok(Json::Bool(true)));
    assert_eq!(Json::parse("-7"), Ok(Json::Int(-7)));
    assert_eq!(Json::parse("1.5"), Ok(Json::Real));
    assert_eq!(Json::parse("18446744073709551615"), Ok(Json::Real));
    assert_eq!(Json::parse("\"a\\nb\""), Ok(text("a\nb")));
    assert_eq!(Json::parse("[1,[\"x\"]]"), Ok(Json::Array(vec![Json::Int(1), Json::Array(vec![text("x")])])));
    assert_eq!(
        Json::parse("{\"b\":1,\"a\":{\"c\":false}}"),
        Ok(Json::Object(vec![
            member("a", Json::Object(vec![member("c", Json::Bool(false))])),
            member("b", Json::Int(1)),
        ]))
    );
    assert!(Json::parse("{").is_err());
    assert!(Json::parse("").is_err());
}

#[test]
fn members_are_found_by_key() {
    let doc = Json::Object(vec![
        member("a", Json::Int(1)),
        member("b", text("two")),
        member("a", Json::Int(3)),
    ]);
    assert_eq!(doc.get(&"a".to_string()), Some(&Json::Int(1)));
    assert_eq!(doc.at("b"), Some(&text("two")));
    assert_eq!(doc.at("c"), None);
    assert_eq!(doc.int_at("a"), Some(1));
    assert_eq!(doc.int_at("b"), None);
    assert_eq!(doc.text_at("b"), Some("two".to_string()));
    assert_eq!(doc.text_at("a"), None);
    assert_eq!(Json::Array(vec![]).at("a"), None);
    assert_eq!(text("x").as_text(), Some("x".to_string()));
    assert_eq!(Json::Int(5).as_text(), None);
    assert_eq!(Json::Int(5).as_int(), Some(5));
    assert_eq!(Json::Real.as_int(), None);
}

#[test]
fn documents_are_read_member_by_member() {
    let m = Json::Object(vec![member("content", text("c")), member("role", text("r"))]);
    assert_eq!(
        Message::from_json(&m),
        Some(Message { role: "r".to_string(), content: "c".to_string() })
    );
    assert_eq!(Message::from_json(&Json::Object(vec![member("role", text("r"))])), None);
    let u = Json::Object(vec![
        member("prompt_tokens", Json::Int(4)),
        member("completion_tokens", Json::Int(5)),
        member("total_tokens", Json::Int(9)),
    ]);
    assert_eq!(
        Usage::from_json(&u),
        Some(Usage { prompt_tokens: 4, completion_tokens: 5, total_tokens: 9 })
    );
    assert_eq!(Usage::from_json(&Json::Null), None);
    let c = Json::Object(vec![
        member("index", Json::Int(2)),
        member("finish_reason", text("stop")),
        member("message", m),
    ]);
    let choice = Choice {
        index: 2,
        finish_reason: "stop".to_string(),
        message: Message { role: "r".to_string(), content: "c".to_string() },
    };
    assert_eq!(Choice::from_json(&c), Some(choice.clone()));
    assert_eq!(Choice::list_from_json(&Json::Array(vec![c])), Some(vec![choice]));
    assert_eq!(Choice::list_from_json(&Json::Array(vec![Json::Null])), None);
    assert_eq!(Choice::list_from_json(&Json::Null), None);
    assert_eq!(Message::list_from_json(&Json::Array(vec![])), Some(vec![]));
    assert_eq!(
        TranscriptionResponse::from_json(&Json::Object(vec![member("text", text("t"))])),
        Some(TranscriptionResponse { text: "t".to_string() })
    );
    assert_eq!(CompletionResponse::from_json(&Json::Object(vec![])), None);
}

#[test]
fn parsed_bodies_give_results() {
    assert_eq!(
        completion_from_parsed(Err("no JSON".to_string())),
        Err(ApiError::Decode("no JSON".to_string()))
    );
    assert_eq!(
        completion_from_parsed(Ok(Json::Null)),
        Err(ApiError::Decode(MISMATCH.to_string()))
    );
    assert_eq!(
        transcription_from_parsed(Err("no JSON".to_string())),
        Err(ApiError::Decode("no JSON".to_string()))
    );
    assert_eq!(
        transcription_from_parsed(Ok(Json::Object(vec![member("text", text("hello"))]))),
        Ok(TranscriptionResponse { text: "hello".to_string() })
    );
    assert_eq!(
        transcription_from_parsed(Ok(Json::Array(vec![text("hello")]))),
        Err(ApiError::Decode(MISMATCH.to_string()))
    );
}

#[test]
fn response_defaults_are_empty() {
    let r = CompletionResponse::default();
    assert_eq!(r.id, "");
    assert_eq!(r.created, 0);
    assert!(r.choices.is_empty());
    assert_eq!(r.usage, Usage::default());
    assert_eq!(Usage::default(), Usage { prompt_tokens: 0, completion_tokens: 0, total_tokens: 0 });
    assert_eq!(Choice::default().index, 0);
    assert_eq!(TranscriptionResponse::default().text, "");
}
