use llmd::api::{ChatRequest, ChatResponse, LlmdError, ModelInfo};
use llmd::openai::{
    chat_completion, completion_id, content_text, created_at, find_model, model_list, now,
    provider_error, CompletionStream, MessageContent, OpenAiChatRequest, OpenAiMessage, StreamEvent,
};

fn fake_models() -> Vec<ModelInfo> {
    vec![ModelInfo { id: "fake-model".to_string(), owned_by: "llmd-test".to_string() }]
}

fn echo(request: &ChatRequest) -> ChatResponse {
    let prompt = request.messages.last().map(|m| m.content.clone()).unwrap_or_default();
    ChatResponse { model: request.model.clone(), content: format!("echo: {prompt}") }
}

fn request_with(content: MessageContent, stream: bool) -> ChatRequest {
    let text = content_text(content).unwrap();
    ChatRequest::from_openai(OpenAiChatRequest {
        model: "fake-model".to_string(),
        messages: vec![OpenAiMessage { role: "user".to_string(), content: text }],
        stream,
        max_tokens: None,
        temperature_bits: None,
        response_format: None,
    })
}

#[test]
fn models_returns_openai_model_list() {
    let body = model_list(fake_models());
    assert_eq!(body.object, "list");
    assert_eq!(body.data[0].id, "fake-model");
    assert_eq!(body.data[0].owned_by, "llmd-test");
    assert_eq!(body.data[0].object, "model");
    assert_eq!(body.data[0].created, 0);
}

#[test]
fn get_model_finds_or_reports_missing() {
    let m = find_model(fake_models(), "fake-model").unwrap();
    assert_eq!(m.id, "fake-model");
    let e = find_model(fake_models(), "nope").unwrap_err();
    let answer = provider_error(e);
    assert_eq!(answer.status, 404);
    assert_eq!(answer.message, "model not found: nope");
    assert_eq!(answer.error_type, "llmd_error");
    let backend = provider_error(LlmdError::Backend("engine failed".to_string()));
    assert_eq!(backend.status, 500);
    assert_eq!(backend.message, "engine failed");
}

#[test]
fn chat_completions_returns_openai_response() {
    let request = request_with(MessageContent::Text("ping".to_string()), false);
    assert!(!request.stream);
    let reply = echo(&request);
    let body = chat_completion("chatcmpl-x".to_string(), 7, reply);
    assert_eq!(body.object, "chat.completion");
    assert_eq!(body.model, "fake-model");
    assert_eq!(body.created, 7);
    assert_eq!(body.choices.len(), 1);
    assert_eq!(body.choices[0].index, 0);
    assert_eq!(body.choices[0].message.role, "assistant");
    assert_eq!(body.choices[0].message.content, "echo: ping");
    assert_eq!(body.choices[0].finish_reason, "stop");
    assert_eq!(body.usage.total_tokens, 0);
}

#[test]
fn chat_completions_accepts_text_parts() {
    let parts = MessageContent::Parts(vec![Some("hello".to_string()), None, Some("parts".to_string())]);
    let request = request_with(parts, false);
    let body = chat_completion("id".to_string(), 0, echo(&request));
    assert_eq!(body.choices[0].message.content, "echo: hello\nparts");
}

#[test]
fn other_content_is_refused() {
    assert_eq!(content_text(MessageContent::Other).unwrap_err(), "content must be a string or text parts");
    assert_eq!(content_text(MessageContent::Parts(vec![])).unwrap(), "");
}

#[test]
fn chat_completions_streams_sse_chunks() {
    let request = request_with(MessageContent::Text("ping".to_string()), true);
    assert!(request.stream);
    let mut stream = CompletionStream::new("chatcmpl-1".to_string(), 3, request.model.clone());
    let first = match stream.next_event(Ok("hello".to_string())) {
        StreamEvent::Chunk(c) => c,
        StreamEvent::Error(m) => panic!("unexpected error {m}"),
    };
    assert_eq!(first.object, "chat.completion.chunk");
    assert_eq!(first.id, "chatcmpl-1");
    assert_eq!(first.model, "fake-model");
    assert_eq!(first.choices[0].delta.role, Some("assistant"));
    assert_eq!(first.choices[0].delta.content.as_deref(), Some("hello"));
    assert_eq!(first.choices[0].finish_reason, None);
    let second = match stream.next_event(Ok(" world".to_string())) {
        StreamEvent::Chunk(c) => c,
        StreamEvent::Error(m) => panic!("unexpected error {m}"),
    };
    assert_eq!(second.choices[0].delta.role, None);
    assert_eq!(second.choices[0].delta.content.as_deref(), Some(" world"));
    let last = stream.closing_chunk();
    assert_eq!(last.choices[0].finish_reason, Some("stop"));
    assert_eq!(last.choices[0].delta.role, None);
    assert_eq!(last.choices[0].delta.content, None);
}

#[test]
fn stream_errors_do_not_take_the_role() {
    let mut stream = CompletionStream::new("id".to_string(), 0, "m".to_string());
    match stream.next_event(Err(LlmdError::ModelNotFound("m".to_string()))) {
        StreamEvent::Error(m) => assert_eq!(m, "model not found: m"),
        StreamEvent::Chunk(_) => panic!("expected an error event"),
    }
    match stream.next_event(Ok("a".to_string())) {
        StreamEvent::Chunk(c) => assert_eq!(c.choices[0].delta.role, Some("assistant")),
        StreamEvent::Error(m) => panic!("unexpected error {m}"),
    }
}

#[test]
fn completion_ids_are_random_uuids() {
    let a = completion_id();
    let b = completion_id();
    assert_ne!(a, b);
    assert!(a.starts_with("chatcmpl-"));
    let uuid = &a["chatcmpl-".len()..];
    assert_eq!(uuid.len(), 36);
    for (i, c) in uuid.chars().enumerate() {
        if [8, 13, 18, 23].contains(&i) {
            assert_eq!(c, '-');
        } else {
            assert!(c.is_ascii_hexdigit() && !c.is_ascii_uppercase());
        }
    }
    assert_eq!(uuid.chars().nth(14), Some('4'));
}

#[test]
fn creation_time_defaults_to_zero() {
    assert_eq!(created_at(Some(5)), 5);
    assert_eq!(created_at(None), 0);
    assert!(now() > 1_600_000_000);
}

#[test]
fn openai_request_keeps_options() {
    let request = ChatRequest::from_openai(OpenAiChatRequest {
        model: "m".to_string(),
        messages: vec![
            OpenAiMessage { role: "system".to_string(), content: "s".to_string() },
            OpenAiMessage { role: "user".to_string(), content: "u".to_string() },
        ],
        stream: true,
        max_tokens: Some(9),
        temperature_bits: Some(0.5f32.to_bits()),
        response_format: None,
    });
    assert_eq!(request.messages.len(), 2);
    assert_eq!(request.messages[0].role, "system");
    assert_eq!(request.messages[1].content, "u");
    assert_eq!(request.max_tokens, Some(9));
    assert_eq!(request.temperature_bits.map(f32::from_bits), Some(0.5));
}

#[test]
fn stream_flag_chooses_the_answer() {
    let streamed = request_with(MessageContent::Text("x".to_string()), true);
    let whole = request_with(MessageContent::Text("x".to_string()), false);
    assert!(llmd::openai::wants_stream(&streamed));
    assert!(!llmd::openai::wants_stream(&whole));
}
