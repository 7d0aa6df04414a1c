use openai_gateway::chat::{
    check_backend_status, construct_dify_request, create_error_response, create_final_chunk,
    decimal_text, done_frame, event_chunk, extract_api_key, frame_payload, line_payloads,
    message_content_to_string, LineBuffer,
    process_chunk, reqwest_to_actix_status, split_lines, sse_frame, stream_chunks,
    transform_dify_to_openai, transform_dify_to_openai_chunk, transform_dify_to_openai_stream,
    ChatCompletionError, ComplexMessageContent, DifyEvent, DifyResponse, File, FunctionCall,
    MessageContent, OpenAIMessage, OpenAIRequest, Tool, ToolCall, ToolFunction,
};

fn msg(role: &str, content: &str) -> OpenAIMessage {
    OpenAIMessage {
        role: role.to_string(),
        content: MessageContent::String(content.to_string()),
        function_call: None,
        tool_calls: None,
    }
}

fn req(messages: Vec<OpenAIMessage>) -> OpenAIRequest {
    OpenAIRequest {
        messages,
        tools: None,
        stream: None,
        temperature_bits: None,
        top_p_bits: None,
        max_tokens: None,
        model: None,
        user: None,
    }
}

fn event(kind: &str, answer: &str) -> DifyEvent {
    DifyEvent {
        event: kind.to_string(),
        task_id: "t1".to_string(),
        conversation_id: "c1".to_string(),
        message_id: "m1".to_string(),
        created_at: 1_700_000_000,
        answer: answer.to_string(),
        tool_calls: None,
        files: None,
    }
}

#[test]
fn complex_content_parts_are_joined_by_a_space() {
    let c = MessageContent::Complex(vec![
        ComplexMessageContent { kind: "text".to_string(), text: "hello".to_string() },
        ComplexMessageContent { kind: "text".to_string(), text: "world".to_string() },
    ]);
    assert_eq!(message_content_to_string(&c), "hello world");
    assert_eq!(message_content_to_string(&MessageContent::String("plain".to_string())), "plain");
    assert_eq!(message_content_to_string(&MessageContent::Complex(vec![])), "");
}

#[test]
fn request_translation_splits_history_and_query() {
    let mut r = req(vec![msg("system", "be brief"), msg("user", "hi"), msg("assistant", "hello"), msg("user", "how are you?")]);
    r.temperature_bits = Some(0.5f32.to_bits());
    r.max_tokens = Some(64);
    r.tools = Some(vec![Tool {
        kind: "function".to_string(),
        function: ToolFunction { name: "f".to_string(), description: "d".to_string(), parameters: "{}".to_string() },
    }]);
    let d = construct_dify_request(&r).unwrap();
    assert_eq!(d.conversation_history, "system: be brief\nuser: hi\nassistant: hello");
    assert_eq!(d.query, vec!["how are you?".to_string()]);
    assert_eq!(d.response_mode, "blocking");
    assert_eq!(d.user, "proxy");
    assert_eq!(d.temperature_bits.map(f32::from_bits), Some(0.5f32));
    assert_eq!(d.top_p_bits, None);
    assert_eq!(d.max_tokens, Some(64));
    assert_eq!(d.tools.unwrap()[0].function.name, "f");
}

#[test]
fn streaming_flag_and_user_pass_through() {
    let mut r = req(vec![msg("user", "hi")]);
    r.stream = Some(true);
    r.user = Some("alice".to_string());
    let d = construct_dify_request(&r).unwrap();
    assert_eq!(d.conversation_history, "");
    assert_eq!(d.query, vec!["hi".to_string()]);
    assert_eq!(d.response_mode, "streaming");
    assert_eq!(d.user, "alice");
    r.stream = Some(false);
    assert_eq!(construct_dify_request(&r).unwrap().response_mode, "blocking");
}

#[test]
fn empty_conversation_is_a_bad_request() {
    match construct_dify_request(&req(vec![])) {
        Err(e) => {
            assert_eq!(e.status_code(), 400);
            assert_eq!(e.message(), "OpenAI request contains no messages");
        }
        Ok(_) => panic!("a request without messages must be refused"),
    }
}

#[test]
fn blocking_reply_becomes_one_assistant_choice() {
    let reply = DifyResponse {
        event: "message".to_string(),
        task_id: "t".to_string(),
        conversation_id: "c".to_string(),
        message_id: "m".to_string(),
        created_at: 5,
        answer: "Hello!".to_string(),
        tool_calls: Some(vec![ToolCall {
            id: "call1".to_string(),
            kind: "function".to_string(),
            function: FunctionCall { name: "f".to_string(), arguments: "{}".to_string() },
        }]),
        files: Some(vec![File { kind: "image".to_string(), url: "u".to_string(), name: "n".to_string() }]),
    };
    let mut r = req(vec![msg("user", "hi")]);
    let out = transform_dify_to_openai(&reply, &r, 1_700_000_123_456);
    assert_eq!(out.id, "chatcmpl-1700000123456");
    assert_eq!(out.object, "chat.completion");
    assert_eq!(out.created, 1_700_000_123);
    assert_eq!(out.model, "dify-transformed");
    assert_eq!(out.choices.len(), 1);
    let c = &out.choices[0];
    assert_eq!(c.index, 0);
    assert_eq!(c.delta.role.as_deref(), Some("assistant"));
    assert_eq!(c.delta.content.as_deref(), Some("Hello!"));
    assert_eq!(c.delta.tool_calls.as_ref().unwrap()[0].id, "call1");
    assert_eq!(c.delta.files.as_ref().unwrap()[0].url, "u");
    assert_eq!(c.finish_reason.as_deref(), Some("stop"));
    assert!(out.usage.is_none());
    r.model = Some("gpt-4".to_string());
    assert_eq!(transform_dify_to_openai(&reply, &r, 0).model, "gpt-4");
    assert_eq!(transform_dify_to_openai(&reply, &r, 0).id, "chatcmpl-0");
}

#[test]
fn stream_event_becomes_chunk() {
    let c = transform_dify_to_openai_stream(event("message", "Hel"));
    assert_eq!(c.id, "m1");
    assert_eq!(c.object, "chat.completion.chunk");
    assert_eq!(c.created, 1_700_000_000);
    assert_eq!(c.model, "gpt-3.5-turbo");
    assert_eq!(c.choices[0].delta.content.as_deref(), Some("Hel"));
    assert!(c.choices[0].delta.role.is_none());
    assert!(c.choices[0].finish_reason.is_none());
}

#[test]
fn text_chunks_and_error_chunks() {
    let r = req(vec![msg("user", "hi")]);
    let c = transform_dify_to_openai_chunk("partial", &r, 2_000);
    assert_eq!(c.id, "chatcmpl-2000");
    assert_eq!(c.created, 2);
    assert_eq!(c.choices[0].delta.content.as_deref(), Some("partial"));
    assert!(c.choices[0].finish_reason.is_none());
    let e = transform_dify_to_openai_chunk("  Error: upstream down", &r, 2_000);
    assert_eq!(e.id, "chatcmpl-error-2000");
    assert_eq!(e.choices[0].delta.content.as_deref(), Some("  Error: upstream down"));
    assert_eq!(e.choices[0].finish_reason.as_deref(), Some("error"));
    let e2 = create_error_response("bad", 3_500);
    assert_eq!(e2.id, "chatcmpl-error-3500");
    assert_eq!(e2.model, "dify-transformed");
    let f = create_final_chunk(9_999);
    assert_eq!(f.id, "chatcmpl-9999");
    assert_eq!(f.created, 9);
    assert!(f.choices[0].delta.content.is_none() && f.choices[0].delta.role.is_none());
    assert_eq!(f.choices[0].finish_reason.as_deref(), Some("stop"));
}

#[test]
fn decimal_forms() {
    assert_eq!(decimal_text(0), "0");
    assert_eq!(decimal_text(7), "7");
    assert_eq!(decimal_text(10), "10");
    assert_eq!(decimal_text(1_700_000_123_456), "1700000123456");
    assert_eq!(decimal_text(u64::MAX), "18446744073709551615");
}

#[test]
fn only_message_events_with_text_are_forwarded() {
    assert!(event_chunk(event("message", "Hel")).is_some());
    assert!(event_chunk(event("message", "  \n")).is_none());
    assert!(event_chunk(event("message", "")).is_none());
    assert!(event_chunk(event("workflow_started", "x")).is_none());
}

#[test]
fn streaming_relay_keeps_order_and_drops_other_events() {
    let events = vec![
        event("workflow_started", ""),
        event("message", "Hel"),
        event("message", "lo"),
        event("message", "!"),
        event("workflow_finished", ""),
    ];
    let chunks = stream_chunks(events);
    let contents: Vec<_> = chunks.iter().map(|c| c.choices[0].delta.content.clone().unwrap()).collect();
    assert_eq!(contents, vec!["Hel".to_string(), "lo".to_string(), "!".to_string()]);
    assert!(chunks.iter().all(|c| c.object == "chat.completion.chunk" && c.choices[0].finish_reason.is_none()));
    assert_eq!(done_frame(), "data: [DONE]\n\n");
}

#[test]
fn frames_and_payloads() {
    assert_eq!(sse_frame("{\"a\":1}"), "data: {\"a\":1}\n\n");
    assert_eq!(frame_payload("data:  {\"x\":1}  ").as_deref(), Some("{\"x\":1}"));
    assert_eq!(frame_payload("event: ping"), None);
    assert_eq!(frame_payload("data: [DONE]").as_deref(), Some("[DONE]"));
    assert_eq!(split_lines("a\nb\n"), vec!["a".to_string(), "b".to_string(), "".to_string()]);
    assert_eq!(split_lines(""), vec!["".to_string()]);
    let chunk = "data: {\"event\":\"message\"}\n\nevent: ping\ndata: {\"event\":\"x\"} \n";
    assert_eq!(process_chunk(chunk), vec!["{\"event\":\"message\"}".to_string(), "{\"event\":\"x\"}".to_string()]);
    assert!(process_chunk("").is_empty());
}

#[test]
fn bearer_keys() {
    assert_eq!(extract_api_key(Some("Bearer sk-123")).as_deref(), Some("sk-123"));
    assert_eq!(extract_api_key(Some("Bearer ")).as_deref(), Some(""));
    assert_eq!(extract_api_key(Some("Basic abc")), None);
    assert_eq!(extract_api_key(Some("bearer sk")), None);
    assert_eq!(extract_api_key(None), None);
}

#[test]
fn error_statuses_and_texts() {
    assert_eq!(ChatCompletionError::InvalidApiKey.status_code(), 401);
    assert_eq!(ChatCompletionError::InvalidApiKey.message(), "Missing or invalid Authorization header");
    assert_eq!(ChatCompletionError::RequestConstructionError("x".to_string()).status_code(), 400);
    assert_eq!(ChatCompletionError::DifyApiError(429, "slow".to_string()).status_code(), 429);
    assert_eq!(ChatCompletionError::DifyApiError(42, "odd".to_string()).status_code(), 502);
    assert_eq!(ChatCompletionError::JsonSerializationError("j".to_string()).status_code(), 500);
    let body = ChatCompletionError::DifyApiError(503, "down".to_string()).error_response();
    assert_eq!(body.message, "down");
    assert_eq!(body.kind, "invalid_request_error");
    assert_eq!(ChatCompletionError::DifyApiError(502, "down".to_string()).describe(), "Dify API error (502 Bad Gateway): down");
    assert_eq!(ChatCompletionError::JsonSerializationError("j".to_string()).describe(), "JSON serialization error: j");
    assert_eq!(ChatCompletionError::RequestConstructionError("r".to_string()).describe(), "Request construction error: r");
    assert_eq!(reqwest_to_actix_status(404), 404);
    assert_eq!(reqwest_to_actix_status(1000), 500);
    assert_eq!(reqwest_to_actix_status(99), 500);
}

#[test]
fn backend_status_check() {
    assert!(check_backend_status(200, String::new()).is_ok());
    assert!(check_backend_status(299, String::new()).is_ok());
    match check_backend_status(404, "missing".to_string()) {
        Err(ChatCompletionError::DifyApiError(404, m)) => assert_eq!(m, "missing"),
        _ => panic!("a 404 is a backend error"),
    }
}

#[test]
fn line_buffer_joins_frames_split_across_pieces() {
    let mut buffer = LineBuffer::new();
    assert!(buffer.feed("data: {\"event\":\"mes").is_empty());
    let lines = buffer.feed("sage\"}\n\ndata: x");
    assert_eq!(lines, vec!["data: {\"event\":\"message\"}".to_string(), "".to_string()]);
    let lines = buffer.feed("y\n");
    assert_eq!(lines, vec!["data: xy".to_string()]);
    assert_eq!(buffer.finish(), "");
    let mut other = LineBuffer::new();
    other.feed("tail without newline");
    assert_eq!(other.finish(), "tail without newline");
}

#[test]
fn payloads_of_lines() {
    let lines = vec!["data: a ".to_string(), "".to_string(), "id: 1".to_string(), "data:b".to_string(), "data: c".to_string()];
    assert_eq!(line_payloads(&lines), vec!["a".to_string(), "c".to_string()]);
}
