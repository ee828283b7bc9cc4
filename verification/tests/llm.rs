use voice_typing::llm::{
    polish_reply, fallback_if_empty, LlmClient, LlmError, LlmStep, SseDecoder, EDIT_TEXT_SYSTEM_PROMPT,
    POLISH_SYSTEM_PROMPT, TRANSLATE_PROMPT_PREFIX, TRANSLATE_PROMPT_SUFFIX,
};

fn done(step: LlmStep) -> String {
    match step {
        LlmStep::Done(t) => t,
        LlmStep::Send(_) => panic!("expected an answer without a request"),
    }
}

fn sent(step: LlmStep) -> (String, String) {
    match step {
        LlmStep::Send(q) => {
            assert_eq!(q.model, "qwen-plus");
            assert_eq!(q.max_tokens, 2048);
            assert!(q.stream);
            assert_eq!(q.messages.len(), 2);
            assert_eq!(q.messages[0].role, "system");
            assert_eq!(q.messages[1].role, "user");
            (q.messages[0].content.clone(), q.messages[1].content.clone())
        }
        LlmStep::Done(_) => panic!("expected a request"),
    }
}

#[test]
fn test_llm_client_creation() {
    let client = LlmClient::new("test-key".to_string());
    assert!(client.is_enabled());
}

#[test]
fn test_set_enabled() {
    let mut client = LlmClient::new("test-key".to_string());
    client.set_enabled(false);
    assert!(!client.is_enabled());
}

#[test]
fn test_polish_empty_string() {
    let client = LlmClient::new("test-key".to_string());
    assert_eq!(done(client.polish_request("", &[], "")), "");
}

#[test]
fn test_polish_disabled() {
    let mut client = LlmClient::new("test-key".to_string());
    client.set_enabled(false);
    assert_eq!(done(client.polish_request("嗯那个你好", &[], "")), "嗯那个你好");
}

#[test]
fn test_polish_disabled_with_dictionary() {
    let mut client = LlmClient::new("test-key".to_string());
    client.set_enabled(false);
    let dict = vec!["Tauri".to_string(), "Rust".to_string()];
    assert_eq!(done(client.polish_request("嗯那个你好", &dict, "")), "嗯那个你好");
}

#[test]
fn test_polish_disabled_with_tone() {
    let mut client = LlmClient::new("test-key".to_string());
    client.set_enabled(false);
    assert_eq!(done(client.polish_request("嗯那个你好", &[], "formal, professional")), "嗯那个你好");
}

#[test]
fn polish_prompt_carries_dictionary_and_tone() {
    let client = LlmClient::new("k".to_string());
    let (system, user) = sent(client.polish_request("你好", &[], ""));
    assert_eq!(system, POLISH_SYSTEM_PROMPT);
    assert_eq!(user, "你好");
    let dict = vec!["Tauri".to_string(), "Rust".to_string()];
    let (system, _) = sent(client.polish_request("你好", &dict, "formal, professional"));
    assert_eq!(
        system,
        format!(
            "{}\n\n以下专有名词必须原样保留，不要修改：Tauri、Rust\n\n请使用formal, professional的语气风格。",
            POLISH_SYSTEM_PROMPT
        )
    );
    assert!(POLISH_SYSTEM_PROMPT.starts_with("你是一个语音转文字的后处理助手。"));
    assert_eq!(client.authorization(), "Bearer k");
}

#[test]
fn edit_and_translate_requests() {
    let client = LlmClient::new("k".to_string());
    assert_eq!(done(client.edit_text_request("", "改短")), "");
    assert_eq!(done(client.edit_text_request("原文", "")), "原文");
    let (system, user) = sent(client.edit_text_request("原文", "改短"));
    assert_eq!(system, EDIT_TEXT_SYSTEM_PROMPT);
    assert_eq!(user, "选中的文本：\n原文\n\n指令：改短");
    assert_eq!(done(client.translate_request("", "English")), "");
    let (system, user) = sent(client.translate_request("你好", "English"));
    assert_eq!(system, format!("{}English{}", TRANSLATE_PROMPT_PREFIX, TRANSLATE_PROMPT_SUFFIX));
    assert_eq!(
        system,
        "你是一个翻译助手。将用户输入的文本翻译成English。只返回翻译结果，不要添加任何解释。保持原文的语气和风格。"
    );
    assert_eq!(user, "你好");
}

#[test]
fn empty_reply_falls_back() {
    assert_eq!(fallback_if_empty("raw", String::new()), "raw");
    assert_eq!(fallback_if_empty("raw", "polished".to_string()), "polished");
}

#[test]
fn test_parse_stream_chunk() {
    let mut d = SseDecoder::new();
    let payloads = d.feed(b"data: {\"choices\":[{\"delta\":{\"content\":\"\xe4\xbd\xa0\xe5\xa5\xbd\"},\"index\":0}]}\n");
    assert_eq!(payloads, vec!["{\"choices\":[{\"delta\":{\"content\":\"你好\"},\"index\":0}]}".to_string()]);
}

#[test]
fn sse_lines_split_across_chunks() {
    let mut d = SseDecoder::new();
    assert!(d.feed(b"data: {\"a\"").is_empty());
    assert_eq!(d.feed(b":1}\n: keep-alive\ndata: x\n"), vec!["{\"a\":1}".to_string(), "x".to_string()]);
    d.push_content("  你");
    d.push_content("好 \n");
    assert_eq!(d.finish(), "你好");
}

#[test]
fn test_parse_stream_chunk_no_content() {
    let mut d = SseDecoder::new();
    let p = d.feed(b"data: {\"choices\":[{\"delta\":{},\"index\":0,\"finish_reason\":\"stop\"}]}\n");
    assert_eq!(p.len(), 1);
    assert_eq!(d.finish(), "");
}

#[test]
fn sse_done_stops_the_current_chunk() {
    let mut d = SseDecoder::new();
    assert_eq!(d.feed(b"data: a\ndata: [DONE]\ndata: b\n"), vec!["a".to_string()]);
    // The line after [DONE] is still buffered and comes out with the next chunk.
    assert_eq!(d.feed(b""), vec!["b".to_string()]);
}

#[test]
fn llm_error_messages() {
    assert_eq!(LlmError::NetworkError("a".into()).message(), "Network error: a");
    assert_eq!(LlmError::ApiError("b".into()).message(), "API error: b");
    assert_eq!(LlmError::ParseError("c".into()).message(), "Failed to parse API response: c");
}

#[test]
fn events_add_the_first_choice_content() {
    let mut d = SseDecoder::new();
    d.push_event(Ok(vec![Some("你".to_string()), Some("x".to_string())]));
    d.push_event(Ok(vec![None]));
    d.push_event(Ok(vec![]));
    d.push_event(Err("not json".to_string()));
    d.push_event(Ok(vec![Some("好".to_string())]));
    assert_eq!(d.finish(), "你好");
}

#[test]
fn polish_falls_back_on_failure() {
    assert_eq!(polish_reply("raw", Err(LlmError::NetworkError("down".into()))), "raw");
    assert_eq!(polish_reply("raw", Ok(String::new())), "raw");
    assert_eq!(polish_reply("raw", Ok("Raw.".into())), "Raw.");
}

#[test]
fn any_chunking_gives_the_same_payloads() {
    let body = "data: {\"a\":\"你\"}\n: ping\n  data: b  \ndata: c\ndata: [DONE]\n";
    let mut whole = SseDecoder::new();
    let expected = whole.feed(body.as_bytes());
    assert_eq!(expected, vec!["{\"a\":\"你\"}".to_string(), "b".to_string(), "c".to_string()]);
    let cuts: Vec<usize> = body.char_indices().map(|(i, _)| i).collect();
    for &i in &cuts {
        for &j in &cuts {
            if i > j {
                continue;
            }
            let mut d = SseDecoder::new();
            let mut got = d.feed(body[..i].as_bytes());
            got.extend(d.feed(body[i..j].as_bytes()));
            got.extend(d.feed(body[j..].as_bytes()));
            assert_eq!(got, expected, "cuts at {i} and {j}");
        }
    }
}
