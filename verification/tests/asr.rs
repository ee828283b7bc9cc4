use voice_typing::asr::{interpret_response, join_sentences, AsrClient, AsrError, DASHSCOPE_ASR_URL};

#[test]
fn test_asr_client_creation() {
    let client = AsrClient::new("test-key".to_string());
    assert_eq!(client.api_key(), "test-key");
}

#[test]
fn test_recognize_empty_audio() {
    let client = AsrClient::new("test-key".to_string());
    let result = client.prepare_request(&[]);
    assert!(matches!(result, Err(AsrError::EmptyAudio)));
}

#[test]
fn request_carries_base64_audio() {
    let client = AsrClient::new("k".to_string());
    let q = client.prepare_request(b"hello world~").unwrap();
    assert_eq!(q.audio, "aGVsbG8gd29ybGR+");
    assert_eq!(q.url, DASHSCOPE_ASR_URL);
    assert_eq!(q.authorization, "Bearer k");
    assert_eq!(q.model, "paraformer-realtime-v2");
    assert_eq!(q.format, "wav");
    assert_eq!(q.sample_rate, 16000);
    assert_eq!(client.prepare_request(b"a").unwrap().audio, "YQ==");
    assert_eq!(client.prepare_request(b"ab").unwrap().audio, "YWI=");
    assert_eq!(client.prepare_request(&[0xfb, 0xff]).unwrap().audio, "+/8=");
}

#[test]
fn test_parse_asr_response() {
    let sentences = vec!["你好".to_string(), "世界".to_string()];
    assert_eq!(join_sentences(&sentences), "你好世界");
    let r = interpret_response(true, "200 OK", "{}", Ok(Some(sentences)));
    assert_eq!(r.unwrap(), "你好世界");
}

#[test]
fn test_parse_empty_asr_response() {
    let r = interpret_response(true, "200 OK", "{\"output\": null}", Ok(None));
    assert!(matches!(r, Err(AsrError::EmptyResult)));
    let r = interpret_response(true, "200 OK", "{}", Ok(Some(vec![String::new()])));
    assert!(matches!(r, Err(AsrError::EmptyResult)));
}

#[test]
fn http_error_and_parse_error() {
    match interpret_response(false, "401 Unauthorized", "bad key", Ok(None)) {
        Err(AsrError::ApiError(m)) => assert_eq!(m, "HTTP 401 Unauthorized: bad key"),
        _ => panic!("expected an API error"),
    }
    match interpret_response(true, "200 OK", "oops", Err("expected value".to_string())) {
        Err(AsrError::ParseError(m)) => {
            assert_eq!(m, "Failed to parse response: expected value, body: oops")
        }
        _ => panic!("expected a parse error"),
    }
}

#[test]
fn asr_error_messages() {
    assert_eq!(AsrError::EmptyAudio.message(), "Empty audio data provided");
    assert_eq!(AsrError::EmptyResult.message(), "ASR returned empty result");
    assert_eq!(AsrError::NetworkError("t".into()).message(), "Network error: t");
    assert_eq!(AsrError::ApiError("u".into()).message(), "API error: u");
    assert_eq!(AsrError::ParseError("v".into()).message(), "Failed to parse API response: v");
}
