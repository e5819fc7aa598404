use llm_sdk::{
    ApiError, ChatCompletionRequest, Client, CreateImageRequest, Decode, EmbeddingInput,
    EmbeddingRequest, Exchange, LlmSdk, Middleware, Reading, RetryMiddleware, RetryMode,
    RetryPolicy, SpeechRequest, TransportRequest, WhisperRequest, WhisperRequestBuilder,
    WhisperRequestType, WhisperResponse, WhisperResponseFormat, TIMEOUT,
};

const BASE: &str = "https://api.openai.com/v1";

fn whisper(format: WhisperResponseFormat, kind: WhisperRequestType) -> WhisperRequest {
    WhisperRequestBuilder::default()
        .file(vec![1, 2])
        .response_format(format)
        .request_type(kind)
        .build()
        .unwrap()
}

fn exchange(decode: Decode) -> Exchange {
    Exchange { request: TransportRequest::post("http://h".to_string()), decode }
}

#[test]
fn new_keeps_its_arguments() {
    let sdk = LlmSdk::new(BASE, "secret", 3);
    assert_eq!(sdk.base_url(), BASE);
    assert_eq!(sdk.token(), "secret");
}

#[test]
fn tracing_wraps_retry() {
    let sdk = LlmSdk::new(BASE, "secret", 3);
    let client = sdk.client();
    assert_eq!(client.len(), 2);
    assert_eq!(client.link(0), Some(Middleware::Tracing));
    assert_eq!(
        client.link(1),
        Some(Middleware::Retry(RetryMiddleware { policy: RetryPolicy::with_max_retries(3) }))
    );
    assert_eq!(client.link(2), None);
    assert_eq!(*client, Client::new(RetryPolicy::with_max_retries(3)));
}

#[test]
fn empty_token_sends_no_authorization() {
    let sdk = LlmSdk::new(BASE, "", 3);
    let req = sdk.prepare_request(SpeechRequest::new("hi"));
    assert_eq!(req.get_header("authorization"), None);
    assert_eq!(req.headers.len(), 1);
    assert_eq!(req.content_type(), Some("application/json"));
}

#[test]
fn token_is_sent_as_bearer() {
    let sdk = LlmSdk::new(BASE, "sk-123", 3);
    let req = sdk.prepare_request(SpeechRequest::new("hi"));
    assert_eq!(req.get_header("authorization"), Some("Bearer sk-123"));
    assert_eq!(req.headers.len(), 2);
    let form = sdk.prepare_request(WhisperRequest::transcription(vec![1]));
    assert_eq!(form.get_header("authorization"), Some("Bearer sk-123"));
    assert_eq!(form.content_type(), Some("multipart/form-data"));
    assert_eq!(form.retry_mode(), RetryMode::Bypass);
}

#[test]
fn every_request_gets_the_timeout() {
    assert_eq!(TIMEOUT, 30);
    let sdk = LlmSdk::new(BASE, "t", 0);
    assert_eq!(sdk.prepare_request(SpeechRequest::new("hi")).timeout, Some(30));
    assert_eq!(sdk.prepare_request(ChatCompletionRequest {}).timeout, Some(30));
    assert_eq!(sdk.prepare_request(WhisperRequest::translation(vec![])).timeout, Some(30));
    let bare = LlmSdk::new(BASE, "", 0);
    assert_eq!(bare.prepare_request(CreateImageRequest::new("x")).timeout, Some(30));
}

#[test]
fn prepare_request_builds_against_the_base_url() {
    let sdk = LlmSdk::new("http://localhost:8080", "", 1);
    let req = sdk.prepare_request(EmbeddingRequest::new(EmbeddingInput::from("hello")));
    assert_eq!(req.url, "http://localhost:8080/embeddings");
}

#[test]
fn operations_choose_how_to_read_the_result() {
    let sdk = LlmSdk::new(BASE, "t", 3);
    assert_eq!(sdk.chat_completion(ChatCompletionRequest {}).decode, Decode::Json);
    assert_eq!(sdk.create_image(CreateImageRequest::new("x")).decode, Decode::Json);
    assert_eq!(sdk.embedding(EmbeddingRequest::new_array(vec![])).decode, Decode::Json);
    assert_eq!(sdk.speech(SpeechRequest::new("x")).decode, Decode::Bytes);
    let image = sdk.create_image(CreateImageRequest::new("x"));
    assert_eq!(image.request, sdk.prepare_request(CreateImageRequest::new("x")));
}

#[test]
fn speech_returns_raw_bytes_on_200() {
    let sdk = LlmSdk::new(BASE, "", 3);
    let call = sdk.speech(SpeechRequest::new("The quick brown fox jumped over the lazy dog."));
    assert_eq!(call.request.get_header("authorization"), None);
    assert_eq!(call.decode, Decode::Bytes);
    assert_eq!(call.on_status(200), Reading::Success(Decode::Bytes));
}

#[test]
fn whisper_reads_json_only_when_json_was_asked_for() {
    let sdk = LlmSdk::new(BASE, "t", 3);
    for kind in [WhisperRequestType::Transcription, WhisperRequestType::Translation] {
        assert_eq!(sdk.whisper(whisper(WhisperResponseFormat::Json, kind)).decode, Decode::Json);
        for format in [
            WhisperResponseFormat::Text,
            WhisperResponseFormat::Srt,
            WhisperResponseFormat::VerboseJson,
            WhisperResponseFormat::Vtt,
        ] {
            let call = sdk.whisper(whisper(format, kind));
            assert_eq!(call.decode, Decode::Text);
            assert_eq!(call.on_status(200), Reading::Success(Decode::Text));
        }
    }
}

#[test]
fn plain_text_is_returned_verbatim() {
    let body = "{\"text\": \"not parsed\"}\n";
    assert_eq!(WhisperResponse::from_text(body.to_string()).text, body);
    let vtt = "WEBVTT\n\n00:00:00.000 --> 00:00:02.800\nThe quick brown fox jumped over the lazy dog.\n\n";
    assert_eq!(WhisperResponse::from_text(vtt.to_string()).text, vtt);
    assert_eq!(
        exchange(Decode::Text).conclude_text(200, vtt.to_string()),
        Ok(vtt.to_string())
    );
}

#[test]
fn status_decides_between_failure_and_success() {
    for decode in [Decode::Json, Decode::Text, Decode::Bytes] {
        let call = exchange(decode);
        for status in 0u16..=1200 {
            let expected = if (400..=599).contains(&status) {
                Reading::Failure
            } else {
                Reading::Success(decode)
            };
            assert_eq!(call.on_status(status), expected, "status {}", status);
        }
        assert_eq!(call.on_status(200), Reading::Success(decode));
        assert_eq!(call.on_status(399), Reading::Success(decode));
        assert_eq!(call.on_status(400), Reading::Failure);
        assert_eq!(call.on_status(599), Reading::Failure);
        assert_eq!(call.on_status(600), Reading::Success(decode));
        assert_eq!(call.on_status(u16::MAX), Reading::Success(decode));
    }
}

#[test]
fn is_failure_status_matches_the_range() {
    for status in 0u16..=u16::MAX {
        assert_eq!(llm_sdk::is_failure_status(status), (400..=599).contains(&status));
    }
}

#[test]
fn failure_carries_the_raw_text() {
    let raw = "{\"error\": {\"message\": \"bad key\"}}";
    let call = exchange(Decode::Json);
    assert_eq!(
        call.conclude_text(401, raw.to_string()),
        Err(ApiError { status: 401, text: raw.to_string() })
    );
    assert_eq!(
        call.conclude_text(500, String::new()),
        Err(ApiError { status: 500, text: String::new() })
    );
    assert_eq!(call.conclude_text(399, raw.to_string()), Ok(raw.to_string()));
    let error = ApiError::new(429, "slow down".to_string());
    assert_eq!(error.status, 429);
    assert_eq!(error.text, "slow down");
    assert_eq!(error.message(), "API failed: slow down");
}
