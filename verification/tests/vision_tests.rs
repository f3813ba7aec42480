use media_mcp::config::{default_prompt, VisionApiConfig};
use media_mcp::tools::vision::{
    after_attempt, build_request, unconfigured_result, interpret_response, messages_url, needs_downscale, needs_resize, read_failure,
    request_headers, resize_failure, retries_exhausted, AnthropicResponse, AttemptDecision,
    AttemptOutcome, ContentBlock, ResponseContent,
};

fn config() -> VisionApiConfig {
    VisionApiConfig {
        base_url: "https://api.example.com/anthropic/".to_string(),
        api_key: "SECRET-REDACTED".to_string(),
        model: "mimo-v2.5".to_string(),
        max_tokens: 1024,
        timeout_seconds: 30,
        prompt: default_prompt(),
    }
}

fn block(text: Option<&str>) -> ResponseContent {
    ResponseContent { content_type: "text".to_string(), text: text.map(|t| t.to_string()) }
}

#[test]
fn resize_only_above_ten_mebibytes() {
    assert!(!needs_resize(10 * 1024 * 1024));
    assert!(needs_resize(10 * 1024 * 1024 + 1));
    assert!(!needs_resize(0));
}

#[test]
fn request_holds_image_then_prompt() {
    let r = build_request(&config(), "image/png", b"hi");
    assert_eq!(r.model, "mimo-v2.5");
    assert_eq!(r.max_tokens, 1024);
    assert_eq!(r.messages.len(), 1);
    assert_eq!(r.messages[0].role, "user");
    match &r.messages[0].content[0] {
        ContentBlock::Image { source } => {
            assert_eq!(source.source_type, "base64");
            assert_eq!(source.media_type, "image/png");
            assert_eq!(source.data, "aGk=");
        }
        _ => panic!("first block must be the image"),
    }
    match &r.messages[0].content[1] {
        ContentBlock::Text { text } => assert_eq!(text, &default_prompt()),
        _ => panic!("second block must be the prompt"),
    }
}

#[test]
fn url_and_headers() {
    assert_eq!(messages_url("https://api.example.com/anthropic///"), "https://api.example.com/anthropic/v1/messages");
    assert_eq!(messages_url("https://api.example.com"), "https://api.example.com/v1/messages");
    assert_eq!(messages_url(""), "/v1/messages");
    let h = request_headers(&config());
    assert_eq!(h[0], ("x-api-key".to_string(), "SECRET-REDACTED".to_string()));
    assert_eq!(h[1], ("anthropic-version".to_string(), "2023-06-01".to_string()));
    assert_eq!(h[2], ("content-type".to_string(), "application/json".to_string()));
}

#[test]
fn answers_are_joined_and_truncation_flagged() {
    let r = interpret_response(&AnthropicResponse {
        content: vec![block(Some("A screen")), block(None), block(Some(" with a button."))],
        stop_reason: Some("end_turn".to_string()),
    });
    assert_eq!(r.description.as_deref(), Some("A screen with a button."));
    assert!(r.warning.is_none());
    let r = interpret_response(&AnthropicResponse {
        content: vec![block(Some("Cut"))],
        stop_reason: Some("max_tokens".to_string()),
    });
    assert_eq!(r.description.as_deref(), Some("Cut"));
    assert_eq!(
        r.warning.as_deref(),
        Some("AI description was truncated (hit max_tokens limit). Increase max_tokens in config for longer descriptions.")
    );
    let r = interpret_response(&AnthropicResponse { content: vec![block(None)], stop_reason: None });
    assert!(r.description.is_none());
    assert_eq!(r.warning.as_deref(), Some("Vision API returned empty response"));
}

#[test]
fn first_failure_is_retried_second_is_reported() {
    assert!(matches!(after_attempt(0, AttemptOutcome::SendFailed("timeout".to_string())), AttemptDecision::Retry));
    assert!(matches!(after_attempt(0, AttemptOutcome::ParseFailed("eof".to_string())), AttemptDecision::Retry));
    match after_attempt(1, AttemptOutcome::HttpError { status: "500 Internal Server Error".to_string(), body: "oops".to_string() }) {
        AttemptDecision::Finish(r) => {
            assert!(r.description.is_none());
            assert_eq!(r.warning.as_deref(), Some("Vision API error 500 Internal Server Error: oops"));
        }
        AttemptDecision::Retry => panic!("no third attempt"),
    }
    match after_attempt(1, AttemptOutcome::SendFailed("timeout".to_string())) {
        AttemptDecision::Finish(r) => assert_eq!(r.warning.as_deref(), Some("Vision API request failed: timeout")),
        AttemptDecision::Retry => panic!("no third attempt"),
    }
    match after_attempt(1, AttemptOutcome::ParseFailed("eof".to_string())) {
        AttemptDecision::Finish(r) => assert_eq!(r.warning.as_deref(), Some("Failed to parse vision API response: eof")),
        AttemptDecision::Retry => panic!("no third attempt"),
    }
    match after_attempt(0, AttemptOutcome::Parsed(AnthropicResponse { content: vec![block(Some("ok"))], stop_reason: None })) {
        AttemptDecision::Finish(r) => assert_eq!(r.description.as_deref(), Some("ok")),
        AttemptDecision::Retry => panic!("a read answer is final"),
    }
}

#[test]
fn failure_messages() {
    assert_eq!(read_failure("denied").warning.as_deref(), Some("Failed to read image file: denied"));
    assert_eq!(resize_failure("bad").warning.as_deref(), Some("Failed to resize large image: bad"));
    assert_eq!(retries_exhausted().warning.as_deref(), Some("Vision API failed after retry"));
}

#[test]
fn downscale_only_above_2048_pixels() {
    assert!(!needs_downscale(2048, 2048));
    assert!(needs_downscale(2049, 10));
    assert!(needs_downscale(10, 4000));
    assert!(!needs_downscale(0, 0));
}

#[test]
fn empty_api_key_gives_a_clear_warning() {
    let mut c = config();
    c.api_key = String::new();
    let r = unconfigured_result(&c).expect("no key, no request");
    assert!(r.description.is_none());
    assert_eq!(r.warning.as_deref(), Some("Vision API is not configured: vision_api.api_key is empty"));
    c.api_key = "k".to_string();
    assert!(unconfigured_result(&c).is_none());
}
