use help_me_write::client::{
    build_fix_request, build_test_request, classify_transport_error, extract_corrected,
    interpret_fix_response, interpret_test_response, transport_failure, CorrectionError,
    FIX_TIMEOUT_SECS, TEST_TIMEOUT_SECS,
};
use help_me_write::config::ResolvedConfig;
use help_me_write::protocol::{json_escape, strip_markdown_code_fence};

fn config() -> ResolvedConfig {
    ResolvedConfig {
        endpoint: "http://box:8080/v1/".to_string(),
        api_key: "secret-key".to_string(),
        model: "m1".to_string(),
        system_prompt: "be brief".to_string(),
    }
}

/// A response body whose single choice carries `content`.
fn body_with_content(content: &str) -> String {
    format!(
        "{{\"choices\":[{{\"message\":{{\"content\":\"{}\"}}}}]}}",
        json_escape(content)
    )
}

#[test]
fn fenced_json_content_is_unwrapped() {
    let body = body_with_content("```json\n{\"corrected\":\"Hi there.\"}\n```");
    let r = interpret_fix_response("orig".to_string(), 200, body).unwrap();
    assert_eq!(r.corrected, "Hi there.");
    assert_eq!(r.original, "orig");
    assert!(r.explanation.is_none());
}

#[test]
fn bare_fence_is_also_stripped() {
    let body = body_with_content("```\n{\"corrected\":\"Hi there.\"}\n```");
    let r = interpret_fix_response("orig".to_string(), 200, body).unwrap();
    assert_eq!(r.corrected, "Hi there.");
}

#[test]
fn plain_content_passes_through_verbatim() {
    let body = body_with_content("Hi there.");
    let r = interpret_fix_response("orig".to_string(), 200, body).unwrap();
    assert_eq!(r.corrected, "Hi there.");
}

#[test]
fn non_string_corrected_field_falls_back_to_the_whole_content() {
    let body = body_with_content("{\"corrected\":5}");
    let r = interpret_fix_response("orig".to_string(), 200, body).unwrap();
    assert_eq!(r.corrected, "{\"corrected\":5}");
}

#[test]
fn unparsable_fenced_content_passes_through_with_its_fence() {
    // The fence is stripped only for the strict parse attempt; once that
    // fails, the entire content is the corrected text, fence and all.
    let body = body_with_content("```\nhello\n```");
    let r = interpret_fix_response("orig".to_string(), 200, body).unwrap();
    assert_eq!(r.corrected, "```\nhello\n```");
    assert_eq!(extract_corrected("```\nhello\n```"), "```\nhello\n```");
}

#[test]
fn blank_input_is_rejected_before_any_network_call() {
    // An `Err` here means no request plan ever exists, so the host has
    // nothing to send: zero network calls by construction.
    let r = build_fix_request("", &config());
    assert!(matches!(r, Err(CorrectionError::Validation)));
    let r = build_fix_request("   ", &config());
    assert!(matches!(r, Err(CorrectionError::Validation)));
    let e = build_fix_request("\t\n", &config()).unwrap_err();
    assert_eq!(e.message(), "No text to fix after filtering.");
    // Unicode whitespace counts as blank too, as `str::trim` would have it.
    let r = build_fix_request("\u{a0}\u{2003}", &config());
    assert!(matches!(r, Err(CorrectionError::Validation)));
}

#[test]
fn api_failure_carries_status_and_body() {
    let r = interpret_fix_response("x".to_string(), 500, "upstream fell over".to_string());
    match r.unwrap_err() {
        CorrectionError::Api { status, body } => {
            assert_eq!(status, 500);
            assert_eq!(body, "upstream fell over");
        }
        other => panic!("expected the API error, got {:?}", other),
    }
    let e = interpret_fix_response("x".to_string(), 404, "nf".to_string()).unwrap_err();
    assert_eq!(e.message(), "API error 404: nf");
}

#[test]
fn unreadable_envelope_is_a_protocol_error() {
    let r = interpret_fix_response("x".to_string(), 200, "not json at all".to_string());
    assert!(matches!(r, Err(CorrectionError::Protocol)));
    let r = interpret_fix_response("x".to_string(), 200, "{\"choices\":[]}".to_string());
    assert!(matches!(r, Err(CorrectionError::Protocol)));
    let null_content = "{\"choices\":[{\"message\":{\"content\":null}}]}".to_string();
    let r = interpret_fix_response("x".to_string(), 200, null_content);
    assert!(matches!(r, Err(CorrectionError::Protocol)));
}

#[test]
fn connectivity_test_needs_only_one_choice() {
    let null_content = "{\"choices\":[{\"message\":{\"content\":null}}]}".to_string();
    assert!(interpret_test_response(200, null_content).is_ok());
    let r = interpret_test_response(200, "{\"choices\":[]}".to_string());
    assert!(matches!(r, Err(CorrectionError::Protocol)));
    let r = interpret_test_response(200, "nope".to_string());
    assert!(matches!(r, Err(CorrectionError::Protocol)));
    let r = interpret_test_response(503, "down".to_string());
    match r.unwrap_err() {
        CorrectionError::Api { status, body } => {
            assert_eq!(status, 503);
            assert_eq!(body, "down");
        }
        other => panic!("expected the API error, got {:?}", other),
    }
}

#[test]
fn fix_request_is_framed_exactly() {
    let plan = build_fix_request("Fix \"this\"\nplease", &config()).unwrap();
    assert_eq!(plan.url, "http://box:8080/v1/chat/completions");
    assert_eq!(plan.bearer_key.as_deref(), Some("secret-key"));
    assert_eq!(plan.timeout_secs, FIX_TIMEOUT_SECS);
    assert_eq!(
        plan.body,
        "{\"model\":\"m1\",\"messages\":[{\"role\":\"system\",\"content\":\"be brief\"},\
         {\"role\":\"user\",\"content\":\"Fix the grammar and style of this text:\\n\\nFix \\\"this\\\"\\nplease\"}],\
         \"response_format\":{\"type\":\"json_object\"}}"
    );
}

#[test]
fn test_request_is_framed_exactly() {
    let plan = build_test_request(&config());
    assert_eq!(plan.url, "http://box:8080/v1/chat/completions");
    assert_eq!(plan.timeout_secs, TEST_TIMEOUT_SECS);
    assert_eq!(
        plan.body,
        "{\"model\":\"m1\",\"messages\":[{\"role\":\"system\",\"content\":\"Reply with only the word OK.\"},\
         {\"role\":\"user\",\"content\":\"test\"}]}"
    );
}

#[test]
fn empty_key_omits_the_bearer_header() {
    let mut cfg = config();
    cfg.api_key = String::new();
    let plan = build_test_request(&cfg);
    assert!(plan.bearer_key.is_none());
    let plan = build_fix_request("hello", &cfg).unwrap();
    assert!(plan.bearer_key.is_none());
}

#[test]
fn fence_stripping_handles_the_common_shapes() {
    assert_eq!(strip_markdown_code_fence("```json\n{\"a\":1}\n```"), "{\"a\":1}");
    assert_eq!(strip_markdown_code_fence("``` {\"a\":1} ```"), "{\"a\":1}");
    assert_eq!(strip_markdown_code_fence("  plain text  "), "plain text");
    assert_eq!(strip_markdown_code_fence("```"), "");
    assert_eq!(strip_markdown_code_fence(""), "");
}

#[test]
fn json_escaping_covers_quotes_backslashes_and_controls() {
    assert_eq!(json_escape("plain"), "plain");
    assert_eq!(json_escape("a\"b"), "a\\\"b");
    assert_eq!(json_escape("a\\b"), "a\\\\b");
    assert_eq!(json_escape("a\nb\tc\r"), "a\\nb\\tc\\r");
    assert_eq!(json_escape("\u{8}\u{c}"), "\\b\\f");
    assert_eq!(json_escape("\u{1}\u{1f}"), "\\u0001\\u001f");
    assert_eq!(json_escape("héllo ✓"), "héllo ✓");
}

#[test]
fn extraction_is_lenient_about_extra_members() {
    assert_eq!(
        extract_corrected("{\"corrected\":\"done\",\"note\":\"x\"}"),
        "done"
    );
}

#[test]
fn transport_failures_carry_the_flag_and_the_cause() {
    match transport_failure(true, "deadline passed".to_string()) {
        CorrectionError::Timeout { cause } => assert_eq!(cause, "deadline passed"),
        other => panic!("expected the timeout error, got {:?}", other),
    }
    match transport_failure(false, "connection refused".to_string()) {
        CorrectionError::Network { cause } => assert_eq!(cause, "connection refused"),
        other => panic!("expected the network error, got {:?}", other),
    }
}

#[test]
fn transport_failures_map_into_the_taxonomy() {
    let client = reqwest::blocking::Client::builder()
        .timeout(std::time::Duration::from_secs(2))
        .build()
        .unwrap();
    // Port 9 is the discard service; nothing listens there, so the send
    // fails below HTTP.
    let err = client
        .post("http://127.0.0.1:9/chat/completions")
        .body("{}")
        .send()
        .expect_err("nothing listens on the discard port");
    let e = classify_transport_error(&err);
    assert!(matches!(
        e,
        CorrectionError::Network { .. } | CorrectionError::Timeout { .. }
    ));
}
