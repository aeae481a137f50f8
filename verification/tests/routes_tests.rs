//! Tests of authentication, the completion synthesizer, and the dispatch
//! of parsed requests.

use mock_openai::corpus::Corpus;
use mock_openai::routes::{
    auth_error_body, authorize, handle_completions, max_tokens_message, synthesize,
    synthesize_content, validate_bearer_token, AppState, AuthOutcome, OutputMode, Request,
    RouteResponse, Usage,
};
use mock_openai::stream::Frame;
use mock_openai::template::{
    render_chat_completion, ERROR_INVALID_API_KEY, ERROR_MISSING_API_KEY,
};

fn sonnet_corpus() -> Corpus {
    Corpus::new(vec![
        String::from("Shall"),
        String::from(" I"),
        String::from(" compare"),
        String::from(" thee"),
    ])
}

#[test]
fn bearer_token_validation() {
    assert!(validate_bearer_token("anything", &None));
    assert!(validate_bearer_token("", &None));
    let configured = Some(String::from("expected-token"));
    assert!(validate_bearer_token("expected-token", &configured));
    assert!(!validate_bearer_token("wrong", &configured));
    assert!(!validate_bearer_token("", &configured));
}

#[test]
fn authorization_outcomes() {
    assert_eq!(authorize(&None, None), AuthOutcome::Authorized);
    assert_eq!(authorize(&None, Some("whatever")), AuthOutcome::Authorized);
    let configured = Some(String::from("token-1"));
    assert_eq!(authorize(&configured, None), AuthOutcome::MissingKey);
    assert_eq!(authorize(&configured, Some("bad")), AuthOutcome::InvalidKey);
    assert_eq!(
        authorize(&configured, Some("token-1")),
        AuthOutcome::Authorized
    );
}

#[test]
fn auth_error_bodies() {
    assert_eq!(auth_error_body(&AuthOutcome::Authorized), None);
    assert_eq!(
        auth_error_body(&AuthOutcome::MissingKey),
        Some(ERROR_MISSING_API_KEY)
    );
    assert_eq!(
        auth_error_body(&AuthOutcome::InvalidKey),
        Some(ERROR_INVALID_API_KEY)
    );
}

#[test]
fn full_budget_returns_full_concatenation() {
    let corpus = sonnet_corpus();
    let (content, eff) = synthesize_content(&corpus, Some(10));
    assert_eq!(content, "Shall I compare thee");
    assert_eq!(eff, 4);
    let (content, eff) = synthesize_content(&corpus, Some(4));
    assert_eq!(content, "Shall I compare thee");
    assert_eq!(eff, 4);
    let (content, eff) = synthesize_content(&corpus, None);
    assert_eq!(content, "Shall I compare thee");
    assert_eq!(eff, 4);
}

#[test]
fn partial_budget_returns_prefix_concatenation() {
    let corpus = sonnet_corpus();
    let (content, eff) = synthesize_content(&corpus, Some(2));
    assert_eq!(content, "Shall I");
    assert_eq!(eff, 2);
    let (content, eff) = synthesize_content(&corpus, Some(0));
    assert_eq!(content, "");
    assert_eq!(eff, 0);
}

#[test]
fn non_streaming_scenario_two_tokens() {
    let corpus = sonnet_corpus();
    let request = Request {
        max_tokens: Some(2),
        stream: Some(false),
        include_usage: None,
    };
    match synthesize(&corpus, &request) {
        OutputMode::Completion(body) => {
            assert_eq!(body, render_chat_completion("Shall I", 2, 2));
            let v: serde_json::Value = serde_json::from_str(&body).unwrap();
            assert_eq!(v["choices"][0]["message"]["content"], "Shall I");
            assert_eq!(v["usage"]["completion_tokens"], 2);
            assert_eq!(v["usage"]["total_tokens"], 2);
        }
        _ => panic!("expected a non-streaming completion"),
    }
}

#[test]
fn dispatch_rejects_missing_and_invalid_keys() {
    let corpus = sonnet_corpus();
    let state = AppState {
        token: Some(String::from("k")),
        inter_token_latency: 0,
    };
    let request = Request {
        max_tokens: None,
        stream: None,
        include_usage: None,
    };
    match handle_completions(&state, None, &corpus, &request) {
        RouteResponse::Unauthorized(body) => assert_eq!(body, ERROR_MISSING_API_KEY),
        _ => panic!("expected an unauthorized response"),
    }
    match handle_completions(&state, Some("bad"), &corpus, &request) {
        RouteResponse::Unauthorized(body) => assert_eq!(body, ERROR_INVALID_API_KEY),
        _ => panic!("expected an unauthorized response"),
    }
}

#[test]
fn dispatch_without_configured_token_accepts_all() {
    let corpus = sonnet_corpus();
    let state = AppState {
        token: None,
        inter_token_latency: 0,
    };
    let request = Request {
        max_tokens: Some(2),
        stream: None,
        include_usage: None,
    };
    match handle_completions(&state, None, &corpus, &request) {
        RouteResponse::Completion(body) => {
            assert_eq!(body, render_chat_completion("Shall I", 2, 2));
        }
        _ => panic!("expected a completion"),
    }
}

#[test]
fn dispatch_streams_when_requested() {
    let corpus = sonnet_corpus();
    let state = AppState {
        token: Some(String::from("k")),
        inter_token_latency: 0,
    };
    let request = Request {
        max_tokens: Some(3),
        stream: Some(true),
        include_usage: Some(true),
    };
    match handle_completions(&state, Some("k"), &corpus, &request) {
        RouteResponse::Stream(mut session) => {
            let frames = session.collect_frames();
            assert_eq!(
                frames,
                vec![
                    Frame::Delta(String::from("Shall")),
                    Frame::Delta(String::from(" I")),
                    Frame::Finish(String::from(" compare")),
                    Frame::Usage(3, 3),
                    Frame::Done,
                ]
            );
        }
        _ => panic!("expected a stream"),
    }
}

#[test]
fn token_count_diagnostics_line() {
    let corpus = sonnet_corpus();
    assert_eq!(max_tokens_message(&corpus), "Max tokens: 4");
    let empty = Corpus::new(Vec::new());
    assert_eq!(max_tokens_message(&empty), "Max tokens: 0");
}

#[test]
fn default_usage_is_all_zeros() {
    let u = Usage::default();
    assert_eq!(u.prompt_tokens, 0);
    assert_eq!(u.completion_tokens, 0);
    assert_eq!(u.total_tokens, 0);
}

#[test]
fn corpus_accessors() {
    let corpus = sonnet_corpus();
    assert_eq!(corpus.total_count(), 4);
    assert_eq!(corpus.full_text().as_str(), "Shall I compare thee");
    assert_eq!(corpus.token(0).as_str(), "Shall");
    assert_eq!(corpus.token(3).as_str(), " thee");
    assert_eq!(corpus.join_prefix(3), "Shall I compare");
}
