//! The request/response protocol: framing a question into the wire request
//! and classifying response bodies into answers or typed failures.

use mixtral_cli::api::manage_errors::AppError;
use mixtral_cli::api::mixtral_api::{
    body_of_request, extract_answer, read_answer, MixtralAiApi, ParsedResponse, QuestionMessage,
    Request, ResponseChoice,
};

#[test]
fn prepare_request_single_user_message() {
    let api = MixtralAiApi::new("sk-test");
    let request = api.prepare_request("what is 2+2", "mistral-tiny");
    assert_eq!(request.messages.len(), 1);
    assert_eq!(request.messages[0].role, "user");
    assert_eq!(request.messages[0].content, "what is 2+2");
    assert_eq!(request.model, "mistral-tiny");
}

#[test]
fn prepare_request_content_verbatim() {
    let api = MixtralAiApi::new("sk-test");
    let request = api.prepare_request("  What is 2+2?  ", "mistral-small");
    assert_eq!(request.messages[0].content, "  What is 2+2?  ");
}

#[test]
fn request_body_exact() {
    let api = MixtralAiApi::new("sk-test");
    let request = api.prepare_request("what is 2+2", "mistral-tiny");
    let body = body_of_request(&request);
    assert_eq!(
        body,
        "{\"model\":\"mistral-tiny\",\"messages\":[{\"role\":\"user\",\"content\":\"what is 2+2\"}]}"
    );
}

#[test]
fn request_body_escapes_specials() {
    let api = MixtralAiApi::new("sk-test");
    let request = api.prepare_request("a\"b\\c\nd\te\r\u{1}f", "mistral-tiny");
    let body = body_of_request(&request);
    assert_eq!(
        body,
        "{\"model\":\"mistral-tiny\",\"messages\":[{\"role\":\"user\",\"content\":\"a\\\"b\\\\c\\nd\\te\\r\\u0001f\"}]}"
    );
}

#[test]
fn request_body_joins_messages_with_commas() {
    let request = Request {
        model: "mistral-tiny".to_string(),
        messages: vec![
            QuestionMessage { role: "user".to_string(), content: "one".to_string() },
            QuestionMessage { role: "user".to_string(), content: "two".to_string() },
        ],
    };
    let body = body_of_request(&request);
    assert_eq!(
        body,
        "{\"model\":\"mistral-tiny\",\"messages\":[{\"role\":\"user\",\"content\":\"one\"},{\"role\":\"user\",\"content\":\"two\"}]}"
    );
}

#[test]
fn auth_header_carries_bearer_token() {
    let api = MixtralAiApi::new("sk-x");
    assert_eq!(api.auth_header(), "Bearer sk-x");
}

#[test]
fn new_uses_fixed_endpoint() {
    let api = MixtralAiApi::new("sk-x");
    assert_eq!(api.base_url, "https://api.mistral.ai/v1/chat/completions");
    assert_eq!(api.token, "sk-x");
}

#[test]
fn new_with_base_url_overrides_endpoint() {
    let api = MixtralAiApi::new_with_base_url("http://localhost:8080/v1/chat", "sk-x");
    assert_eq!(api.base_url, "http://localhost:8080/v1/chat");
    assert_eq!(api.token, "sk-x");
}

#[test]
fn new_api_error_carries_code_and_message() {
    let e = MixtralAiApi::new_api_error(500, "Could not find answer field in JSON response");
    assert_eq!(e.code, 500);
    assert_eq!(e.msg, "Could not find answer field in JSON response");
}

#[test]
fn read_answer_returns_content() {
    let r = read_answer("{\"choices\":[{\"message\":{\"content\":\"4\"}}]}");
    match r {
        Ok(answer) => assert_eq!(answer, "4"),
        Err(_) => panic!("expected an answer"),
    }
}

#[test]
fn read_answer_takes_first_choice() {
    let r = read_answer(
        "{\"choices\":[{\"message\":{\"content\":\"first\"}},{\"message\":{\"content\":\"second\"}}]}",
    );
    match r {
        Ok(answer) => assert_eq!(answer, "first"),
        Err(_) => panic!("expected an answer"),
    }
}

#[test]
fn read_answer_empty_choices_is_protocol_failure() {
    let r = read_answer("{\"choices\":[]}");
    match r {
        Err(AppError::ApiProtocolFailure(e)) => {
            assert_eq!(e.code, 500);
            assert_eq!(e.msg, "Could not find answer field in JSON response");
        }
        _ => panic!("expected an API protocol failure"),
    }
}

#[test]
fn read_answer_missing_choices_is_protocol_failure() {
    let r = read_answer("{\"ok\":true}");
    assert!(matches!(r, Err(AppError::ApiProtocolFailure(_))));
}

#[test]
fn read_answer_choice_without_message_is_protocol_failure() {
    let r = read_answer("{\"choices\":[{}]}");
    assert!(matches!(r, Err(AppError::ApiProtocolFailure(_))));
}

#[test]
fn read_answer_content_not_a_string_is_protocol_failure() {
    let r = read_answer("{\"choices\":[{\"message\":{\"content\":7}}]}");
    assert!(matches!(r, Err(AppError::ApiProtocolFailure(_))));
}

#[test]
fn read_answer_invalid_json_is_serialization_failure() {
    let r = read_answer("not json at all");
    assert!(matches!(r, Err(AppError::SerializationFailure(_))));
}

#[test]
fn read_answer_html_body_is_serialization_failure() {
    // An HTTP 500 whose body is not JSON: the transport hands the body over,
    // so the parse is the first layer to observe it.
    let r = read_answer("<html>Internal Server Error</html>");
    assert!(matches!(r, Err(AppError::SerializationFailure(_))));
}

#[test]
fn extract_answer_reads_first_content() {
    let p = ParsedResponse::Choices(vec![
        ResponseChoice { content: Some("hi".to_string()) },
        ResponseChoice { content: None },
    ]);
    match extract_answer(p) {
        Ok(answer) => assert_eq!(answer, "hi"),
        Err(_) => panic!("expected an answer"),
    }
}

#[test]
fn extract_answer_keeps_parser_diagnostic() {
    let p = ParsedResponse::NotJson("expected value at line 1".to_string());
    match extract_answer(p) {
        Err(AppError::SerializationFailure(msg)) => {
            assert_eq!(msg, "expected value at line 1");
        }
        _ => panic!("expected a serialization failure"),
    }
}

#[test]
fn extract_answer_first_choice_without_content_is_protocol_failure() {
    let p = ParsedResponse::Choices(vec![
        ResponseChoice { content: None },
        ResponseChoice { content: Some("late".to_string()) },
    ]);
    assert!(matches!(extract_answer(p), Err(AppError::ApiProtocolFailure(_))));
}
