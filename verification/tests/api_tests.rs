use codestral_test_rs::api::{
    get_api_key, build_chat_request, build_completion_request, extract_response_fields,
    interpret_response,
};
use codestral_test_rs::config::Config;
use codestral_test_rs::error::AppError;
use codestral_test_rs::json::Json;

fn obj(entries: Vec<(&str, Json)>) -> Json {
    Json::Obj(entries.into_iter().map(|(k, v)| (k.to_string(), v)).collect())
}

fn s(text: &str) -> Json {
    Json::Str(text.to_string())
}

#[test]
fn test_extract_response_fields() {
    let chat_response = obj(vec![
        ("id", s("test-chat-id")),
        ("model", s("mistral-large-latest")),
        ("object", s("chat.completion")),
        ("created", Json::Num(1234567890)),
        (
            "choices",
            Json::Arr(vec![obj(vec![
                ("index", Json::Num(0)),
                (
                    "message",
                    obj(vec![
                        ("role", s("assistant")),
                        ("content", s("Hello! How can I help you today?")),
                    ]),
                ),
                ("finish_reason", s("stop")),
            ])]),
        ),
        (
            "usage",
            obj(vec![
                ("prompt_tokens", Json::Num(10)),
                ("completion_tokens", Json::Num(8)),
                ("total_tokens", Json::Num(18)),
            ]),
        ),
    ]);

    let api_response = extract_response_fields(&chat_response);
    assert_eq!(api_response.id, "test-chat-id");
    assert_eq!(api_response.model, "mistral-large-latest");
    assert_eq!(api_response.object, "chat.completion");
    assert_eq!(api_response.created, 1234567890);
    assert_eq!(api_response.finish_reason, "stop");
    assert_eq!(
        api_response.content,
        Some("Hello! How can I help you today?".to_string())
    );
    assert_eq!(api_response.completion_tokens, 8);
    assert_eq!(api_response.total_tokens, 18);
}

#[test]
fn test_content_completion_shape() {
    let response = obj(vec![("choices", Json::Arr(vec![obj(vec![("text", s("abc"))])]))]);
    assert_eq!(extract_response_fields(&response).content, Some("abc".to_string()));
}

#[test]
fn test_content_chat_shape() {
    let response = obj(vec![(
        "choices",
        Json::Arr(vec![obj(vec![("message", obj(vec![("content", s("xyz"))]))])]),
    )]);
    assert_eq!(extract_response_fields(&response).content, Some("xyz".to_string()));
}

#[test]
fn test_content_absent() {
    let empty_choices = obj(vec![("choices", Json::Arr(vec![]))]);
    assert_eq!(extract_response_fields(&empty_choices).content, None);

    let no_choices = obj(vec![("id", s("x"))]);
    assert_eq!(extract_response_fields(&no_choices).content, None);

    // a present but non-string `text` does not fall through to the chat shape
    let odd = obj(vec![(
        "choices",
        Json::Arr(vec![obj(vec![
            ("text", Json::Num(1)),
            ("message", obj(vec![("content", s("hidden"))])),
        ])]),
    )]);
    assert_eq!(extract_response_fields(&odd).content, None);
}

#[test]
fn test_usage_tokens() {
    let with_usage = obj(vec![(
        "usage",
        obj(vec![
            ("completion_tokens", Json::Num(42)),
            ("total_tokens", Json::Num(100)),
        ]),
    )]);
    let normalized = extract_response_fields(&with_usage);
    assert_eq!(normalized.completion_tokens, 42);
    assert_eq!(normalized.total_tokens, 100);

    let without_usage = obj(vec![("id", s("x"))]);
    let normalized = extract_response_fields(&without_usage);
    assert_eq!(normalized.completion_tokens, 0);
    assert_eq!(normalized.total_tokens, 0);
}

#[test]
fn test_defaults_on_empty_object() {
    let normalized = extract_response_fields(&obj(vec![]));
    assert_eq!(normalized.id, "unknown");
    assert_eq!(normalized.model, "unknown");
    assert_eq!(normalized.object, "unknown");
    assert_eq!(normalized.created, 0);
    assert_eq!(normalized.finish_reason, "unknown");
    assert_eq!(normalized.content, None);
}

#[test]
fn test_created_out_of_range() {
    let response = obj(vec![("created", Json::Num(u64::MAX))]);
    assert_eq!(extract_response_fields(&response).created, 0);
}

#[test]
fn test_interpret_response_api_failure() {
    match interpret_response(500, "server error".to_string()) {
        Err(AppError::ApiFailure { status, body }) => {
            assert_eq!(status, 500);
            assert_eq!(body, "server error");
        }
        other => panic!("expected an API failure, got {:?}", other.err()),
    }
}

#[test]
fn test_interpret_response_success_and_malformed() {
    let parsed = interpret_response(200, "{\"id\": \"resp-1\", \"created\": 7}".to_string())
        .expect("a valid JSON body must parse");
    let normalized = extract_response_fields(&parsed);
    assert_eq!(normalized.id, "resp-1");
    assert_eq!(normalized.created, 7);

    assert!(matches!(
        interpret_response(204, "not json".to_string()),
        Err(AppError::MalformedResponse)
    ));
}

#[test]
fn test_build_completion_request_defaults() {
    let settings = Config::default();
    let request = build_completion_request(&settings, "fn f(", ")", None);
    assert_eq!(request.model, "codestral-latest");
    assert_eq!(request.prompt, "fn f(");
    assert_eq!(request.suffix, ")");
    assert_eq!(request.max_tokens, settings.max_tokens_code);
    assert_eq!(request.temperature_milli, settings.code_temperature_milli);

    let capped = build_completion_request(&settings, "fn f(", ")", Some(64));
    assert_eq!(capped.max_tokens, 64);
}

#[test]
fn test_build_chat_request() {
    let settings = Config::default();
    let request = build_chat_request(&settings, "Hello!", None);
    assert_eq!(request.model, "mistral-large-latest");
    assert_eq!(request.messages.len(), 1);
    assert_eq!(request.messages[0].role, "user");
    assert_eq!(request.messages[0].content, "Hello!");
    assert_eq!(request.max_tokens, Some(settings.max_tokens_chat));
    assert_eq!(request.temperature_milli, settings.chat_temperature_milli);

    let capped = build_chat_request(&settings, "Hello!", Some(32));
    assert_eq!(capped.max_tokens, Some(32));
}

#[test]
fn test_get_api_key() {
    match get_api_key("CODESTRAL_API_KEY", Some("secret".to_string())) {
        Ok(key) => assert_eq!(key, "secret"),
        Err(e) => panic!("expected the key, got {:?}", e),
    }
    match get_api_key("CODESTRAL_API_KEY", Some(String::new())) {
        Err(AppError::MissingCredential(name)) => assert_eq!(name, "CODESTRAL_API_KEY"),
        other => panic!("expected a missing credential, got {:?}", other.err()),
    }
    match get_api_key("MISTRAL_API_KEY", None) {
        Err(AppError::MissingCredential(name)) => assert_eq!(name, "MISTRAL_API_KEY"),
        other => panic!("expected a missing credential, got {:?}", other.err()),
    }
}

#[test]
fn test_error_messages() {
    let failure = AppError::ApiFailure { status: 500, body: "server error".to_string() };
    assert_eq!(failure.message(), "API request failed with status 500: server error");
    assert_eq!(
        AppError::MissingCredential("MISTRAL_API_KEY".to_string()).message(),
        "Missing environment variable: MISTRAL_API_KEY"
    );
    assert_eq!(AppError::MalformedResponse.message(), "Failed to parse the API response as JSON");
    assert_eq!(AppError::config("bad file".to_string()).message(), "Configuration error: bad file");
}

#[test]
fn test_error_constructors() {
    assert!(matches!(AppError::config("m".to_string()), AppError::Config(_)));
    assert!(matches!(AppError::api("m".to_string()), AppError::Api(_)));
    assert!(matches!(AppError::logging("m".to_string()), AppError::Logging(_)));
    assert!(matches!(AppError::cli_usage("m".to_string()), AppError::CliUsage(_)));
    assert!(matches!(AppError::unknown("m".to_string()), AppError::Unknown(_)));
}
