//! Building the two request bodies, validating the credential, classifying
//! an HTTP outcome, and normalizing a response into the uniform record.
//!
//! The response text is parsed through serde_json behind a trusted wrapper;
//! everything that reads the parsed value is verified over the library's
//! own [`Json`] model.

use vstd::prelude::*;
use crate::config::Config;
use crate::error::AppError;
use crate::json::Json;
use crate::models::ApiResponse;
use crate::models::ChatCompletionRequest;
use crate::models::ChatMessage;
use crate::models::CompletionRequest;

verus! {

// ---------------------------------------------------------------------------
// Request builders
// ---------------------------------------------------------------------------

/// Build a completion request body: model and temperature come from the
/// settings, the token cap is the caller's override or the settings
/// default.
pub fn build_completion_request(
    config: &Config,
    prompt: &str,
    suffix: &str,
    max_tokens: Option<u32>,
) -> (r: CompletionRequest)
    ensures
        r.model@ == config@.code_model,
        r.prompt@ == prompt@,
        r.suffix@ == suffix@,
        r.max_tokens == (match max_tokens {
            Some(m) => m,
            None => config.max_tokens_code,
        }),
        r.temperature_milli == config.code_temperature_milli,
{
    CompletionRequest {
        model: config.code_model.clone(),
        prompt: prompt.to_owned(),
        suffix: suffix.to_owned(),
        max_tokens: match max_tokens {
            Some(m) => m,
            None => config.max_tokens_code,
        },
        temperature_milli: config.code_temperature_milli,
    }
}

/// Build a chat request body: exactly one message with role `user`, and
/// always an explicit token cap — the caller's override or the settings
/// default.
pub fn build_chat_request(config: &Config, message: &str, max_tokens: Option<u32>) -> (r:
    ChatCompletionRequest)
    ensures
        r.model@ == config@.chat_model,
        r.messages@.len() == 1,
        r.messages@[0].role@ == "user"@,
        r.messages@[0].content@ == message@,
        r.max_tokens == Some(
            match max_tokens {
                Some(m) => m,
                None => config.max_tokens_chat,
            },
        ),
        r.temperature_milli == config.chat_temperature_milli,
{
    let mut messages: Vec<ChatMessage> = Vec::new();
    messages.push(ChatMessage { role: "user".to_owned(), content: message.to_owned() });
    ChatCompletionRequest {
        model: config.chat_model.clone(),
        messages,
        max_tokens: Some(
            match max_tokens {
                Some(m) => m,
                None => config.max_tokens_chat,
            },
        ),
        temperature_milli: config.chat_temperature_milli,
    }
}

// ---------------------------------------------------------------------------
// Credential validation
// ---------------------------------------------------------------------------

/// Validate the API key drawn from the environment.
///
/// `value` is what the variable named `env_name` held, `None` when it was
/// unset.  An absent or empty value is a missing credential, detected
/// before any network work.
pub fn get_api_key(env_name: &str, value: Option<String>) -> (r: Result<String, AppError>)
    ensures
        r is Ok <==> (value matches Some(v) && v@.len() > 0),
        r matches Ok(k) ==> k@ == value->0@,
        r matches Err(e) ==> e matches AppError::MissingCredential(n) && n@ == env_name@,
{
    match value {
        Some(v) => if !v.as_str().is_empty() {
            Ok(v)
        } else {
            Err(AppError::MissingCredential(env_name.to_owned()))
        },
        None => Err(AppError::MissingCredential(env_name.to_owned())),
    }
}

// ---------------------------------------------------------------------------
// Parsing the response text (trusted)
// ---------------------------------------------------------------------------

#[verifier::external_type_specification]
#[verifier::external_body]
pub struct ExValue(serde_json::Value);

/// The JSON value a text denotes, as [`Json`] models it, when the text is
/// valid JSON.
pub uninterp spec fn parsed_json(s: Seq<char>) -> Option<Json>;

/// Relies on serde_json::Value and serde_json::Number::as_u64: each
/// variant is moved into the library's model, a number keeping its value
/// exactly when it is an unsigned 64-bit integer.
#[verifier::external_body]
fn json_of_value(v: serde_json::Value) -> Json {
    match v {
        serde_json::Value::Null => Json::Null,
        serde_json::Value::Bool(b) => Json::Bool(b),
        serde_json::Value::Number(n) => match n.as_u64() {
            Some(u) => Json::Num(u),
            None => Json::OtherNum,
        },
        serde_json::Value::String(s) => Json::Str(s),
        serde_json::Value::Array(items) => Json::Arr(items.into_iter().map(json_of_value).collect()),
        serde_json::Value::Object(map) => Json::Obj(map.into_iter().map(|(k, val)| (k, json_of_value(val))).collect()),
    }
}

/// Relies on serde_json::from_str: whether a text parses, and to what,
/// depends on the text alone.
#[verifier::external_body]
fn parse_json(s: &str) -> (r: Option<Json>)
    ensures
        r == parsed_json(s@),
{
    match serde_json::from_str::<serde_json::Value>(s) {
        Ok(v) => Some(json_of_value(v)),
        Err(_) => None,
    }
}

// ---------------------------------------------------------------------------
// Classifying an HTTP outcome
// ---------------------------------------------------------------------------

/// Classify one HTTP outcome: a status outside the success range is an
/// API failure carrying the status and the body text; a success whose
/// body is not JSON is a malformed response; otherwise the parsed body.
pub fn interpret_response(status: u16, body: String) -> (r: Result<Json, AppError>)
    ensures
        !(200 <= status < 300) ==> (r matches Err(e) && e matches AppError::ApiFailure {
            status: st,
            body: b,
        } && st == status && b@ == body@),
        200 <= status < 300 && parsed_json(body@) is None ==> r == Err::<
            Json,
            AppError,
        >(AppError::MalformedResponse),
        200 <= status < 300 && parsed_json(body@) is Some ==> r == Ok::<Json, AppError>(
            parsed_json(body@)->0,
        ),
{
    if !(200 <= status && status < 300) {
        return Err(AppError::ApiFailure { status, body });
    }
    match parse_json(body.as_str()) {
        Some(j) => Ok(j),
        None => Err(AppError::MalformedResponse),
    }
}

// ---------------------------------------------------------------------------
// The response normalizer
// ---------------------------------------------------------------------------

/// A string field of an object, with its default on absence or mismatch.
pub open spec fn spec_str_field(j: Json, key: Seq<char>, default: Seq<char>) -> Seq<char> {
    match j.spec_get(key) {
        Some(v) => match v.spec_as_str() {
            Some(s) => s,
            None => default,
        },
        None => default,
    }
}

/// An unsigned integer narrowed to a non-negative `i64`, zero when out of
/// range.
pub open spec fn spec_clamp_u64(n: u64) -> i64 {
    if n <= i64::MAX {
        n as i64
    } else {
        0
    }
}

/// The creation timestamp: `created` as an unsigned integer, zero when
/// absent or out of range.
pub open spec fn spec_created(j: Json) -> i64 {
    match j.spec_get("created"@) {
        Some(v) => match v.spec_as_u64() {
            Some(n) => spec_clamp_u64(n),
            None => 0,
        },
        None => 0,
    }
}

/// The generated text: `choices[0].text` for the completion schema, else
/// `choices[0].message.content` for the chat schema, else nothing.
///
/// A present `text` field that is not a string yields nothing without
/// falling through to the chat shape.
pub open spec fn spec_content(j: Json) -> Option<Seq<char>> {
    match j.spec_get("choices"@) {
        Some(choices) => match choices.spec_first() {
            Some(first) => match first.spec_get("text"@) {
                Some(t) => match t.spec_as_str() {
                    Some(s) => Some(s),
                    None => None,
                },
                None => match first.spec_get("message"@) {
                    Some(msg) => match msg.spec_get("content"@) {
                        Some(c) => match c.spec_as_str() {
                            Some(s) => Some(s),
                            None => None,
                        },
                        None => None,
                    },
                    None => None,
                },
            },
            None => None,
        },
        None => None,
    }
}

/// The finish reason of the first choice, with its sentinel default.
pub open spec fn spec_finish_reason(j: Json) -> Seq<char> {
    match j.spec_get("choices"@) {
        Some(choices) => match choices.spec_first() {
            Some(first) => spec_str_field(first, "finish_reason"@, "unknown"@),
            None => "unknown"@,
        },
        None => "unknown"@,
    }
}

/// A token count under `usage`, zero when absent or out of range.
pub open spec fn spec_usage_field(j: Json, key: Seq<char>) -> i64 {
    match j.spec_get("usage"@) {
        Some(u) => match u.spec_get(key) {
            Some(v) => match v.spec_as_u64() {
                Some(n) => spec_clamp_u64(n),
                None => 0,
            },
            None => 0,
        },
        None => 0,
    }
}

fn get_str_field(j: &Json, key: &str, default: &str) -> (r: String)
    ensures
        r@ == spec_str_field(*j, key@, default@),
{
    match j.get(key) {
        Some(v) => match v {
            Json::Str(s) => s.clone(),
            _ => default.to_owned(),
        },
        None => default.to_owned(),
    }
}

fn clamp_u64(n: u64) -> (r: i64)
    ensures
        r == spec_clamp_u64(n),
{
    if n <= (i64::MAX as u64) {
        n as i64
    } else {
        0
    }
}

fn get_created(j: &Json) -> (r: i64)
    ensures
        r == spec_created(*j),
{
    match j.get("created") {
        Some(v) => match v {
            Json::Num(n) => clamp_u64(*n),
            _ => 0,
        },
        None => 0,
    }
}

fn get_content(j: &Json) -> (r: Option<String>)
    ensures
        r.deep_view() == spec_content(*j),
{
    match j.get("choices") {
        Some(choices) => match choices {
            Json::Arr(items) => if items.len() > 0 {
                let first = &items[0];
                match first.get("text") {
                    Some(t) => match t {
                        Json::Str(s) => Some(s.clone()),
                        _ => None,
                    },
                    None => match first.get("message") {
                        Some(msg) => match msg.get("content") {
                            Some(c) => match c {
                                Json::Str(s) => Some(s.clone()),
                                _ => None,
                            },
                            None => None,
                        },
                        None => None,
                    },
                }
            } else {
                None
            },
            _ => None,
        },
        None => None,
    }
}

fn get_finish_reason(j: &Json) -> (r: String)
    ensures
        r@ == spec_finish_reason(*j),
{
    match j.get("choices") {
        Some(choices) => match choices {
            Json::Arr(items) => if items.len() > 0 {
                get_str_field(&items[0], "finish_reason", "unknown")
            } else {
                "unknown".to_owned()
            },
            _ => "unknown".to_owned(),
        },
        None => "unknown".to_owned(),
    }
}

fn get_usage_field(j: &Json, key: &str) -> (r: i64)
    ensures
        r == spec_usage_field(*j, key@),
{
    match j.get("usage") {
        Some(u) => match u.get(key) {
            Some(v) => match v {
                Json::Num(n) => clamp_u64(*n),
                _ => 0,
            },
            None => 0,
        },
        None => 0,
    }
}

/// Normalize a response of either schema into the uniform record.
///
/// Total: every absent or mismatched field yields its documented default
/// instead of an error.
pub fn extract_response_fields(response: &Json) -> (r: ApiResponse)
    ensures
        r.id@ == spec_str_field(*response, "id"@, "unknown"@),
        r.object@ == spec_str_field(*response, "object"@, "unknown"@),
        r.model@ == spec_str_field(*response, "model"@, "unknown"@),
        r.created == spec_created(*response),
        r.content.deep_view() == spec_content(*response),
        r.finish_reason@ == spec_finish_reason(*response),
        r.completion_tokens == spec_usage_field(*response, "completion_tokens"@),
        r.total_tokens == spec_usage_field(*response, "total_tokens"@),
{
    ApiResponse {
        id: get_str_field(response, "id", "unknown"),
        object: get_str_field(response, "object", "unknown"),
        model: get_str_field(response, "model", "unknown"),
        created: get_created(response),
        content: get_content(response),
        finish_reason: get_finish_reason(response),
        completion_tokens: get_usage_field(response, "completion_tokens"),
        total_tokens: get_usage_field(response, "total_tokens"),
    }
}

} // verus!
