//! Decoding chat-completions response documents into the conversation
//! model.  The rules mirror a derived deserializer: required fields must be
//! present with the right type, optional fields may be missing or `null`,
//! and any wrong type fails the whole decode.

use vstd::prelude::*;

use crate::json::{Json, spec_get, spec_get_u64};
use crate::protocol::{FunctionCall, TokenUsage, ToolCall};

verus! {

/// Marker for a document that does not have the expected shape.
pub struct Malformed;

// ---------------------------------------------------------------------------
// field helpers
// ---------------------------------------------------------------------------
/// An optional string field is acceptable: missing, `null`, or a string.
pub open spec fn spec_opt_text_ok(j: Json, key: Seq<char>) -> bool {
    match spec_get(j, key) {
        None => true,
        Some(v) => v is Null || v is Text,
    }
}

/// The value of an optional string field, when it is a string.
pub open spec fn spec_opt_text(j: Json, key: Seq<char>) -> Option<Seq<char>> {
    match spec_get(j, key) {
        Some(Json::Text(s)) => Some(s@),
        _ => None,
    }
}

fn get_opt_text(j: &Json, key: &str) -> (r: Result<Option<String>, Malformed>)
    ensures
        r is Ok <==> spec_opt_text_ok(*j, key@),
        r matches Ok(o) ==> match o {
            Some(s) => spec_opt_text(*j, key@) == Some(s@),
            None => spec_opt_text(*j, key@) is None,
        },
{
    match j.get(key) {
        None => Ok(None),
        Some(v) => match v {
            Json::Null => Ok(None),
            Json::Text(s) => Ok(Some(s.clone())),
            _ => Err(Malformed),
        },
    }
}

/// A required counter field: present, integral, and within `u32`.
pub open spec fn spec_req_u32_ok(j: Json, key: Seq<char>) -> bool {
    spec_get_u64(j, key) matches Some(n) && n <= u32::MAX
}

/// The value of a required counter field.
pub open spec fn spec_req_u32(j: Json, key: Seq<char>) -> u32 {
    if spec_req_u32_ok(j, key) {
        spec_get_u64(j, key)->Some_0 as u32
    } else {
        0
    }
}

fn get_req_u32(j: &Json, key: &str) -> (r: Result<u32, Malformed>)
    ensures
        r is Ok <==> spec_req_u32_ok(*j, key@),
        r matches Ok(n) ==> n == spec_req_u32(*j, key@),
{
    match j.get_u64(key) {
        Some(n) => if n <= u32::MAX as u64 {
            Ok(n as u32)
        } else {
            Err(Malformed)
        },
        None => Err(Malformed),
    }
}

/// A required string field: present and a string.
pub open spec fn spec_req_text_ok(j: Json, key: Seq<char>) -> bool {
    spec_get(j, key) matches Some(v) && v is Text
}

/// The value of a required string field.
pub open spec fn spec_req_text(j: Json, key: Seq<char>) -> Seq<char> {
    match spec_get(j, key) {
        Some(Json::Text(s)) => s@,
        _ => Seq::empty(),
    }
}

pub fn get_req_text(j: &Json, key: &str) -> (r: Result<String, Malformed>)
    ensures
        r is Ok <==> spec_req_text_ok(*j, key@),
        r matches Ok(s) ==> s@ == spec_req_text(*j, key@),
{
    match j.get(key) {
        Some(v) => match v {
            Json::Text(s) => Ok(s.clone()),
            _ => Err(Malformed),
        },
        None => Err(Malformed),
    }
}

// ---------------------------------------------------------------------------
// usage
// ---------------------------------------------------------------------------
/// A usage snapshot document: the three counters, each a `u32`.
pub open spec fn spec_usage_ok(j: Json) -> bool {
    &&& spec_req_u32_ok(j, "prompt_tokens"@)
    &&& spec_req_u32_ok(j, "completion_tokens"@)
    &&& spec_req_u32_ok(j, "total_tokens"@)
}

/// The decoded snapshot matches the document field for field.
pub open spec fn usage_matches(u: TokenUsage, j: Json) -> bool {
    &&& u.prompt_tokens == spec_req_u32(j, "prompt_tokens"@)
    &&& u.completion_tokens == spec_req_u32(j, "completion_tokens"@)
    &&& u.total_tokens == spec_req_u32(j, "total_tokens"@)
}

/// Decodes a usage snapshot; fails exactly when a counter is missing, not
/// integral, or out of range.
pub fn decode_usage(j: &Json) -> (r: Result<TokenUsage, Malformed>)
    ensures
        r is Ok <==> spec_usage_ok(*j),
        r matches Ok(u) ==> usage_matches(u, *j),
{
    let prompt_tokens = match get_req_u32(j, "prompt_tokens") {
        Ok(n) => n,
        Err(e) => {
            return Err(e);
        },
    };
    let completion_tokens = match get_req_u32(j, "completion_tokens") {
        Ok(n) => n,
        Err(e) => {
            return Err(e);
        },
    };
    let total_tokens = match get_req_u32(j, "total_tokens") {
        Ok(n) => n,
        Err(e) => {
            return Err(e);
        },
    };
    Ok(TokenUsage { prompt_tokens, completion_tokens, total_tokens })
}

// ---------------------------------------------------------------------------
// tool calls
// ---------------------------------------------------------------------------
/// A tool-call document: `id` and `type` strings and a `function` object
/// with `name` and `arguments` strings.
pub open spec fn spec_tool_call_ok(j: Json) -> bool {
    &&& spec_req_text_ok(j, "id"@)
    &&& spec_req_text_ok(j, "type"@)
    &&& spec_get(j, "function"@) matches Some(f) && spec_req_text_ok(f, "name"@)
        && spec_req_text_ok(f, "arguments"@)
}

/// The decoded tool call matches the document field for field.
pub open spec fn tool_call_matches(t: ToolCall, j: Json) -> bool {
    &&& t.id@ == spec_req_text(j, "id"@)
    &&& t.call_type@ == spec_req_text(j, "type"@)
    &&& spec_get(j, "function"@) matches Some(f) && t.function.name@ == spec_req_text(f, "name"@)
        && t.function.arguments@ == spec_req_text(f, "arguments"@)
}

/// Decodes one tool call; fails exactly when the document does not have
/// the tool-call shape.
pub fn decode_tool_call(j: &Json) -> (r: Result<ToolCall, Malformed>)
    ensures
        r is Ok <==> spec_tool_call_ok(*j),
        r matches Ok(t) ==> tool_call_matches(t, *j),
{
    let id = match get_req_text(j, "id") {
        Ok(s) => s,
        Err(e) => {
            return Err(e);
        },
    };
    let call_type = match get_req_text(j, "type") {
        Ok(s) => s,
        Err(e) => {
            return Err(e);
        },
    };
    let f = match j.get("function") {
        Some(f) => f,
        None => {
            return Err(Malformed);
        },
    };
    let name = match get_req_text(f, "name") {
        Ok(s) => s,
        Err(e) => {
            return Err(e);
        },
    };
    let arguments = match get_req_text(f, "arguments") {
        Ok(s) => s,
        Err(e) => {
            return Err(e);
        },
    };
    Ok(ToolCall { id, call_type, function: FunctionCall { name, arguments } })
}

/// Every element of a tool-call array has the tool-call shape.
pub open spec fn spec_tool_calls_ok(items: Seq<Json>) -> bool {
    forall|i: int| 0 <= i < items.len() ==> spec_tool_call_ok(#[trigger] items[i])
}

/// The decoded list matches the array element for element.
pub open spec fn tool_calls_match(ts: Seq<ToolCall>, items: Seq<Json>) -> bool {
    &&& ts.len() == items.len()
    &&& forall|i: int| 0 <= i < items.len() ==> tool_call_matches(#[trigger] ts[i], items[i])
}

/// Decodes a tool-call array; fails exactly when some element is not a
/// well-shaped tool call.
pub fn decode_tool_calls(items: &Vec<Json>) -> (r: Result<Vec<ToolCall>, Malformed>)
    ensures
        r is Ok <==> spec_tool_calls_ok(items@),
        r matches Ok(ts) ==> tool_calls_match(ts@, items@),
{
    let mut out: Vec<ToolCall> = Vec::new();
    let n = items.len();
    let mut i: usize = 0;
    while i < n
        invariant
            i <= n,
            n == items@.len(),
            out@.len() == i,
            forall|k: int| 0 <= k < i ==> spec_tool_call_ok(#[trigger] items@[k]),
            forall|k: int| 0 <= k < i ==> tool_call_matches(#[trigger] out@[k], items@[k]),
        decreases n - i,
    {
        match decode_tool_call(&items[i]) {
            Ok(t) => {
                out.push(t);
            },
            Err(e) => {
                return Err(e);
            },
        }
        i += 1;
    }
    Ok(out)
}

/// An optional tool-call list: missing or `null` is absent; an array of
/// well-shaped tool calls is present; anything else is malformed.
pub open spec fn spec_opt_tool_calls_ok(j: Json, key: Seq<char>) -> bool {
    match spec_get(j, key) {
        None => true,
        Some(v) => match v {
            Json::Null => true,
            Json::Arr(items) => spec_tool_calls_ok(items@),
            _ => false,
        },
    }
}

/// The decoded optional list matches the field.
pub open spec fn opt_tool_calls_match(ts: Option<Vec<ToolCall>>, j: Json, key: Seq<char>) -> bool {
    match spec_get(j, key) {
        Some(Json::Arr(items)) => ts matches Some(v) && tool_calls_match(v@, items@),
        _ => ts is None,
    }
}

fn get_opt_tool_calls(j: &Json, key: &str) -> (r: Result<Option<Vec<ToolCall>>, Malformed>)
    ensures
        r is Ok <==> spec_opt_tool_calls_ok(*j, key@),
        r matches Ok(ts) ==> opt_tool_calls_match(ts, *j, key@),
{
    match j.get(key) {
        None => Ok(None),
        Some(v) => match v {
            Json::Null => Ok(None),
            Json::Arr(items) => match decode_tool_calls(items) {
                Ok(ts) => Ok(Some(ts)),
                Err(e) => Err(e),
            },
            _ => Err(Malformed),
        },
    }
}

// ---------------------------------------------------------------------------
// choice message and delta
// ---------------------------------------------------------------------------
/// The message of a non-streaming choice: optional role and content text,
/// optional tool calls.
pub struct ChatChoiceMessage {
    pub role: Option<String>,
    pub content: Option<String>,
    pub tool_calls: Option<Vec<ToolCall>>,
}

/// A content/role delta of one streamed chunk.
pub struct ChatDelta {
    pub role: Option<String>,
    pub content: Option<String>,
}

/// A message document: optional strings and an optional tool-call array.
pub open spec fn spec_message_ok(j: Json) -> bool {
    &&& spec_opt_text_ok(j, "role"@)
    &&& spec_opt_text_ok(j, "content"@)
    &&& spec_opt_tool_calls_ok(j, "tool_calls"@)
}

/// The decoded message matches the document field for field.
pub open spec fn message_matches(m: ChatChoiceMessage, j: Json) -> bool {
    &&& match spec_opt_text(j, "role"@) {
        Some(s) => m.role matches Some(r) && r@ == s,
        None => m.role is None,
    }
    &&& match spec_opt_text(j, "content"@) {
        Some(s) => m.content matches Some(c) && c@ == s,
        None => m.content is None,
    }
    &&& opt_tool_calls_match(m.tool_calls, j, "tool_calls"@)
}

/// Decodes the message of a choice.
pub fn decode_message(j: &Json) -> (r: Result<ChatChoiceMessage, Malformed>)
    ensures
        r is Ok <==> spec_message_ok(*j),
        r matches Ok(m) ==> message_matches(m, *j),
{
    let role = match get_opt_text(j, "role") {
        Ok(o) => o,
        Err(e) => {
            return Err(e);
        },
    };
    let content = match get_opt_text(j, "content") {
        Ok(o) => o,
        Err(e) => {
            return Err(e);
        },
    };
    let tool_calls = match get_opt_tool_calls(j, "tool_calls") {
        Ok(o) => o,
        Err(e) => {
            return Err(e);
        },
    };
    Ok(ChatChoiceMessage { role, content, tool_calls })
}

/// A delta document: optional role and content strings.
pub open spec fn spec_delta_ok(j: Json) -> bool {
    &&& spec_opt_text_ok(j, "role"@)
    &&& spec_opt_text_ok(j, "content"@)
}

/// The decoded delta matches the document.
pub open spec fn delta_matches(d: ChatDelta, j: Json) -> bool {
    &&& match spec_opt_text(j, "role"@) {
        Some(s) => d.role matches Some(r) && r@ == s,
        None => d.role is None,
    }
    &&& match spec_opt_text(j, "content"@) {
        Some(s) => d.content matches Some(c) && c@ == s,
        None => d.content is None,
    }
}

/// Decodes the delta of a streamed chunk's choice.
pub fn decode_delta(j: &Json) -> (r: Result<ChatDelta, Malformed>)
    ensures
        r is Ok <==> spec_delta_ok(*j),
        r matches Ok(d) ==> delta_matches(d, *j),
{
    let role = match get_opt_text(j, "role") {
        Ok(o) => o,
        Err(e) => {
            return Err(e);
        },
    };
    let content = match get_opt_text(j, "content") {
        Ok(o) => o,
        Err(e) => {
            return Err(e);
        },
    };
    Ok(ChatDelta { role, content })
}

// ---------------------------------------------------------------------------
// choices and the whole response
// ---------------------------------------------------------------------------
/// One choice of a response: the message or delta it carries and the
/// reason the model stopped.
pub struct ChatChoice {
    pub message: Option<ChatChoiceMessage>,
    pub delta: Option<ChatDelta>,
    pub finish_reason: Option<String>,
}

/// An optional single-object field: missing or `null` is absent.
pub open spec fn spec_opt_obj(j: Json, key: Seq<char>) -> Option<Json> {
    match spec_get(j, key) {
        None => None,
        Some(v) => if v is Null {
            None
        } else {
            Some(v)
        },
    }
}

/// A choice document: optional `message` and `delta` objects and an
/// optional `finish_reason` string.
pub open spec fn spec_choice_ok(j: Json) -> bool {
    &&& match spec_opt_obj(j, "message"@) {
        Some(m) => spec_message_ok(m),
        None => true,
    }
    &&& match spec_opt_obj(j, "delta"@) {
        Some(d) => spec_delta_ok(d),
        None => true,
    }
    &&& spec_opt_text_ok(j, "finish_reason"@)
}

/// The decoded choice matches the document.
pub open spec fn choice_matches(c: ChatChoice, j: Json) -> bool {
    &&& match spec_opt_obj(j, "message"@) {
        Some(mj) => c.message matches Some(m) && message_matches(m, mj),
        None => c.message is None,
    }
    &&& match spec_opt_obj(j, "delta"@) {
        Some(dj) => c.delta matches Some(d) && delta_matches(d, dj),
        None => c.delta is None,
    }
    &&& match spec_opt_text(j, "finish_reason"@) {
        Some(s) => c.finish_reason matches Some(f) && f@ == s,
        None => c.finish_reason is None,
    }
}

/// Decodes one choice.
pub fn decode_choice(j: &Json) -> (r: Result<ChatChoice, Malformed>)
    ensures
        r is Ok <==> spec_choice_ok(*j),
        r matches Ok(c) ==> choice_matches(c, *j),
{
    let message = match j.get("message") {
        None => None,
        Some(v) => match v {
            Json::Null => None,
            _ => match decode_message(v) {
                Ok(m) => Some(m),
                Err(e) => {
                    return Err(e);
                },
            },
        },
    };
    let delta = match j.get("delta") {
        None => None,
        Some(v) => match v {
            Json::Null => None,
            _ => match decode_delta(v) {
                Ok(d) => Some(d),
                Err(e) => {
                    return Err(e);
                },
            },
        },
    };
    let finish_reason = match get_opt_text(j, "finish_reason") {
        Ok(o) => o,
        Err(e) => {
            return Err(e);
        },
    };
    Ok(ChatChoice { message, delta, finish_reason })
}

/// A decoded response: its choices and the usage snapshot, if any.
pub struct ChatCompletionResponse {
    pub choices: Vec<ChatChoice>,
    pub usage: Option<TokenUsage>,
}

/// Every element of the choice array is a well-shaped choice.
pub open spec fn spec_choices_ok(items: Seq<Json>) -> bool {
    forall|i: int| 0 <= i < items.len() ==> spec_choice_ok(#[trigger] items[i])
}

/// The decoded choices match the array element for element.
pub open spec fn choices_match(cs: Seq<ChatChoice>, items: Seq<Json>) -> bool {
    &&& cs.len() == items.len()
    &&& forall|i: int| 0 <= i < items.len() ==> choice_matches(#[trigger] cs[i], items[i])
}

/// A response document: a required `choices` array of well-shaped choices
/// and an optional well-shaped `usage` object.
pub open spec fn spec_response_ok(j: Json) -> bool {
    &&& spec_get(j, "choices"@) matches Some(v) && v matches Json::Arr(items) && spec_choices_ok(
        items@,
    )
    &&& match spec_opt_obj(j, "usage"@) {
        Some(u) => spec_usage_ok(u),
        None => true,
    }
}

/// The decoded response matches the document.
pub open spec fn response_matches(r: ChatCompletionResponse, j: Json) -> bool {
    &&& spec_get(j, "choices"@) matches Some(v) && v matches Json::Arr(items) && choices_match(
        r.choices@,
        items@,
    )
    &&& match spec_opt_obj(j, "usage"@) {
        Some(uj) => r.usage matches Some(u) && usage_matches(u, uj),
        None => r.usage is None,
    }
}

/// Decodes a whole non-streaming response or streamed chunk; fails exactly
/// when `choices` is missing or malformed or a present `usage` is
/// malformed.
pub fn decode_response(j: &Json) -> (r: Result<ChatCompletionResponse, Malformed>)
    ensures
        r is Ok <==> spec_response_ok(*j),
        r matches Ok(resp) ==> response_matches(resp, *j),
{
    let choices_json = match j.get("choices") {
        Some(v) => match v {
            Json::Arr(items) => items,
            _ => {
                return Err(Malformed);
            },
        },
        None => {
            return Err(Malformed);
        },
    };
    let n = choices_json.len();
    let mut choices: Vec<ChatChoice> = Vec::new();
    let mut i: usize = 0;
    while i < n
        invariant
            i <= n,
            n == choices_json@.len(),
            choices@.len() == i,
            spec_get(*j, "choices"@) matches Some(v) && v is Arr && v->Arr_0@ == choices_json@,
            forall|k: int| 0 <= k < i ==> spec_choice_ok(#[trigger] choices_json@[k]),
            forall|k: int| 0 <= k < i ==> choice_matches(#[trigger] choices@[k], choices_json@[k]),
        decreases n - i,
    {
        match decode_choice(&choices_json[i]) {
            Ok(c) => {
                choices.push(c);
            },
            Err(e) => {
                return Err(e);
            },
        }
        i += 1;
    }
    let usage = match j.get("usage") {
        None => None,
        Some(v) => match v {
            Json::Null => None,
            _ => match decode_usage(v) {
                Ok(u) => Some(u),
                Err(e) => {
                    return Err(e);
                },
            },
        },
    };
    Ok(ChatCompletionResponse { choices, usage })
}

} // verus!
