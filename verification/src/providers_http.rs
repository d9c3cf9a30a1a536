//! Request shaping and response decoding for the three text API formats:
//! OpenAI-compatible Chat Completions, OpenAI Responses and Anthropic
//! Messages. Content filtering and truncation are detected before the
//! content is handed on, so they never masquerade as invalid JSON.

use vstd::prelude::*;
use crate::json::{
    is_u64_number, json_get, json_parse_outcome, json_str, opt_at, opt_get, opt_str, opt_u64,
    parse_json, ref_is, JsonValue,
};
use crate::prompts::{join_role_contents, role_contents, role_token, ChatMessage, MessageRole};
use crate::providers_text::{TextModelProviderError, TextModelProviderErrorKind, TextModelRequest};
use crate::text::{join_seq, str_eq};

verus! {

/// Token-usage breakdown extracted from a provider response.
#[derive(Clone, Debug, Default, PartialEq, Eq)]
pub struct UsageInfo {
    pub input_tokens: Option<u64>,
    pub output_tokens: Option<u64>,
}

/// The decoded payload of a provider response.
#[derive(Clone, Debug, Default, PartialEq, Eq)]
pub struct ExtractedResponse {
    pub content: String,
    pub finish_reason: Option<String>,
    pub usage: Option<UsageInfo>,
}

/// `s` with all trailing `c` removed (`str::trim_end_matches(c)`).
pub open spec fn trim_end_char(s: Seq<char>, c: char) -> Seq<char>
    decreases s.len(),
{
    if s.len() > 0 && s.last() == c {
        trim_end_char(s.drop_last(), c)
    } else {
        s
    }
}

/// `base` without trailing slashes, a slash, then `relative`.
pub open spec fn joined_endpoint(base: Seq<char>, relative: Seq<char>) -> Seq<char> {
    trim_end_char(base, '/') + "/"@ + relative
}

/// Joins an endpoint base URL with a relative path, normalising slashes.
pub fn join_endpoint(base_url: &str, relative: &str) -> (r: String)
    ensures
        r@ == joined_endpoint(base_url@, relative@),
{
    let cs = crate::text::chars_of(base_url);
    let mut end = cs.len();
    assert(cs@.take(end as int) =~= cs@);
    while end > 0 && cs[end - 1] == '/'
        invariant
            end <= cs@.len(),
            trim_end_char(cs@, '/') == trim_end_char(cs@.take(end as int), '/'),
        decreases end,
    {
        assert(cs@.take(end as int).drop_last() =~= cs@.take(end - 1));
        end = end - 1;
    }
    proof {
        if end == cs.len() {
            assert(cs@.take(end as int) =~= cs@);
        }
    }
    let mut r = crate::text::string_from_chars(&cs, 0, end);
    assert(r@ =~= cs@.take(end as int));
    r.append("/");
    r.append(relative);
    r
}

/// The value behind an optional reference.
pub open spec fn deref_opt(r: Option<&JsonValue>) -> Option<JsonValue> {
    match r {
        Some(x) => Some(*x),
        None => None,
    }
}

fn get_opt<'a>(v: Option<&'a JsonValue>, key: &str) -> (r: Option<&'a JsonValue>)
    ensures
        ref_is(r, opt_get(deref_opt(v), key@)),
{
    match v {
        Some(x) => x.get(key),
        None => None,
    }
}

fn at_opt<'a>(v: Option<&'a JsonValue>, i: usize) -> (r: Option<&'a JsonValue>)
    ensures
        ref_is(r, opt_at(deref_opt(v), i as int)),
{
    match v {
        Some(x) => x.at(i),
        None => None,
    }
}

fn str_opt<'a>(v: Option<&'a JsonValue>) -> (r: Option<&'a str>)
    ensures
        match r {
            Some(s) => opt_str(deref_opt(v)) == Some(s@),
            None => opt_str(deref_opt(v)) is None,
        },
{
    match v {
        Some(x) => x.as_str(),
        None => None,
    }
}

fn u64_opt(v: Option<&JsonValue>) -> (r: Option<u64>)
    ensures
        r == opt_u64(deref_opt(v)),
{
    match v {
        Some(x) => x.as_u64(),
        None => None,
    }
}

/// `usage.output_tokens`, else the legacy `usage.completion_tokens`.
pub open spec fn usage_output_tokens(v: JsonValue) -> Option<u64> {
    let usage = json_get(v, "usage"@);
    match opt_u64(opt_get(usage, "output_tokens"@)) {
        Some(n) => Some(n),
        None => opt_u64(opt_get(usage, "completion_tokens"@)),
    }
}

/// Output-token count of a Chat Completions or Responses body, for the
/// truncation error.
pub fn output_tokens_from_usage(value: &JsonValue) -> (r: Option<u64>)
    ensures
        r == usage_output_tokens(*value),
{
    let usage = value.get("usage");
    match u64_opt(get_opt(usage, "output_tokens")) {
        Some(n) => Some(n),
        None => u64_opt(get_opt(usage, "completion_tokens")),
    }
}

/// An OpenAI `usage` object: `input_tokens` else `prompt_tokens`, and
/// `output_tokens` else `completion_tokens`; `None` without the object.
pub open spec fn openai_usage(usage: Option<JsonValue>) -> Option<UsageInfo> {
    match usage {
        None => None,
        Some(u) => Some(
            UsageInfo {
                input_tokens: match json_u64_field(u, "input_tokens"@) {
                    Some(n) => Some(n),
                    None => json_u64_field(u, "prompt_tokens"@),
                },
                output_tokens: match json_u64_field(u, "output_tokens"@) {
                    Some(n) => Some(n),
                    None => json_u64_field(u, "completion_tokens"@),
                },
            },
        ),
    }
}

/// An unsigned integer member of `v`.
pub open spec fn json_u64_field(v: JsonValue, key: Seq<char>) -> Option<u64> {
    opt_u64(json_get(v, key))
}

pub fn parse_openai_usage(usage: Option<&JsonValue>) -> (r: Option<UsageInfo>)
    ensures
        r == openai_usage(deref_opt(usage)),
{
    match usage {
        None => None,
        Some(u) => {
            let input_tokens = match u64_opt(u.get("input_tokens")) {
                Some(n) => Some(n),
                None => u64_opt(u.get("prompt_tokens")),
            };
            let output_tokens = match u64_opt(u.get("output_tokens")) {
                Some(n) => Some(n),
                None => u64_opt(u.get("completion_tokens")),
            };
            Some(UsageInfo { input_tokens, output_tokens })
        },
    }
}

/// An Anthropic `usage` object (`input_tokens` / `output_tokens`).
pub open spec fn anthropic_usage(usage: Option<JsonValue>) -> Option<UsageInfo> {
    match usage {
        None => None,
        Some(u) => Some(
            UsageInfo {
                input_tokens: json_u64_field(u, "input_tokens"@),
                output_tokens: json_u64_field(u, "output_tokens"@),
            },
        ),
    }
}

pub fn parse_anthropic_usage(usage: Option<&JsonValue>) -> (r: Option<UsageInfo>)
    ensures
        r == anthropic_usage(deref_opt(usage)),
{
    match usage {
        None => None,
        Some(u) => Some(
            UsageInfo {
                input_tokens: u64_opt(u.get("input_tokens")),
                output_tokens: u64_opt(u.get("output_tokens")),
            },
        ),
    }
}

/// `usage.output_tokens` of an Anthropic body.
pub open spec fn anthropic_output_tokens_spec(v: JsonValue) -> Option<u64> {
    opt_u64(opt_get(json_get(v, "usage"@), "output_tokens"@))
}

pub fn anthropic_output_tokens(value: &JsonValue) -> (r: Option<u64>)
    ensures
        r == anthropic_output_tokens_spec(*value),
{
    u64_opt(get_opt(value.get("usage"), "output_tokens"))
}

/// Views of an optional string.
pub open spec fn opt_view(o: Option<String>) -> Option<Seq<char>> {
    match o {
        Some(s) => Some(s@),
        None => None,
    }
}

/// `r` is the decode failure `text_provider_http_decode` with `message`.
pub open spec fn is_decode_error(
    r: Result<ExtractedResponse, TextModelProviderError>,
    message: Seq<char>,
) -> bool {
    r matches Err(e) && e.kind == TextModelProviderErrorKind::Provider && e.code@
        == "text_provider_http_decode"@ && e.message@ == message
}

/// `r` is the content-filter failure for `reason`.
pub open spec fn is_filtered(
    r: Result<ExtractedResponse, TextModelProviderError>,
    reason: Seq<char>,
) -> bool {
    r matches Err(e) && e.kind matches TextModelProviderErrorKind::ContentFiltered {
        reason: rr,
    } && rr@ == reason && e.code@ == "text_provider_content_filtered"@ && e.message@
        == "content policy triggered; modify prompt"@
}

/// `r` is the truncation failure with `tokens`.
pub open spec fn is_truncated(
    r: Result<ExtractedResponse, TextModelProviderError>,
    tokens: Option<u64>,
) -> bool {
    r matches Err(e) && e.kind == (TextModelProviderErrorKind::OutputTruncated {
        output_tokens: tokens,
    }) && e.code@ == "text_provider_output_truncated"@
}

/// `r` is a success carrying `content`, `finish` and `usage`.
pub open spec fn is_extracted(
    r: Result<ExtractedResponse, TextModelProviderError>,
    content: Seq<char>,
    finish: Option<Seq<char>>,
    usage: Option<UsageInfo>,
) -> bool {
    r matches Ok(x) && x.content@ == content && opt_view(x.finish_reason) == finish && x.usage
        == usage
}

/// Decoding of a Chat Completions body that parsed as JSON.
pub open spec fn openai_chat_decoded(
    v: JsonValue,
    r: Result<ExtractedResponse, TextModelProviderError>,
) -> bool {
    let choice = opt_at(json_get(v, "choices"@), 0);
    let finish = opt_str(opt_get(choice, "finish_reason"@));
    if choice is None {
        is_decode_error(r, "openai_compatible response missing choices[0]"@)
    } else if finish == Some("content_filter"@) {
        is_filtered(r, "content_filter"@)
    } else if finish == Some("length"@) {
        is_truncated(r, usage_output_tokens(v))
    } else {
        match opt_str(opt_get(opt_get(choice, "message"@), "content"@)) {
            None => is_decode_error(
                r,
                "openai_compatible response missing choices[0].message.content"@,
            ),
            Some(c) => is_extracted(r, c, finish, openai_usage(json_get(v, "usage"@))),
        }
    }
}

/// What the decoder makes of an OpenAI-compatible chat reply once it is parsed.
pub fn openai_chat_from_json(value: &JsonValue) -> (r: Result<
    ExtractedResponse,
    TextModelProviderError,
>)
    ensures
        openai_chat_decoded(*value, r),
{
    let choice = match at_opt(value.get("choices"), 0) {
        Some(c) => c,
        None => {
            return Err(
                TextModelProviderError::provider(
                    "text_provider_http_decode",
                    "openai_compatible response missing choices[0]",
                ),
            );
        },
    };
    let finish_reason = str_opt(choice.get("finish_reason"));
    if let Some(reason) = finish_reason {
        if str_eq(reason, "content_filter") {
            return Err(TextModelProviderError::content_filtered(reason));
        }
        if str_eq(reason, "length") {
            return Err(TextModelProviderError::output_truncated(output_tokens_from_usage(value)));
        }
    }
    let content = match str_opt(get_opt(choice.get("message"), "content")) {
        Some(c) => c,
        None => {
            return Err(
                TextModelProviderError::provider(
                    "text_provider_http_decode",
                    "openai_compatible response missing choices[0].message.content",
                ),
            );
        },
    };
    let finish = match finish_reason {
        Some(f) => Some(String::from_str(f)),
        None => None,
    };
    Ok(
        ExtractedResponse {
            content: String::from_str(content),
            finish_reason: finish,
            usage: parse_openai_usage(value.get("usage")),
        },
    )
}

/// Pulls `choices[0].message.content` out of a Chat Completions body; a
/// `content_filter` finish reason is a content-filter failure and `length`
/// a truncation failure.
pub fn extract_openai_chat_content(body: &str) -> (r: Result<
    ExtractedResponse,
    TextModelProviderError,
>)
    ensures
        match json_parse_outcome(body@) {
            Err(m) => is_decode_error(r, "openai_compatible response was not JSON: "@ + m),
            Ok(v) => openai_chat_decoded(v, r),
        },
{
    let value = match parse_json(body) {
        Ok(v) => v,
        Err(error) => {
            let mut message = String::from_str("openai_compatible response was not JSON: ");
            message.append(error.as_str());
            return Err(
                TextModelProviderError::provider("text_provider_http_decode", message.as_str()),
            );
        },
    };
    openai_chat_from_json(&value)
}

/// Some element of the array at `v` has member `type` equal to `kind`.
pub open spec fn has_item_of_type(v: Option<JsonValue>, kind: Seq<char>) -> bool {
    match v {
        Some(JsonValue::Array(items)) => exists|i: int|
            0 <= i < items@.len() && opt_str(json_get(#[trigger] items@[i], "type"@)) == Some(
                kind,
            ),
        _ => false,
    }
}

fn any_item_of_type(v: Option<&JsonValue>, kind: &str) -> (r: bool)
    ensures
        r == has_item_of_type(deref_opt(v), kind@),
{
    match v {
        Some(x) => match x.as_array() {
            Some(items) => {
                let mut i: usize = 0;
                while i < items.len()
                    invariant
                        i <= items@.len(),
                        deref_opt(v) == Some(JsonValue::Array(*items)),
                        forall|k: int|
                            0 <= k < i ==> opt_str(json_get(#[trigger] items@[k], "type"@))
                                != Some(kind@),
                    decreases items@.len() - i,
                {
                    let t = str_opt(items[i].get("type"));
                    if let Some(t) = t {
                        if str_eq(t, kind) {
                            assert(opt_str(json_get(items@[i as int], "type"@)) == Some(kind@));
                            return true;
                        }
                    }
                    i = i + 1;
                }
                false
            },
            None => false,
        },
        None => false,
    }
}

/// Decoding of a Responses API body that parsed as JSON.
pub open spec fn openai_responses_decoded(
    v: JsonValue,
    r: Result<ExtractedResponse, TextModelProviderError>,
) -> bool {
    let status = opt_str(json_get(v, "status"@));
    let reason = opt_str(opt_get(json_get(v, "incomplete_details"@), "reason"@));
    if status == Some("incomplete"@) {
        if reason == Some("content_filter"@) {
            is_filtered(r, "content_filter"@)
        } else {
            is_truncated(r, usage_output_tokens(v))
        }
    } else if has_item_of_type(json_get(v, "output"@), "refusal"@) {
        is_filtered(r, "refusal"@)
    } else {
        match opt_str(
            opt_get(opt_at(opt_get(opt_at(json_get(v, "output"@), 0), "content"@), 0), "text"@),
        ) {
            None => is_decode_error(
                r,
                "openai_responses response missing output[0].content[0].text"@,
            ),
            Some(c) => is_extracted(r, c, status, openai_usage(json_get(v, "usage"@))),
        }
    }
}

/// What the decoder makes of an OpenAI Responses API reply once it is parsed.
pub fn openai_responses_from_json(value: &JsonValue) -> (r: Result<
    ExtractedResponse,
    TextModelProviderError,
>)
    ensures
        openai_responses_decoded(*value, r),
{
    let status = str_opt(value.get("status"));
    if let Some(s) = status {
        if str_eq(s, "incomplete") {
            let reason = str_opt(get_opt(value.get("incomplete_details"), "reason"));
            if let Some(rs) = reason {
                if str_eq(rs, "content_filter") {
                    return Err(TextModelProviderError::content_filtered(rs));
                }
            }
            return Err(TextModelProviderError::output_truncated(output_tokens_from_usage(value)));
        }
    }
    if any_item_of_type(value.get("output"), "refusal") {
        return Err(TextModelProviderError::content_filtered("refusal"));
    }
    let content = match str_opt(
        get_opt(at_opt(get_opt(at_opt(value.get("output"), 0), "content"), 0), "text"),
    ) {
        Some(c) => c,
        None => {
            return Err(
                TextModelProviderError::provider(
                    "text_provider_http_decode",
                    "openai_responses response missing output[0].content[0].text",
                ),
            );
        },
    };
    let finish = match status {
        Some(f) => Some(String::from_str(f)),
        None => None,
    };
    Ok(
        ExtractedResponse {
            content: String::from_str(content),
            finish_reason: finish,
            usage: parse_openai_usage(value.get("usage")),
        },
    )
}

/// Pulls `output[0].content[0].text` out of a Responses API body. An
/// `incomplete` status is a content-filter failure when its reason is
/// `content_filter` and a truncation failure otherwise; a `refusal` output
/// item is a content-filter failure.
pub fn extract_openai_responses_content(body: &str) -> (r: Result<
    ExtractedResponse,
    TextModelProviderError,
>)
    ensures
        match json_parse_outcome(body@) {
            Err(m) => is_decode_error(r, "openai_responses response was not JSON: "@ + m),
            Ok(v) => openai_responses_decoded(v, r),
        },
{
    let value = match parse_json(body) {
        Ok(v) => v,
        Err(error) => {
            let mut message = String::from_str("openai_responses response was not JSON: ");
            message.append(error.as_str());
            return Err(
                TextModelProviderError::provider("text_provider_http_decode", message.as_str()),
            );
        },
    };
    openai_responses_from_json(&value)
}

/// Decoding of an Anthropic Messages body that parsed as JSON.
pub open spec fn anthropic_decoded(
    v: JsonValue,
    r: Result<ExtractedResponse, TextModelProviderError>,
) -> bool {
    let stop = opt_str(json_get(v, "stop_reason"@));
    if stop == Some("max_tokens"@) {
        is_truncated(r, anthropic_output_tokens_spec(v))
    } else if stop == Some("content_filter"@) {
        is_filtered(r, "content_filter"@)
    } else if has_item_of_type(json_get(v, "content"@), "redacted_content"@) {
        is_filtered(r, "redacted_content"@)
    } else {
        match opt_str(opt_get(opt_at(json_get(v, "content"@), 0), "text"@)) {
            None => is_decode_error(r, "anthropic_messages response missing content[0].text"@),
            Some(c) => is_extracted(r, c, stop, anthropic_usage(json_get(v, "usage"@))),
        }
    }
}

/// What the decoder makes of an Anthropic Messages reply once it is parsed.
pub fn anthropic_from_json(value: &JsonValue) -> (r: Result<
    ExtractedResponse,
    TextModelProviderError,
>)
    ensures
        anthropic_decoded(*value, r),
{
    let stop_reason = str_opt(value.get("stop_reason"));
    if let Some(reason) = stop_reason {
        if str_eq(reason, "max_tokens") {
            return Err(TextModelProviderError::output_truncated(anthropic_output_tokens(value)));
        }
        if str_eq(reason, "content_filter") {
            return Err(TextModelProviderError::content_filtered(reason));
        }
    }
    if any_item_of_type(value.get("content"), "redacted_content") {
        return Err(TextModelProviderError::content_filtered("redacted_content"));
    }
    let content = match str_opt(get_opt(at_opt(value.get("content"), 0), "text")) {
        Some(c) => c,
        None => {
            return Err(
                TextModelProviderError::provider(
                    "text_provider_http_decode",
                    "anthropic_messages response missing content[0].text",
                ),
            );
        },
    };
    let finish = match stop_reason {
        Some(f) => Some(String::from_str(f)),
        None => None,
    };
    Ok(
        ExtractedResponse {
            content: String::from_str(content),
            finish_reason: finish,
            usage: parse_anthropic_usage(value.get("usage")),
        },
    )
}

/// Pulls `content[0].text` out of an Anthropic Messages body; a
/// `max_tokens` stop is a truncation failure, and a `content_filter` stop or
/// a `redacted_content` block a content-filter failure.
pub fn extract_anthropic_content(body: &str) -> (r: Result<
    ExtractedResponse,
    TextModelProviderError,
>)
    ensures
        match json_parse_outcome(body@) {
            Err(m) => is_decode_error(r, "anthropic_messages response was not JSON: "@ + m),
            Ok(v) => anthropic_decoded(v, r),
        },
{
    let value = match parse_json(body) {
        Ok(v) => v,
        Err(error) => {
            let mut message = String::from_str("anthropic_messages response was not JSON: ");
            message.append(error.as_str());
            return Err(
                TextModelProviderError::provider("text_provider_http_decode", message.as_str()),
            );
        },
    };
    anthropic_from_json(&value)
}

/// `j` is the wire object `{"role": <role token>, "content": <content>}`.
pub open spec fn is_message_json(j: JsonValue, role: MessageRole, content: Seq<char>) -> bool {
    j matches JsonValue::Object(es) && es@.len() == 2 && es@[0].0@ == "role"@ && json_str(
        es@[0].1,
    ) == Some(role_token(role)) && es@[1].0@ == "content"@ && json_str(es@[1].1) == Some(content)
}

/// `j` is the array of wire objects of `ms`, in order.
pub open spec fn is_message_array(j: JsonValue, ms: Seq<ChatMessage>) -> bool {
    j matches JsonValue::Array(items) && items@.len() == ms.len() && forall|i: int|
        0 <= i < ms.len() ==> is_message_json(#[trigger] items@[i], ms[i].role, ms[i].content@)
}

fn message_object(role: MessageRole, content: &str) -> (r: JsonValue)
    ensures
        is_message_json(r, role, content@),
{
    let mut es: Vec<(String, JsonValue)> = Vec::new();
    es.push((String::from_str("role"), JsonValue::Str(String::from_str(role.as_str()))));
    es.push((String::from_str("content"), JsonValue::Str(String::from_str(content))));
    JsonValue::Object(es)
}

/// Serializes one chat message to its wire object.
pub fn chat_message_to_json(message: &ChatMessage) -> (r: JsonValue)
    ensures
        is_message_json(r, message.role, message.content@),
{
    message_object(message.role, message.content.as_str())
}

/// The messages of `ms` other than `System` ones, in order.
pub open spec fn non_system(ms: Seq<ChatMessage>) -> Seq<ChatMessage>
    decreases ms.len(),
{
    if ms.len() == 0 {
        seq![]
    } else if ms.last().role == MessageRole::System {
        non_system(ms.drop_last())
    } else {
        non_system(ms.drop_last()).push(ms.last())
    }
}

fn messages_array(ms: &Vec<ChatMessage>, skip_system: bool) -> (r: JsonValue)
    ensures
        is_message_array(
            r,
            if skip_system {
                non_system(ms@)
            } else {
                ms@
            },
        ),
{
    let mut items: Vec<JsonValue> = Vec::new();
    let mut i: usize = 0;
    while i < ms.len()
        invariant
            i <= ms@.len(),
            ({
                let kept = if skip_system {
                    non_system(ms@.take(i as int))
                } else {
                    ms@.take(i as int)
                };
                items@.len() == kept.len() && forall|k: int|
                    0 <= k < kept.len() ==> is_message_json(
                        #[trigger] items@[k],
                        kept[k].role,
                        kept[k].content@,
                    )
            }),
        decreases ms@.len() - i,
    {
        assert(ms@.take(i + 1).drop_last() =~= ms@.take(i as int));
        if !(skip_system && ms[i].role == MessageRole::System) {
            items.push(chat_message_to_json(&ms[i]));
        }
        i = i + 1;
    }
    assert(ms@.take(i as int) =~= ms@);
    JsonValue::Array(items)
}

/// The Chat Completions `messages` array: every structured message in
/// order, or the single prompt as one user message.
pub fn openai_chat_messages(request: &TextModelRequest) -> (r: JsonValue)
    ensures
        match request.messages {
            Some(ms) => is_message_array(r, ms@),
            None => r matches JsonValue::Array(items) && items@.len() == 1 && is_message_json(
                items@[0],
                MessageRole::User,
                request.prompt@,
            ),
        },
{
    match &request.messages {
        Some(ms) => messages_array(ms, false),
        None => {
            let mut items: Vec<JsonValue> = Vec::new();
            items.push(message_object(MessageRole::User, request.prompt.as_str()));
            JsonValue::Array(items)
        },
    }
}

/// A joined text, absent when it is empty.
pub open spec fn non_empty(s: Seq<char>) -> Option<Seq<char>> {
    if s.len() == 0 {
        None
    } else {
        Some(s)
    }
}

/// The Responses API split: `instructions` are the system messages joined
/// with `"\n"` (absent when that is empty) and `input` the user messages
/// joined with `"\n"`; without structured messages, no instructions and the
/// prompt as input.
pub fn openai_responses_instructions_and_input(request: &TextModelRequest) -> (r: (
    Option<String>,
    String,
))
    ensures
        match request.messages {
            Some(ms) => opt_view(r.0) == non_empty(
                join_seq(role_contents(ms@, MessageRole::System), "\n"@),
            ) && r.1@ == join_seq(role_contents(ms@, MessageRole::User), "\n"@),
            None => r.0 is None && r.1@ == request.prompt@,
        },
{
    match &request.messages {
        Some(ms) => {
            let instructions = join_role_contents(ms.as_slice(), MessageRole::System);
            let instructions = if instructions.unicode_len() == 0 {
                None
            } else {
                Some(instructions)
            };
            let input = join_role_contents(ms.as_slice(), MessageRole::User);
            (instructions, input)
        },
        None => (None, request.prompt.clone()),
    }
}

/// The Anthropic Messages split: the top-level `system` text (system
/// messages joined with `"\n"`, absent when empty) and the `messages` array
/// of the remaining messages; without structured messages, no system text
/// and the prompt as one user message.
pub fn anthropic_system_and_messages(request: &TextModelRequest) -> (r: (
    Option<String>,
    JsonValue,
))
    ensures
        match request.messages {
            Some(ms) => opt_view(r.0) == non_empty(
                join_seq(role_contents(ms@, MessageRole::System), "\n"@),
            ) && is_message_array(r.1, non_system(ms@)),
            None => r.0 is None && (r.1 matches JsonValue::Array(items) && items@.len() == 1
                && is_message_json(items@[0], MessageRole::User, request.prompt@)),
        },
{
    match &request.messages {
        Some(ms) => {
            let system = join_role_contents(ms.as_slice(), MessageRole::System);
            let system = if system.unicode_len() == 0 {
                None
            } else {
                Some(system)
            };
            (system, messages_array(ms, true))
        },
        None => {
            let mut items: Vec<JsonValue> = Vec::new();
            items.push(message_object(MessageRole::User, request.prompt.as_str()));
            (None, JsonValue::Array(items))
        },
    }
}

/// The Anthropic API version sent with every Messages request.
pub const ANTHROPIC_VERSION: &'static str = "2023-06-01";

/// The output cap of an Anthropic request: the configured one, else 8192.
pub open spec fn anthropic_cap(max_output_tokens: Option<u32>) -> u32 {
    match max_output_tokens {
        Some(n) => n,
        None => 8192,
    }
}

/// Entry `k` of object `body` is named `key` and holds the number `n`.
pub open spec fn entry_number(body: JsonValue, k: int, key: Seq<char>, n: u64) -> bool {
    body matches JsonValue::Object(es) && 0 <= k < es@.len() && es@[k].0@ == key && is_u64_number(
        es@[k].1,
        n,
    )
}

/// Entry `k` of object `body` is named `key`.
pub open spec fn entry_key(body: JsonValue, k: int, key: Seq<char>) -> bool {
    body matches JsonValue::Object(es) && 0 <= k < es@.len() && es@[k].0@ == key
}

/// The value of entry `k` of an object.
pub open spec fn entry_value(body: JsonValue, k: int) -> JsonValue {
    body->Object_0@[k].1
}

/// `v` is the string `s`.
pub open spec fn str_value_is(v: JsonValue, s: Seq<char>) -> bool {
    v matches JsonValue::Str(x) && x@ == s
}

/// Entry `k` of object `body` is named `key` and holds the string `s`.
pub open spec fn entry_str(body: JsonValue, k: int, key: Seq<char>, s: Seq<char>) -> bool {
    entry_key(body, k, key) && str_value_is(entry_value(body, k), s)
}

pub open spec fn object_len(body: JsonValue) -> int {
    match body {
        JsonValue::Object(es) => es@.len() as int,
        _ => -1,
    }
}

/// `{"type": "json_object"}`.
pub open spec fn json_object_format(v: JsonValue) -> bool {
    v matches JsonValue::Object(f) && f@.len() == 1 && f@[0].0@ == "type"@ && str_value_is(
        f@[0].1,
        "json_object"@,
    )
}

/// The array holding the prompt as one user message.
pub open spec fn single_user(v: JsonValue, prompt: Seq<char>) -> bool {
    v matches JsonValue::Array(items) && items@.len() == 1 && is_message_json(
        items@[0],
        MessageRole::User,
        prompt,
    )
}

/// The Responses split of a request: instructions and input.
pub open spec fn responses_split(request: TextModelRequest) -> (Option<Seq<char>>, Seq<char>) {
    match request.messages {
        Some(ms) => (
            non_empty(join_seq(role_contents(ms@, MessageRole::System), "\n"@)),
            join_seq(role_contents(ms@, MessageRole::User), "\n"@),
        ),
        None => (None, request.prompt@),
    }
}

fn number(n: u32) -> (r: JsonValue)
    ensures
        is_u64_number(r, n as u64),
{
    crate::json::u64_number(n as u64)
}

/// The endpoint a request goes to, or the error for a provider without one.
pub fn required_endpoint(endpoint_url: &Option<String>, protocol: &str, relative: &str) -> (r: Result<
    String,
    TextModelProviderError,
>)
    ensures
        match endpoint_url {
            Some(e) => r matches Ok(u) && u@ == joined_endpoint(e@, relative@),
            None => r matches Err(err) && err.kind == TextModelProviderErrorKind::Provider && err.code@
                == "text_provider_missing_endpoint"@ && err.message@ == protocol@
                + " provider has no endpoint_url"@,
        },
{
    match endpoint_url {
        Some(e) => Ok(join_endpoint(e.as_str(), relative)),
        None => {
            let mut m = String::from_str(protocol);
            m.append(" provider has no endpoint_url");
            Err(TextModelProviderError::provider("text_provider_missing_endpoint", m.as_str()))
        },
    }
}

/// The Chat Completions body: model, messages, a JSON-object response
/// format, and `max_tokens` only when configured.
pub fn openai_chat_body(model: &str, max_output_tokens: Option<u32>, request: &TextModelRequest) -> (r: JsonValue)
    ensures
        entry_str(r, 0, "model"@, model@),
        entry_key(r, 1, "messages"@),
        match request.messages {
            Some(ms) => is_message_array(entry_value(r, 1), ms@),
            None => single_user(entry_value(r, 1), request.prompt@),
        },
        entry_key(r, 2, "response_format"@),
        json_object_format(entry_value(r, 2)),
        match max_output_tokens {
            Some(n) => object_len(r) == 4 && entry_number(r, 3, "max_tokens"@, n as u64),
            None => object_len(r) == 3,
        },
{
    let mut format: Vec<(String, JsonValue)> = Vec::new();
    format.push((String::from_str("type"), JsonValue::Str(String::from_str("json_object"))));
    let mut es: Vec<(String, JsonValue)> = Vec::new();
    es.push((String::from_str("model"), JsonValue::Str(String::from_str(model))));
    es.push((String::from_str("messages"), openai_chat_messages(request)));
    es.push((String::from_str("response_format"), JsonValue::Object(format)));
    match max_output_tokens {
        Some(n) => es.push((String::from_str("max_tokens"), number(n))),
        None => {},
    }
    JsonValue::Object(es)
}

/// The Responses body: model and input, then `instructions` and
/// `max_output_tokens` when there are any.
pub fn openai_responses_body(model: &str, max_output_tokens: Option<u32>, request: &TextModelRequest) -> (r: JsonValue)
    ensures
        entry_str(r, 0, "model"@, model@),
        entry_str(r, 1, "input"@, responses_split(*request).1),
        match (responses_split(*request).0, max_output_tokens) {
            (Some(t), Some(n)) => object_len(r) == 4 && entry_str(r, 2, "instructions"@, t) && entry_number(r, 3, "max_output_tokens"@, n as u64),
            (Some(t), None) => object_len(r) == 3 && entry_str(r, 2, "instructions"@, t),
            (None, Some(n)) => object_len(r) == 3 && entry_number(r, 2, "max_output_tokens"@, n as u64),
            (None, None) => object_len(r) == 2,
        },
{
    let (instructions, input) = openai_responses_instructions_and_input(request);
    let mut es: Vec<(String, JsonValue)> = Vec::new();
    es.push((String::from_str("model"), JsonValue::Str(String::from_str(model))));
    es.push((String::from_str("input"), JsonValue::Str(input)));
    match instructions {
        Some(t) => es.push((String::from_str("instructions"), JsonValue::Str(t))),
        None => {},
    }
    match max_output_tokens {
        Some(n) => es.push((String::from_str("max_output_tokens"), number(n))),
        None => {},
    }
    JsonValue::Object(es)
}

/// The Messages body: model, the output cap (8192 unless configured), the
/// non-system messages, and `system` when there is system text.
pub fn anthropic_body(model: &str, max_output_tokens: Option<u32>, request: &TextModelRequest) -> (r: JsonValue)
    ensures
        entry_str(r, 0, "model"@, model@),
        entry_number(r, 1, "max_tokens"@, anthropic_cap(max_output_tokens) as u64),
        entry_key(r, 2, "messages"@),
        match request.messages {
            Some(ms) => is_message_array(entry_value(r, 2), non_system(ms@)) && match responses_split(
                *request,
            ).0 {
                Some(t) => object_len(r) == 4 && entry_str(r, 3, "system"@, t),
                None => object_len(r) == 3,
            },
            None => object_len(r) == 3 && single_user(entry_value(r, 2), request.prompt@),
        },
{
    let cap = match max_output_tokens {
        Some(n) => n,
        None => 8192,
    };
    let (system, messages) = anthropic_system_and_messages(request);
    let mut es: Vec<(String, JsonValue)> = Vec::new();
    es.push((String::from_str("model"), JsonValue::Str(String::from_str(model))));
    es.push((String::from_str("max_tokens"), number(cap)));
    es.push((String::from_str("messages"), messages));
    match system {
        Some(t) => es.push((String::from_str("system"), JsonValue::Str(t))),
        None => {},
    }
    JsonValue::Object(es)
}

/// The error for a non-success HTTP status (`status_text` is how the
/// status prints, such as `429 Too Many Requests`): a rate limit carrying
/// the advised delay for 429, a status error otherwise.
pub fn http_status_error(status: u16, status_text: &str, retry_after_ms: Option<u64>) -> (r: TextModelProviderError)
    ensures
        r.message@ == "provider returned HTTP "@ + status_text@,
        status == 429 ==> r.kind == (TextModelProviderErrorKind::RateLimit { retry_after_ms }) && r.code@
            == "text_provider_rate_limit"@,
        status != 429 ==> r.kind == TextModelProviderErrorKind::Provider && r.code@
            == "text_provider_http_status"@,
{
    let mut m = String::from_str("provider returned HTTP ");
    m.append(status_text);
    if status == 429 {
        TextModelProviderError::rate_limit(retry_after_ms, m.as_str())
    } else {
        TextModelProviderError::provider("text_provider_http_status", m.as_str())
    }
}


/// A usage object's token counts are read from its members: an unsigned
/// `input_tokens` / `output_tokens` is taken as it is; when that member is
/// absent, the OpenAI decoder falls back to `prompt_tokens` /
/// `completion_tokens`. A reply without a usage object has no usage.
pub proof fn lemma_usage_reads_token_members(u: JsonValue)
    ensures
        openai_usage(None) is None,
        anthropic_usage(None) is None,
        openai_usage(Some(u)) is Some,
        anthropic_usage(Some(u)) is Some,
        opt_u64(json_get(u, "input_tokens"@)) matches Some(n) ==> openai_usage(Some(u))->0.input_tokens
            == Some(n) && anthropic_usage(Some(u))->0.input_tokens == Some(n),
        opt_u64(json_get(u, "output_tokens"@)) matches Some(n) ==> openai_usage(
            Some(u),
        )->0.output_tokens == Some(n) && anthropic_usage(Some(u))->0.output_tokens == Some(n),
        json_get(u, "input_tokens"@) is None ==> openai_usage(Some(u))->0.input_tokens == opt_u64(
            json_get(u, "prompt_tokens"@),
        ),
        json_get(u, "output_tokens"@) is None ==> openai_usage(Some(u))->0.output_tokens == opt_u64(
            json_get(u, "completion_tokens"@),
        ),
{
}
} // verus!
