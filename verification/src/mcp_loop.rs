//! MCP tool-use rules: recognising the out-of-band `mcp_tool_calls` signal
//! in a model reply, the secret-marker checks on tool arguments and
//! results, the redaction-safe summaries fed back to the model and into the
//! evidence trail, the round bound, and the tool-call reproducibility hash.

use vstd::prelude::*;
use crate::json::{json_parse_outcome, json_text, json_to_string, member, member_index, parse_json, JsonValue};
use crate::agent_output::{payload_kind_text, runtime_error_of, ProviderPipelineError};
use crate::pi_agent::{
    assemble_run_result, evidence_summary_text, run_result_is, PiAgentRunRequest, PiAgentRunResult,
};
use crate::providers_text::{
    TextModelProvider, TextModelProviderError, TextModelProviderErrorKind, TextModelRequest,
    TextModelResponse,
};
use crate::schema::{AgentOutputEnvelope, AgentRole, ReproducibilityMetadata};
use crate::text::{is_blank, is_blank_str, str_eq};
use crate::shared::{contains_secret_marker_text, has_secret_marker, hex_lower, sha256_utf8, stable_sha256_hash};
use crate::text::{decimal_string, join_seq, trim, trim_seq, u64_to_string, views};
use crate::providers_text::{bool_str, bool_text};

verus! {

/// Tool-call rounds allowed before the loop gives up.
pub const MAX_ROUNDS: usize = 10;

/// Failures of the MCP tool-use loop; none carries a raw tool argument,
/// result body or credential.
#[derive(Clone, Debug, PartialEq, Eq)]
pub enum McpLoopError {
    ToolResultSecretMarker { tool_name: String },
    ToolArgSecretMarker { tool_name: String },
    ToolFailure { code: String, detail: String },
    ExceededRounds(usize),
    ProviderFailure { code: String, message: String },
}

pub open spec fn mcp_error_text(e: McpLoopError) -> Seq<char> {
    match e {
        McpLoopError::ToolResultSecretMarker { tool_name } => "mcp_loop_secret_marker: tool `"@
            + tool_name@ + "` result contained a secret marker"@,
        McpLoopError::ToolArgSecretMarker { tool_name } => "mcp_loop_secret_marker: tool `"@
            + tool_name@ + "` arguments contained a secret marker"@,
        McpLoopError::ToolFailure { code, detail } => "mcp_loop_tool_failure: "@ + code@ + ": "@
            + detail@,
        McpLoopError::ExceededRounds(n) => "mcp_loop_exceeded_rounds: "@ + decimal_string(n as nat),
        McpLoopError::ProviderFailure { code, message } => "mcp_loop_provider_failure: "@ + code@
            + ": "@ + message@,
    }
}

impl McpLoopError {
    /// The error's text.
    pub fn message(&self) -> (r: String)
        ensures
            r@ == mcp_error_text(*self),
    {
        match self {
            McpLoopError::ToolResultSecretMarker { tool_name } => {
                let mut r = String::from_str("mcp_loop_secret_marker: tool `");
                r.append(tool_name.as_str());
                r.append("` result contained a secret marker");
                r
            },
            McpLoopError::ToolArgSecretMarker { tool_name } => {
                let mut r = String::from_str("mcp_loop_secret_marker: tool `");
                r.append(tool_name.as_str());
                r.append("` arguments contained a secret marker");
                r
            },
            McpLoopError::ToolFailure { code, detail } => {
                let mut r = String::from_str("mcp_loop_tool_failure: ");
                r.append(code.as_str());
                r.append(": ");
                r.append(detail.as_str());
                r
            },
            McpLoopError::ExceededRounds(n) => {
                let mut r = String::from_str("mcp_loop_exceeded_rounds: ");
                r.append(u64_to_string(*n as u64).as_str());
                r
            },
            McpLoopError::ProviderFailure { code, message } => {
                let mut r = String::from_str("mcp_loop_provider_failure: ");
                r.append(code.as_str());
                r.append(": ");
                r.append(message.as_str());
                r
            },
        }
    }
}

/// A tool call requested by the model on an intermediate round.
#[derive(Debug, PartialEq, Eq)]
pub struct ParsedMcpToolCall {
    pub server_id: String,
    pub tool_name: String,
    pub arguments: JsonValue,
}

/// A member read as a string.
pub open spec fn str_of(entries: Seq<(String, JsonValue)>, key: Seq<char>) -> Option<Seq<char>> {
    match member(entries, key) {
        Some(JsonValue::Str(s)) => Some(s@),
        _ => None,
    }
}

/// A call entry names its server and tool as strings.
pub open spec fn call_ok(e: JsonValue) -> bool {
    match e {
        JsonValue::Object(es) => str_of(es@, "server_id"@) is Some && str_of(es@, "tool_name"@) is Some,
        _ => false,
    }
}

/// `c` is what call entry `e` asks for; missing arguments are `null`.
pub open spec fn call_of(e: JsonValue, c: ParsedMcpToolCall) -> bool {
    match e {
        JsonValue::Object(es) => str_of(es@, "server_id"@) == Some(c.server_id@) && str_of(
            es@,
            "tool_name"@,
        ) == Some(c.tool_name@) && c.arguments == match member(es@, "arguments"@) {
            Some(a) => a,
            None => JsonValue::Null,
        },
        _ => false,
    }
}

/// The requested calls of a parsed reply: a non-empty `mcp_tool_calls`
/// array of well-formed entries, else none (a final turn).
pub open spec fn tool_call_entries(v: JsonValue) -> Option<Seq<JsonValue>> {
    match v {
        JsonValue::Object(es) => match member(es@, "mcp_tool_calls"@) {
            Some(JsonValue::Array(items)) => if items@.len() > 0 && forall|i: int|
                0 <= i < items@.len() ==> #[trigger] call_ok(items@[i]) {
                Some(items@)
            } else {
                None
            },
            _ => None,
        },
        _ => None,
    }
}

/// `r` lists the calls of the entries, in order.
pub open spec fn calls_match(entries: Seq<JsonValue>, r: Seq<ParsedMcpToolCall>) -> bool {
    r.len() == entries.len() && forall|i: int| 0 <= i < r.len() ==> call_of(entries[i], #[trigger] r[i])
}

/// What the signal parser makes of a reply text.
pub open spec fn tool_calls_spec(raw: Seq<char>, r: Option<Vec<ParsedMcpToolCall>>) -> bool {
    match json_parse_outcome(trim_seq(raw)) {
        Err(_) => r is None,
        Ok(v) => match tool_call_entries(v) {
            None => r is None,
            Some(entries) => r matches Some(calls) && calls_match(entries, calls@),
        },
    }
}

fn take_call(e: JsonValue) -> (r: Option<ParsedMcpToolCall>)
    ensures
        match r {
            Some(c) => call_ok(e) && call_of(e, c),
            None => !call_ok(e),
        },
{
    let ghost e0 = e;
    let mut es = match e {
        JsonValue::Object(es) => es,
        _ => return None,
    };
    let ghost orig = es@;
    let server_id = match member_index(&es, "server_id") {
        Some(i) => match &es[i].1 {
            JsonValue::Str(s) => s.clone(),
            _ => return None,
        },
        None => return None,
    };
    let tool_name = match member_index(&es, "tool_name") {
        Some(i) => match &es[i].1 {
            JsonValue::Str(s) => s.clone(),
            _ => return None,
        },
        None => return None,
    };
    let arguments = match member_index(&es, "arguments") {
        Some(i) => {
            let (_, a) = es.swap_remove(i);
            a
        },
        None => JsonValue::Null,
    };
    let c = ParsedMcpToolCall { server_id, tool_name, arguments };
    assert(e0 == JsonValue::Object(es) || e0 is Object);
    assert(call_of(e0, c));
    Some(c)
}

/// Recognises the out-of-band tool-call signal in a model reply: `Some`
/// with the requested calls, in order, when the (trimmed) reply is a JSON
/// object whose `mcp_tool_calls` is a non-empty array of entries naming
/// `server_id` and `tool_name`; `None` (a final turn) otherwise.
pub fn parse_mcp_tool_calls(raw_json: &str) -> (r: Option<Vec<ParsedMcpToolCall>>)
    ensures
        tool_calls_spec(raw_json@, r),
{
    let v = match parse_json(trim(raw_json)) {
        Ok(v) => v,
        Err(_) => return None,
    };
    let ghost v0 = v;
    let mut es = match v {
        JsonValue::Object(es) => es,
        _ => return None,
    };
    let ghost es0 = es@;
    let idx = match member_index(&es, "mcp_tool_calls") {
        Some(i) => i,
        None => return None,
    };
    let (_, calls_v) = es.swap_remove(idx);
    let ghost calls_v0 = calls_v;
    let mut items = match calls_v {
        JsonValue::Array(items) => items,
        _ => return None,
    };
    if items.len() == 0 {
        return None;
    }
    let ghost all = items@;
    assert(calls_v0 == JsonValue::Array(items));
    assert(member(es0, "mcp_tool_calls"@) == Some(calls_v0));
    let mut calls: Vec<ParsedMcpToolCall> = Vec::new();
    while items.len() > 0
        invariant
            all == calls_entries_done(all, calls@.len() as int) + items@,
            calls@.len() <= all.len(),
            items@ == all.skip(calls@.len() as int),
            calls_prefix_ok(all, calls@),
            json_parse_outcome(trim_seq(raw_json@)) == Ok::<JsonValue, Seq<char>>(v0),
            v0 == JsonValue::Object(v0->Object_0),
            v0->Object_0@ == es0,
            calls_v0 is Array && calls_v0->Array_0@ == all,
            member(es0, "mcp_tool_calls"@) == Some(calls_v0),
            all.len() > 0,
        decreases items@.len(),
    {
        let e = items.remove(0);
        let ghost kk = calls@.len() as int;
        assert(all[kk] == e);
        match take_call(e) {
            Some(c) => {
                let ghost cc = c;
                assert(call_ok(all[kk]) && call_of(all[kk], cc));
                let ghost before = calls@;
                calls.push(c);
                assert(calls@[kk] == cc);
                proof {
                    lemma_prefix_push(all, before, cc);
                    assert(calls@ =~= before.push(cc));
                }
                assert(items@ =~= all.skip(calls@.len() as int));
                assert(calls_prefix_ok(all, calls@));
            },
            None => {
                assert(!call_ok(all[kk]));
                return None;
            },
        }
    }
    assert(calls@.len() == all.len());
    assert forall|i: int| 0 <= i < all.len() implies #[trigger] call_ok(all[i]) by {
        assert(call_ok(all[i]));
    }
    Some(calls)
}

/// The calls parsed so far match the first entries.
pub open spec fn calls_prefix_ok(all: Seq<JsonValue>, calls: Seq<ParsedMcpToolCall>) -> bool {
    &&& forall|k: int| 0 <= k < calls.len() ==> call_ok(#[trigger] all[k])
    &&& forall|k: int| 0 <= k < calls.len() ==> call_of(all[k], #[trigger] calls[k])
}

proof fn lemma_prefix_push(all: Seq<JsonValue>, before: Seq<ParsedMcpToolCall>, c: ParsedMcpToolCall)
    requires
        calls_prefix_ok(all, before),
        before.len() < all.len(),
        call_ok(all[before.len() as int]),
        call_of(all[before.len() as int], c),
    ensures
        calls_prefix_ok(all, before.push(c)),
{
    let after = before.push(c);
    assert forall|k: int| 0 <= k < after.len() implies call_of(all[k], #[trigger] after[k]) by {
        if k < before.len() {
            assert(after[k] == before[k]);
        }
    }
}

pub open spec fn calls_entries_done(all: Seq<JsonValue>, n: int) -> Seq<JsonValue> {
    all.take(n)
}

/// The MCP transport's failure classes.
#[derive(Clone, Copy, Debug, PartialEq, Eq, Structural)]
pub enum McpErrorKind {
    SpawnFailed,
    HandshakeFailed,
    ToolError,
    TransportUnsupported,
    UnknownServer,
    Io,
}

pub open spec fn mcp_code(kind: McpErrorKind) -> Seq<char> {
    match kind {
        McpErrorKind::SpawnFailed => "mcp_spawn_failed"@,
        McpErrorKind::HandshakeFailed => "mcp_handshake_failed"@,
        McpErrorKind::ToolError => "mcp_tool_error"@,
        McpErrorKind::TransportUnsupported => "mcp_transport_unsupported"@,
        McpErrorKind::UnknownServer => "mcp_unknown_server"@,
        McpErrorKind::Io => "mcp_io"@,
    }
}

/// The redaction-safe code of a transport failure.
pub fn mcp_error_code(kind: McpErrorKind) -> (r: &'static str)
    ensures
        r@ == mcp_code(kind),
{
    match kind {
        McpErrorKind::SpawnFailed => "mcp_spawn_failed",
        McpErrorKind::HandshakeFailed => "mcp_handshake_failed",
        McpErrorKind::ToolError => "mcp_tool_error",
        McpErrorKind::TransportUnsupported => "mcp_transport_unsupported",
        McpErrorKind::UnknownServer => "mcp_unknown_server",
        McpErrorKind::Io => "mcp_io",
    }
}

/// A transport failure while invoking a tool.
pub fn tool_failure(kind: McpErrorKind, detail: &str) -> (r: McpLoopError)
    ensures
        r matches McpLoopError::ToolFailure { code, detail: d } && code@ == mcp_code(kind) && d@
            == detail@,
{
    McpLoopError::ToolFailure {
        code: String::from_str(mcp_error_code(kind)),
        detail: String::from_str(detail),
    }
}

/// Whether a tool argument or result text carries a secret marker anywhere
/// (ASCII case-insensitive, whitespace or not).
pub fn contains_mcp_secret_marker(text: &str) -> (r: bool)
    ensures
        r == has_secret_marker(text@),
{
    contains_secret_marker_text(text)
}

/// One content block of a tool result.
#[derive(Clone, Debug, PartialEq, Eq)]
pub enum McpToolContentBlock {
    Text { text: String },
    Image,
    Resource,
}

/// A tool result, as far as the loop reads it.
#[derive(Clone, Debug, PartialEq, Eq)]
pub struct McpToolCallResult {
    pub ok: bool,
    pub is_error: bool,
    pub content: Vec<McpToolContentBlock>,
}

pub open spec fn block_kind(b: McpToolContentBlock) -> Seq<char> {
    match b {
        McpToolContentBlock::Text { .. } => "text"@,
        McpToolContentBlock::Image => "image"@,
        McpToolContentBlock::Resource => "resource"@,
    }
}

pub open spec fn block_kinds(v: Seq<McpToolContentBlock>) -> Seq<Seq<char>> {
    v.map_values(|b: McpToolContentBlock| block_kind(b))
}

/// The kinds of the blocks, joined with commas.
pub fn block_kinds_text(content: &Vec<McpToolContentBlock>) -> (r: String)
    ensures
        r@ == join_seq(block_kinds(content@), ","@),
{
    let mut out = String::new();
    let mut i: usize = 0;
    while i < content.len()
        invariant
            i <= content@.len(),
            out@ == join_seq(block_kinds(content@.take(i as int)), ","@),
        decreases content@.len() - i,
    {
        let ghost before = block_kinds(content@.take(i as int));
        assert(block_kinds(content@.take(i + 1)) =~= before.push(block_kind(content@[i as int])));
        assert(before.push(block_kind(content@[i as int])).drop_last() =~= before);
        if i > 0 {
            out.append(",");
        }
        match &content[i] {
            McpToolContentBlock::Text { .. } => out.append("text"),
            McpToolContentBlock::Image => out.append("image"),
            McpToolContentBlock::Resource => out.append("resource"),
        }
        i = i + 1;
    }
    assert(content@.take(i as int) =~= content@);
    out
}

/// A redaction-safe one-line summary of a tool result: flags and block
/// kinds, never block content.
pub open spec fn result_summary_text(r: McpToolCallResult) -> Seq<char> {
    "ok="@ + bool_text(r.ok) + " is_error="@ + bool_text(r.is_error) + " blocks=["@ + join_seq(
        block_kinds(r.content@),
        ","@,
    ) + "]"@
}

pub fn tool_result_summary(result: &McpToolCallResult) -> (r: String)
    ensures
        r@ == result_summary_text(*result),
{
    let mut r = String::from_str("ok=");
    r.append(bool_str(result.ok));
    r.append(" is_error=");
    r.append(bool_str(result.is_error));
    r.append(" blocks=[");
    r.append(block_kinds_text(&result.content).as_str());
    r.append("]");
    r
}

/// The text blocks of a result, each followed by a space.
pub open spec fn raw_text_blocks(v: Seq<McpToolContentBlock>) -> Seq<char>
    decreases v.len(),
{
    if v.len() == 0 {
        Seq::empty()
    } else {
        raw_text_blocks(v.drop_last()) + match v.last() {
            McpToolContentBlock::Text { text } => text@ + " "@,
            _ => Seq::empty(),
        }
    }
}

/// A tool result is refused when its text blocks or its summary carry a
/// secret marker.
pub fn check_tool_result(tool_name: &str, result: &McpToolCallResult) -> (r: Result<(), McpLoopError>)
    ensures
        (has_secret_marker(raw_text_blocks(result.content@)) || has_secret_marker(
            result_summary_text(*result),
        )) ==> (r matches Err(McpLoopError::ToolResultSecretMarker { tool_name: t }) && t@
            == tool_name@),
        !(has_secret_marker(raw_text_blocks(result.content@)) || has_secret_marker(
            result_summary_text(*result),
        )) ==> r is Ok,
{
    let mut raw = String::new();
    let mut i: usize = 0;
    while i < result.content.len()
        invariant
            i <= result.content@.len(),
            raw@ == raw_text_blocks(result.content@.take(i as int)),
        decreases result.content@.len() - i,
    {
        assert(result.content@.take(i + 1).drop_last() =~= result.content@.take(i as int));
        match &result.content[i] {
            McpToolContentBlock::Text { text } => {
                raw.append(text.as_str());
                raw.append(" ");
            },
            _ => {},
        }
        assert(raw@ =~= raw_text_blocks(result.content@.take(i + 1)));
        i = i + 1;
    }
    assert(result.content@.take(i as int) =~= result.content@);
    let summary = tool_result_summary(result);
    if contains_mcp_secret_marker(raw.as_str()) || contains_mcp_secret_marker(summary.as_str()) {
        return Err(McpLoopError::ToolResultSecretMarker { tool_name: String::from_str(tool_name) });
    }
    Ok(())
}

/// The note fed back to the model for one tool call.
pub open spec fn tool_note_text(tool_name: Seq<char>, server_id: Seq<char>, r: McpToolCallResult) -> Seq<char> {
    "\n[tool "@ + tool_name + ": server="@ + server_id + ": ok="@ + bool_text(r.ok) + " is_error="@
        + bool_text(r.is_error) + " blocks="@ + decimal_string(r.content@.len()) + "]"@
}

pub fn tool_note(tool_name: &str, server_id: &str, result: &McpToolCallResult) -> (r: String)
    ensures
        r@ == tool_note_text(tool_name@, server_id@, *result),
{
    let mut r = String::from_str("\n[tool ");
    r.append(tool_name);
    r.append(": server=");
    r.append(server_id);
    r.append(": ok=");
    r.append(bool_str(result.ok));
    r.append(" is_error=");
    r.append(bool_str(result.is_error));
    r.append(" blocks=");
    r.append(u64_to_string(result.content.len() as u64).as_str());
    r.append("]");
    r
}

/// The prompt of the round after round `round`: the request's summary, the
/// round's tool notes, and the request to finish.
pub open spec fn next_round_prompt_text(prompt_summary: Seq<char>, round: nat, notes: Seq<char>) -> Seq<char> {
    prompt_summary + "\n\nMCP tool round "@ + decimal_string(round)
        + " complete. Tool results (redacted):"@ + notes
        + "\nContinue and produce the final scene plan proposal."@
}

pub fn next_round_prompt(prompt_summary: &str, round: usize, notes: &str) -> (r: String)
    ensures
        r@ == next_round_prompt_text(prompt_summary@, round as nat, notes@),
{
    let mut r = String::from_str(prompt_summary);
    r.append("\n\nMCP tool round ");
    r.append(u64_to_string(round as u64).as_str());
    r.append(" complete. Tool results (redacted):");
    r.append(notes);
    r.append("\nContinue and produce the final scene plan proposal.");
    r
}

/// The reproducibility hash of the MCP servers of a turn: none without
/// servers, else `sha256:` and the hex SHA-256 of their hash inputs joined
/// with `|`.
pub fn mcp_tool_call_hash(inputs: &Vec<String>) -> (r: Option<String>)
    ensures
        inputs@.len() == 0 ==> r is None,
        inputs@.len() > 0 ==> (r matches Some(h) && h@ == "sha256:"@ + hex_lower(
            sha256_utf8(join_seq(views(inputs@), "|"@)),
        )),
{
    if inputs.len() == 0 {
        return None;
    }
    let joined = crate::text::join_strings(inputs, "|");
    let mut r = String::from_str("sha256:");
    r.append(stable_sha256_hash(joined.as_str()).as_str());
    Some(r)
}

/// A text provider failure on an intermediate round: provider failures and
/// timeouts get their generic codes, the other classes keep their own.
pub fn provider_round_failure(error: TextModelProviderError) -> (r: McpLoopError)
    ensures
        r matches McpLoopError::ProviderFailure { code, message } && message == error.message && code@
            == match error.kind {
            TextModelProviderErrorKind::Provider => "text_provider_error"@,
            TextModelProviderErrorKind::Timeout => "text_provider_timeout"@,
            _ => error.code@,
        },
{
    let code = match error.kind {
        TextModelProviderErrorKind::Provider => String::from_str("text_provider_error"),
        TextModelProviderErrorKind::Timeout => String::from_str("text_provider_timeout"),
        _ => error.code,
    };
    McpLoopError::ProviderFailure { code, message: error.message }
}

/// `e` is a provider failure with this code and message.
pub open spec fn is_provider_failure(e: McpLoopError, code: Seq<char>, message: Seq<char>) -> bool {
    e matches McpLoopError::ProviderFailure { code: c, message: m } && c@ == code && m@ == message
}

/// Checks a request before the loop starts, in order: its agent id must
/// be the caller's, its prompt hash must not be blank, and its prompt
/// summary must carry no secret marker.
pub fn check_mcp_loop_request(agent_id: &str, request: &PiAgentRunRequest) -> (r: Result<(), McpLoopError>)
    ensures
        request.agent_id@ != agent_id@ ==> (r matches Err(e) && is_provider_failure(
            e,
            "pi_agent_id_mismatch"@,
            "pi-agent request agent_id `"@ + request.agent_id@ + "` did not match facade agent_id `"@
                + agent_id@ + "`"@,
        )),
        request.agent_id@ == agent_id@ && is_blank(request.prompt_hash@) ==> (r matches Err(e)
            && is_provider_failure(
            e,
            "pi_agent_empty_prompt_hash"@,
            "pi-agent request prompt hash must not be empty"@,
        )),
        request.agent_id@ == agent_id@ && !is_blank(request.prompt_hash@) && has_secret_marker(
            request.prompt_summary@,
        ) ==> (r matches Err(e) && is_provider_failure(
            e,
            "pi_agent_prompt_secret_marker"@,
            "pi-agent request prompt summary contained a secret marker"@,
        )),
        request.agent_id@ == agent_id@ && !is_blank(request.prompt_hash@) && !has_secret_marker(
            request.prompt_summary@,
        ) ==> r is Ok,
{
    if !str_eq(request.agent_id.as_str(), agent_id) {
        let mut message = String::from_str("pi-agent request agent_id `");
        message.append(request.agent_id.as_str());
        message.append("` did not match facade agent_id `");
        message.append(agent_id);
        message.append("`");
        return Err(
            McpLoopError::ProviderFailure { code: String::from_str("pi_agent_id_mismatch"), message },
        );
    }
    if is_blank_str(request.prompt_hash.as_str()) {
        return Err(
            McpLoopError::ProviderFailure {
                code: String::from_str("pi_agent_empty_prompt_hash"),
                message: String::from_str("pi-agent request prompt hash must not be empty"),
            },
        );
    }
    if contains_secret_marker_text(request.prompt_summary.as_str()) {
        return Err(
            McpLoopError::ProviderFailure {
                code: String::from_str("pi_agent_prompt_secret_marker"),
                message: String::from_str(
                    "pi-agent request prompt summary contained a secret marker",
                ),
            },
        );
    }
    Ok(())
}

/// The request of round `round`: a scene-planner call on the pi-Agent's
/// scene key, with the provider's reproducibility identity and the
/// round's prompt.
pub fn mcp_round_request(
    agent_id: &str,
    run_seed: u64,
    round: usize,
    prompt: &str,
    reproducibility: &ReproducibilityMetadata,
) -> (r: TextModelRequest)
    ensures
        r.call_id@ == "pi-agent-mcp-"@ + agent_id@ + "-"@ + decimal_string(run_seed as nat) + "-r"@
            + decimal_string(round as nat),
        r.agent == AgentRole::ScenePlanner,
        r.scene_key@ == "pi-agent-"@ + agent_id@,
        r.run_seed == reproducibility.run_seed,
        r.prompt_version == reproducibility.prompt_version,
        r.model_version == reproducibility.model_version,
        r.provider_config_hash == reproducibility.provider_config_hash,
        r.prompt@ == prompt@,
        r.messages is None,
{
    let mut call_id = String::from_str("pi-agent-mcp-");
    call_id.append(agent_id);
    call_id.append("-");
    call_id.append(u64_to_string(run_seed).as_str());
    call_id.append("-r");
    call_id.append(u64_to_string(round as u64).as_str());
    let mut scene_key = String::from_str("pi-agent-");
    scene_key.append(agent_id);
    TextModelRequest {
        call_id,
        agent: AgentRole::ScenePlanner,
        scene_key,
        run_seed: reproducibility.run_seed,
        prompt_version: reproducibility.prompt_version.clone(),
        model_version: reproducibility.model_version.clone(),
        provider_config_hash: reproducibility.provider_config_hash.clone(),
        prompt: String::from_str(prompt),
        messages: None,
    }
}

/// The call id of the final turn.
pub fn mcp_final_call_id(agent_id: &str, run_seed: u64) -> (r: String)
    ensures
        r@ == "pi-agent-mcp-final-"@ + agent_id@ + "-"@ + decimal_string(run_seed as nat),
{
    let mut r = String::from_str("pi-agent-mcp-final-");
    r.append(agent_id);
    r.append("-");
    r.append(u64_to_string(run_seed).as_str());
    r
}

/// The evidence line of one tool call in round `round`: tool, server, block
/// kinds, and the first 12 hex digits of the hash of the result summary.
pub open spec fn tool_evidence_text(round: nat, tool_name: Seq<char>, server_id: Seq<char>, r: McpToolCallResult) -> Seq<char> {
    "\n[r"@ + decimal_string(round) + " tool="@ + tool_name + " server="@ + server_id + " blocks=["@
        + join_seq(block_kinds(r.content@), ","@) + "] content_hash=sha256:"@ + hex_lower(
        sha256_utf8(result_summary_text(r)),
    ).take(12) + "]"@
}

pub fn tool_evidence(round: usize, tool_name: &str, server_id: &str, result: &McpToolCallResult) -> (r:
    String)
    ensures
        r@ == tool_evidence_text(round as nat, tool_name@, server_id@, *result),
{
    let summary = tool_result_summary(result);
    let content_hash = stable_sha256_hash(summary.as_str());
    let mut r = String::from_str("\n[r");
    r.append(u64_to_string(round as u64).as_str());
    r.append(" tool=");
    r.append(tool_name);
    r.append(" server=");
    r.append(server_id);
    r.append(" blocks=[");
    r.append(block_kinds_text(&result.content).as_str());
    r.append("] content_hash=sha256:");
    r.append(content_hash.as_str().substring_char(0, 12));
    r.append("]");
    r
}

/// The reproducibility identity replayed on the final turn: the provider's
/// own, with the run seed and, when there is one, the MCP hash.
pub fn final_turn_reproducibility(
    provider_reproducibility: &ReproducibilityMetadata,
    run_seed: u64,
    mcp_hash: &Option<String>,
) -> (r: ReproducibilityMetadata)
    ensures
        r == (ReproducibilityMetadata {
            run_seed,
            mcp_tool_call_hash: match mcp_hash {
                Some(h) => Some(*h),
                None => provider_reproducibility.mcp_tool_call_hash,
            },
            ..*provider_reproducibility
        }),
{
    let mut r = provider_reproducibility.copied();
    r.run_seed = run_seed;
    match mcp_hash {
        Some(h) => {
            r.mcp_tool_call_hash = Some(h.clone());
        },
        None => {},
    }
    r
}

/// The end of the loop once the final turn went through the one-shot
/// pipeline: a pipeline failure is a provider failure with its runtime
/// error; otherwise the run result with the MCP hash and tool-call
/// evidence, refused when its evidence summary carries a secret marker.
pub fn finalize_mcp_turn(
    agent_id: &str,
    run_seed: u64,
    outcome: Result<AgentOutputEnvelope, ProviderPipelineError>,
    mcp_hash: Option<String>,
    mcp_evidence: &str,
) -> (r: Result<(PiAgentRunResult, AgentOutputEnvelope), McpLoopError>)
    ensures
        match outcome {
            Err(e) => r matches Err(x) && is_provider_failure(
                x,
                runtime_error_of(e).0,
                runtime_error_of(e).1,
            ),
            Ok(envelope) => {
                let summary = evidence_summary_text(
                    payload_kind_text(envelope.payload),
                    envelope.reproducibility.provider_config_hash@,
                    mcp_hash is Some,
                    mcp_evidence@,
                );
                &&& !has_secret_marker(summary) ==> (r matches Ok((result, env)) && env == envelope
                    && run_result_is(result, agent_id@, envelope, run_seed, mcp_hash, mcp_evidence@))
                &&& has_secret_marker(summary) ==> (r matches Err(
                    McpLoopError::ToolResultSecretMarker { tool_name },
                ) && tool_name@ == "<evidence-summary>"@)
            },
        },
{
    match outcome {
        Err(error) => {
            let runtime_error = error.into_runtime_error();
            Err(
                McpLoopError::ProviderFailure {
                    code: runtime_error.code,
                    message: runtime_error.message,
                },
            )
        },
        Ok(envelope) => {
            let result = assemble_run_result(agent_id, &envelope, run_seed, mcp_hash, mcp_evidence);
            if contains_mcp_secret_marker(result.evidence_summary.as_str()) {
                return Err(
                    McpLoopError::ToolResultSecretMarker {
                        tool_name: String::from_str("<evidence-summary>"),
                    },
                );
            }
            Ok((result, envelope))
        },
    }
}

/// The first identity check a loop request fails, as the code and message
/// of its provider failure.
pub open spec fn mcp_request_violation(agent_id: Seq<char>, request: PiAgentRunRequest) -> Option<
    (Seq<char>, Seq<char>),
> {
    if request.agent_id@ != agent_id {
        Some(
            (
                "pi_agent_id_mismatch"@,
                "pi-agent request agent_id `"@ + request.agent_id@
                    + "` did not match facade agent_id `"@ + agent_id + "`"@,
            ),
        )
    } else if is_blank(request.prompt_hash@) {
        Some(("pi_agent_empty_prompt_hash"@, "pi-agent request prompt hash must not be empty"@))
    } else if has_secret_marker(request.prompt_summary@) {
        Some(
            (
                "pi_agent_prompt_secret_marker"@,
                "pi-agent request prompt summary contained a secret marker"@,
            ),
        )
    } else {
        None
    }
}

/// A reply that asks for tool calls (rather than being the final turn).
pub open spec fn requests_tools(raw: Seq<char>) -> bool {
    reply_calls(raw) is Some
}

/// A tool-call failure as the MCP transport reports it: its class and its
/// description.
#[derive(Clone, Debug, PartialEq, Eq)]
pub struct McpToolError {
    pub kind: McpErrorKind,
    pub detail: String,
}

/// An MCP client that invokes tools on the configured servers.
pub trait McpToolClient {
    /// `r` is an outcome this client may report for invoking `tool_name` on
    /// `server_id` with `arguments`. A client that states nothing of its
    /// outcomes keeps the default, which admits every outcome.
    open spec fn answers(
        server_id: Seq<char>,
        tool_name: Seq<char>,
        arguments: JsonValue,
        r: Result<McpToolCallResult, McpToolError>,
    ) -> bool {
        true
    }

    fn invoke_tool(&mut self, server_id: &str, tool_name: &str, arguments: &JsonValue) -> (r: Result<
        McpToolCallResult,
        McpToolError,
    >)
        ensures
            Self::answers(server_id@, tool_name@, *arguments, r),
    ;
}

/// The arguments of a tool call are refused when their JSON text carries a
/// secret marker; the tool is then never invoked.
pub fn check_tool_arguments(call: &ParsedMcpToolCall) -> (r: Result<(), McpLoopError>)
    ensures
        r is Ok <==> !has_secret_marker(json_text(call.arguments)),
        r matches Err(e) ==> e matches McpLoopError::ToolArgSecretMarker { tool_name } && tool_name@
            == call.tool_name@,
{
    let text = json_to_string(&call.arguments);
    if contains_mcp_secret_marker(text.as_str()) {
        return Err(McpLoopError::ToolArgSecretMarker { tool_name: call.tool_name.clone() });
    }
    Ok(())
}

/// After a tool call of round `round`: a transport failure is a tool
/// failure; a result carrying a secret marker is refused; otherwise the
/// call's note and evidence line are appended.
pub fn record_tool_result(
    round: usize,
    call: &ParsedMcpToolCall,
    outcome: Result<McpToolCallResult, McpToolError>,
    notes: &mut String,
    evidence: &mut String,
) -> (r: Result<(), McpLoopError>)
    ensures
        match outcome {
            Err(e) => r matches Err(McpLoopError::ToolFailure { code, detail }) && code@ == mcp_code(
                e.kind,
            ) && detail@ == e.detail@,
            Ok(result) => if has_secret_marker(raw_text_blocks(result.content@)) || has_secret_marker(
                result_summary_text(result),
            ) {
                r matches Err(McpLoopError::ToolResultSecretMarker { tool_name }) && tool_name@
                    == call.tool_name@
            } else {
                &&& r is Ok
                &&& final(notes)@ == old(notes)@ + tool_note_text(call.tool_name@, call.server_id@, result)
                &&& final(evidence)@ == old(evidence)@ + tool_evidence_text(
                    round as nat,
                    call.tool_name@,
                    call.server_id@,
                    result,
                )
            },
        },
{
    match outcome {
        Err(e) => Err(tool_failure(e.kind, e.detail.as_str())),
        Ok(result) => {
            match check_tool_result(call.tool_name.as_str(), &result) {
                Ok(()) => {},
                Err(e) => {
                    return Err(e);
                },
            }
            notes.append(tool_note(call.tool_name.as_str(), call.server_id.as_str(), &result).as_str());
            evidence.append(
                tool_evidence(round, call.tool_name.as_str(), call.server_id.as_str(), &result).as_str(),
            );
            Ok(())
        },
    }
}

/// The last reply of a tool-use loop, the provider's reproducibility
/// identity captured with it, and the loop's tool-call evidence.
#[derive(Clone, Debug, PartialEq, Eq)]
pub struct McpFinalTurn {
    pub raw_json: String,
    pub reproducibility: ReproducibilityMetadata,
    pub evidence: String,
}

/// The tool-call entries a reply asks for, when it asks for any.
pub open spec fn reply_calls(raw: Seq<char>) -> Option<Seq<JsonValue>> {
    match json_parse_outcome(trim_seq(raw)) {
        Ok(v) => tool_call_entries(v),
        Err(_) => None,
    }
}

/// What the loop does with one reply of the model.
#[derive(Debug, PartialEq, Eq)]
pub enum McpRoundAction {
    /// The reply is the final turn.
    Finish,
    /// Invoke these calls, in order, then ask the model again.
    Invoke(Vec<ParsedMcpToolCall>),
}

/// One step of the loop: a reply without the tool-call signal finishes it;
/// otherwise the calls it asks for are invoked, in the order given.
pub fn mcp_round_step(raw_json: &str) -> (r: McpRoundAction)
    ensures
        match reply_calls(raw_json@) {
            None => r is Finish,
            Some(entries) => r matches McpRoundAction::Invoke(calls) && calls_match(entries, calls@),
        },
{
    match parse_mcp_tool_calls(raw_json) {
        None => McpRoundAction::Finish,
        Some(calls) => McpRoundAction::Invoke(calls),
    }
}

/// The arguments of a call carry a secret marker.
pub open spec fn args_refused(c: ParsedMcpToolCall) -> bool {
    has_secret_marker(json_text(c.arguments))
}

/// A tool result carries a secret marker in its text or its summary.
pub open spec fn result_refused(res: McpToolCallResult) -> bool {
    has_secret_marker(raw_text_blocks(res.content@)) || has_secret_marker(result_summary_text(res))
}

/// A call went through: clean arguments, an answer, a clean result.
pub open spec fn call_passes(c: ParsedMcpToolCall, o: Result<McpToolCallResult, McpToolError>) -> bool {
    !args_refused(c) && (o matches Ok(res) && !result_refused(res))
}

/// The first `n` calls went through.
pub open spec fn calls_pass(
    cs: Seq<ParsedMcpToolCall>,
    os: Seq<Result<McpToolCallResult, McpToolError>>,
    n: int,
) -> bool {
    &&& 0 <= n <= os.len()
    &&& n <= cs.len()
    &&& forall|i: int| 0 <= i < n ==> call_passes(cs[i], #[trigger] os[i])
}

/// The notes fed back to the model for the first `n` calls of a round.
pub open spec fn round_notes(
    cs: Seq<ParsedMcpToolCall>,
    os: Seq<Result<McpToolCallResult, McpToolError>>,
    n: nat,
) -> Seq<char>
    decreases n,
{
    if n == 0 {
        Seq::empty()
    } else {
        round_notes(cs, os, (n - 1) as nat) + tool_note_text(
            cs[n - 1].tool_name@,
            cs[n - 1].server_id@,
            os[n - 1]->Ok_0,
        )
    }
}

/// The evidence lines of the first `n` calls of round `round`.
pub open spec fn round_evidence(
    round: nat,
    cs: Seq<ParsedMcpToolCall>,
    os: Seq<Result<McpToolCallResult, McpToolError>>,
    n: nat,
) -> Seq<char>
    decreases n,
{
    if n == 0 {
        Seq::empty()
    } else {
        round_evidence(round, cs, os, (n - 1) as nat) + tool_evidence_text(
            round,
            cs[n - 1].tool_name@,
            cs[n - 1].server_id@,
            os[n - 1]->Ok_0,
        )
    }
}

proof fn lemma_round_text_prefix(
    round: nat,
    cs: Seq<ParsedMcpToolCall>,
    os: Seq<Result<McpToolCallResult, McpToolError>>,
    os2: Seq<Result<McpToolCallResult, McpToolError>>,
    n: nat,
)
    requires
        n <= os.len(),
        n <= os2.len(),
        forall|j: int| 0 <= j < n ==> os[j] == os2[j],
    ensures
        round_notes(cs, os, n) == round_notes(cs, os2, n),
        round_evidence(round, cs, os, n) == round_evidence(round, cs, os2, n),
    decreases n,
{
    if n > 0 {
        lemma_round_text_prefix(round, cs, os, os2, (n - 1) as nat);
        assert(os[n - 1] == os2[n - 1]);
    }
}

/// One round of the tool-use loop as it went: the prompt of the round, the
/// request handed to the provider, its reply, the tool calls the reply
/// asked for, and the outcomes of the calls invoked (the first
/// `outcomes.len()` calls, in order).
pub struct McpRound {
    pub prompt: Seq<char>,
    pub request: TextModelRequest,
    pub reply: Result<TextModelResponse, TextModelProviderError>,
    pub calls: Seq<ParsedMcpToolCall>,
    pub outcomes: Seq<Result<McpToolCallResult, McpToolError>>,
}

/// A round that asked for tools, invoked every one of them, and went on.
pub open spec fn round_completed(t: McpRound) -> bool {
    &&& t.reply matches Ok(resp) && reply_calls(resp.raw_json@) matches Some(entries) && calls_match(
        entries,
        t.calls,
    )
    &&& t.outcomes.len() == t.calls.len()
    &&& calls_pass(t.calls, t.outcomes, t.calls.len() as int)
}

/// The prompt of round `k`: the request's summary first, then the summary
/// with the notes of the round before.
pub open spec fn round_prompt(summary: Seq<char>, rounds: Seq<McpRound>, k: int) -> Seq<char> {
    if k <= 0 {
        summary
    } else {
        next_round_prompt_text(
            summary,
            (k - 1) as nat,
            round_notes(rounds[k - 1].calls, rounds[k - 1].outcomes, rounds[k - 1].calls.len()),
        )
    }
}

/// `req` is the provider request of round `k`: a scene-planner call on the
/// pi-Agent's scene key carrying the round's prompt.
pub open spec fn round_request_is(
    req: TextModelRequest,
    agent_id: Seq<char>,
    run_seed: u64,
    k: nat,
    prompt: Seq<char>,
) -> bool {
    &&& req.call_id@ == "pi-agent-mcp-"@ + agent_id + "-"@ + decimal_string(run_seed as nat) + "-r"@
        + decimal_string(k)
    &&& req.agent == AgentRole::ScenePlanner
    &&& req.scene_key@ == "pi-agent-"@ + agent_id
    &&& req.prompt@ == prompt
    &&& req.messages is None
}

/// Round `t` asked the provider its round's request and got the answer the
/// provider gave (`replies`); each invoked call went to the server and
/// tool the reply named, with its arguments, and got the outcome the client
/// reported (`answers`).
pub open spec fn round_answered<P: TextModelProvider, M: McpToolClient>(
    provider: P,
    agent_id: Seq<char>,
    run_seed: u64,
    k: nat,
    t: McpRound,
) -> bool {
    &&& round_request_is(t.request, agent_id, run_seed, k, t.prompt)
    &&& provider.replies(t.request, t.reply)
    &&& t.outcomes.len() <= t.calls.len()
    &&& forall|j: int|
        0 <= j < t.outcomes.len() ==> M::answers(
            t.calls[j].server_id@,
            t.calls[j].tool_name@,
            t.calls[j].arguments,
            #[trigger] t.outcomes[j],
        )
}

/// A run of the loop: at most `MAX_ROUNDS` rounds, every round but the last
/// completed, each prompt following from the round before, every reply and
/// tool outcome one that the provider and the client gave.
pub open spec fn mcp_trace<P: TextModelProvider, M: McpToolClient>(
    provider: P,
    agent_id: Seq<char>,
    run_seed: u64,
    summary: Seq<char>,
    rounds: Seq<McpRound>,
) -> bool {
    &&& 1 <= rounds.len() <= MAX_ROUNDS
    &&& forall|k: int| 0 <= k < rounds.len() - 1 ==> round_completed(#[trigger] rounds[k])
    &&& forall|k: int| 0 <= k < rounds.len() ==> (#[trigger] rounds[k]).prompt == round_prompt(
        summary,
        rounds,
        k,
    )
    &&& forall|k: int|
        0 <= k < rounds.len() ==> round_answered::<P, M>(
            provider,
            agent_id,
            run_seed,
            k as nat,
            #[trigger] rounds[k],
        )
}

/// The evidence lines of the tool calls of these rounds, in order.
pub open spec fn trace_evidence(rounds: Seq<McpRound>) -> Seq<char>
    decreases rounds.len(),
{
    if rounds.len() == 0 {
        Seq::empty()
    } else {
        trace_evidence(rounds.drop_last()) + round_evidence(
            (rounds.len() - 1) as nat,
            rounds.last().calls,
            rounds.last().outcomes,
            rounds.last().outcomes.len(),
        )
    }
}

/// `x` is the loop failure for a provider failure `e` on some round.
pub open spec fn round_failure_is(x: McpLoopError, e: TextModelProviderError) -> bool {
    x matches McpLoopError::ProviderFailure { code, message } && message == e.message && code@
        == match e.kind {
        TextModelProviderErrorKind::Provider => "text_provider_error"@,
        TextModelProviderErrorKind::Timeout => "text_provider_timeout"@,
        _ => e.code@,
    }
}

/// How a tool call that was invoked and did not go through ends the loop.
pub open spec fn tool_failed_as(
    c: ParsedMcpToolCall,
    o: Result<McpToolCallResult, McpToolError>,
    r: Result<McpFinalTurn, McpLoopError>,
) -> bool {
    match o {
        Err(te) => r matches Err(McpLoopError::ToolFailure { code, detail }) && code@ == mcp_code(
            te.kind,
        ) && detail@ == te.detail@,
        Ok(res) => result_refused(res) && (r matches Err(
            McpLoopError::ToolResultSecretMarker { tool_name },
        ) && tool_name@ == c.tool_name@),
    }
}

/// What the loop answers at the end of a run: the last round decides.
/// A provider failure ends it with that failure; a reply without tool calls
/// is the final turn, with the evidence of every call before it; a round
/// whose calls all went through ends it only as the `MAX_ROUNDS`-th, with
/// `ExceededRounds`; otherwise the first call refused for its arguments
/// (never invoked) or whose tool failed or answered with a refused result.
pub open spec fn mcp_trace_result(rounds: Seq<McpRound>, r: Result<McpFinalTurn, McpLoopError>) -> bool {
    let t = rounds.last();
    let n = t.outcomes.len() as int;
    match t.reply {
        Err(e) => r matches Err(x) && round_failure_is(x, e),
        Ok(resp) => match reply_calls(resp.raw_json@) {
            None => r matches Ok(turn) && turn.raw_json == resp.raw_json && turn.evidence@ == trace_evidence(
                rounds.drop_last(),
            ),
            Some(entries) => calls_match(entries, t.calls) && (if n == t.calls.len() && calls_pass(
                t.calls,
                t.outcomes,
                n,
            ) {
                rounds.len() == MAX_ROUNDS && r == Err::<McpFinalTurn, McpLoopError>(
                    McpLoopError::ExceededRounds(MAX_ROUNDS),
                )
            } else if n < t.calls.len() && calls_pass(t.calls, t.outcomes, n) && args_refused(
                t.calls[n],
            ) {
                r matches Err(McpLoopError::ToolArgSecretMarker { tool_name }) && tool_name@
                    == t.calls[n].tool_name@
            } else {
                &&& 0 < n <= t.calls.len()
                &&& calls_pass(t.calls, t.outcomes, n - 1)
                &&& !args_refused(t.calls[n - 1])
                &&& tool_failed_as(t.calls[n - 1], t.outcomes[n - 1], r)
            }),
        },
    }
}

/// The multi-turn tool-use loop. After the request's identity checks, each
/// round asks the provider (round 0 with the request's prompt summary,
/// later rounds with the summary and the previous round's redaction-safe
/// notes); a reply without the tool-call signal is the final turn, handed
/// on with the evidence of every call before it; otherwise each requested
/// call is checked and invoked in order and its note and evidence line
/// recorded. A call whose arguments carry a secret marker ends the loop
/// before it is invoked; a tool failure or a refused result ends it too.
/// After `MAX_ROUNDS` rounds whose calls all went through the loop fails
/// with `ExceededRounds`. The contract states this over the run that took
/// place (`mcp_trace`, `mcp_trace_result`).
pub fn complete_with_mcp_tools<P: TextModelProvider, M: McpToolClient>(
    provider: &P,
    agent_id: &str,
    request: &PiAgentRunRequest,
    mcp_client: &mut M,
) -> (r: Result<McpFinalTurn, McpLoopError>)
    ensures
        match mcp_request_violation(agent_id@, *request) {
            Some((code, message)) => r matches Err(e) && is_provider_failure(e, code, message),
            None => exists|rounds: Seq<McpRound>|
                mcp_trace::<P, M>(
                    *provider,
                    agent_id@,
                    request.run_seed,
                    request.prompt_summary@,
                    rounds,
                ) && #[trigger] mcp_trace_result(rounds, r),
        },
{
    match check_mcp_loop_request(agent_id, request) {
        Ok(()) => {},
        Err(e) => {
            return Err(e);
        },
    }
    let ghost summary = request.prompt_summary@;
    let ghost aid = agent_id@;
    let ghost seed = request.run_seed;
    let ghost mut done: Seq<McpRound> = Seq::empty();
    let mut prompt = request.prompt_summary.clone();
    let mut evidence = String::new();
    let mut round: usize = 0;
    while round < MAX_ROUNDS
        invariant
            round <= MAX_ROUNDS,
            mcp_request_violation(agent_id@, *request) is None,
            summary == request.prompt_summary@,
            aid == agent_id@,
            seed == request.run_seed,
            done.len() == round,
            forall|k: int| 0 <= k < round ==> round_completed(#[trigger] done[k]),
            forall|k: int| 0 <= k < round ==> (#[trigger] done[k]).prompt == round_prompt(
                summary,
                done,
                k,
            ),
            forall|k: int|
                0 <= k < round ==> round_answered::<P, M>(
                    *provider,
                    aid,
                    seed,
                    k as nat,
                    #[trigger] done[k],
                ),
            prompt@ == round_prompt(summary, done, round as int),
            evidence@ == trace_evidence(done),
        decreases MAX_ROUNDS - round,
    {
        let reproducibility = provider.reproducibility_metadata(request.run_seed);
        let model_request = mcp_round_request(
            agent_id,
            request.run_seed,
            round,
            prompt.as_str(),
            &reproducibility,
        );
        let ghost req0 = model_request;
        let reply = provider.complete(&model_request);
        let ghost reply0 = reply;
        proof {
            assert(round_request_is(req0, aid, seed, round as nat, prompt@));
        }
        let response = match reply {
            Ok(response) => response,
            Err(error) => {
                let ghost t = McpRound {
                    prompt: prompt@,
                    request: req0,
                    reply: reply0,
                    calls: Seq::empty(),
                    outcomes: Seq::empty(),
                };
                let ghost rounds = done.push(t);
                let out = provider_round_failure(error);
                proof {
                    assert(rounds.last() == t);
                    assert forall|k: int| 0 <= k < rounds.len() implies (#[trigger] rounds[k]).prompt
                        == round_prompt(summary, rounds, k) && round_answered::<P, M>(
                        *provider,
                        aid,
                        seed,
                        k as nat,
                        rounds[k],
                    ) by {
                        if k < round {
                            assert(rounds[k] == done[k]);
                        }
                    }
                    assert forall|k: int| 0 <= k < rounds.len() - 1 implies round_completed(
                        #[trigger] rounds[k],
                    ) by {
                        assert(rounds[k] == done[k]);
                    }
                    assert(mcp_trace::<P, M>(*provider, aid, seed, summary, rounds));
                    assert(mcp_trace_result(rounds, Err(out)));
                }
                return Err(out);
            },
        };
        let ghost resp0 = response;
        let calls = match mcp_round_step(response.raw_json.as_str()) {
            McpRoundAction::Invoke(calls) => calls,
            McpRoundAction::Finish => {
                let reproducibility = provider.reproducibility_metadata(request.run_seed);
                let turn = McpFinalTurn { raw_json: response.raw_json, reproducibility, evidence };
                let ghost t = McpRound {
                    prompt: prompt@,
                    request: req0,
                    reply: reply0,
                    calls: Seq::empty(),
                    outcomes: Seq::empty(),
                };
                let ghost rounds = done.push(t);
                proof {
                    assert(rounds.last() == t);
                    assert(rounds.drop_last() =~= done);
                    assert forall|k: int| 0 <= k < rounds.len() implies (#[trigger] rounds[k]).prompt
                        == round_prompt(summary, rounds, k) && round_answered::<P, M>(
                        *provider,
                        aid,
                        seed,
                        k as nat,
                        rounds[k],
                    ) by {
                        if k < round {
                            assert(rounds[k] == done[k]);
                        }
                    }
                    assert forall|k: int| 0 <= k < rounds.len() - 1 implies round_completed(
                        #[trigger] rounds[k],
                    ) by {
                        assert(rounds[k] == done[k]);
                    }
                    assert(mcp_trace::<P, M>(*provider, aid, seed, summary, rounds));
                    assert(mcp_trace_result(rounds, Ok(turn)));
                }
                return Ok(turn);
            },
        };
        let ghost calls0 = calls@;
        let ghost ev0 = evidence@;
        let ghost mut outs: Seq<Result<McpToolCallResult, McpToolError>> = Seq::empty();
        let mut notes = String::new();
        let mut i: usize = 0;
        while i < calls.len()
            invariant
                i <= calls@.len(),
                round < MAX_ROUNDS,
                mcp_request_violation(agent_id@, *request) is None,
                summary == request.prompt_summary@,
                aid == agent_id@,
                seed == request.run_seed,
                done.len() == round,
                forall|k: int| 0 <= k < round ==> round_completed(#[trigger] done[k]),
                forall|k: int| 0 <= k < round ==> (#[trigger] done[k]).prompt == round_prompt(
                    summary,
                    done,
                    k,
                ),
                forall|k: int|
                    0 <= k < round ==> round_answered::<P, M>(
                        *provider,
                        aid,
                        seed,
                        k as nat,
                        #[trigger] done[k],
                    ),
                prompt@ == round_prompt(summary, done, round as int),
                ev0 == trace_evidence(done),
                calls@ == calls0,
                reply0 == Ok::<TextModelResponse, TextModelProviderError>(resp0),
                reply_calls(resp0.raw_json@) matches Some(entries) && calls_match(entries, calls0),
                round_request_is(req0, aid, seed, round as nat, prompt@),
                provider.replies(req0, reply0),
                outs.len() == i,
                calls_pass(calls0, outs, i as int),
                forall|j: int|
                    0 <= j < i ==> M::answers(
                        calls0[j].server_id@,
                        calls0[j].tool_name@,
                        calls0[j].arguments,
                        #[trigger] outs[j],
                    ),
                notes@ == round_notes(calls0, outs, i as nat),
                evidence@ == ev0 + round_evidence(round as nat, calls0, outs, i as nat),
            decreases calls@.len() - i,
        {
            let call = &calls[i];
            match check_tool_arguments(call) {
                Ok(()) => {},
                Err(e) => {
                    let ghost t = McpRound {
                        prompt: prompt@,
                        request: req0,
                        reply: reply0,
                        calls: calls0,
                        outcomes: outs,
                    };
                    let ghost rounds = done.push(t);
                    proof {
                        assert(rounds.last() == t);
                        assert forall|k: int| 0 <= k < rounds.len() implies (
                        #[trigger] rounds[k]).prompt == round_prompt(summary, rounds, k)
                            && round_answered::<P, M>(*provider, aid, seed, k as nat, rounds[k]) by {
                            if k < round {
                                assert(rounds[k] == done[k]);
                            }
                        }
                        assert forall|k: int| 0 <= k < rounds.len() - 1 implies round_completed(
                            #[trigger] rounds[k],
                        ) by {
                            assert(rounds[k] == done[k]);
                        }
                        assert(mcp_trace::<P, M>(*provider, aid, seed, summary, rounds));
                        assert(mcp_trace_result(rounds, Err(e)));
                    }
                    return Err(e);
                },
            }
            let outcome = mcp_client.invoke_tool(
                call.server_id.as_str(),
                call.tool_name.as_str(),
                &call.arguments,
            );
            let ghost o0 = outcome;
            let ghost outs2 = outs.push(o0);
            let recorded = record_tool_result(round, call, outcome, &mut notes, &mut evidence);
            proof {
                assert forall|j: int| 0 <= j < i implies outs[j] == outs2[j] by {}
                lemma_round_text_prefix(round as nat, calls0, outs, outs2, i as nat);
                assert forall|j: int| 0 <= j < i + 1 implies M::answers(
                    calls0[j].server_id@,
                    calls0[j].tool_name@,
                    calls0[j].arguments,
                    #[trigger] outs2[j],
                ) by {
                    if j < i {
                        assert(outs2[j] == outs[j]);
                    }
                }
            }
            match recorded {
                Ok(()) => {},
                Err(e) => {
                    let ghost t = McpRound {
                        prompt: prompt@,
                        request: req0,
                        reply: reply0,
                        calls: calls0,
                        outcomes: outs2,
                    };
                    let ghost rounds = done.push(t);
                    proof {
                        assert(rounds.last() == t);
                        assert(!call_passes(calls0[i as int], outs2[i as int]));
                        assert(!calls_pass(calls0, outs2, i + 1));
                        assert forall|j: int| 0 <= j < i implies call_passes(
                            calls0[j],
                            #[trigger] outs2[j],
                        ) by {
                            assert(outs2[j] == outs[j]);
                        }
                        assert(calls_pass(calls0, outs2, i as int));
                        assert forall|k: int| 0 <= k < rounds.len() implies (
                        #[trigger] rounds[k]).prompt == round_prompt(summary, rounds, k)
                            && round_answered::<P, M>(*provider, aid, seed, k as nat, rounds[k]) by {
                            if k < round {
                                assert(rounds[k] == done[k]);
                            }
                        }
                        assert forall|k: int| 0 <= k < rounds.len() - 1 implies round_completed(
                            #[trigger] rounds[k],
                        ) by {
                            assert(rounds[k] == done[k]);
                        }
                        assert(mcp_trace::<P, M>(*provider, aid, seed, summary, rounds));
                        assert(mcp_trace_result(rounds, Err(e)));
                    }
                    return Err(e);
                },
            }
            proof {
                assert forall|j: int| 0 <= j < i + 1 implies call_passes(
                    calls0[j],
                    #[trigger] outs2[j],
                ) by {
                    if j < i {
                        assert(outs2[j] == outs[j]);
                    }
                }
                outs = outs2;
            }
            i = i + 1;
        }
        let ghost t = McpRound {
            prompt: prompt@,
            request: req0,
            reply: reply0,
            calls: calls0,
            outcomes: outs,
        };
        let ghost done2 = done.push(t);
        prompt = next_round_prompt(request.prompt_summary.as_str(), round, notes.as_str());
        proof {
            assert(done2.last() == t);
            assert(done2.drop_last() =~= done);
            assert(round_completed(t));
            assert(round_answered::<P, M>(*provider, aid, seed, round as nat, t));
            assert forall|k: int| 0 <= k < round + 1 implies (#[trigger] done2[k]).prompt
                == round_prompt(summary, done2, k) && round_answered::<P, M>(
                *provider,
                aid,
                seed,
                k as nat,
                done2[k],
            ) by {
                if k < round {
                    assert(done2[k] == done[k]);
                }
            }
            assert forall|k: int| 0 <= k < round + 1 implies round_completed(#[trigger] done2[k]) by {
                if k < round {
                    assert(done2[k] == done[k]);
                }
            }
            assert(done2[round as int] == t);
            done = done2;
        }
        round = round + 1;
    }
    proof {
        assert(done.last() == done[MAX_ROUNDS - 1]);
        assert(round_completed(done[MAX_ROUNDS - 1]));
        assert(mcp_trace::<P, M>(*provider, aid, seed, summary, done));
        assert(mcp_trace_result(done, Err(McpLoopError::ExceededRounds(MAX_ROUNDS))));
    }
    Err(McpLoopError::ExceededRounds(MAX_ROUNDS))
}

} // verus!

verus! {

/// What the model and the evidence trail learn of a tool call never
/// depends on what its text blocks say: two results with the same flags and
/// the same block kinds give the same note and the same evidence line.
pub proof fn lemma_tool_summaries_ignore_block_content(
    round: nat,
    tool_name: Seq<char>,
    server_id: Seq<char>,
    a: McpToolCallResult,
    b: McpToolCallResult,
)
    requires
        a.ok == b.ok,
        a.is_error == b.is_error,
        block_kinds(a.content@) == block_kinds(b.content@),
    ensures
        result_summary_text(a) == result_summary_text(b),
        tool_note_text(tool_name, server_id, a) == tool_note_text(tool_name, server_id, b),
        tool_evidence_text(round, tool_name, server_id, a) == tool_evidence_text(
            round,
            tool_name,
            server_id,
            b,
        ),
{
    assert(block_kinds(a.content@).len() == a.content@.len());
    assert(block_kinds(b.content@).len() == b.content@.len());
}


/// A turn that asked for no tool and ran with no MCP servers ends as the
/// direct run does: when the first reply of the loop is its final turn, the
/// turn carries no tool-call evidence; and a run result finished from it
/// with no MCP hash and that empty evidence (`finalize_mcp_turn`) has the
/// reproducibility identity, trace id and evidence summary of the direct
/// run's result for the same envelope (`assemble_result`).
pub proof fn lemma_mcp_without_tools_matches_direct(
    rounds: Seq<McpRound>,
    turn: McpFinalTurn,
    agent_id: Seq<char>,
    envelope: AgentOutputEnvelope,
    run_seed: u64,
    via_mcp: PiAgentRunResult,
    direct: PiAgentRunResult,
)
    requires
        rounds.len() == 1,
        mcp_trace_result(rounds, Ok(turn)),
        run_result_is(via_mcp, agent_id, envelope, run_seed, None, turn.evidence@),
        run_result_is(direct, agent_id, envelope, run_seed, None, Seq::empty()),
    ensures
        turn.evidence@ == Seq::<char>::empty(),
        via_mcp.reproducibility.run_seed == direct.reproducibility.run_seed,
        via_mcp.reproducibility.prompt_version == direct.reproducibility.prompt_version,
        via_mcp.reproducibility.model_version == direct.reproducibility.model_version,
        via_mcp.reproducibility.provider_config_hash == direct.reproducibility.provider_config_hash,
        via_mcp.reproducibility.snapshot_id == direct.reproducibility.snapshot_id,
        via_mcp.reproducibility.mcp_tool_call_hash == direct.reproducibility.mcp_tool_call_hash,
        via_mcp.reproducibility.mcp_tool_call_hash == envelope.reproducibility.mcp_tool_call_hash,
        via_mcp.reproducibility.trace_id->0@ == direct.reproducibility.trace_id->0@,
        via_mcp.trace_id->0@ == direct.trace_id->0@,
        via_mcp.evidence_summary@ == direct.evidence_summary@,
{
    assert(rounds.drop_last().len() == 0);
    assert(trace_evidence(rounds.drop_last()) == Seq::<char>::empty());
}
} // verus!
