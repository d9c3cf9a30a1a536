//! Moderation provider interface: requests, responses, errors, the fake
//! provider, and the decoding of an OpenAI-compatible moderation reply.

use vstd::prelude::*;
use crate::shared::counted_call;
use crate::json::{JsonValue, json_parse_outcome, member, parse_json};
use crate::providers_http::UsageInfo;
use crate::providers_text::{TextProviderConfig, config_violation};
use crate::schema::ModerationProviderEntry;
use crate::sorting::{sorted_unique, strictly_sorted};
use crate::text::{u64_to_string, decimal_string, views};
use crate::shared::{contains_secret_marker_text, has_secret_marker};

verus! {

/// The byte limit on a moderation reply body.
pub const MODERATION_RESPONSE_BODY_MAX_BYTES: u64 = 1048576;

#[derive(Clone, Debug, PartialEq, Eq)]
pub struct ModerationRequest {
    pub call_id: String,
    pub prompt: String,
}

#[derive(Clone, Debug, PartialEq, Eq)]
pub struct ModerationResponse {
    pub flagged: bool,
    pub categories: Vec<String>,
    pub usage: Option<UsageInfo>,
    pub spent_cost_units: u64,
}

#[derive(Clone, Debug, PartialEq, Eq)]
pub enum ModerationProviderErrorKind {
    Provider,
    Timeout,
    ThrottlePreflight,
    RateLimit { retry_after_ms: Option<u64> },
    ContentFiltered { reason: String },
}

#[derive(Clone, Debug, PartialEq, Eq)]
pub struct ModerationProviderError {
    pub kind: ModerationProviderErrorKind,
    pub code: String,
    pub message: String,
}

/// A copy of a list of strings.
pub fn copy_strings(v: &Vec<String>) -> (r: Vec<String>)
    ensures
        r@ == v@,
{
    let r = v.clone();
    assert(r@ =~= v@);
    r
}

impl ModerationProviderErrorKind {
    pub fn copy(&self) -> (r: ModerationProviderErrorKind)
        ensures
            r == *self,
    {
        match self {
            ModerationProviderErrorKind::Provider => ModerationProviderErrorKind::Provider,
            ModerationProviderErrorKind::Timeout => ModerationProviderErrorKind::Timeout,
            ModerationProviderErrorKind::ThrottlePreflight => ModerationProviderErrorKind::ThrottlePreflight,
            ModerationProviderErrorKind::RateLimit { retry_after_ms } => ModerationProviderErrorKind::RateLimit {
                retry_after_ms: *retry_after_ms,
            },
            ModerationProviderErrorKind::ContentFiltered { reason } => ModerationProviderErrorKind::ContentFiltered {
                reason: reason.clone(),
            },
        }
    }
}

impl ModerationProviderError {
    pub fn provider(code: &str, message: &str) -> (r: ModerationProviderError)
        ensures
            r.kind == ModerationProviderErrorKind::Provider,
            r.code@ == code@,
            r.message@ == message@,
    {
        ModerationProviderError {
            kind: ModerationProviderErrorKind::Provider,
            code: String::from_str(code),
            message: String::from_str(message),
        }
    }

    pub fn timeout(message: &str) -> (r: ModerationProviderError)
        ensures
            r.kind == ModerationProviderErrorKind::Timeout,
            r.code@ == "moderation_provider_timeout"@,
            r.message@ == message@,
    {
        ModerationProviderError {
            kind: ModerationProviderErrorKind::Timeout,
            code: String::from_str("moderation_provider_timeout"),
            message: String::from_str(message),
        }
    }

    pub fn rate_limit(retry_after_ms: Option<u64>, message: &str) -> (r: ModerationProviderError)
        ensures
            r.kind == (ModerationProviderErrorKind::RateLimit { retry_after_ms }),
            r.code@ == "moderation_provider_rate_limit"@,
            r.message@ == message@,
    {
        ModerationProviderError {
            kind: ModerationProviderErrorKind::RateLimit { retry_after_ms },
            code: String::from_str("moderation_provider_rate_limit"),
            message: String::from_str(message),
        }
    }

    pub fn throttle_preflight(message: &str) -> (r: ModerationProviderError)
        ensures
            r.kind == ModerationProviderErrorKind::ThrottlePreflight,
            r.code@ == "moderation_provider_throttle_preflight"@,
            r.message@ == message@,
    {
        ModerationProviderError {
            kind: ModerationProviderErrorKind::ThrottlePreflight,
            code: String::from_str("moderation_provider_throttle_preflight"),
            message: String::from_str(message),
        }
    }

    /// `{code}: {message}`.
    pub fn to_text(&self) -> (r: String)
        ensures
            r@ == self.code@ + ": "@ + self.message@,
    {
        let mut r = self.code.clone();
        r.append(": ");
        r.append(self.message.as_str());
        r
    }

    pub fn copy(&self) -> (r: ModerationProviderError)
        ensures
            r == *self,
    {
        ModerationProviderError {
            kind: self.kind.copy(),
            code: self.code.clone(),
            message: self.message.clone(),
        }
    }
}

/// A moderation classifier. Implementations classify one request per call.
pub trait ModerationProvider {
    /// `r` is an answer this provider may give to `request`. A provider
    /// that states nothing of its answers keeps the default, which admits
    /// every answer.
    open spec fn moderates(
        &self,
        request: ModerationRequest,
        r: Result<ModerationResponse, ModerationProviderError>,
    ) -> bool {
        true
    }

    /// How many requests this provider has answered, when it keeps count.
    /// A provider that keeps no count keeps the default, `None`.
    open spec fn answered_calls(&self) -> Option<nat> {
        None
    }

    fn moderate(&mut self, request: &ModerationRequest) -> (r: Result<
        ModerationResponse,
        ModerationProviderError,
    >)
        ensures
            old(self).moderates(*request, r),
            old(self).answered_calls() is Some && final(self).answered_calls() is Some
                ==> final(self).answered_calls()->0 == old(self).answered_calls()->0 + 1,
    ;
}

/// A deterministic moderation provider for tests and offline runs: it
/// passes everything, flags everything with fixed categories, or fails with
/// a fixed error, and counts the calls made on it. It is not `Clone`, so
/// every call is made on the one value whose counter reports it.
#[derive(Debug)]
pub struct FakeModerationProvider {
    pub flagged_categories: Vec<String>,
    pub response_error: Option<ModerationProviderError>,
    pub calls: u32,
}

impl FakeModerationProvider {
    pub fn pass() -> (r: FakeModerationProvider)
        ensures
            r.flagged_categories@.len() == 0,
            r.response_error is None,
            r.calls == 0,
    {
        FakeModerationProvider { flagged_categories: Vec::new(), response_error: None, calls: 0 }
    }

    /// Flags every request with `categories`, sorted and without duplicates.
    pub fn flagged(categories: Vec<String>) -> (r: FakeModerationProvider)
        ensures
            strictly_sorted(views(r.flagged_categories@)),
            forall|x: Seq<char>| views(r.flagged_categories@).contains(x) <==> views(categories@).contains(x),
            r.response_error is None,
            r.calls == 0,
    {
        FakeModerationProvider {
            flagged_categories: sorted_unique(&categories),
            response_error: None,
            calls: 0,
        }
    }

    pub fn with_error(error: ModerationProviderError) -> (r: FakeModerationProvider)
        ensures
            r.flagged_categories@.len() == 0,
            r.response_error == Some(error),
            r.calls == 0,
    {
        FakeModerationProvider { flagged_categories: Vec::new(), response_error: Some(error), calls: 0 }
    }

    pub fn call_count(&self) -> (r: u32)
        ensures
            r == self.calls,
    {
        self.calls
    }
}

impl ModerationProvider for FakeModerationProvider {
    /// The call counter, while it is below its saturation point.
    open spec fn answered_calls(&self) -> Option<nat> {
        if self.calls < u32::MAX {
            Some(self.calls as nat)
        } else {
            None
        }
    }

    /// The configured error, or a reply flagged exactly when categories are
    /// set, carrying those categories.
    open spec fn moderates(
        &self,
        request: ModerationRequest,
        r: Result<ModerationResponse, ModerationProviderError>,
    ) -> bool {
        match self.response_error {
            Some(e) => r == Err::<ModerationResponse, ModerationProviderError>(e),
            None => r matches Ok(resp) && resp.flagged == (self.flagged_categories@.len() > 0)
                && resp.categories@ == self.flagged_categories@ && resp.usage is None
                && resp.spent_cost_units == 0,
        }
    }

    /// Counts the call (saturating at `u32::MAX`), then answers with the
    /// configured error, or with `flagged` exactly when categories are set.
    fn moderate(&mut self, request: &ModerationRequest) -> (r: Result<
        ModerationResponse,
        ModerationProviderError,
    >)
        ensures
            counted_call(old(self).calls, final(self).calls),
            final(self).flagged_categories == old(self).flagged_categories,
            final(self).response_error == old(self).response_error,
    {
        if self.calls < u32::MAX {
            self.calls = self.calls + 1;
        }
        match &self.response_error {
            Some(e) => Err(e.copy()),
            None => Ok(
                ModerationResponse {
                    flagged: self.flagged_categories.len() > 0,
                    categories: copy_strings(&self.flagged_categories),
                    usage: None,
                    spent_cost_units: 0,
                },
            ),
        }
    }
}

/// The text-provider configuration that a moderation entry is checked as.
pub open spec fn moderation_entry_config(entry: ModerationProviderEntry) -> TextProviderConfig {
    TextProviderConfig {
        enabled: entry.enabled,
        provider: entry.id,
        model: entry.model,
        endpoint_url: Some(entry.endpoint_url),
        credential_env_var: entry.credential_env_var,
        max_output_tokens: None,
        supports_json_schema: false,
    }
}

/// A moderation entry must pass the text-provider configuration rules.
pub fn validate_moderation_provider_entry(entry: &ModerationProviderEntry) -> (r: Result<
    (),
    ModerationProviderError,
>)
    ensures
        match config_violation(moderation_entry_config(*entry)) {
            None => r is Ok,
            Some((f, reason)) => r matches Err(e) && e.kind == ModerationProviderErrorKind::Provider
                && e.code@ == "moderation_provider_invalid_configuration"@ && e.message@
                == "invalid text provider config field "@ + f + ": "@ + reason,
        },
{
    let config = TextProviderConfig {
        enabled: entry.enabled,
        provider: entry.id.clone(),
        model: entry.model.clone(),
        endpoint_url: Some(entry.endpoint_url.clone()),
        credential_env_var: entry.credential_env_var.clone(),
        max_output_tokens: None,
        supports_json_schema: false,
    };
    assert(config == moderation_entry_config(*entry));
    match config.validate() {
        Ok(()) => Ok(()),
        Err(error) => {
            let message = error.message();
            Err(
                ModerationProviderError::provider(
                    "moderation_provider_invalid_configuration",
                    message.as_str(),
                ),
            )
        },
    }
}

/// The error for a reply body over the byte limit.
pub fn moderation_response_too_large() -> (r: ModerationProviderError)
    ensures
        r.kind == ModerationProviderErrorKind::Provider,
        r.code@ == "moderation_provider_response_too_large"@,
        r.message@ == "moderation provider response exceeded the "@ + decimal_string(
            MODERATION_RESPONSE_BODY_MAX_BYTES as nat,
        ) + " byte limit"@,
{
    let mut message = String::from_str("moderation provider response exceeded the ");
    let limit = u64_to_string(MODERATION_RESPONSE_BODY_MAX_BYTES);
    message.append(limit.as_str());
    message.append(" byte limit");
    ModerationProviderError::provider("moderation_provider_response_too_large", message.as_str())
}

/// A body of `len` bytes is over the limit.
pub fn moderation_body_too_large(len: u64) -> (r: bool)
    ensures
        r == (len > MODERATION_RESPONSE_BODY_MAX_BYTES),
{
    len > MODERATION_RESPONSE_BODY_MAX_BYTES
}

/// Every member of a category map is a boolean.
pub open spec fn all_bool_members(entries: Seq<(String, JsonValue)>) -> bool {
    forall|i: int| 0 <= i < entries.len() ==> #[trigger] entries[i].1 is Bool
}

/// One moderation result, as the wire struct reads it: `flagged` and the
/// category map, from an object (by name) or a two-element array (by
/// position).
pub open spec fn wire_result(v: JsonValue) -> Option<(bool, Seq<(String, JsonValue)>)> {
    let parts = match v {
        JsonValue::Object(entries) => match (member(entries@, "flagged"@), member(entries@, "categories"@)) {
            (Some(f), Some(c)) => Some((f, c)),
            _ => None,
        },
        JsonValue::Array(items) => if items@.len() == 2 {
            Some((items@[0], items@[1]))
        } else {
            None
        },
        _ => None,
    };
    match parts {
        Some((JsonValue::Bool(f), JsonValue::Object(cats))) => if all_bool_members(cats@) {
            Some((f, cats@))
        } else {
            None
        },
        _ => None,
    }
}

/// The value holding the results: the `results` member of an object, or
/// the single element of a one-element array.
pub open spec fn wire_results_member(v: JsonValue) -> Option<JsonValue> {
    match v {
        JsonValue::Object(entries) => member(entries@, "results"@),
        JsonValue::Array(items) => if items@.len() == 1 {
            Some(items@[0])
        } else {
            None
        },
        _ => None,
    }
}

/// The `results` list of a moderation reply, when the reply has the wire
/// shape: an object with a `results` array, or a one-element array holding
/// it, every result being well formed.
pub open spec fn wire_results(v: JsonValue) -> Option<Seq<JsonValue>> {
    match wire_results_member(v) {
        Some(JsonValue::Array(items)) => if forall|i: int|
            0 <= i < items@.len() ==> #[trigger] wire_result(items@[i]) is Some {
            Some(items@)
        } else {
            None
        },
        _ => None,
    }
}

/// One of the first `n` categories is named `x` and is `true`.
pub open spec fn named_true(cats: Seq<(String, JsonValue)>, n: int, x: Seq<char>) -> bool {
    exists|k: int| 0 <= k < n && cats[k].0@ == x && cats[k].1 == JsonValue::Bool(true)
}

/// `x` names a category whose value is `true`.
pub open spec fn flagged_in(cats: Seq<(String, JsonValue)>, x: Seq<char>) -> bool {
    exists|k: int| 0 <= k < cats.len() && cats[k].0@ == x && cats[k].1 == JsonValue::Bool(true)
}

/// What the decoder makes of a parsed reply.
pub open spec fn moderation_decoded(v: JsonValue, r: Result<ModerationResponse, ModerationProviderError>) -> bool {
    match wire_results(v) {
        None => r matches Err(e) && e.kind == ModerationProviderErrorKind::Provider && e.code@
            == "moderation_provider_http_decode"@,
        Some(results) => if results.len() == 0 {
            r matches Err(e) && e.kind == ModerationProviderErrorKind::Provider && e.code@
                == "moderation_provider_http_decode"@ && e.message@
                == "moderation response missing results[0]"@
        } else {
            let (flagged, cats) = wire_result(results[0])->0;
            r matches Ok(resp) && resp.flagged == flagged && strictly_sorted(views(resp.categories@))
                && (forall|x: Seq<char>| #[trigger] views(resp.categories@).contains(x) <==> flagged_in(cats, x))
                && resp.usage is None && resp.spent_cost_units == 0
        },
    }
}

fn bool_members(entries: &Vec<(String, JsonValue)>) -> (r: bool)
    ensures
        r == all_bool_members(entries@),
{
    let mut i: usize = 0;
    while i < entries.len()
        invariant
            i <= entries@.len(),
            forall|k: int| 0 <= k < i ==> #[trigger] entries@[k].1 is Bool,
        decreases entries@.len() - i,
    {
        match &entries[i].1 {
            JsonValue::Bool(_) => {},
            _ => return false,
        }
        i = i + 1;
    }
    true
}

fn read_wire_result(v: &JsonValue) -> (r: Option<(bool, &Vec<(String, JsonValue)>)>)
    ensures
        match wire_result(*v) {
            None => r is None,
            Some((f, cats)) => r matches Some((g, c)) && g == f && c@ == cats,
        },
{
    let (f, c) = match v {
        JsonValue::Object(_) => match (v.get("flagged"), v.get("categories")) {
            (Some(f), Some(c)) => (f, c),
            _ => return None,
        },
        JsonValue::Array(items) => if items.len() == 2 {
            (&items[0], &items[1])
        } else {
            return None;
        },
        _ => return None,
    };
    match (f, c) {
        (JsonValue::Bool(b), JsonValue::Object(cats)) => if bool_members(cats) {
            Some((*b, cats))
        } else {
            None
        },
        _ => None,
    }
}

fn read_wire_results(v: &JsonValue) -> (r: Option<&Vec<JsonValue>>)
    ensures
        match wire_results(*v) {
            None => r is None,
            Some(items) => r matches Some(x) && x@ == items,
        },
        r matches Some(x) ==> forall|i: int| 0 <= i < x@.len() ==> #[trigger] wire_result(x@[i]) is Some,
{
    let results = match v {
        JsonValue::Object(_) => match v.get("results") {
            Some(x) => x,
            None => return None,
        },
        JsonValue::Array(items) => if items.len() == 1 {
            &items[0]
        } else {
            return None;
        },
        _ => return None,
    };
    match results {
        JsonValue::Array(items) => {
            let mut i: usize = 0;
            while i < items.len()
                invariant
                    i <= items@.len(),
                    forall|k: int| 0 <= k < i ==> #[trigger] wire_result(items@[k]) is Some,
                    wire_results_member(*v) == Some(JsonValue::Array(*items)),
                decreases items@.len() - i,
            {
                if read_wire_result(&items[i]).is_none() {
                    assert(wire_result(items@[i as int]) is None);
                    assert(!(forall|k: int|
                        0 <= k < items@.len() ==> #[trigger] wire_result(items@[k]) is Some));
                    return None;
                }
                i = i + 1;
            }
            Some(items)
        },
        _ => None,
    }
}

/// Decodes a parsed moderation reply: the first result's `flagged` flag and
/// the names of its categories that are `true`, sorted and distinct.
pub fn moderation_response_from_json(v: &JsonValue) -> (r: Result<
    ModerationResponse,
    ModerationProviderError,
>)
    ensures
        moderation_decoded(*v, r),
{
    let results = match read_wire_results(v) {
        Some(items) => items,
        None => {
            return Err(
                ModerationProviderError::provider(
                    "moderation_provider_http_decode",
                    "moderation response was not JSON: unexpected moderation response shape",
                ),
            );
        },
    };
    if results.len() == 0 {
        return Err(
            ModerationProviderError::provider(
                "moderation_provider_http_decode",
                "moderation response missing results[0]",
            ),
        );
    }
    let (flagged, cats) = match read_wire_result(&results[0]) {
        Some(x) => x,
        None => {
            assert(wire_result(results@[0]) is Some);
            return Err(
                ModerationProviderError::provider("moderation_provider_http_decode", ""),
            );
        },
    };
    let mut names: Vec<String> = Vec::new();
    let mut i: usize = 0;
    while i < cats.len()
        invariant
            i <= cats@.len(),
            forall|x: Seq<char>| views(names@).contains(x) <==> named_true(cats@, i as int, x),
        decreases cats@.len() - i,
    {
        let ghost before = names@;
        match &cats[i].1 {
            JsonValue::Bool(true) => {
                names.push(cats[i].0.clone());
                proof {
                    let c = cats@[i as int].0@;
                    assert(views(names@) =~= views(before).push(c));
                    assert forall|x: Seq<char>| views(names@).contains(x) <==> named_true(
                        cats@,
                        i + 1,
                        x,
                    ) by {
                        if x == c {
                            assert(views(names@)[before.len() as int] == x);
                            assert(cats@[i as int].0@ == x && cats@[i as int].1 == JsonValue::Bool(true));
                        } else {
                            if views(names@).contains(x) {
                                let q = choose|q: int| 0 <= q < views(names@).len() && views(names@)[q] == x;
                                assert(views(before)[q] == x);
                                assert(views(before).contains(x));
                                let k = choose|k: int| 0 <= k < i && cats@[k].0@ == x && cats@[k].1 == JsonValue::Bool(true);
                                assert(0 <= k < i + 1 && cats@[k].0@ == x && cats@[k].1 == JsonValue::Bool(true));
                            }
                            if named_true(cats@, i + 1, x) {
                                let k = choose|k: int| 0 <= k < i + 1 && cats@[k].0@ == x && cats@[k].1 == JsonValue::Bool(true);
                                assert(k < i);
                                assert(named_true(cats@, i as int, x));
                                assert(views(before).contains(x));
                                let q = choose|q: int| 0 <= q < views(before).len() && views(before)[q] == x;
                                assert(views(names@)[q] == x);
                            }
                        }
                    }
                }
            },
            _ => {
                proof {
                    assert(views(names@) =~= views(before));
                    assert forall|x: Seq<char>| named_true(cats@, i + 1, x) implies named_true(cats@, i as int, x) by {
                        let k = choose|k: int| 0 <= k < i + 1 && cats@[k].0@ == x && cats@[k].1 == JsonValue::Bool(true);
                        assert(k != i);
                        assert(0 <= k < i && cats@[k].0@ == x && cats@[k].1 == JsonValue::Bool(true));
                    }
                    assert forall|x: Seq<char>| named_true(cats@, i as int, x) implies named_true(cats@, i + 1, x) by {
                        let k = choose|k: int| 0 <= k < i && cats@[k].0@ == x && cats@[k].1 == JsonValue::Bool(true);
                        assert(0 <= k < i + 1 && cats@[k].0@ == x && cats@[k].1 == JsonValue::Bool(true));
                    }
                }
            },
        }
        i = i + 1;
    }
    assert forall|x: Seq<char>| named_true(cats@, cats@.len() as int, x) == flagged_in(cats@, x) by {}
    let categories = sorted_unique(&names);
    Ok(ModerationResponse { flagged, categories, usage: None, spent_cost_units: 0 })
}

/// Decodes a moderation reply body: the JSON parser's failure, or what
/// `moderation_response_from_json` makes of the document.
pub fn parse_moderation_response(raw: &str) -> (r: Result<ModerationResponse, ModerationProviderError>)
    ensures
        match json_parse_outcome(raw@) {
            Err(m) => r matches Err(e) && e.kind == ModerationProviderErrorKind::Provider && e.code@
                == "moderation_provider_http_decode"@ && e.message@
                == "moderation response was not JSON: "@ + m,
            Ok(v) => moderation_decoded(v, r),
        },
{
    match parse_json(raw) {
        Err(m) => {
            let mut message = String::from_str("moderation response was not JSON: ");
            message.append(m.as_str());
            Err(ModerationProviderError::provider("moderation_provider_http_decode", message.as_str()))
        },
        Ok(v) => moderation_response_from_json(&v),
    }
}

/// A prompt carrying a secret marker is refused before any request.
pub fn check_moderation_prompt(prompt: &str) -> (r: Result<(), ModerationProviderError>)
    ensures
        has_secret_marker(prompt@) ==> (r matches Err(e) && e.kind
            == ModerationProviderErrorKind::Provider && e.code@
            == "moderation_provider_prompt_secret"@ && e.message@
            == "moderation prompt contained a secret marker"@),
        !has_secret_marker(prompt@) ==> r is Ok,
{
    if contains_secret_marker_text(prompt) {
        return Err(
            ModerationProviderError::provider(
                "moderation_provider_prompt_secret",
                "moderation prompt contained a secret marker",
            ),
        );
    }
    Ok(())
}

/// A reply body carrying a secret marker is refused; otherwise it is
/// decoded.
pub fn moderation_reply(raw: &str) -> (r: Result<ModerationResponse, ModerationProviderError>)
    ensures
        has_secret_marker(raw@) ==> (r matches Err(e) && e.kind
            == ModerationProviderErrorKind::Provider && e.code@
            == "moderation_provider_response_secret"@ && e.message@
            == "moderation provider response contained a secret marker"@),
        !has_secret_marker(raw@) ==> match json_parse_outcome(raw@) {
            Err(m) => r matches Err(e) && e.kind == ModerationProviderErrorKind::Provider && e.code@
                == "moderation_provider_http_decode"@ && e.message@
                == "moderation response was not JSON: "@ + m,
            Ok(v) => moderation_decoded(v, r),
        },
{
    if contains_secret_marker_text(raw) {
        return Err(
            ModerationProviderError::provider(
                "moderation_provider_response_secret",
                "moderation provider response contained a secret marker",
            ),
        );
    }
    parse_moderation_response(raw)
}

/// The error for a credential that could not be resolved.
pub fn moderation_missing_credential(env_var: &str) -> (r: ModerationProviderError)
    ensures
        r.kind == ModerationProviderErrorKind::Provider,
        r.code@ == "moderation_provider_missing_credential"@,
        r.message@ == "moderation provider credential env var `"@ + env_var@
            + "` is missing or empty"@,
{
    let mut m = String::from_str("moderation provider credential env var `");
    m.append(env_var);
    m.append("` is missing or empty");
    ModerationProviderError::provider("moderation_provider_missing_credential", m.as_str())
}

/// The error for a non-success HTTP status (`status_text` is how the status
/// prints).
pub fn moderation_status_error(status: u16, status_text: &str, retry_after_ms: Option<u64>) -> (r: ModerationProviderError)
    ensures
        r.message@ == "moderation provider returned HTTP "@ + status_text@,
        status == 429 ==> r.kind == (ModerationProviderErrorKind::RateLimit { retry_after_ms })
            && r.code@ == "moderation_provider_rate_limit"@,
        status != 429 ==> r.kind == ModerationProviderErrorKind::Provider && r.code@
            == "moderation_provider_http_status"@,
{
    let mut m = String::from_str("moderation provider returned HTTP ");
    m.append(status_text);
    if status == 429 {
        ModerationProviderError::rate_limit(retry_after_ms, m.as_str())
    } else {
        ModerationProviderError::provider("moderation_provider_http_status", m.as_str())
    }
}

/// The moderation request body: `{"model": model, "input": prompt}`.
pub fn moderation_request_body(model: &str, prompt: &str) -> (r: JsonValue)
    ensures
        r matches JsonValue::Object(es) && es@.len() == 2 && es@[0].0@ == "model"@ && es@[0].1
            == JsonValue::Str(es@[0].1->Str_0) && es@[0].1->Str_0@ == model@ && es@[1].0@ == "input"@
            && es@[1].1 == JsonValue::Str(es@[1].1->Str_0) && es@[1].1->Str_0@ == prompt@,
{
    let mut es: Vec<(String, JsonValue)> = Vec::new();
    es.push((String::from_str("model"), JsonValue::Str(String::from_str(model))));
    es.push((String::from_str("input"), JsonValue::Str(String::from_str(prompt))));
    JsonValue::Object(es)
}

} // verus!
