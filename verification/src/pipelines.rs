//! Retry policy and the request-shaping steps of the text-output pipeline.

use vstd::prelude::*;
use vstd::arithmetic::power::pow;
use crate::prompts::{join_role_contents, role_contents, ChatMessage, MessageRole};
use crate::providers_text::{kind_is_retryable, TextModelProviderError, TextModelProviderErrorKind};
use crate::json::{is_json, parse_json};
use crate::text::{
    chars_of, decimal_string, find_char, first_index_of, join_seq, last_index_of,
    lemma_first_index_of, lemma_last_index_of, rfind_char, string_from_chars, trim, trim_seq,
    u64_to_string,
};

verus! {

/// Retry configuration for transient provider failures.
#[derive(Clone, Debug, PartialEq, Eq)]
pub struct RetryPolicy {
    pub max_attempts: u8,
    pub base_delay_ms: u64,
    pub max_delay_ms: u64,
}

impl Default for RetryPolicy {
    /// Up to 3 attempts, 500 ms base delay, capped at 8 s.
    fn default() -> (r: RetryPolicy)
        ensures
            r.max_attempts == 3,
            r.base_delay_ms == 500,
            r.max_delay_ms == 8000,
    {
        RetryPolicy { max_attempts: 3, base_delay_ms: 500, max_delay_ms: 8_000 }
    }
}

pub open spec fn min_int(a: int, b: int) -> int {
    if a <= b {
        a
    } else {
        b
    }
}

/// Backoff delay in milliseconds before retry `attempt` (0-based): the
/// server-advised delay when given, else `base * 2^attempt` saturated at
/// `u64::MAX`, capped at `max_delay_ms`, plus a quarter of that on odd
/// attempts, the sum capped at `max_delay_ms` again.
pub open spec fn backoff_delay_ms(p: RetryPolicy, attempt: u8, retry_after_ms: Option<u64>) -> int {
    match retry_after_ms {
        Some(server_ms) => min_int(server_ms as int, p.max_delay_ms as int),
        None => {
            let exp = min_int(p.base_delay_ms * pow(2, attempt as nat), u64::MAX as int);
            let base = min_int(exp, p.max_delay_ms as int);
            let jitter = if attempt % 2 == 1 {
                base / 4
            } else {
                0
            };
            min_int(base + jitter, p.max_delay_ms as int)
        },
    }
}

fn saturating_pow2(e: u8) -> (r: u64)
    ensures
        r == min_int(pow(2, e as nat), u64::MAX as int),
{
    let mut r: u64 = 1;
    let mut i: u8 = 0;
    proof {
        vstd::arithmetic::power::lemma_pow0(2);
    }
    while i < e
        invariant
            i <= e,
            r == min_int(pow(2, i as nat), u64::MAX as int),
        decreases e - i,
    {
        proof {
            vstd::arithmetic::power::lemma_pow_adds(2, i as nat, 1);
            vstd::arithmetic::power::lemma_pow1(2);
            vstd::arithmetic::power::lemma_pow_positive(2, i as nat);
        }
        assert(pow(2, (i + 1) as nat) == pow(2, i as nat) * 2);
        if r > u64::MAX / 2 {
            r = u64::MAX;
        } else {
            r = r * 2;
        }
        i = i + 1;
    }
    r
}

proof fn lemma_mul_fits(b: int, p: int)
    requires
        0 <= b,
        0 <= p,
        p != 0 ==> b <= (u64::MAX as int) / p,
        p == 0 || p >= 1,
    ensures
        b * p <= u64::MAX,
{
    if p != 0 {
        assert(b * p <= u64::MAX) by (nonlinear_arith)
            requires
                p > 0,
                b <= (u64::MAX as int) / p,
                b >= 0,
        ;
    }
}

proof fn lemma_saturated_product(b: int, pw: int, p: int, exp: int)
    requires
        b >= 0,
        pw >= 1,
        p == min_int(pw, u64::MAX as int),
        exp == if p != 0 && b > (u64::MAX as int) / p {
            u64::MAX as int
        } else {
            b * p
        },
    ensures
        exp == min_int(b * pw, u64::MAX as int),
{
    if b > (u64::MAX as int) / p {
        assert(b * p > u64::MAX) by (nonlinear_arith)
            requires
                p > 0,
                b > (u64::MAX as int) / p,
        ;
        assert(b * pw >= b * p) by (nonlinear_arith)
            requires
                pw >= p,
                b >= 0,
        ;
    } else if pw <= u64::MAX {
        assert(p == pw);
        assert(b * p <= u64::MAX) by (nonlinear_arith)
            requires
                p > 0,
                b <= (u64::MAX as int) / p,
                b >= 0,
        ;
    } else {
        assert(b <= 1) by (nonlinear_arith)
            requires
                p == u64::MAX,
                b <= (u64::MAX as int) / p,
        ;
        if b == 1 {
            assert(b * pw == pw) by (nonlinear_arith)
                requires
                    b == 1,
            ;
            assert(b * p == p) by (nonlinear_arith)
                requires
                    b == 1,
            ;
        } else {
            assert(b * pw == 0 && b * p == 0) by (nonlinear_arith)
                requires
                    b == 0,
            ;
        }
    }
}

impl RetryPolicy {
    /// Backoff delay in milliseconds for the 0-based `attempt`
    /// (`backoff_delay_ms`); never more than `max_delay_ms`.
    pub fn delay_for(&self, attempt: u8, retry_after_ms: Option<u64>) -> (r: u64)
        ensures
            r == backoff_delay_ms(*self, attempt, retry_after_ms),
            r <= self.max_delay_ms,
    {
        if let Some(server_ms) = retry_after_ms {
            return if server_ms < self.max_delay_ms {
                server_ms
            } else {
                self.max_delay_ms
            };
        }
        let p = saturating_pow2(attempt);
        let exp: u64 = if p != 0 && self.base_delay_ms > u64::MAX / p {
            u64::MAX
        } else {
            proof {
                lemma_mul_fits(self.base_delay_ms as int, p as int);
            }
            self.base_delay_ms * p
        };
        proof {
            vstd::arithmetic::power::lemma_pow_positive(2, attempt as nat);
            lemma_saturated_product(
                self.base_delay_ms as int,
                pow(2, attempt as nat),
                p as int,
                exp as int,
            );
        }
        let base = if exp < self.max_delay_ms {
            exp
        } else {
            self.max_delay_ms
        };
        let jitter: u64 = if attempt % 2 == 1 {
            base / 4
        } else {
            0
        };
        let total: u128 = base as u128 + jitter as u128;
        if total < self.max_delay_ms as u128 {
            total as u64
        } else {
            self.max_delay_ms
        }
    }
}

/// What the retry loop does after a failed attempt.
#[derive(Clone, Debug, PartialEq, Eq)]
pub enum RetryStep {
    /// Sleep `delay_ms`, then try again.
    Wait { delay_ms: u64 },
    /// Stop and surface this error.
    Fail(TextModelProviderError),
}

/// The failure surfaced by the loop: the same kind and code, the message
/// suffixed with ` (after N attempt(s))`.
pub open spec fn annotated_message(message: Seq<char>, attempts: nat) -> Seq<char> {
    message + " (after "@ + decimal_string(attempts) + " attempt(s))"@
}

/// Decision of the retry loop after attempt `attempt` (0-based) failed with
/// `error`: non-retryable errors, and any error on the last allowed attempt,
/// are surfaced with the attempt count; otherwise the loop waits the backoff
/// delay (honouring a rate limit's server-advised delay).
pub fn retry_step(policy: &RetryPolicy, attempt: u8, error: TextModelProviderError) -> (r:
    RetryStep)
    ensures
        (!kind_is_retryable(error.kind) || attempt + 1 >= policy.max_attempts) ==> (r matches RetryStep::Fail(e) && e.kind == error.kind && e.code == error.code
            && e.message@ == annotated_message(error.message@, (attempt + 1) as nat)),
        (kind_is_retryable(error.kind) && attempt + 1 < policy.max_attempts) ==> r
            == (RetryStep::Wait {
            delay_ms: backoff_delay_ms(
                *policy,
                attempt,
                match error.kind {
                    TextModelProviderErrorKind::RateLimit { retry_after_ms } => retry_after_ms,
                    _ => None,
                },
            ) as u64,
        }),
{
    let retryable = error.kind.is_retryable();
    let is_last_attempt = attempt as u16 + 1 >= policy.max_attempts as u16;
    if !retryable || is_last_attempt {
        let mut message = error.message.clone();
        message.append(" (after ");
        let count = u64_to_string(attempt as u64 + 1);
        message.append(count.as_str());
        message.append(" attempt(s))");
        return RetryStep::Fail(
            TextModelProviderError { kind: error.kind, code: error.code, message },
        );
    }
    let retry_after_ms = match &error.kind {
        TextModelProviderErrorKind::RateLimit { retry_after_ms } => *retry_after_ms,
        _ => None,
    };
    RetryStep::Wait { delay_ms: policy.delay_for(attempt, retry_after_ms) }
}

/// Error of a retry loop that ran no attempt (`max_attempts == 0`).
pub fn retry_exhausted_error() -> (r: TextModelProviderError)
    ensures
        r.kind == TextModelProviderErrorKind::Provider,
        r.code@ == "text_provider_retry_exhausted"@,
        r.message@ == "provider retry loop exited without a result"@,
{
    TextModelProviderError::provider(
        "text_provider_retry_exhausted",
        "provider retry loop exited without a result",
    )
}

/// The fallback single prompt of a structured request: the contents of the
/// `User` messages joined with `"\n"` (empty when there are none).
pub fn user_prompt_from_messages(messages: &[ChatMessage]) -> (r: String)
    ensures
        r@ == join_seq(role_contents(messages@, MessageRole::User), "\n"@),
{
    join_role_contents(messages, MessageRole::User)
}

/// JSON recovered from a provider answer: the trimmed text when it parses,
/// else the span from the first `{` to the last `}` when that parses.
pub open spec fn repaired_json(raw: Seq<char>) -> Result<Seq<char>, Seq<char>> {
    let t = trim_seq(raw);
    if t.len() == 0 {
        Err("empty provider JSON"@)
    } else if is_json(t) {
        Ok(t)
    } else {
        match (first_index_of(t, '{'), last_index_of(t, '}')) {
            (Some(start), Some(end)) => if start < end && is_json(t.subrange(start, end + 1)) {
                Ok(t.subrange(start, end + 1))
            } else {
                Err("unable to repair provider JSON envelope"@)
            },
            _ => Err("unable to repair provider JSON envelope"@),
        }
    }
}

fn json_parses(text: &str) -> (r: bool)
    ensures
        r == is_json(text@),
{
    match parse_json(text) {
        Ok(_) => true,
        Err(_) => false,
    }
}

/// Recovers the JSON document of a provider answer (`repaired_json`): the
/// trimmed answer when it is JSON, else the outermost `{...}` span.
pub fn repair_json_text(raw_json: &str) -> (r: Result<String, String>)
    ensures
        match (r, repaired_json(raw_json@)) {
            (Ok(x), Ok(y)) => x@ == y,
            (Err(x), Err(y)) => x@ == y,
            _ => false,
        },
{
    let trimmed = trim(raw_json);
    if trimmed.unicode_len() == 0 {
        return Err(String::from_str("empty provider JSON"));
    }
    if json_parses(trimmed) {
        return Ok(String::from_str(trimmed));
    }
    let cs = chars_of(trimmed);
    let start = find_char(&cs, '{');
    let end = rfind_char(&cs, '}');
    proof {
        lemma_first_index_of(cs@, '{', start);
        lemma_last_index_of(cs@, '}', end);
    }
    if let (Some(s), Some(e)) = (start, end) {
        if s < e {
            let candidate = string_from_chars(&cs, s, e + 1);
            if json_parses(candidate.as_str()) {
                return Ok(candidate);
            }
        }
    }
    Err(String::from_str("unable to repair provider JSON envelope"))
}


proof fn lemma_first_index_char(s: Seq<char>, c: char)
    ensures
        match first_index_of(s, c) {
            Some(i) => 0 <= i < s.len() && s[i] == c && forall|j: int| 0 <= j < i ==> s[j] != c,
            None => forall|j: int| 0 <= j < s.len() ==> s[j] != c,
        },
    decreases s.len(),
{
    if s.len() > 0 && s[0] != c {
        lemma_first_index_char(s.drop_first(), c);
        assert forall|j: int| 1 <= j < s.len() implies s[j] == s.drop_first()[j - 1] by {}
    }
}

proof fn lemma_last_index_char(s: Seq<char>, c: char)
    ensures
        match last_index_of(s, c) {
            Some(i) => 0 <= i < s.len() && s[i] == c && forall|j: int| i < j < s.len() ==> s[j] != c,
            None => forall|j: int| 0 <= j < s.len() ==> s[j] != c,
        },
    decreases s.len(),
{
    if s.len() > 0 && s.last() != c {
        lemma_last_index_char(s.drop_last(), c);
        assert forall|j: int| 0 <= j < s.len() - 1 implies s[j] == s.drop_last()[j] by {}
    }
}

/// `s` is the span of `t` from its first `{` to its last `}`: no `{` comes
/// before the span and no `}` after it.
pub open spec fn outermost_brace_span(t: Seq<char>, s: Seq<char>) -> bool {
    exists|start: int, end: int|
        #![trigger t.subrange(start, end + 1)]
        0 <= start < end < t.len() && s == t.subrange(start, end + 1) && t[start] == '{' && t[end]
            == '}' && (forall|j: int| 0 <= j < start ==> t[j] != '{') && (forall|j: int|
            end < j < t.len() ==> t[j] != '}')
}

/// What is recovered from an answer that is not JSON as it stands is JSON,
/// and is the span from the answer's first `{` to its last `}`.
pub proof fn lemma_repair_takes_outermost_span(raw: Seq<char>)
    ensures
        repaired_json(raw) matches Ok(s) ==> is_json(s) && (is_json(trim_seq(raw)) ==> s == trim_seq(
            raw,
        )) && (!is_json(trim_seq(raw)) ==> outermost_brace_span(trim_seq(raw), s)),
{
    let t = trim_seq(raw);
    lemma_first_index_char(t, '{');
    lemma_last_index_char(t, '}');
    if let Ok(s) = repaired_json(raw) {
        if !is_json(t) && t.len() > 0 {
            let start = first_index_of(t, '{')->0;
            let end = last_index_of(t, '}')->0;
            assert(s == t.subrange(start, end + 1));
        }
    }
}

/// An answer made of prose without `{`, a JSON object, and prose without
/// `}` gives back that object (or the whole answer, when it parses as it
/// stands).
pub proof fn lemma_repair_recovers_embedded_object(
    raw: Seq<char>,
    before: Seq<char>,
    object: Seq<char>,
    after: Seq<char>,
)
    requires
        trim_seq(raw) == before + object + after,
        object.len() >= 2,
        object[0] == '{',
        object.last() == '}',
        is_json(object),
        forall|j: int| 0 <= j < before.len() ==> before[j] != '{',
        forall|j: int| 0 <= j < after.len() ==> after[j] != '}',
    ensures
        repaired_json(raw) == if is_json(trim_seq(raw)) {
            Ok::<Seq<char>, Seq<char>>(trim_seq(raw))
        } else {
            Ok::<Seq<char>, Seq<char>>(object)
        },
{
    let t = trim_seq(raw);
    let start = before.len() as int;
    let end = before.len() + object.len() - 1;
    assert(t[start] == '{');
    assert(t[end] == '}');
    assert forall|j: int| 0 <= j < start implies t[j] != '{' by {
        assert(t[j] == before[j]);
    }
    assert forall|j: int| end < j < t.len() implies t[j] != '}' by {
        assert(t[j] == after[j - end - 1]);
    }
    lemma_first_index_char(t, '{');
    lemma_last_index_char(t, '}');
    let f = first_index_of(t, '{');
    let l = last_index_of(t, '}');
    assert(f == Some(start));
    assert(l == Some(end));
    assert(t.subrange(start, end + 1) =~= object);
}

} // verus!
