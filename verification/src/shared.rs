//! Calendar arithmetic and `Retry-After` parsing shared by the provider
//! clients, plus the redaction-safe hashing helpers.

use vstd::prelude::*;
use vstd::arithmetic::div_mod::{lemma_fundamental_div_mod, lemma_fundamental_div_mod_converse};
use crate::text::{
    ascii_lower_chars, ascii_lower_seq, contains_chars, contains_seq, push_char,
    parse_i32, parse_i32_spec, parse_u32, parse_u32_spec, parse_u64, parse_u64_spec, split_on_char,
    split_seq, split_whitespace, str_eq, trim, trim_seq, views, ws_tokens,
};

verus! {

/// Month number of an English three-letter month abbreviation.
pub open spec fn month_index_spec(name: Seq<char>) -> Option<u32> {
    if name == "Jan"@ {
        Some(1)
    } else if name == "Feb"@ {
        Some(2)
    } else if name == "Mar"@ {
        Some(3)
    } else if name == "Apr"@ {
        Some(4)
    } else if name == "May"@ {
        Some(5)
    } else if name == "Jun"@ {
        Some(6)
    } else if name == "Jul"@ {
        Some(7)
    } else if name == "Aug"@ {
        Some(8)
    } else if name == "Sep"@ {
        Some(9)
    } else if name == "Oct"@ {
        Some(10)
    } else if name == "Nov"@ {
        Some(11)
    } else if name == "Dec"@ {
        Some(12)
    } else {
        None
    }
}

/// Maps `"Jan"`..`"Dec"` to `1..=12`; anything else to `None`.
pub fn month_index(name: &str) -> (r: Option<u32>)
    ensures
        r == month_index_spec(name@),
{
    if str_eq(name, "Jan") {
        Some(1)
    } else if str_eq(name, "Feb") {
        Some(2)
    } else if str_eq(name, "Mar") {
        Some(3)
    } else if str_eq(name, "Apr") {
        Some(4)
    } else if str_eq(name, "May") {
        Some(5)
    } else if str_eq(name, "Jun") {
        Some(6)
    } else if str_eq(name, "Jul") {
        Some(7)
    } else if str_eq(name, "Aug") {
        Some(8)
    } else if str_eq(name, "Sep") {
        Some(9)
    } else if str_eq(name, "Oct") {
        Some(10)
    } else if str_eq(name, "Nov") {
        Some(11)
    } else if str_eq(name, "Dec") {
        Some(12)
    } else {
        None
    }
}

/// Gregorian leap year (proleptic).
pub open spec fn is_leap(y: int) -> bool {
    y % 4 == 0 && (y % 100 != 0 || y % 400 == 0)
}

/// Number of leap years in `[1, y)`, counted with floor division so that it
/// stays consistent for years before 1.
pub open spec fn leaps_before(y: int) -> int {
    (y - 1) / 4 - (y - 1) / 100 + (y - 1) / 400
}

/// Days from 1970-01-01 to January 1st of year `y`.
pub open spec fn days_before_year(y: int) -> int {
    365 * (y - 1970) + leaps_before(y) - leaps_before(1970)
}

/// Days from January 1st to the first day of month `m` (1..=12) in a common year.
pub open spec fn month_start(m: int) -> int {
    if m == 1 {
        0
    } else if m == 2 {
        31
    } else if m == 3 {
        59
    } else if m == 4 {
        90
    } else if m == 5 {
        120
    } else if m == 6 {
        151
    } else if m == 7 {
        181
    } else if m == 8 {
        212
    } else if m == 9 {
        243
    } else if m == 10 {
        273
    } else if m == 11 {
        304
    } else {
        334
    }
}

/// Days from January 1st of `y` to the first day of month `m`.
pub open spec fn days_before_month(y: int, m: int) -> int {
    month_start(m) + if m > 2 && is_leap(y) {
        1int
    } else {
        0int
    }
}

/// Days since 1970-01-01 of the civil date `(y, m, d)`; `d` counts from 1.
pub open spec fn civil_days(y: int, m: int, d: int) -> int {
    days_before_year(y) + days_before_month(y, m) + d - 1
}

proof fn lemma_div_shift(a: int, d: int, k: int)
    requires
        d > 0,
    ensures
        (a + d * k) / d == a / d + k,
{
    lemma_fundamental_div_mod(a, d);
    assert(a + d * k == (a / d + k) * d + a % d) by (nonlinear_arith)
        requires
            a == d * (a / d) + a % d,
    ;
    lemma_fundamental_div_mod_converse(a + d * k, d, a / d + k, a % d);
}

proof fn lemma_div_step(y: int, d: int)
    requires
        d > 0,
    ensures
        y / d - (y - 1) / d == if y % d == 0 {
            1int
        } else {
            0int
        },
{
    lemma_fundamental_div_mod(y, d);
    let q = y / d;
    let r = y % d;
    if r == 0 {
        assert(y - 1 == (q - 1) * d + (d - 1)) by (nonlinear_arith)
            requires
                y == d * q + r,
                r == 0,
        ;
        lemma_fundamental_div_mod_converse(y - 1, d, q - 1, d - 1);
    } else {
        assert(y - 1 == q * d + (r - 1)) by (nonlinear_arith)
            requires
                y == d * q + r,
        ;
        lemma_fundamental_div_mod_converse(y - 1, d, q, r - 1);
    }
}

proof fn lemma_leap_step(y: int)
    ensures
        (y / 4 - y / 100 + y / 400) - leaps_before(y) == if is_leap(y) {
            1int
        } else {
            0int
        },
{
    lemma_div_step(y, 4);
    lemma_div_step(y, 100);
    lemma_div_step(y, 400);
    lemma_fundamental_div_mod(y, 400);
    lemma_fundamental_div_mod(y, 100);
    lemma_fundamental_div_mod(y, 4);
    if y % 400 == 0 {
        assert(y % 100 == 0 && y % 4 == 0) by (nonlinear_arith)
            requires
                y == 400 * (y / 400) + y % 400,
                y % 400 == 0,
                y == 100 * (y / 100) + y % 100,
                0 <= y % 100 < 100,
                y == 4 * (y / 4) + y % 4,
                0 <= y % 4 < 4,
        ;
    } else if y % 100 == 0 {
        assert(y % 4 == 0) by (nonlinear_arith)
            requires
                y == 100 * (y / 100) + y % 100,
                y % 100 == 0,
                y == 4 * (y / 4) + y % 4,
                0 <= y % 4 < 4,
        ;
    }
}

/// The day count starts at the Unix epoch, advances by one per day, and a
/// year holds 366 days when it is a leap year and 365 otherwise.
pub proof fn lemma_civil_calendar(y: int, m: int, d: int)
    ensures
        civil_days(1970, 1, 1) == 0,
        civil_days(y, m, d + 1) == civil_days(y, m, d) + 1,
        civil_days(y + 1, 1, 1) - civil_days(y, 1, 1) == if is_leap(y) {
            366int
        } else {
            365int
        },
        civil_days(y, 12, 31) + 1 == civil_days(y + 1, 1, 1),
{
    lemma_leap_step(y);
    assert(leaps_before(y + 1) == y / 4 - y / 100 + y / 400);
}

/// Days since the epoch of `(y, m, d)` computed with non-negative divisions
/// only: the year is shifted by a whole number of 400-year cycles first.
proof fn lemma_civil_days_shifted(ys: int, k: int, m: int, d: int, yp: int)
    requires
        1 <= m <= 12,
        yp == if m <= 2 {
            ys - 1
        } else {
            ys
        },
        yp + 400 * k >= 0,
    ensures
        civil_days(ys, m, d) == 365 * (yp + 400 * k) + (yp + 400 * k) / 4 - (yp + 400 * k) / 100 + (
        yp + 400 * k) / 400 + (153 * (if m > 2 {
            m - 3
        } else {
            m + 9
        }) + 2) / 5 + d - 1 - 719468 - 146097 * k,
{
    let z = yp + 400 * k;
    lemma_div_shift(yp, 4, 100 * k);
    lemma_div_shift(yp, 100, 4 * k);
    lemma_div_shift(yp, 400, k);
    assert(z / 4 == yp / 4 + 100 * k);
    assert(z / 100 == yp / 100 + 4 * k);
    assert(z / 400 == yp / 400 + k);
    lemma_leap_step(ys);
    assert(leaps_before(1970) == 477);
    if m > 2 {
        assert(yp == ys);
    } else {
        assert(leaps_before(ys) == (ys - 1) / 4 - (ys - 1) / 100 + (ys - 1) / 400);
    }
}

/// Days since 1970-01-01 of the civil date `(year, month, day)`, or `None`
/// when `month` is outside `1..=12`.
pub fn days_from_civil(year: i32, month: u32, day: u32) -> (r: Option<i64>)
    ensures
        r == if 1 <= month <= 12 {
            Some(civil_days(year as int, month as int, day as int) as i64)
        } else {
            None::<i64>
        },
        1 <= month <= 12 ==> i64::MIN <= civil_days(year as int, month as int, day as int)
            <= i64::MAX,
{
    if !(1 <= month && month <= 12) {
        return None;
    }
    // Shift by 5_368_710 cycles of 400 years so every division below is on a
    // non-negative number; a cycle has exactly 146_097 days.
    let k: u64 = 5_368_710;
    let yp: i64 = if month <= 2 {
        year as i64 - 1
    } else {
        year as i64
    };
    let z: u64 = (yp + 400 * (k as i64)) as u64;
    let mp: u64 = if month > 2 {
        (month - 3) as u64
    } else {
        (month + 9) as u64
    };
    let doy: u64 = (153 * mp + 2) / 5;
    let days_pos: u64 = 365 * z + z / 4 - z / 100 + z / 400 + doy + day as u64;
    proof {
        lemma_civil_days_shifted(year as int, k as int, month as int, day as int, yp as int);
    }
    let r: i64 = (days_pos as i64) - 1 - 719468 - 146097 * (k as i64);
    Some(r)
}

/// Seconds since the epoch named by an IMF-fixdate such as
/// `Wed, 21 Oct 2026 07:28:00 GMT`: six whitespace-separated fields, the
/// weekday ignored, `hh:mm:ss`, and the zone `GMT`. Dates before the epoch
/// clamp to zero.
pub open spec fn httpdate_seconds(value: Seq<char>) -> Option<u64> {
    let parts = ws_tokens(value);
    if parts.len() != 6 {
        None
    } else {
        let time = split_seq(parts[4], ':');
        match (parse_u32_spec(parts[1]), month_index_spec(parts[2]), parse_i32_spec(parts[3])) {
            (Some(day), Some(month), Some(year)) => {
                if time.len() != 3 {
                    None
                } else {
                    match (
                        parse_u32_spec(time[0]),
                        parse_u32_spec(time[1]),
                        parse_u32_spec(time[2]),
                    ) {
                        (Some(hour), Some(minute), Some(second)) => {
                            if parts[5] != "GMT"@ {
                                None
                            } else {
                                let secs = civil_days(year as int, month as int, day as int)
                                    * 86400 + hour * 3600 + minute * 60 + second;
                                Some(
                                    if secs < 0 {
                                        0u64
                                    } else {
                                        secs as u64
                                    },
                                )
                            }
                        },
                        _ => None,
                    }
                }
            },
            _ => None,
        }
    }
}

/// Parses an IMF-fixdate into seconds since 1970-01-01T00:00:00Z
/// (`httpdate_seconds`).
pub fn httpdate_to_system_time(value: &str) -> (r: Option<u64>)
    ensures
        r == httpdate_seconds(value@),
{
    let parts = split_whitespace(value);
    assert(views(parts@) == ws_tokens(value@));
    if parts.len() != 6 {
        return None;
    }
    assert(parts@[1]@ == ws_tokens(value@)[1]);
    assert(parts@[2]@ == ws_tokens(value@)[2]);
    assert(parts@[3]@ == ws_tokens(value@)[3]);
    assert(parts@[4]@ == ws_tokens(value@)[4]);
    assert(parts@[5]@ == ws_tokens(value@)[5]);
    let day = match parse_u32(parts[1].as_str()) {
        Some(v) => v,
        None => return None,
    };
    let month = match month_index(parts[2].as_str()) {
        Some(v) => v,
        None => return None,
    };
    let year = match parse_i32(parts[3].as_str()) {
        Some(v) => v,
        None => return None,
    };
    let time = split_on_char(parts[4].as_str(), ':');
    assert(views(time@) == split_seq(parts@[4]@, ':'));
    if time.len() != 3 {
        return None;
    }
    assert(time@[0]@ == split_seq(parts@[4]@, ':')[0]);
    assert(time@[1]@ == split_seq(parts@[4]@, ':')[1]);
    assert(time@[2]@ == split_seq(parts@[4]@, ':')[2]);
    let hour = match parse_u32(time[0].as_str()) {
        Some(v) => v,
        None => return None,
    };
    let minute = match parse_u32(time[1].as_str()) {
        Some(v) => v,
        None => return None,
    };
    let second = match parse_u32(time[2].as_str()) {
        Some(v) => v,
        None => return None,
    };
    if !str_eq(parts[5].as_str(), "GMT") {
        return None;
    }
    let days = match days_from_civil(year, month, day) {
        Some(v) => v,
        None => return None,
    };
    proof {
        let cd = civil_days(year as int, month as int, day as int);
        assert(-800_000_000_000int <= cd <= 800_000_000_000int) by {
            assert(year >= i32::MIN && year <= i32::MAX);
            assert(days_before_year(year as int) >= 365 * (i32::MIN - 1970) - 700_000_000) by {
                lemma_leaps_before_bounds(year as int);
            }
            lemma_leaps_before_bounds(year as int);
        }
    }
    let secs: i64 = days * 86400 + (hour as i64 * 3600) + (minute as i64 * 60) + second as i64;
    if secs < 0 {
        Some(0)
    } else {
        Some(secs as u64)
    }
}

proof fn lemma_leaps_before_bounds(y: int)
    requires
        i32::MIN <= y <= i32::MAX,
    ensures
        -700_000_000 <= leaps_before(y) <= 700_000_000,
{
    lemma_fundamental_div_mod(y - 1, 4);
    lemma_fundamental_div_mod(y - 1, 100);
    lemma_fundamental_div_mod(y - 1, 400);
}

/// `SystemTime::elapsed` of the Unix epoch: the clock reading used to turn
/// an HTTP-date into a delay, in nanoseconds, `0` when the clock reads
/// before the epoch. Nothing is stated of it: it is the time.
#[verifier::external_body]
fn unix_now_nanos() -> (r: u128) {
    std::time::UNIX_EPOCH.elapsed().map(|duration| duration.as_nanos()).unwrap_or(0)
}

/// Delay in whole milliseconds from `now_nanos` until `date_secs`, zero when
/// the date has passed, `None` when it does not fit in `u64`.
pub open spec fn delay_until_ms(date_secs: u64, now_nanos: u128) -> Option<u64> {
    let target = date_secs as int * 1_000_000_000;
    if target >= now_nanos {
        let ms = (target - now_nanos) / 1_000_000;
        if ms <= u64::MAX {
            Some(ms as u64)
        } else {
            None
        }
    } else {
        Some(0)
    }
}

/// Value of a `Retry-After` header in milliseconds at clock reading
/// `now_nanos`: delta-seconds (saturating at `u64::MAX` ms) or an HTTP-date.
pub open spec fn retry_after_ms_spec(value: Seq<char>, now_nanos: u128) -> Option<u64> {
    let trimmed = trim_seq(value);
    if trimmed.len() == 0 {
        None
    } else {
        match parse_u64_spec(trimmed) {
            Some(seconds) => Some(
                if seconds * 1000 > u64::MAX {
                    u64::MAX
                } else {
                    (seconds * 1000) as u64
                },
            ),
            None => match httpdate_seconds(trimmed) {
                Some(date) => delay_until_ms(date, now_nanos),
                None => None,
            },
        }
    }
}

/// Milliseconds to wait according to a `Retry-After` header value, given the
/// clock reading `now_nanos`.
pub fn retry_after_ms(value: &str, now_nanos: u128) -> (r: Option<u64>)
    ensures
        r == retry_after_ms_spec(value@, now_nanos),
{
    let trimmed = trim(value);
    if trimmed.unicode_len() == 0 {
        return None;
    }
    if let Some(seconds) = parse_u64(trimmed) {
        return Some(
            if seconds > u64::MAX / 1000 {
                u64::MAX
            } else {
                seconds * 1000
            },
        );
    }
    match httpdate_to_system_time(trimmed) {
        Some(date) => {
            let target: u128 = date as u128 * 1_000_000_000;
            if target >= now_nanos {
                let ms = (target - now_nanos) / 1_000_000;
                if ms <= u64::MAX as u128 {
                    Some(ms as u64)
                } else {
                    None
                }
            } else {
                Some(0)
            }
        },
        None => None,
    }
}

/// Parses an HTTP `Retry-After` header (already decoded as visible ASCII
/// text, `None` when absent or undecodable) into milliseconds, reading the
/// clock for the HTTP-date form. The result is what `retry_after_ms` gives
/// for whatever clock reading was taken.
pub fn parse_retry_after(header: Option<&str>) -> (r: Option<u64>)
    ensures
        header is None ==> r is None,
        header matches Some(v) ==> exists|now: u128| r == retry_after_ms_spec(v@, now),
{
    match header {
        Some(value) => {
            let now = unix_now_nanos();
            retry_after_ms(value, now)
        },
        None => None,
    }
}

/// SHA-256 digest of the UTF-8 encoding of a string.
pub uninterp spec fn sha256_utf8(s: Seq<char>) -> Seq<u8>;

/// `sha2::Sha256::digest` over the UTF-8 bytes of `value`.
#[verifier::external_body]
fn sha256_digest(value: &str) -> (r: Vec<u8>)
    ensures
        r@ == sha256_utf8(value@),
        r@.len() == 32,
{
    <sha2::Sha256 as sha2::Digest>::digest(value.as_bytes()).to_vec()
}

/// Lowercase hexadecimal digit of a nibble.
pub open spec fn hex_digit(n: int) -> char {
    if n < 10 {
        ((n + 48) as u32) as char
    } else {
        ((n + 87) as u32) as char
    }
}

/// Lowercase hex rendering, two characters per byte.
pub open spec fn hex_lower(bytes: Seq<u8>) -> Seq<char>
    decreases bytes.len(),
{
    if bytes.len() == 0 {
        seq![]
    } else {
        hex_lower(bytes.drop_last()).push(hex_digit(bytes.last() as int / 16)).push(
            hex_digit(bytes.last() as int % 16),
        )
    }
}

fn nibble_char(n: u8) -> (c: char)
    requires
        n < 16,
    ensures
        c == hex_digit(n as int),
{
    if n < 10 {
        (n + 48) as char
    } else {
        (n + 87) as char
    }
}

/// Lowercase hex SHA-256 of `value`, as used for redaction-safe prompt and
/// configuration hashes.
pub fn stable_sha256_hash(value: &str) -> (r: String)
    ensures
        r@ == hex_lower(sha256_utf8(value@)),
        r@.len() == 64,
{
    let digest = sha256_digest(value);
    let mut out = String::new();
    let mut i: usize = 0;
    while i < digest.len()
        invariant
            digest@.len() == 32,
            i <= digest@.len(),
            out@ == hex_lower(digest@.take(i as int)),
            out@.len() == 2 * i,
        decreases digest@.len() - i,
    {
        let b = digest[i];
        assert(digest@.take(i + 1).drop_last() =~= digest@.take(i as int));
        push_char(&mut out, nibble_char(b / 16));
        push_char(&mut out, nibble_char(b % 16));
        i = i + 1;
    }
    assert(digest@.take(32) =~= digest@);
    out
}

/// `stable_sha256_hash` of a prompt.
pub fn stable_prompt_hash(prompt: &str) -> (r: String)
    ensures
        r@ == hex_lower(sha256_utf8(prompt@)),
{
    stable_sha256_hash(prompt)
}

/// The marker substrings that identify credential material.
pub open spec fn secret_markers() -> Seq<Seq<char>> {
    seq![
        "sk-"@,
        "api_key"@,
        "secret_key"@,
        "openai_api_key"@,
        "authorization:"@,
        "bearer"@,
        "token="@
    ]
}

/// `text` carries a credential marker anywhere, compared ASCII
/// case-insensitively.
pub open spec fn has_secret_marker(text: Seq<char>) -> bool {
    exists|i: int|
        0 <= i < secret_markers().len() && contains_seq(
            ascii_lower_seq(text),
            #[trigger] secret_markers()[i],
        )
}

/// Scans `text` for credential markers (`sk-`, `api_key`, `secret_key`,
/// `openai_api_key`, `authorization:`, `bearer`, `token=`) anywhere in the
/// string, ASCII case-insensitively.
pub fn contains_secret_marker_text(text: &str) -> (r: bool)
    ensures
        r == has_secret_marker(text@),
{
    let lower = ascii_lower_chars(text);
    let markers: [&str; 7] = [
        "sk-",
        "api_key",
        "secret_key",
        "openai_api_key",
        "authorization:",
        "bearer",
        "token=",
    ];
    let mut i: usize = 0;
    while i < 7
        invariant
            i <= 7,
            lower@ == ascii_lower_seq(text@),
            forall|k: int| 0 <= k < 7 ==> (#[trigger] markers@[k])@ == secret_markers()[k],
            forall|k: int| 0 <= k < i ==> !contains_seq(lower@, #[trigger] secret_markers()[k]),
        decreases 7 - i,
    {
        let m = crate::text::chars_of(markers[i]);
        if contains_chars(&lower, &m) {
            return true;
        }
        i = i + 1;
    }
    false
}


/// One more call on a call counter that saturates at `u32::MAX`.
pub open spec fn counted_call(before: u32, after: u32) -> bool {
    after == (if before < u32::MAX {
        before + 1
    } else {
        before as int
    })
}

/// A call counter that starts at 0 and is counted once per call reports
/// the number of calls made (up to `u32::MAX`): `counts[k]` is the counter
/// after `k` calls, whatever each call answered.
pub proof fn lemma_call_count_after_calls(counts: Seq<u32>)
    requires
        counts.len() >= 1,
        counts[0] == 0,
        forall|k: int| 0 <= k < counts.len() - 1 ==> counted_call(#[trigger] counts[k], counts[k + 1]),
    ensures
        counts.last() == (if counts.len() - 1 <= u32::MAX {
            counts.len() - 1
        } else {
            u32::MAX as int
        }),
    decreases counts.len(),
{
    if counts.len() > 1 {
        let shorter = counts.drop_last();
        assert forall|k: int| 0 <= k < shorter.len() - 1 implies counted_call(
            #[trigger] shorter[k],
            shorter[k + 1],
        ) by {
            assert(shorter[k] == counts[k] && shorter[k + 1] == counts[k + 1]);
        }
        lemma_call_count_after_calls(shorter);
        assert(counted_call(counts[counts.len() - 2], counts[counts.len() - 1]));
    }
}


/// The English month abbreviations in calendar order.
pub open spec fn calendar_month_names() -> Seq<Seq<char>> {
    seq!["Jan"@, "Feb"@, "Mar"@, "Apr"@, "May"@, "Jun"@, "Jul"@, "Aug"@, "Sep"@, "Oct"@, "Nov"@, "Dec"@]
}

/// Each month abbreviation names its calendar position: the i-th of
/// `Jan`..`Dec` is month i (so `Jun` is 6 and `Jul` is 7), and no other
/// name is a month.
pub proof fn lemma_month_numbers_follow_calendar(name: Seq<char>)
    ensures
        forall|i: int| 0 <= i < 12 ==> month_index_spec(#[trigger] calendar_month_names()[i]) == Some(
            (i + 1) as u32,
        ),
        month_index_spec(name) matches Some(m) ==> 1 <= m <= 12 && name == calendar_month_names()[m - 1],
{
    reveal_strlit("Jan");
    reveal_strlit("Feb");
    reveal_strlit("Mar");
    reveal_strlit("Apr");
    reveal_strlit("May");
    reveal_strlit("Jun");
    reveal_strlit("Jul");
    reveal_strlit("Aug");
    reveal_strlit("Sep");
    reveal_strlit("Oct");
    reveal_strlit("Nov");
    reveal_strlit("Dec");
    assert forall|i: int| 0 <= i < 12 implies month_index_spec(
        #[trigger] calendar_month_names()[i],
    ) == Some((i + 1) as u32) by {
        let n = calendar_month_names()[i];
        if i == 0 {
            assert(n == "Jan"@);
        } else if i == 1 {
            assert(n == "Feb"@);
            assert(n[0] != "Jan"@[0]);
            assert(n != "Jan"@);
        } else if i == 2 {
            assert(n == "Mar"@);
            assert(n[0] != "Jan"@[0]);
            assert(n != "Jan"@);
            assert(n[0] != "Feb"@[0]);
            assert(n != "Feb"@);
        } else if i == 3 {
            assert(n == "Apr"@);
            assert(n[0] != "Jan"@[0]);
            assert(n != "Jan"@);
            assert(n[0] != "Feb"@[0]);
            assert(n != "Feb"@);
            assert(n[0] != "Mar"@[0]);
            assert(n != "Mar"@);
        } else if i == 4 {
            assert(n == "May"@);
            assert(n[0] != "Jan"@[0]);
            assert(n != "Jan"@);
            assert(n[0] != "Feb"@[0]);
            assert(n != "Feb"@);
            assert(n[2] != "Mar"@[2]);
            assert(n != "Mar"@);
            assert(n[0] != "Apr"@[0]);
            assert(n != "Apr"@);
        } else if i == 5 {
            assert(n == "Jun"@);
            assert(n[1] != "Jan"@[1]);
            assert(n != "Jan"@);
            assert(n[0] != "Feb"@[0]);
            assert(n != "Feb"@);
            assert(n[0] != "Mar"@[0]);
            assert(n != "Mar"@);
            assert(n[0] != "Apr"@[0]);
            assert(n != "Apr"@);
            assert(n[0] != "May"@[0]);
            assert(n != "May"@);
        } else if i == 6 {
            assert(n == "Jul"@);
            assert(n[1] != "Jan"@[1]);
            assert(n != "Jan"@);
            assert(n[0] != "Feb"@[0]);
            assert(n != "Feb"@);
            assert(n[0] != "Mar"@[0]);
            assert(n != "Mar"@);
            assert(n[0] != "Apr"@[0]);
            assert(n != "Apr"@);
            assert(n[0] != "May"@[0]);
            assert(n != "May"@);
            assert(n[2] != "Jun"@[2]);
            assert(n != "Jun"@);
        } else if i == 7 {
            assert(n == "Aug"@);
            assert(n[0] != "Jan"@[0]);
            assert(n != "Jan"@);
            assert(n[0] != "Feb"@[0]);
            assert(n != "Feb"@);
            assert(n[0] != "Mar"@[0]);
            assert(n != "Mar"@);
            assert(n[1] != "Apr"@[1]);
            assert(n != "Apr"@);
            assert(n[0] != "May"@[0]);
            assert(n != "May"@);
            assert(n[0] != "Jun"@[0]);
            assert(n != "Jun"@);
            assert(n[0] != "Jul"@[0]);
            assert(n != "Jul"@);
        } else if i == 8 {
            assert(n == "Sep"@);
            assert(n[0] != "Jan"@[0]);
            assert(n != "Jan"@);
            assert(n[0] != "Feb"@[0]);
            assert(n != "Feb"@);
            assert(n[0] != "Mar"@[0]);
            assert(n != "Mar"@);
            assert(n[0] != "Apr"@[0]);
            assert(n != "Apr"@);
            assert(n[0] != "May"@[0]);
            assert(n != "May"@);
            assert(n[0] != "Jun"@[0]);
            assert(n != "Jun"@);
            assert(n[0] != "Jul"@[0]);
            assert(n != "Jul"@);
            assert(n[0] != "Aug"@[0]);
            assert(n != "Aug"@);
        } else if i == 9 {
            assert(n == "Oct"@);
            assert(n[0] != "Jan"@[0]);
            assert(n != "Jan"@);
            assert(n[0] != "Feb"@[0]);
            assert(n != "Feb"@);
            assert(n[0] != "Mar"@[0]);
            assert(n != "Mar"@);
            assert(n[0] != "Apr"@[0]);
            assert(n != "Apr"@);
            assert(n[0] != "May"@[0]);
            assert(n != "May"@);
            assert(n[0] != "Jun"@[0]);
            assert(n != "Jun"@);
            assert(n[0] != "Jul"@[0]);
            assert(n != "Jul"@);
            assert(n[0] != "Aug"@[0]);
            assert(n != "Aug"@);
            assert(n[0] != "Sep"@[0]);
            assert(n != "Sep"@);
        } else if i == 10 {
            assert(n == "Nov"@);
            assert(n[0] != "Jan"@[0]);
            assert(n != "Jan"@);
            assert(n[0] != "Feb"@[0]);
            assert(n != "Feb"@);
            assert(n[0] != "Mar"@[0]);
            assert(n != "Mar"@);
            assert(n[0] != "Apr"@[0]);
            assert(n != "Apr"@);
            assert(n[0] != "May"@[0]);
            assert(n != "May"@);
            assert(n[0] != "Jun"@[0]);
            assert(n != "Jun"@);
            assert(n[0] != "Jul"@[0]);
            assert(n != "Jul"@);
            assert(n[0] != "Aug"@[0]);
            assert(n != "Aug"@);
            assert(n[0] != "Sep"@[0]);
            assert(n != "Sep"@);
            assert(n[0] != "Oct"@[0]);
            assert(n != "Oct"@);
        } else if i == 11 {
            assert(n == "Dec"@);
            assert(n[0] != "Jan"@[0]);
            assert(n != "Jan"@);
            assert(n[0] != "Feb"@[0]);
            assert(n != "Feb"@);
            assert(n[0] != "Mar"@[0]);
            assert(n != "Mar"@);
            assert(n[0] != "Apr"@[0]);
            assert(n != "Apr"@);
            assert(n[0] != "May"@[0]);
            assert(n != "May"@);
            assert(n[0] != "Jun"@[0]);
            assert(n != "Jun"@);
            assert(n[0] != "Jul"@[0]);
            assert(n != "Jul"@);
            assert(n[0] != "Aug"@[0]);
            assert(n != "Aug"@);
            assert(n[0] != "Sep"@[0]);
            assert(n != "Sep"@);
            assert(n[0] != "Oct"@[0]);
            assert(n != "Oct"@);
            assert(n[0] != "Nov"@[0]);
            assert(n != "Nov"@);
        }
    }
}
} // verus!
