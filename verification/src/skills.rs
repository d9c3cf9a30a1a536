//! Skill library rules: `SKILL.md` frontmatter extraction, body stripping,
//! the frontmatter checks, and the guard on skill names that become
//! directory names in the user library.

use vstd::prelude::*;
use crate::text::{
    chars_of, find_first, first_occurrence, is_blank, is_blank_str, is_ws, leading_ws_len,
    starts_with_seq, trim, trim_seq, trim_start_seq, char_is_ws, string_from_chars,
};

verus! {

/// A name is safe as one directory component: once trimmed it is non-empty,
/// holds no `/`, `\` or NUL, and has a character that is neither `.` nor
/// whitespace (so it is not `.`, `..`, `...`).
pub open spec fn safe_skill_name(name: Seq<char>) -> bool {
    let t = trim_seq(name);
    &&& t.len() > 0
    &&& !t.contains('/')
    &&& !t.contains('\\')
    &&& !t.contains('\0')
    &&& exists|i: int| 0 <= i < t.len() && t[i] != '.' && !is_ws(t[i])
}

/// Whether `name` may be used as a directory under the user skill library.
pub fn is_safe_skill_name(name: &str) -> (r: bool)
    ensures
        r == safe_skill_name(name@),
{
    let t = trim(name);
    let cs = chars_of(t);
    if cs.len() == 0 {
        assert(trim_seq(name@).len() == 0);
        return false;
    }
    let mut i: usize = 0;
    let mut has_name_char = false;
    while i < cs.len()
        invariant
            cs@ == t@,
            t@ == trim_seq(name@),
            i <= cs@.len(),
            forall|k: int| 0 <= k < i ==> cs@[k] != '/' && cs@[k] != '\\' && cs@[k] != '\0',
            has_name_char == exists|k: int| 0 <= k < i && cs@[k] != '.' && !is_ws(cs@[k]),
        decreases cs@.len() - i,
    {
        let c = cs[i];
        if c == '/' || c == '\\' || c == '\0' {
            assert(t@[i as int] == c);
            assert(t@.contains(c));
            return false;
        }
        if c != '.' && !char_is_ws(c) {
            has_name_char = true;
        }
        i = i + 1;
    }
    assert(!t@.contains('/'));
    assert(!t@.contains('\\'));
    assert(!t@.contains('\0'));
    has_name_char
}

/// What follows the opening `---` fence and its line break (`\n`, or
/// `\r\n`), when `t` opens with one.
pub open spec fn after_open_fence(t: Seq<char>) -> Option<Seq<char>> {
    if !starts_with_seq(t, "---"@) {
        None
    } else {
        let a = t.skip(3);
        let b = if a.len() > 0 && a[0] == '\r' {
            a.skip(1)
        } else {
            a
        };
        if b.len() > 0 && b[0] == '\n' {
            Some(b.skip(1))
        } else {
            None
        }
    }
}

/// The frontmatter of a `SKILL.md`: after leading whitespace, an opening
/// `---` line, then everything up to the first `\n---`.
pub open spec fn frontmatter_spec(content: Seq<char>) -> Option<Seq<char>> {
    match after_open_fence(trim_start_seq(content)) {
        None => None,
        Some(a) => match first_occurrence(a, "\n---"@) {
            None => None,
            Some(e) => Some(a.take(e)),
        },
    }
}

/// `s` without its leading `\r` and `\n` characters.
pub open spec fn trim_start_line_breaks(s: Seq<char>) -> Seq<char>
    decreases s.len(),
{
    if s.len() > 0 && (s[0] == '\r' || s[0] == '\n') {
        trim_start_line_breaks(s.drop_first())
    } else {
        s
    }
}

/// The body of a `SKILL.md`: what follows the closing fence, without the
/// line breaks right after it; the whole content when there is no complete
/// frontmatter block.
pub open spec fn skill_body_spec(content: Seq<char>) -> Seq<char> {
    match after_open_fence(trim_start_seq(content)) {
        None => content,
        Some(a) => match first_occurrence(a, "\n---"@) {
            None => content,
            Some(e) => trim_start_line_breaks(a.skip(e + 4)),
        },
    }
}

/// Position in `content` where the text after the opening fence starts.
fn open_fence_end(cs: &Vec<char>, start: usize) -> (r: Option<usize>)
    requires
        start <= cs@.len(),
    ensures
        match after_open_fence(cs@.skip(start as int)) {
            None => r is None,
            Some(a) => r matches Some(p) && start <= p <= cs@.len() && a == cs@.skip(p as int),
        },
{
    let n = cs.len();
    let ghost t = cs@.skip(start as int);
    if n - start < 3 || cs[start] != '-' || cs[start + 1] != '-' || cs[start + 2] != '-' {
        proof {
            if starts_with_seq(t, "---"@) {
                reveal_strlit("---");
                assert(t.subrange(0, 3) == "---"@);
                assert(t[0] == t.subrange(0, 3)[0]);
                assert(t[1] == t.subrange(0, 3)[1]);
                assert(t[2] == t.subrange(0, 3)[2]);
            }
        }
        return None;
    }
    proof {
        reveal_strlit("---");
        assert(t.subrange(0, 3) =~= "---"@);
    }
    let mut p = start + 3;
    assert(t.skip(3) =~= cs@.skip(p as int));
    if p < n && cs[p] == '\r' {
        assert(t.skip(3).skip(1) =~= cs@.skip(p + 1));
        p = p + 1;
    }
    if p < n && cs[p] == '\n' {
        assert(cs@.skip(p as int).skip(1) =~= cs@.skip(p + 1));
        Some(p + 1)
    } else {
        None
    }
}

/// The text between the first pair of `---` fences of a `SKILL.md`.
/// Tolerates CRLF line endings.
pub fn extract_frontmatter(content: &str) -> (r: Option<&str>)
    ensures
        match frontmatter_spec(content@) {
            None => r is None,
            Some(f) => r matches Some(x) && x@ == f,
        },
{
    let cs = chars_of(content);
    let start = leading_ws_len(content);
    let p = match open_fence_end(&cs, start) {
        None => return None,
        Some(p) => p,
    };
    let ghost a = cs@.skip(p as int);
    let rest = string_from_chars(&cs, p, cs.len());
    let rv = chars_of(rest.as_str());
    assert(rv@ =~= a);
    let fence = chars_of("\n---");
    match find_first(&rv, &fence) {
        None => None,
        Some(e) => {
            assert(cs@.subrange(p as int, p + e) =~= a.take(e as int));
            Some(content.substring_char(p, p + e))
        },
    }
}

proof fn lemma_trim_line_breaks_skip(s: Seq<char>, i: int)
    requires
        0 <= i <= s.len(),
        forall|k: int| 0 <= k < i ==> (#[trigger] s[k] == '\r' || s[k] == '\n'),
    ensures
        trim_start_line_breaks(s) == trim_start_line_breaks(s.skip(i)),
    decreases i,
{
    if i > 0 {
        assert(s.drop_first().skip(i - 1) =~= s.skip(i));
        assert forall|k: int| 0 <= k < i - 1 implies (#[trigger] s.drop_first()[k] == '\r'
            || s.drop_first()[k] == '\n') by {
            assert(s.drop_first()[k] == s[k + 1]);
        }
        lemma_trim_line_breaks_skip(s.drop_first(), i - 1);
    } else {
        assert(s.skip(0) =~= s);
    }
}

/// The body of a `SKILL.md` without its frontmatter; the whole content when
/// there is none. Tolerates CRLF line endings.
pub fn strip_frontmatter(content: &str) -> (r: String)
    ensures
        r@ == skill_body_spec(content@),
{
    let cs = chars_of(content);
    let start = leading_ws_len(content);
    let p = match open_fence_end(&cs, start) {
        None => return String::from_str(content),
        Some(p) => p,
    };
    let ghost a = cs@.skip(p as int);
    let rest = string_from_chars(&cs, p, cs.len());
    let rv = chars_of(rest.as_str());
    assert(rv@ =~= a);
    let fence = chars_of("\n---");
    proof {
        reveal_strlit("\n---");
    }
    match find_first(&rv, &fence) {
        None => String::from_str(content),
        Some(e) => {
            let mut q = p + e + 4;
            assert(a.skip(e + 4) =~= cs@.skip(q as int));
            let ghost from = q;
            while q < cs.len() && (cs[q] == '\r' || cs[q] == '\n')
                invariant
                    from <= q <= cs@.len(),
                    trim_start_line_breaks(cs@.skip(from as int)) == trim_start_line_breaks(
                        cs@.skip(q as int),
                    ),
                decreases cs@.len() - q,
            {
                assert(cs@.skip(q as int).drop_first() =~= cs@.skip(q + 1));
                q = q + 1;
            }
            proof {
                if q < cs@.len() {
                    assert(cs@.skip(q as int)[0] == cs@[q as int]);
                } else {
                    assert(cs@.skip(q as int).len() == 0);
                }
            }
            let r = string_from_chars(&cs, q, cs.len());
            assert(r@ =~= cs@.skip(q as int));
            r
        },
    }
}

/// Failures of the skill scanner, with redaction-safe texts.
#[derive(Clone, Debug, PartialEq, Eq)]
pub enum SkillError {
    NoConfigDir,
    FrontmatterRead { path: String, reason: String },
    FrontmatterParse { path: String, reason: String },
    MissingFrontmatterField { path: String, field: String },
    Scan { path: String, reason: String },
    BodyRead { path: String, reason: String },
    IndexWrite { path: String, reason: String },
    Import { skill_id: String, reason: String },
}

pub open spec fn skill_error_text(e: SkillError) -> Seq<char> {
    match e {
        SkillError::NoConfigDir =>
            "could not resolve a user config directory for skills (no HOME and no platform config dir)"@,
        SkillError::FrontmatterRead { path, reason } =>
            "failed to read skill frontmatter at "@ + path@ + ": "@ + reason@,
        SkillError::FrontmatterParse { path, reason } =>
            "failed to parse skill frontmatter at "@ + path@ + ": "@ + reason@,
        SkillError::MissingFrontmatterField { path, field } =>
            "skill at "@ + path@ + " is missing required frontmatter field `"@ + field@ + "`"@,
        SkillError::Scan { path, reason } =>
            "failed to scan skill directory "@ + path@ + ": "@ + reason@,
        SkillError::BodyRead { path, reason } =>
            "failed to read skill body at "@ + path@ + ": "@ + reason@,
        SkillError::IndexWrite { path, reason } =>
            "failed to write skill index at "@ + path@ + ": "@ + reason@,
        SkillError::Import { skill_id, reason } =>
            "failed to import skill `"@ + skill_id@ + "`: "@ + reason@,
    }
}

fn two_part(a: &str, b: &str, c: &str, d: &str) -> (r: String)
    ensures
        r@ == a@ + b@ + c@ + d@,
{
    let mut r = String::from_str(a);
    r.append(b);
    r.append(c);
    r.append(d);
    r
}

impl SkillError {
    /// The error's text.
    pub fn message(&self) -> (r: String)
        ensures
            r@ == skill_error_text(*self),
    {
        match self {
            SkillError::NoConfigDir => String::from_str(
                "could not resolve a user config directory for skills (no HOME and no platform config dir)",
            ),
            SkillError::FrontmatterRead { path, reason } => two_part(
                "failed to read skill frontmatter at ",
                path.as_str(),
                ": ",
                reason.as_str(),
            ),
            SkillError::FrontmatterParse { path, reason } => two_part(
                "failed to parse skill frontmatter at ",
                path.as_str(),
                ": ",
                reason.as_str(),
            ),
            SkillError::MissingFrontmatterField { path, field } => {
                let mut r = two_part(
                    "skill at ",
                    path.as_str(),
                    " is missing required frontmatter field `",
                    field.as_str(),
                );
                r.append("`");
                r
            },
            SkillError::Scan { path, reason } => two_part(
                "failed to scan skill directory ",
                path.as_str(),
                ": ",
                reason.as_str(),
            ),
            SkillError::BodyRead { path, reason } => two_part(
                "failed to read skill body at ",
                path.as_str(),
                ": ",
                reason.as_str(),
            ),
            SkillError::IndexWrite { path, reason } => two_part(
                "failed to write skill index at ",
                path.as_str(),
                ": ",
                reason.as_str(),
            ),
            SkillError::Import { skill_id, reason } => two_part(
                "failed to import skill `",
                skill_id.as_str(),
                "`: ",
                reason.as_str(),
            ),
        }
    }
}

/// The reason given for an unsafe skill name.
pub open spec fn unsafe_name_reason(name: Seq<char>) -> Seq<char> {
    "skill `name` must be a single path component without `/`, `\\`, `..`, or NUL; got `"@ + name
        + "`"@
}

/// The checks made on a parsed frontmatter at `path`, in order: a non-blank
/// `name`, a safe `name`, a non-blank `description`.
pub fn check_skill_frontmatter(path: &str, name: &str, description: &str) -> (r: Result<
    (),
    SkillError,
>)
    ensures
        is_blank(name@) ==> (r matches Err(SkillError::MissingFrontmatterField { path: p, field: f })
            && p@ == path@ && f@ == "name"@),
        !is_blank(name@) && !safe_skill_name(name@) ==> (r matches Err(
            SkillError::FrontmatterParse { path: p, reason: m },
        ) && p@ == path@ && m@ == unsafe_name_reason(name@)),
        !is_blank(name@) && safe_skill_name(name@) && is_blank(description@) ==> (r matches Err(
            SkillError::MissingFrontmatterField { path: p, field: f },
        ) && p@ == path@ && f@ == "description"@),
        !is_blank(name@) && safe_skill_name(name@) && !is_blank(description@) ==> r is Ok,
{
    if is_blank_str(name) {
        return Err(
            SkillError::MissingFrontmatterField {
                path: String::from_str(path),
                field: String::from_str("name"),
            },
        );
    }
    if !is_safe_skill_name(name) {
        let mut reason = String::from_str(
            "skill `name` must be a single path component without `/`, `\\`, `..`, or NUL; got `",
        );
        reason.append(name);
        reason.append("`");
        return Err(SkillError::FrontmatterParse { path: String::from_str(path), reason });
    }
    if is_blank_str(description) {
        return Err(
            SkillError::MissingFrontmatterField {
                path: String::from_str(path),
                field: String::from_str("description"),
            },
        );
    }
    Ok(())
}

proof fn lemma_trim_line_breaks_len(s: Seq<char>)
    ensures
        trim_start_line_breaks(s).len() <= s.len(),
    decreases s.len(),
{
    if s.len() > 0 && (s[0] == '\r' || s[0] == '\n') {
        lemma_trim_line_breaks_len(s.drop_first());
    }
}

proof fn lemma_trim_start_len(s: Seq<char>)
    ensures
        trim_start_seq(s).len() <= s.len(),
    decreases s.len(),
{
    if s.len() > 0 && is_ws(s[0]) {
        lemma_trim_start_len(s.drop_first());
    }
}

/// Stripping leaves a `SKILL.md` unchanged exactly when it has no complete
/// frontmatter block; otherwise the body is strictly shorter.
pub proof fn lemma_strip_keeps_content_iff_no_frontmatter(content: Seq<char>)
    ensures
        frontmatter_spec(content) is None <==> skill_body_spec(content) == content,
        frontmatter_spec(content) is Some ==> skill_body_spec(content).len() < content.len(),
{
    let t = trim_start_seq(content);
    lemma_trim_start_len(content);
    match after_open_fence(t) {
        None => {},
        Some(a) => {
            reveal_strlit("---");
            assert(starts_with_seq(t, "---"@));
            assert(t.len() >= 3);
            assert(a.len() + 4 <= t.len());
            match first_occurrence(a, "\n---"@) {
                None => {},
                Some(e) => {
                    crate::text::lemma_first_occurrence_bounds(a, "\n---"@);
                    reveal_strlit("\n---");
                    lemma_trim_line_breaks_len(a.skip(e + 4));
                    assert(skill_body_spec(content).len() < content.len());
                },
            }
        },
    }
}

} // verus!
