//! Locations of PlotForge's user-global files.
//!
//! The platform configuration directory comes from the `dirs` crate; the
//! `HOME` fallback is read by the caller and handed in.

use vstd::prelude::*;

verus! {

/// `Path::join` of a relative component onto `base` (Unix separators).
pub open spec fn path_join(base: Seq<char>, name: Seq<char>) -> Seq<char> {
    if base.len() == 0 {
        name
    } else if base.last() == '/' {
        base + name
    } else {
        base + "/"@ + name
    }
}

/// `<config>/plotforge` when a platform config directory exists, else
/// `<home>/.plotforge` when `HOME` is known, else nothing.
pub open spec fn user_config_dir_spec(config_dir: Option<Seq<char>>, home: Option<Seq<char>>) -> Option<
    Seq<char>,
> {
    match config_dir {
        Some(dir) => Some(path_join(dir, "plotforge"@)),
        None => match home {
            Some(h) => Some(path_join(h, ".plotforge"@)),
            None => None,
        },
    }
}

/// A file or directory directly under the user config directory.
pub open spec fn user_file_spec(config_dir: Option<Seq<char>>, home: Option<Seq<char>>, name: Seq<char>) -> Option<
    Seq<char>,
> {
    match user_config_dir_spec(config_dir, home) {
        Some(dir) => Some(path_join(dir, name)),
        None => None,
    }
}

pub open spec fn opt_str_view(o: Option<String>) -> Option<Seq<char>> {
    match o {
        Some(s) => Some(s@),
        None => None,
    }
}

pub open spec fn opt_ref_view(o: Option<&str>) -> Option<Seq<char>> {
    match o {
        Some(s) => Some(s@),
        None => None,
    }
}

/// `base.join(name)` on string paths.
pub fn join_path(base: &str, name: &str) -> (r: String)
    ensures
        r@ == path_join(base@, name@),
{
    let n = base.unicode_len();
    if n == 0 {
        return String::from_str(name);
    }
    let last = base.get_char(n - 1);
    let mut r = String::from_str(base);
    if last != '/' {
        r.append("/");
    }
    r.append(name);
    r
}

/// `dirs::config_dir`, rendered as a string. What it returns depends on the
/// platform and the environment; nothing is stated of it.
#[verifier::external_body]
fn platform_config_dir() -> (r: Option<String>) {
    dirs::config_dir().map(|dir| dir.to_string_lossy().into_owned())
}

/// The user config directory for a known platform config directory and
/// `HOME`.
pub fn user_config_dir_from(config_dir: Option<&str>, home: Option<&str>) -> (r: Option<String>)
    ensures
        opt_str_view(r) == user_config_dir_spec(opt_ref_view(config_dir), opt_ref_view(home)),
{
    match config_dir {
        Some(dir) => Some(join_path(dir, "plotforge")),
        None => match home {
            Some(h) => Some(join_path(h, ".plotforge")),
            None => None,
        },
    }
}

/// The user config directory: `<config>/plotforge`, falling back on
/// `<home>/.plotforge`.
pub fn user_config_dir(home: Option<&str>) -> (r: Option<String>)
    ensures
        exists|cd: Option<Seq<char>>| opt_str_view(r) == user_config_dir_spec(cd, opt_ref_view(home)),
        home is Some ==> r is Some,
{
    let cd = platform_config_dir();
    let r = match &cd {
        Some(dir) => user_config_dir_from(Some(dir.as_str()), home),
        None => user_config_dir_from(None, home),
    };
    assert(opt_str_view(r) == user_config_dir_spec(opt_str_view(cd), opt_ref_view(home)));
    r
}

fn user_file(home: Option<&str>, name: &str) -> (r: Option<String>)
    ensures
        exists|cd: Option<Seq<char>>| opt_str_view(r) == user_file_spec(cd, opt_ref_view(home), name@),
        home is Some ==> r is Some,
{
    let dir = user_config_dir(home);
    let ghost cd = choose|cd: Option<Seq<char>>| opt_str_view(dir) == user_config_dir_spec(cd, opt_ref_view(home));
    match dir {
        Some(d) => {
            let r = Some(join_path(d.as_str(), name));
            assert(opt_str_view(r) == user_file_spec(cd, opt_ref_view(home), name@));
            r
        },
        None => {
            assert(user_file_spec(cd, opt_ref_view(home), name@) is None);
            None
        },
    }
}

/// `providers.json` under the user config directory.
pub fn provider_registry_path(home: Option<&str>) -> (r: Option<String>)
    ensures
        exists|cd: Option<Seq<char>>| opt_str_view(r) == user_file_spec(cd, opt_ref_view(home), "providers.json"@),
        home is Some ==> r is Some,
{
    user_file(home, "providers.json")
}

/// The user's own skill library, `skills` under the user config directory.
pub fn plot_forge_user_dir(home: Option<&str>) -> (r: Option<String>)
    ensures
        exists|cd: Option<Seq<char>>| opt_str_view(r) == user_file_spec(cd, opt_ref_view(home), "skills"@),
        home is Some ==> r is Some,
{
    user_file(home, "skills")
}

/// The skill scan cache, `skill-index.json` under the user config directory.
pub fn skill_index_path(home: Option<&str>) -> (r: Option<String>)
    ensures
        exists|cd: Option<Seq<char>>| opt_str_view(r) == user_file_spec(cd, opt_ref_view(home), "skill-index.json"@),
        home is Some ==> r is Some,
{
    user_file(home, "skill-index.json")
}

/// `home/a/b`, when `HOME` is known.
pub open spec fn home_path2(home: Option<Seq<char>>, a: Seq<char>, b: Seq<char>) -> Option<Seq<char>> {
    match home {
        Some(h) => Some(path_join(path_join(h, a), b)),
        None => None,
    }
}

fn home_join2(home: Option<&str>, a: &str, b: &str) -> (r: Option<String>)
    ensures
        opt_str_view(r) == home_path2(opt_ref_view(home), a@, b@),
{
    match home {
        Some(h) => {
            let first = join_path(h, a);
            Some(join_path(first.as_str(), b))
        },
        None => None,
    }
}

/// `~/.codex/skills`.
pub fn codex_skills_dir(home: Option<&str>) -> (r: Option<String>)
    ensures
        opt_str_view(r) == home_path2(opt_ref_view(home), ".codex"@, "skills"@),
{
    home_join2(home, ".codex", "skills")
}

/// `~/.zcode/skills`.
pub fn z_code_skills_dir(home: Option<&str>) -> (r: Option<String>)
    ensures
        opt_str_view(r) == home_path2(opt_ref_view(home), ".zcode"@, "skills"@),
{
    home_join2(home, ".zcode", "skills")
}

/// `~/.cursor/skills`.
pub fn cursor_skills_dir(home: Option<&str>) -> (r: Option<String>)
    ensures
        opt_str_view(r) == home_path2(opt_ref_view(home), ".cursor"@, "skills"@),
{
    home_join2(home, ".cursor", "skills")
}

/// `~/.copilot/skills`.
pub fn copilot_skills_dir(home: Option<&str>) -> (r: Option<String>)
    ensures
        opt_str_view(r) == home_path2(opt_ref_view(home), ".copilot"@, "skills"@),
{
    home_join2(home, ".copilot", "skills")
}

/// `~/.hanako/skills`.
pub fn hanako_skills_dir(home: Option<&str>) -> (r: Option<String>)
    ensures
        opt_str_view(r) == home_path2(opt_ref_view(home), ".hanako"@, "skills"@),
{
    home_join2(home, ".hanako", "skills")
}

/// `~/.openclaw/skills`.
pub fn open_claw_skills_dir(home: Option<&str>) -> (r: Option<String>)
    ensures
        opt_str_view(r) == home_path2(opt_ref_view(home), ".openclaw"@, "skills"@),
{
    home_join2(home, ".openclaw", "skills")
}

/// `~/.workbuddy/skills`.
pub fn workbuddy_skills_dir(home: Option<&str>) -> (r: Option<String>)
    ensures
        opt_str_view(r) == home_path2(opt_ref_view(home), ".workbuddy"@, "skills"@),
{
    home_join2(home, ".workbuddy", "skills")
}

/// `~/.redbox/skills`.
pub fn redbox_skills_dir(home: Option<&str>) -> (r: Option<String>)
    ensures
        opt_str_view(r) == home_path2(opt_ref_view(home), ".redbox"@, "skills"@),
{
    home_join2(home, ".redbox", "skills")
}

/// The curated vendor imports of Codex,
/// `~/.codex/vendor_imports/skills/skills/.curated`.
pub open spec fn codex_curated_path(home: Option<Seq<char>>) -> Option<Seq<char>> {
    match home_path2(home, ".codex"@, "vendor_imports"@) {
        Some(p) => Some(path_join(path_join(path_join(p, "skills"@), "skills"@), ".curated"@)),
        None => None,
    }
}

pub fn codex_curated_skills_dir(home: Option<&str>) -> (r: Option<String>)
    ensures
        opt_str_view(r) == codex_curated_path(opt_ref_view(home)),
{
    match home_join2(home, ".codex", "vendor_imports") {
        Some(p) => {
            let a = join_path(p.as_str(), "skills");
            let b = join_path(a.as_str(), "skills");
            Some(join_path(b.as_str(), ".curated"))
        },
        None => None,
    }
}

/// The other agents' skill roots, in scan order, each with its origin:
/// the roots under `HOME`, none without it.
pub open spec fn external_root_specs(home: Seq<char>) -> Seq<(Seq<char>, Seq<char>)> {
    seq![
        ("codex"@, path_join(path_join(home, ".codex"@), "skills"@)),
        ("z_code"@, path_join(path_join(home, ".zcode"@), "skills"@)),
        ("cursor"@, path_join(path_join(home, ".cursor"@), "skills"@)),
        ("copilot"@, path_join(path_join(home, ".copilot"@), "skills"@)),
        ("hanako"@, path_join(path_join(home, ".hanako"@), "skills"@)),
        ("open_claw"@, path_join(path_join(home, ".openclaw"@), "skills"@)),
        ("workbuddy"@, path_join(path_join(home, ".workbuddy"@), "skills"@)),
        ("redbox"@, path_join(path_join(home, ".redbox"@), "skills"@)),
        ("codex"@, codex_curated_path(Some(home)).unwrap()),
    ]
}

pub open spec fn pair_views(v: Seq<(String, String)>) -> Seq<(Seq<char>, Seq<char>)> {
    v.map_values(|p: (String, String)| (p.0@, p.1@))
}

fn push_root(roots: &mut Vec<(String, String)>, origin: &str, dir: Option<String>)
    requires
        dir is Some,
    ensures
        pair_views(final(roots)@) == pair_views(old(roots)@).push((origin@, dir.unwrap()@)),
{
    match dir {
        Some(d) => {
            roots.push((String::from_str(origin), d));
            assert(pair_views(roots@) =~= pair_views(old(roots)@).push((origin@, d@)));
        },
        None => {},
    }
}

/// The other agents' skill roots that a scan considers, with their origins
/// (`external_root_specs`); the caller keeps those that are directories.
pub fn external_skill_root_candidates(home: &str) -> (r: Vec<(String, String)>)
    ensures
        pair_views(r@) == external_root_specs(home@),
{
    let h = Some(home);
    let mut roots: Vec<(String, String)> = Vec::new();
    push_root(&mut roots, "codex", codex_skills_dir(h));
    push_root(&mut roots, "z_code", z_code_skills_dir(h));
    push_root(&mut roots, "cursor", cursor_skills_dir(h));
    push_root(&mut roots, "copilot", copilot_skills_dir(h));
    push_root(&mut roots, "hanako", hanako_skills_dir(h));
    push_root(&mut roots, "open_claw", open_claw_skills_dir(h));
    push_root(&mut roots, "workbuddy", workbuddy_skills_dir(h));
    push_root(&mut roots, "redbox", redbox_skills_dir(h));
    push_root(&mut roots, "codex", codex_curated_skills_dir(h));
    assert(pair_views(roots@) =~= external_root_specs(home@));
    roots
}

} // verus!
