use plotforge_agent::paths::{join_path, user_config_dir_from};
use plotforge_agent::skills::{
    check_skill_frontmatter, extract_frontmatter, is_safe_skill_name, strip_frontmatter, SkillError,
};

#[test]
fn extract_frontmatter_handles_no_block() {
    assert!(extract_frontmatter("# just markdown\nno fence").is_none());
    assert_eq!(extract_frontmatter("---\nname: x\n---\nbody").unwrap(), "name: x");
}

#[test]
fn strip_frontmatter_returns_body_only() {
    let content = "---\nname: x\ndescription: y\n---\n\nBody here.\n";
    assert_eq!(strip_frontmatter(content), "Body here.\n");
    assert_eq!(strip_frontmatter("just body"), "just body");
}

#[test]
fn frontmatter_helpers_handle_crlf() {
    assert_eq!(extract_frontmatter("---\r\nname: x\r\n---\r\nbody").unwrap(), "name: x\r");
    assert_eq!(
        strip_frontmatter("---\r\nname: x\r\ndescription: y\r\n---\r\n\r\nBody here.\r\n"),
        "Body here.\r\n"
    );
}

#[test]
fn frontmatter_without_closing_fence_keeps_whole_content() {
    assert!(extract_frontmatter("---\nname: x\n").is_none());
    assert_eq!(strip_frontmatter("  ---\nname: x\n"), "  ---\nname: x\n");
    assert!(extract_frontmatter("---name: x\n---\n").is_none(), "fence must end its line");
    assert_eq!(extract_frontmatter("\n\n  ---\nname: y\n---").unwrap(), "name: y");
}

#[test]
fn skill_names_must_be_one_safe_component() {
    assert!(is_safe_skill_name("frontend-design"));
    assert!(is_safe_skill_name("  .hidden  "));
    for bad in ["", "   ", ".", "..", "...", "a/b", "a\\b", "a\0b", "../escape"] {
        assert!(!is_safe_skill_name(bad), "{bad:?} must be rejected");
    }
}

#[test]
fn frontmatter_checks_report_first_problem() {
    let e = check_skill_frontmatter("p/SKILL.md", " ", "d").expect_err("blank name");
    assert_eq!(e, SkillError::MissingFrontmatterField { path: "p/SKILL.md".into(), field: "name".into() });
    let e = check_skill_frontmatter("p", "../x", "d").expect_err("unsafe name");
    match &e {
        SkillError::FrontmatterParse { reason, .. } => assert!(reason.ends_with("got `../x`")),
        other => panic!("unexpected {other:?}"),
    }
    assert_eq!(
        e.message(),
        "failed to parse skill frontmatter at p: skill `name` must be a single path component without `/`, `\\`, `..`, or NUL; got `../x`"
    );
    let e = check_skill_frontmatter("p", "ok", "").expect_err("blank description");
    assert_eq!(e.message(), "skill at p is missing required frontmatter field `description`");
    check_skill_frontmatter("p", "ok", "does things").expect("valid");
}

#[test]
fn user_config_dir_prefers_platform_dir() {
    assert_eq!(user_config_dir_from(Some("/cfg"), Some("/home/u")).as_deref(), Some("/cfg/plotforge"));
    assert_eq!(user_config_dir_from(None, Some("/home/u/")).as_deref(), Some("/home/u/.plotforge"));
    assert_eq!(user_config_dir_from(None, None), None);
    assert_eq!(join_path("", "x"), "x");
}
