use std::collections::HashMap;

use slacli::commands::{
    list_report, pad_to_30, reinstall_report, status_line, uninstall_step, InstallState,
    UninstallStep,
};
use slacli::copy::{
    backup_file_name, backup_file_name_with, copy_transition, discovery_warnings, encode,
    plan_copy, ActionKind, CopyAction, CopyError, CopyMode, CopyOptions, CopyResult, CopyState,
    CopyStep, SkillAction,
};
use slacli::discover::{discover, skill_file_path, SkillEntry, SkillSource};
use slacli::resolve::{
    install_dir, join_path, repo_search_step, scope_location, skills_dir_in, user_install_dir,
    GitEntry, InstallLocation, RepoSearch, ResolveError,
};
use slacli::skill::{split_frontmatter, Frontmatter, Skill, SkillParseError};
use slacli::skill_error::SkillError;
use slacli::smith::{use_skills_subdir, Smith, SmithError};
use slacli::validate::validate;
use slacli::versions::{compare_versions_safe, ensure_v_prefix, is_up_to_date};

fn make_skill(name: &str, description: &str) -> Skill {
    Skill {
        name: name.to_string(),
        description: description.to_string(),
        license: String::new(),
        compatibility: vec![],
        metadata: HashMap::new(),
        allowed_tools: vec![],
        body: String::new(),
        dir: String::new(),
    }
}

fn opts(mode: CopyMode, force: bool, dry_run: bool) -> CopyOptions {
    CopyOptions {
        mode,
        force,
        dry_run,
        name: "tool".to_string(),
        version: "v1.2.0".to_string(),
    }
}

fn done(step: CopyStep) -> (ActionKind, String) {
    match step {
        CopyStep::Done(k, m) => (k, m),
        CopyStep::Proceed(k) => panic!("expected a report, got a copy as {k:?}"),
    }
}

fn proceed(step: CopyStep) -> ActionKind {
    match step {
        CopyStep::Proceed(k) => k,
        CopyStep::Done(k, m) => panic!("expected a copy, got {k:?}: {m}"),
    }
}

/// Parses SKILL.md content the way the CLI does: split, then read the YAML.
fn parse(content: &str) -> Result<Skill, SkillParseError> {
    let (yaml, body) = split_frontmatter(content)?;
    let v: serde_yml::Value = serde_yml::from_str(&yaml)
        .map_err(|e| SkillParseError::YamlError(e.to_string()))?;
    let text = |k: &str| v.get(k).and_then(|x| x.as_str()).unwrap_or("").to_string();
    let list = |k: &str| -> Vec<String> {
        v.get(k)
            .and_then(|x| x.as_sequence())
            .map(|s| s.iter().filter_map(|i| i.as_str().map(|t| t.to_string())).collect())
            .unwrap_or_default()
    };
    let mut metadata = HashMap::new();
    if let Some(m) = v.get("metadata").and_then(|x| x.as_mapping()) {
        for (k, val) in m {
            metadata.insert(k.to_string(), val.clone());
        }
    }
    let fm = Frontmatter {
        name: text("name"),
        description: text("description"),
        license: text("license"),
        compatibility: list("compatibility"),
        metadata,
        allowed_tools: list("allowed_tools"),
    };
    Ok(Skill::from_frontmatter(fm, body))
}

#[test]
fn test_compare_versions_safe_semver() {
    let (cmp, ok) = compare_versions_safe("v1.0.0", "v1.1.0");
    assert!(ok);
    assert_eq!(cmp, std::cmp::Ordering::Less);

    let (cmp, ok) = compare_versions_safe("1.2.0", "1.1.0");
    assert!(ok);
    assert_eq!(cmp, std::cmp::Ordering::Greater);

    let (cmp, ok) = compare_versions_safe("v1.0.0", "v1.0.0");
    assert!(ok);
    assert_eq!(cmp, std::cmp::Ordering::Equal);
}

#[test]
fn test_compare_versions_safe_invalid() {
    let (_, ok) = compare_versions_safe("abc", "v1.0.0");
    assert!(!ok);
}

#[test]
fn test_ensure_v_prefix() {
    assert_eq!(ensure_v_prefix("1.0.0"), "v1.0.0");
    assert_eq!(ensure_v_prefix("v1.0.0"), "v1.0.0");
}

#[test]
fn test_discover_finds_valid_skills() {
    let mut good = make_skill("good", "A good skill");
    good.body = "# Good".to_string();
    let entries = vec![
        SkillEntry { name: Some("good".to_string()), source: SkillSource::Parsed(Ok(good)) },
        SkillEntry { name: Some("empty".to_string()), source: SkillSource::Missing },
        SkillEntry {
            name: Some("broken".to_string()),
            source: SkillSource::Parsed(Err(SkillParseError::MissingCloseDelimiter)),
        },
    ];
    let (skills, errors) = discover(entries);
    assert_eq!(skills.len(), 1);
    assert_eq!(skills[0].dir, "good");
    assert_eq!(errors.len(), 1);
    assert_eq!(errors[0].dir, "broken");
    assert_eq!(
        errors[0].err,
        "parse error: SKILL.md: missing frontmatter closing delimiter"
    );
}

#[test]
fn test_install_dir_user_scope() {
    assert_eq!(scope_location(Some("user")).unwrap(), InstallLocation::UserHome);
    let dir = user_install_dir(Some("/home/someone")).unwrap();
    assert!(dir.ends_with(".agents/skills"));
}

#[test]
fn test_install_dir_default_scope() {
    assert_eq!(scope_location(None).unwrap(), InstallLocation::UserHome);
    let dir = user_install_dir(Some("/home/someone")).unwrap();
    assert!(dir.ends_with(".agents/skills"));
}

#[test]
fn test_install_dir_unknown_scope() {
    let err = install_dir(None, Some("invalid")).unwrap_err();
    assert!(matches!(err, ResolveError::UnknownScope(_)));
}

#[test]
fn test_prefix_overrides_scope() {
    let dir = install_dir(Some("/custom/path"), Some("repo")).unwrap();
    assert_eq!(dir, InstallLocation::Path("/custom/path".to_string()));
}

#[test]
fn test_parse_valid_skill() {
    let content = r#"---
name: my-skill
description: A test skill
license: MIT
compatibility:
  - gemini
  - codex
allowed_tools:
  - Bash
  - Read
---
# My Skill

This is the body.
"#;
    let skill = parse(content).unwrap();
    assert_eq!(skill.name, "my-skill");
    assert_eq!(skill.description, "A test skill");
    assert_eq!(skill.license, "MIT");
    assert_eq!(skill.compatibility, vec!["gemini", "codex"]);
    assert_eq!(skill.allowed_tools, vec!["Bash", "Read"]);
    assert!(skill.body.starts_with("# My Skill"));
}

#[test]
fn test_parse_minimal_frontmatter() {
    let content = "---\nname: minimal\ndescription: desc\n---\n";
    let skill = parse(content).unwrap();
    assert_eq!(skill.name, "minimal");
    assert_eq!(skill.description, "desc");
    assert!(skill.license.is_empty());
    assert!(skill.compatibility.is_empty());
}

#[test]
fn test_parse_missing_open_delimiter() {
    let content = "name: bad\n---\n";
    let err = parse(content).unwrap_err();
    assert!(matches!(err, SkillParseError::MissingOpenDelimiter));
}

#[test]
fn test_parse_missing_close_delimiter() {
    let content = "---\nname: bad\n";
    let err = parse(content).unwrap_err();
    assert!(matches!(err, SkillParseError::MissingCloseDelimiter));
}

#[test]
fn test_parse_with_metadata() {
    let content =
        "---\nname: m\ndescription: d\nmetadata:\n  author: test\n  version: \"1.0\"\n---\n";
    let skill = parse(content).unwrap();
    assert!(skill.metadata.contains_key("author"));
}

#[test]
fn test_valid_skill() {
    let skill = make_skill("my-skill", "A description");
    let result = validate(&skill, "my-skill");
    assert!(result.ok());
    assert!(result.warnings.is_empty());
}

#[test]
fn test_empty_description_is_error() {
    let skill = make_skill("my-skill", "");
    let result = validate(&skill, "my-skill");
    assert!(!result.ok());
    assert_eq!(result.errors.len(), 1);
}

#[test]
fn test_name_mismatch_is_warning() {
    let skill = make_skill("skill-a", "desc");
    let result = validate(&skill, "skill-b");
    assert!(result.ok());
    assert_eq!(result.warnings.len(), 1);
}

#[test]
fn test_long_name_is_warning() {
    let long_name = "a".repeat(65);
    let skill = make_skill(&long_name, "desc");
    let result = validate(&skill, &long_name);
    assert!(result.ok());
    assert_eq!(result.warnings.len(), 1);
}

// ---- the splitting of SKILL.md ----

#[test]
fn split_gives_yaml_and_trimmed_body() {
    let (yaml, body) = split_frontmatter("---\na: 1\nb: 2\n---\n\n\nbody\n").unwrap();
    assert_eq!(yaml, "a: 1\nb: 2");
    assert_eq!(body, "body\n");
}

#[test]
fn split_accepts_padded_delimiters() {
    let (yaml, body) = split_frontmatter("  ---  \nx: y\n --- \nrest").unwrap();
    assert_eq!(yaml, "x: y");
    assert_eq!(body, "rest");
}

#[test]
fn split_of_empty_content_misses_the_opening() {
    assert!(matches!(
        split_frontmatter("").unwrap_err(),
        SkillParseError::MissingOpenDelimiter
    ));
}

#[test]
fn empty_frontmatter_splits() {
    let (yaml, body) = split_frontmatter("---\n---\nbody").unwrap();
    assert_eq!(yaml, "");
    assert_eq!(body, "body");
}

#[test]
fn crlf_frontmatter_splits_like_lf() {
    let (yaml, body) = split_frontmatter("---\r\nname: x\r\n---\r\nbody").unwrap();
    assert_eq!(yaml, "name: x");
    assert_eq!(body, "body");
    let (yaml, body) = split_frontmatter("---\r\na: 1\r\nb: 2\r\n---\r\n").unwrap();
    assert_eq!(yaml, "a: 1\r\nb: 2");
    assert_eq!(body, "");
}

#[test]
fn closing_line_without_newline_has_no_body() {
    let (yaml, body) = split_frontmatter("---\nx: 1\n---").unwrap();
    assert_eq!(yaml, "x: 1");
    assert_eq!(body, "");
}

#[test]
fn split_counts_multibyte_characters_in_bytes() {
    let (yaml, body) = split_frontmatter("---\nname: é\n---\nü").unwrap();
    assert_eq!(yaml, "name: é");
    assert_eq!(body, "ü");
}

#[test]
fn parse_error_messages() {
    assert_eq!(
        SkillParseError::MissingOpenDelimiter.message(),
        "SKILL.md: missing frontmatter opening delimiter"
    );
    assert_eq!(
        SkillParseError::YamlError("bad".to_string()).message(),
        "SKILL.md: YAML parse error: bad"
    );
}

#[test]
fn validation_messages() {
    let skill = make_skill("skill-a", "");
    let result = validate(&skill, "skill-b");
    assert_eq!(result.errors, vec!["description is empty or missing"]);
    assert_eq!(
        result.warnings,
        vec!["skill name \"skill-a\" does not match directory name \"skill-b\""]
    );
}

#[test]
fn validation_counts_bytes_of_the_name() {
    // 33 two-byte characters: 66 bytes.
    let name = "é".repeat(33);
    let result = validate(&make_skill(&name, "d"), &name);
    assert_eq!(result.warnings.len(), 1);
    assert!(result.warnings[0].ends_with("exceeds 64 characters"));
}

// ---- versions ----

#[test]
fn up_to_date_when_not_older() {
    assert!(is_up_to_date("v1.2.0", "1.2.0"));
    assert!(is_up_to_date("v2.0.0", "v1.0.0"));
    assert!(!is_up_to_date("v1.0.0", "v1.1.0"));
    // Not semver: only an identical text is up to date.
    assert!(is_up_to_date("dev", "dev"));
    assert!(!is_up_to_date("dev", "v1.0.0"));
}

// ---- copy plan ----

#[test]
fn dry_run_reports_without_copying() {
    let (k, m) = done(plan_copy(&opts(CopyMode::Install, false, true), "s", false, false, None));
    assert_eq!(k, ActionKind::Installed);
    assert_eq!(m, "[dry-run] would installed skill \"s\"");
    let (k, _) = done(plan_copy(&opts(CopyMode::Reinstall, false, true), "s", true, true, None));
    assert_eq!(k, ActionKind::Reinstalled);
}

#[test]
fn install_keeps_existing_skills() {
    let (k, m) = done(plan_copy(&opts(CopyMode::Install, false, false), "s", true, true, None));
    assert_eq!(k, ActionKind::Skipped);
    assert_eq!(m, "skill \"s\" already installed (use 'update' or 'reinstall' to refresh)");
    let (k, m) = done(plan_copy(&opts(CopyMode::Install, false, false), "s", true, false, None));
    assert_eq!(k, ActionKind::Warned);
    assert_eq!(m, "skill \"s\" exists but is not managed by tool; use --force to overwrite");
}

#[test]
fn install_copies_missing_or_forced() {
    let step = plan_copy(&opts(CopyMode::Install, false, false), "s", false, false, None);
    assert_eq!(proceed(step), ActionKind::Installed);
    let step = plan_copy(&opts(CopyMode::Install, true, false), "s", true, false, None);
    assert_eq!(proceed(step), ActionKind::Installed);
}

#[test]
fn update_only_touches_managed_skills_of_another_version() {
    let (k, m) = done(plan_copy(&opts(CopyMode::Update, true, false), "s", true, false, None));
    assert_eq!(k, ActionKind::Skipped);
    assert_eq!(m, "skill \"s\" is not managed by tool");
    let (k, m) = done(plan_copy(
        &opts(CopyMode::Update, false, false),
        "s",
        true,
        true,
        Some("v1.2.0"),
    ));
    assert_eq!(k, ActionKind::Skipped);
    assert_eq!(m, "skill \"s\" is already at version \"v1.2.0\" (>= \"v1.2.0\")");
    let step = plan_copy(&opts(CopyMode::Update, false, false), "s", true, true, Some("1.0.0"));
    assert_eq!(proceed(step), ActionKind::Updated);
    // A newer installed version differs too: it is replaced.
    let step = plan_copy(&opts(CopyMode::Update, false, false), "s", true, true, Some("v2.0.0"));
    assert_eq!(proceed(step), ActionKind::Updated);
    // Unreadable metadata: the skill is updated.
    let step = plan_copy(&opts(CopyMode::Update, false, false), "s", true, true, None);
    assert_eq!(proceed(step), ActionKind::Updated);
}

#[test]
fn update_compares_text_when_not_semver() {
    let mut o = opts(CopyMode::Update, false, false);
    o.version = "dev".to_string();
    let (k, m) = done(plan_copy(&o, "s", true, true, Some("dev")));
    assert_eq!(k, ActionKind::Skipped);
    assert_eq!(m, "skill \"s\" is already at version \"dev\"");
    let step = plan_copy(&o, "s", true, true, Some("other"));
    assert_eq!(proceed(step), ActionKind::Updated);
}

#[test]
fn reinstall_refuses_downgrade_without_force() {
    let (k, m) = done(plan_copy(
        &opts(CopyMode::Reinstall, false, false),
        "s",
        true,
        true,
        Some("v2.0.0"),
    ));
    assert_eq!(k, ActionKind::Skipped);
    assert_eq!(m, "skill \"s\" has newer version \"v2.0.0\" (> \"v1.2.0\"); use --force to downgrade");
    let step = plan_copy(&opts(CopyMode::Reinstall, true, false), "s", true, true, Some("v2.0.0"));
    assert_eq!(proceed(step), ActionKind::Reinstalled);
    let (k, _) = done(plan_copy(&opts(CopyMode::Reinstall, false, false), "s", true, false, None));
    assert_eq!(k, ActionKind::Warned);
    let step = plan_copy(&opts(CopyMode::Reinstall, false, false), "s", true, true, Some("v1.2.0"));
    assert_eq!(proceed(step), ActionKind::Reinstalled);
}

#[test]
fn copy_result_classes() {
    let act = |k: ActionKind| SkillAction { dir: "d".to_string(), action: k, message: String::new() };
    let result = CopyResult {
        actions: vec![
            act(ActionKind::Installed),
            act(ActionKind::Skipped),
            act(ActionKind::Updated),
            act(ActionKind::Warned),
            act(ActionKind::Reinstalled),
        ],
    };
    assert_eq!(result.installed().len(), 3);
    assert_eq!(result.skipped().len(), 1);
    assert_eq!(result.warned().len(), 1);
    assert_eq!(result.installed()[1].action, ActionKind::Updated);
    assert!(CopyResult::default().actions.is_empty());
}

#[test]
fn hex_encoding_and_backup_names() {
    assert_eq!(encode(&[0x00, 0x0f, 0xa5, 0xff]), "000fa5ff");
    assert_eq!(encode(&[]), "");
    assert_eq!(backup_file_name_with("skill", [0xde, 0xad, 0xbe, 0xef]), "skill.deadbeef.bak");
    let name = backup_file_name("skill");
    assert_eq!(name.len(), "skill.".len() + 8 + ".bak".len());
    assert!(name.starts_with("skill.") && name.ends_with(".bak"));
}

#[test]
fn discovery_errors_become_warnings() {
    let errors = vec![SkillError { dir: "x".to_string(), err: "boom".to_string() }];
    let acts = discovery_warnings(&errors);
    assert_eq!(acts.len(), 1);
    assert_eq!(acts[0].dir, "x");
    assert_eq!(acts[0].action, ActionKind::Warned);
    assert_eq!(acts[0].message, "boom");
    assert_eq!(errors[0].message(), "x: boom");
}

#[test]
fn copy_error_messages() {
    assert_eq!(CopyError::Discover("no".to_string()).message(), "discovering skills: no");
    let e = CopyError::Copy { skill: "s".to_string(), source: "denied".to_string() };
    assert_eq!(e.message(), "copying skill \"s\": denied");
    assert_eq!(
        CopyError::metadata("s", "disk full").message(),
        "writing metadata for \"s\": disk full"
    );
}

// ---- paths ----

#[test]
fn path_joining() {
    assert_eq!(join_path("/a", "b"), "/a/b");
    assert_eq!(join_path("/a/", "b"), "/a/b");
    assert_eq!(join_path("", "b"), "b");
    assert_eq!(join_path("/a", "/abs"), "/abs");
    assert_eq!(skills_dir_in("/home/u"), "/home/u/.agents/skills");
}

#[test]
fn user_dir_needs_home() {
    let err = user_install_dir(None).unwrap_err();
    assert_eq!(err.message(), "resolving home directory: HOME environment variable not set");
    assert_eq!(scope_location(Some("repo")).unwrap(), InstallLocation::RepoRoot);
    assert_eq!(scope_location(Some("")).unwrap(), InstallLocation::UserHome);
    let err = scope_location(Some("x")).unwrap_err();
    assert_eq!(err.message(), "unknown scope \"x\" (supported: user, repo)");
}

#[test]
fn repo_search_steps() {
    assert!(matches!(repo_search_step(GitEntry::Dir, "/r"), RepoSearch::Found));
    assert!(matches!(repo_search_step(GitEntry::File, "/r"), RepoSearch::Found));
    assert!(matches!(repo_search_step(GitEntry::Missing, "/r"), RepoSearch::Ascend));
    match repo_search_step(GitEntry::Symlink, "/r") {
        RepoSearch::Fail(e) => assert_eq!(
            e.message(),
            ".git in /r is a symlink, which is not supported for security reasons"
        ),
        _ => panic!("expected a failure"),
    }
    match repo_search_step(GitEntry::Failed("denied".to_string()), "/r") {
        RepoSearch::Fail(e) => {
            assert_eq!(e.message(), "resolving install dir for scope \"repo\": denied")
        }
        _ => panic!("expected a failure"),
    }
}

// ---- the host ----

#[test]
fn smith_checks_its_version() {
    let s = Smith::new("tool", "v1.2.3").unwrap();
    assert_eq!(s.name(), "tool");
    assert_eq!(s.version(), "v1.2.3");
    assert!(Smith::new("tool", "1.2.3").is_ok());
    let err = Smith::new("tool", "nope").unwrap_err();
    assert!(matches!(err, SmithError::InvalidVersion(_)));
    assert_eq!(err.message(), "invalid version \"nope\"");
}

#[test]
fn skills_subdirectory_detection() {
    assert!(use_skills_subdir(&vec![Some("skills".to_string())]));
    assert!(!use_skills_subdir(&vec![Some("other".to_string())]));
    assert!(!use_skills_subdir(&vec![Some("skills".to_string()), Some("x".to_string())]));
    assert!(!use_skills_subdir(&vec![]));
}

// ---- reports ----

#[test]
fn padding_to_thirty() {
    assert_eq!(pad_to_30("abc").len(), 30);
    assert_eq!(pad_to_30(&"x".repeat(40)), "x".repeat(40));
}

#[test]
fn list_reports() {
    let r = list_report(&vec![], &vec![]);
    assert_eq!(r.out, vec!["no skills found"]);
    assert!(r.err.is_empty());
    let mut s = make_skill("a", "desc");
    s.dir = "a".to_string();
    let errs = vec![SkillError { dir: "b".to_string(), err: "bad".to_string() }];
    let r = list_report(&vec![s], &errs);
    assert_eq!(r.out.len(), 1);
    assert_eq!(r.err.len(), 1);
}

#[test]
fn reinstall_reports() {
    let acts = vec![SkillAction {
        dir: "a".to_string(),
        action: ActionKind::Reinstalled,
        message: String::new(),
    }];
    let r = reinstall_report(&acts, true);
    assert_eq!(r.out.last().unwrap(), "[dry-run] no changes were made");
    let r = reinstall_report(&acts, false);
    assert!(r.out.iter().all(|l| l != "[dry-run] no changes were made"));
}

#[test]
fn status_lines() {
    let l = status_line("a", "v1.0.0", &InstallState::NotInstalled);
    assert_eq!(l, format!("{:<30} not installed", "a"));
    let l = status_line("a", "v1.0.0", &InstallState::Installed("v1.0.0".to_string()));
    assert_eq!(l, format!("{:<30} installed v1.0.0 (up to date)", "a"));
    let l = status_line("a", "v1.1.0", &InstallState::Installed("v1.0.0".to_string()));
    assert_eq!(l, format!("{:<30} installed v1.0.0 → available v1.1.0", "a"));
    let l = status_line("a", "v1.1.0", &InstallState::Unreadable("oops".to_string()));
    assert_eq!(l, format!("{:<30} installed (metadata unreadable: oops)", "a"));
}

#[test]
fn uninstall_steps() {
    match uninstall_step("a", "tool", false, false) {
        UninstallStep::Report(l) => assert_eq!(l, "skipped:     a — not managed by tool"),
        UninstallStep::Remove => panic!("unmanaged skills stay"),
    }
    match uninstall_step("a", "tool", true, true) {
        UninstallStep::Report(l) => assert_eq!(l, "uninstalled (dry-run): a"),
        UninstallStep::Remove => panic!("a dry run removes nothing"),
    }
    assert!(matches!(uninstall_step("a", "tool", true, false), UninstallStep::Remove));
}

#[test]
fn metadata_file_location() {
    assert_eq!(slacli::metadata::metadata_path("/skills/a"), "/skills/a/.agentskills.json");
    assert_eq!(slacli::metadata::META_FILENAME, ".agentskills.json");
}

/// Runs the copy steps, answering each outside step from `outcomes` in turn; gives the steps
/// taken and the final outcome.
fn run_copy(
    dest_exists: bool,
    outcomes: &[Result<(), String>],
) -> (Vec<String>, Result<(ActionKind, String), CopyError>) {
    let mut steps = Vec::new();
    let mut state = CopyState::Begin { dest_exists };
    let mut outcome: Result<(), String> = Ok(());
    let mut answers = outcomes.iter();
    loop {
        let (next, action) =
            copy_transition(state, outcome, "s", &opts(CopyMode::Update, false, false));
        state = next;
        let name = match &action {
            CopyAction::Backup => "backup".to_string(),
            CopyAction::CopyFiles => "copy".to_string(),
            CopyAction::WriteMetadata { installed_by, version } => {
                format!("meta({installed_by} {version})")
            }
            CopyAction::RemoveBackup => "clean".to_string(),
            CopyAction::RollBack { restore } => format!("rollback(restore={restore})"),
            CopyAction::Finish(_) => "finish".to_string(),
        };
        steps.push(name);
        if let CopyAction::Finish(result) = action {
            return (steps, result);
        }
        outcome = answers.next().cloned().unwrap_or(Ok(()));
    }
}

#[test]
fn copy_replacing_an_existing_skill_removes_the_backup() {
    let (steps, result) = run_copy(true, &[Ok(()), Ok(()), Ok(()), Ok(())]);
    assert_eq!(steps, vec!["backup", "copy", "meta(tool v1.2.0)", "clean", "finish"]);
    let (k, m) = result.unwrap();
    assert_eq!(k, ActionKind::Updated);
    assert!(m.is_empty());
}

#[test]
fn copy_into_a_new_directory_takes_no_backup() {
    let (steps, result) = run_copy(false, &[Ok(()), Ok(())]);
    assert_eq!(steps, vec!["copy", "meta(tool v1.2.0)", "finish"]);
    assert!(result.is_ok());
}

#[test]
fn failed_copy_rolls_back_and_restores_the_backup() {
    let (steps, result) = run_copy(true, &[Ok(()), Err("disk full".to_string())]);
    assert_eq!(steps, vec!["backup", "copy", "rollback(restore=true)", "finish"]);
    assert_eq!(result.unwrap_err().message(), "copying skill \"s\": disk full");
}

#[test]
fn failed_metadata_write_rolls_back() {
    let (steps, result) = run_copy(false, &[Ok(()), Err("denied".to_string())]);
    assert_eq!(steps, vec!["copy", "meta(tool v1.2.0)", "rollback(restore=false)", "finish"]);
    assert_eq!(result.unwrap_err().message(), "writing metadata for \"s\": denied");
}

#[test]
fn failed_backup_stops_without_copying() {
    let (steps, result) = run_copy(true, &[Err("busy".to_string())]);
    assert_eq!(steps, vec!["backup", "finish"]);
    assert_eq!(result.unwrap_err().message(), "copying skill \"s\": busy");
}

#[test]
fn recording_copy_outcomes() {
    let errors = vec![SkillError { dir: "bad".to_string(), err: "boom".to_string() }];
    let mut result = CopyResult::from_discovery_errors(&errors);
    assert_eq!(result.actions.len(), 1);
    assert!(result.record("a", Ok((ActionKind::Installed, String::new()))).is_ok());
    assert_eq!(result.actions.len(), 2);
    assert_eq!(result.actions[1].dir, "a");
    let err = result
        .record("b", Err(CopyError::Other("stop".to_string())))
        .unwrap_err();
    assert_eq!(err.message(), "stop");
    assert_eq!(result.actions.len(), 2);
}

#[test]
fn skill_files_are_found_under_their_directory() {
    assert_eq!(skill_file_path("foo"), "foo/SKILL.md");
    assert_eq!(skill_file_path("skills/foo"), "skills/foo/SKILL.md");
}
