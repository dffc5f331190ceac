//! The rendered sections and the briefing, character for character.

use xagentsync::handoff::debug::{
    AttemptOutcome, DebugContext, Evidence, EvidenceKind, Hypothesis, Likelihood, SuspectedFile,
};
use xagentsync::handoff::deploy::{BreakingChange, DeployContext};
use xagentsync::handoff::plan::{PlanContext, PlanPhase, Priority, Requirement};
use xagentsync::handoff::PriorityFile;
use xagentsync::text::decimal;
use xagentsync::time::Timestamp;
use xagentsync::{GitRef, Handoff, HandoffMode, SessionState, WarmUpSequence};

fn at(secs: i64) -> Timestamp {
    Timestamp::from_parts(secs, 0).expect("a representable instant")
}

#[test]
fn decimal_writes_numerals() {
    assert_eq!(decimal(0), "0");
    assert_eq!(decimal(7), "7");
    assert_eq!(decimal(10), "10");
    assert_eq!(decimal(255), "255");
    assert_eq!(decimal(18446744073709551615), "18446744073709551615");
}

#[test]
fn empty_deploy_is_the_title_alone() {
    assert_eq!(DeployContext::default().compile(), "## Deployment Context\n\n");
}

#[test]
fn deploy_sections_in_fixed_order() {
    let mut ctx = DeployContext::default()
        .checklist("tag the release", true)
        .checklist("warn the team", false)
        .env_concern("prod", "cold cache")
        .breaking("login API", "mobile clients")
        .rollback("git revert HEAD")
        .verify("run the suite")
        .verify("smoke test")
        .ship("auth module", "new OAuth2 flow");
    ctx.breaking_changes.push(BreakingChange {
        what: "config".to_string(),
        affects: "ops".to_string(),
        migration: Some("rename the key".to_string()),
    });
    let expected = "## Deployment Context\n\n\
### Ready to Ship\n\n\
- **auth module** (Medium): new OAuth2 flow\n\n\
### Verification Steps\n\n\
1. run the suite\n\
2. smoke test\n\n\
### Rollback Plan\n\n\
git revert HEAD\n\n\
### Breaking Changes\n\n\
- **login API** affects mobile clients\n\
- **config** affects ops\n\
\x20 Migration: rename the key\n\n\
### Environment Concerns\n\n\
- **prod**: cold cache\n\n\
### Checklist\n\n\
- [x] tag the release\n\
- [ ] warn the team\n\n";
    assert_eq!(ctx.compile(), expected);
}

#[test]
fn deploy_compiles_the_same_twice() {
    let ctx = DeployContext::default().ship("a", "b").verify("c");
    assert_eq!(ctx.compile(), ctx.compile());
    assert_eq!(ctx.clone().compile(), ctx.compile());
}

#[test]
fn fresh_debug_is_title_and_problem() {
    assert_eq!(
        DebugContext::new("X").compile(),
        "## Troubleshooting Context\n\n### Problem\n\nX\n\n"
    );
}

#[test]
fn debug_sections_in_fixed_order() {
    let mut ctx = DebugContext::new("Login fails")
        .try_next("bisect")
        .suspect_file("src/auth.rs", "touches tokens")
        .evidence(EvidenceKind::LogEntry, "E42")
        .tried("restart", "no change", AttemptOutcome::NoEffect)
        .hypothesis("race", Likelihood::High)
        .theory("clock skew")
        .repro("log in twice")
        .symptom("500 on callback");
    ctx.hypotheses.push(Hypothesis {
        theory: "stale cache".to_string(),
        support: vec!["only after deploy".to_string()],
        against: vec!["cache is off".to_string()],
        likelihood: Likelihood::Eliminated,
    });
    ctx.evidence.push(Evidence {
        kind: EvidenceKind::StackTrace,
        content: "at f()".to_string(),
        source: Some("prod".to_string()),
        timestamp: None,
    });
    ctx.suspected_files.push(SuspectedFile {
        path: "src/db.rs".to_string(),
        reason: "slow".to_string(),
        lines: Some("10-20".to_string()),
        confidence: Likelihood::Low,
    });
    let expected = "## Troubleshooting Context\n\n\
### Problem\n\nLogin fails\n\n\
### Symptoms\n\n- 500 on callback\n\n\
### How to Reproduce\n\nlog in twice\n\n\
### Current Working Theory\n\nclock skew\n\n\
### Hypotheses\n\n\
- **High**: race\n\
- **Eliminated**: stale cache\n\
\x20 - Supports: only after deploy\n\
\x20 - Against: cache is off\n\n\
### Already Tried\n\n\
- **restart** \u{e2}\u{2020}\u{2019} no change (NoEffect)\n\n\
### Evidence\n\n\
**LogEntry**:\n```\nE42\n```\n\n\
**StackTrace** (from prod):\n```\nat f()\n```\n\n\
### Suspected Files\n\n\
- `src/auth.rs` (Medium): touches tokens\n\
- `src/db.rs` (Low): slow\n\
\x20 Lines: 10-20\n\n\
### Suggested Next Step\n\nbisect\n\n";
    assert_eq!(ctx.compile(), expected);
}

#[test]
fn fresh_plan_is_title_goal_and_phase() {
    assert_eq!(
        PlanContext::new("G").compile(),
        "## Planning Context\n\n### Goal\n\nG\n\n**Phase**: Discovery\n\n"
    );
}

#[test]
fn plan_sections_in_fixed_order() {
    let mut ctx = PlanContext::new("Cache layer")
        .next_step("benchmark")
        .next_step("decide")
        .constraint("no new services")
        .blocking_question("Cluster?", "cost")
        .question("TTL?", "staleness")
        .rejected("Memcached", "no persistence")
        .decided("Use Redis", "team knows it")
        .requirement("p99 under 100ms", Priority::Must)
        .phase(PlanPhase::Design)
        .progress(250);
    ctx.requirements.push(Requirement {
        description: "cheap".to_string(),
        priority: Priority::Could,
        source: None,
        confirmed: true,
    });
    ctx.rejected_options[0].reconsiderable = false;
    let expected = "## Planning Context\n\n\
### Goal\n\nCache layer\n\n\
**Phase**: Design (100% complete)\n\n\
### Requirements\n\n\
- **Must**: p99 under 100ms\n\
- **Could** \u{e2}\u{153}\u{201c}: cheap\n\n\
### Decisions Made\n\n\
- **Use Redis**\n\
\x20 Rationale: team knows it\n\n\
### Options Rejected\n\n\
- ~~Memcached~~: no persistence\n\n\
### Open Questions\n\n\
- Cluster? **[BLOCKING]**\n\
\x20 Why it matters: cost\n\
- TTL?\n\
\x20 Why it matters: staleness\n\n\
### Constraints\n\n\
- no new services\n\n\
### Suggested Next Steps\n\n\
1. benchmark\n\
2. decide\n\n";
    assert_eq!(ctx.compile(), expected);
}

#[test]
fn plan_progress_is_clamped() {
    assert_eq!(PlanContext::new("g").progress(100).progress_pct, Some(100));
    assert_eq!(PlanContext::new("g").progress(101).progress_pct, Some(100));
    assert_eq!(PlanContext::new("g").progress(0).progress_pct, Some(0));
    assert_eq!(PlanContext::new("g").progress(42).progress_pct, Some(42));
}

#[test]
fn rejected_option_can_be_reconsidered_by_default() {
    let ctx = PlanContext::new("g").rejected("A", "B");
    assert_eq!(
        ctx.compile(),
        "## Planning Context\n\n### Goal\n\ng\n\n**Phase**: Discovery\n\n\
### Options Rejected\n\n- ~~A~~ (could reconsider): B\n\n"
    );
}

#[test]
fn bare_prompt_is_header_and_mode_section() {
    let h = Handoff::assemble(7, at(1431648000), HandoffMode::deploy(), "Ship it", "alice");
    assert_eq!(
        h.compile_prompt(),
        "# Handoff: Ship it\n\n**Mode**: \"deploy\"\n**From**: alice\n\
**Created**: 2015-05-15 00:00 UTC\n\n## Deployment Context\n\n"
    );
}

#[test]
fn prompt_parts_in_fixed_order() {
    let session = SessionState::default()
        .read_file("src/main.rs")
        .modified_file("src/auth.rs", "added refresh");
    let mut warm_up = WarmUpSequence::new("Auth changes")
        .with_file("src/auth.rs", "main changes", 1)
        .must_know("refresh is async")
        .suggest_start("read token_refresh");
    warm_up.priority_files.push(PriorityFile {
        path: "src/lib.rs".to_string(),
        reason: "types".to_string(),
        focus: Some("lines 1-40".to_string()),
        rank: 2,
    });
    let h = Handoff::assemble(7, at(1431648000 + 3 * 3600 + 25 * 60 + 59), HandoffMode::debug("X"), "S", "bob")
        .with_session(session)
        .with_warm_up(warm_up)
        .with_git_ref(GitRef::branch("fix/auth"));
    let expected = "# Handoff: S\n\n\
**Mode**: \"debug\"\n\
**From**: bob\n\
**Created**: 2015-05-15 03:25 UTC\n\n\
## TL;DR\n\nAuth changes\n\n\
## Troubleshooting Context\n\n### Problem\n\nX\n\n\
## Must Know\n\n- refresh is async\n\n\
## Start Here (Priority Files)\n\n\
1. `src/auth.rs` - main changes\n\
2. `src/lib.rs` - types\n\
\x20  Focus: lines 1-40\n\n\
## Suggested First Action\n\nread token_refresh\n\n\
## Previous Session Activity\n\n\
**Modified**:\n- `src/auth.rs` - added refresh\n\n\
**Git Branch**: `fix/auth`\n";
    assert_eq!(h.compile_prompt(), expected);
}

#[test]
fn prompt_omits_activity_without_modified_files() {
    let session = SessionState::default().read_file("src/main.rs").created_file("notes.md");
    let h = Handoff::assemble(7, at(0), HandoffMode::deploy(), "S", "bob").with_session(session);
    assert_eq!(
        h.compile_prompt_dated("then"),
        "# Handoff: S\n\n**Mode**: \"deploy\"\n**From**: bob\n**Created**: then\n\n\
## Deployment Context\n\n"
    );
    let fresh = Handoff::new(HandoffMode::deploy(), "s", "a")
        .with_session(SessionState::default().read_file("a.rs"));
    assert!(!fresh.compile_prompt().contains("## Previous Session Activity"));
    assert!(!fresh.compile_prompt().contains("**Modified**"));
}

#[test]
fn prompt_shows_modified_files_without_files_read() {
    let session = SessionState::default().modified_file("a.rs", "fixed");
    let mut h = Handoff::assemble(7, at(0), HandoffMode::deploy(), "S", "bob").with_session(session);
    h.session.files_modified.push(xagentsync::context::FileModified {
        path: "b.rs".to_string(),
        change_summary: None,
        lines_changed: Some(3),
    });
    assert_eq!(
        h.compile_prompt_dated("then"),
        "# Handoff: S\n\n**Mode**: \"deploy\"\n**From**: bob\n**Created**: then\n\n\
## Deployment Context\n\n## Previous Session Activity\n\n**Modified**:\n- `a.rs` - fixed\n- `b.rs`\n\n"
    );
}

#[test]
fn writing_never_fails() {
    let h = Handoff::assemble(7, at(0), HandoffMode::deploy(), "S \"quoted\" \u{0}\n", "bob")
        .with_tag("\u{1f600}");
    assert!(h.to_json().is_ok());
    let manager = xagentsync::sync::SyncManager::new(xagentsync::sync::SyncConfig::default(), false);
    assert!(manager.save_wip(&h).is_ok());
    assert!(manager.send_handoff(&h).is_ok());
    assert!(manager.write_state("k", "\u{0}\\\"").is_ok());
    let back = Handoff::from_json(&h.to_json().unwrap()).unwrap();
    assert_eq!(back.summary, h.summary);
    assert_eq!(back.tags, h.tags);
}

#[test]
fn prompt_git_lines_name_the_type() {
    let h = Handoff::assemble(7, at(0), HandoffMode::deploy(), "S", "bob");
    let commit = h.clone().with_git_ref(GitRef::commit("abc123")).compile_prompt_dated("t");
    assert!(commit.ends_with("**Git Commit**: `abc123`\n"));
    let pr = h.with_git_ref(GitRef::pull_request("42")).compile_prompt_dated("t");
    assert!(pr.ends_with("**Git PullRequest**: `42`\n"));
}

#[test]
fn tags_keep_order_and_duplicates() {
    let h = Handoff::assemble(7, at(0), HandoffMode::deploy(), "S", "bob")
        .with_tag("b")
        .with_tag("a")
        .with_tag("b");
    assert_eq!(h.tags, vec!["b".to_string(), "a".to_string(), "b".to_string()]);
}

#[test]
fn new_handoffs_differ_in_identity() {
    let a = Handoff::new(HandoffMode::deploy(), "s", "w");
    let b = Handoff::new(HandoffMode::deploy(), "s", "w");
    assert_ne!(a.id, b.id);
    assert!(a.created_at.secs() > 1_600_000_000);
    assert!(a.tags.is_empty());
    assert!(a.git_ref.is_none());
    assert!(a.session.started_at.is_none());
    assert_eq!(a.warm_up.tldr, "");
}

#[test]
fn free_text_levels_are_read_leniently() {
    assert_eq!(Likelihood::parse("HIGH"), Likelihood::High);
    assert_eq!(Likelihood::parse("low"), Likelihood::Low);
    assert_eq!(Likelihood::parse("eliminated"), Likelihood::Medium);
    assert_eq!(Likelihood::parse(""), Likelihood::Medium);
    assert_eq!(Likelihood::from_token("HIGH"), Likelihood::Medium);
    assert_eq!(AttemptOutcome::parse("Fixed"), AttemptOutcome::Fixed);
    assert_eq!(AttemptOutcome::parse("helped"), AttemptOutcome::Helped);
    assert_eq!(AttemptOutcome::parse("WORSE"), AttemptOutcome::MadeWorse);
    assert_eq!(AttemptOutcome::parse("nothing"), AttemptOutcome::NoEffect);
    assert_eq!(EvidenceKind::parse("Log"), EvidenceKind::LogEntry);
    assert_eq!(EvidenceKind::parse("error"), EvidenceKind::ErrorMessage);
    assert_eq!(EvidenceKind::parse("stack"), EvidenceKind::StackTrace);
    assert_eq!(EvidenceKind::parse("StackTrace"), EvidenceKind::StackTrace);
    assert_eq!(EvidenceKind::parse("metric"), EvidenceKind::Observation);
    assert_eq!(Priority::parse("MUST"), Priority::Must);
    assert_eq!(Priority::parse("could"), Priority::Could);
    assert_eq!(Priority::parse("wont"), Priority::Wont);
    assert_eq!(Priority::parse("won't"), Priority::Should);
}

#[test]
fn mode_names_are_read() {
    assert_eq!(HandoffMode::from_str("Ship").unwrap().kind(), "deploy");
    assert_eq!(HandoffMode::from_str("deployment").unwrap().kind(), "deploy");
    assert_eq!(HandoffMode::from_str("FIX").unwrap().kind(), "debug");
    assert_eq!(HandoffMode::from_str("design").unwrap().kind(), "plan");
    let debug = HandoffMode::from_str("troubleshoot").unwrap();
    assert_eq!(debug.as_debug().unwrap().problem_statement, "(problem not specified)");
    let plan = HandoffMode::from_str("planning").unwrap();
    assert_eq!(plan.as_plan().unwrap().goal, "(goal not specified)");
    assert_eq!(
        HandoffMode::from_str("Build").unwrap_err(),
        "Unknown mode: Build. Use deploy, debug, or plan."
    );
}

#[test]
fn mode_names_at_a_boundary() {
    assert_eq!(HandoffMode::parse("Deploy").unwrap().kind(), "deploy");
    assert_eq!(HandoffMode::parse("fix").unwrap().kind(), "debug");
    match HandoffMode::parse("Build") {
        Err(xagentsync::Error::InvalidMode(name)) => assert_eq!(name, "Build"),
        other => panic!("unexpected result {:?}", other),
    }
    assert_eq!(HandoffMode::parse("").unwrap_err().message(), "Invalid mode: ");
}

#[test]
fn mode_contexts_are_reached_for_change() {
    let mut mode = HandoffMode::debug("p");
    assert!(mode.as_deploy_mut().is_none());
    assert!(mode.as_plan_mut().is_none());
    mode.as_debug_mut().unwrap().symptoms.push("s".to_string());
    assert_eq!(mode.as_debug().unwrap().symptoms, vec!["s".to_string()]);
    assert!(mode.as_deploy().is_none());
    assert!(mode.as_plan().is_none());
    assert_eq!(mode.compile_section(), "## Troubleshooting Context\n\n### Problem\n\np\n\n### Symptoms\n\n- s\n\n");
}
