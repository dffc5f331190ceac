//! The commands, run against a store in memory.

use xagentsync::cli::compose::{compose, report_created, HandoffRequest};
use xagentsync::cli::report::{
    archive_id, report_init, report_receive_footer, report_receive_heading, report_status,
    select_mode, show_entry, sync, whoami,
};
use xagentsync::cli::wip::{debug_step, deploy_step, plan_step, WipOutcome, WipStep};
use xagentsync::cli::{
    get_current_agent, Commands, DebugAction, DeployAction, HandoffModeArg, PlanAction,
};
use xagentsync::handoff::debug::{AttemptOutcome, Likelihood};
use xagentsync::handoff::plan::Priority;
use xagentsync::handoff::GitRefType;
use xagentsync::store::MemoryStore;
use xagentsync::sync::{SyncConfig, SyncManager};
use xagentsync::{Error, Handoff};

/// A command line without a disk: the store in memory, and the commands
/// performed on it as the program performs them on a directory.
struct Shell {
    store: MemoryStore,
    manager: SyncManager,
    head: Option<String>,
    branch: Option<String>,
}

impl Shell {
    fn new() -> Shell {
        Shell {
            store: MemoryStore::new(),
            manager: SyncManager::new(SyncConfig::with_sync_dir("."), false),
            head: None,
            branch: None,
        }
    }

    fn under_version_control() -> Shell {
        Shell {
            store: MemoryStore::new(),
            manager: SyncManager::new(SyncConfig::with_sync_dir("."), true),
            head: Some("0123456789abcdef0123456789abcdef01234567".to_string()),
            branch: Some("main".to_string()),
        }
    }

    fn identity(&self) -> Result<Option<String>, Error> {
        self.manager.read_state(self.store.state_entry("current_agent").as_deref())
    }

    fn wip(&self) -> Result<Option<Handoff>, Error> {
        self.manager.load_wip(self.store.wip().as_deref())
    }

    fn pending(&self) -> Vec<Handoff> {
        self.manager.receive_handoffs(&self.store.pending_files())
    }

    fn take(&mut self, outcome: WipOutcome, kind: &str) -> Result<String, Error> {
        match outcome.step {
            WipStep::Stage(handoff) => {
                let action = self.manager.save_wip(&handoff)?;
                self.store.perform(action);
                Ok(outcome.report)
            }
            WipStep::Finalize(handoff) => {
                let plan = self.manager.send_handoff(&handoff)?;
                let path = plan.path.clone();
                self.store.perform_all(plan.actions);
                let clear = self.manager.clear_wip(self.store.wip().is_some());
                self.store.perform_opt(clear);
                Ok(format!("{} handoff finalized: {:?}", kind, path))
            }
        }
    }

    fn run(&mut self, command: Commands) -> Result<String, Error> {
        match command {
            Commands::Init { path } => {
                let actions = self.manager.init(self.store.has_ignore_marker());
                self.store.perform_all(actions);
                Ok(report_init(&path))
            }
            Commands::Handoff {
                mode,
                summary,
                priority_files,
                must_know,
                suggest_start,
                commit,
                branch,
                pr,
                tags,
                interactive: _,
            } => {
                let request = HandoffRequest {
                    mode,
                    summary,
                    priority_files,
                    must_know,
                    suggest_start,
                    commit,
                    branch,
                    pr,
                    tags,
                };
                let identity = self.identity()?;
                let head = self.manager.current_commit(self.head.clone());
                let handoff = compose(request, identity, head)?;
                let plan = self.manager.send_handoff(&handoff)?;
                let path = plan.path.clone();
                self.store.perform_all(plan.actions);
                Ok(report_created(&handoff, &path))
            }
            Commands::Receive { prompt, mode, full, archive } => {
                let received = self.pending();
                let pending = received.len();
                let shown = select_mode(received, mode);
                let mut out = report_receive_heading(pending, shown.len());
                if pending == 0 {
                    return Ok(out);
                }
                out.push('\n');
                for handoff in &shown {
                    out.push_str(&show_entry(handoff, prompt, full));
                    if archive {
                        let names: Vec<String> =
                            self.store.pending_files().into_iter().map(|f| f.name).collect();
                        let action = self.manager.archive_handoff(&names, &archive_id(handoff))?;
                        self.store.perform(action);
                        out.push_str("  (archived)\n");
                    }
                }
                if let Some(footer) = report_receive_footer(prompt, shown.len()) {
                    out.push_str(&footer);
                }
                Ok(out)
            }
            Commands::Whoami { set } => {
                let identity = if set.is_none() { self.identity().ok().flatten() } else { None };
                let outcome = whoami(&self.manager, set, identity)?;
                self.store.perform_opt(outcome.action);
                Ok(outcome.report)
            }
            Commands::Status => {
                let identity = self.identity().ok().flatten();
                let branch = self.manager.current_branch(self.branch.clone());
                let commit = self.manager.current_commit(self.head.clone());
                let handoffs = self.pending();
                let wip = self.wip().ok().flatten();
                Ok(report_status(&identity, &branch, &commit, &handoffs, wip.as_ref()))
            }
            Commands::Deploy { action } => {
                let starts = matches!(action, DeployAction::New { .. });
                let identity = if starts { self.identity()? } else { None };
                let wip = if starts { None } else { self.wip()? };
                let outcome = deploy_step(action, wip, identity)?;
                self.take(outcome, "Deploy")
            }
            Commands::Debug { action } => {
                let starts = matches!(action, DebugAction::New { .. });
                let identity = if starts { self.identity()? } else { None };
                let wip = if starts { None } else { self.wip()? };
                let outcome = debug_step(action, wip, identity)?;
                self.take(outcome, "Debug")
            }
            Commands::Plan { action } => {
                let starts = matches!(action, PlanAction::New { .. });
                let identity = if starts { self.identity()? } else { None };
                let wip = if starts { None } else { self.wip()? };
                let outcome = plan_step(action, wip, identity)?;
                self.take(outcome, "Plan")
            }
            Commands::Sync { pull_only } => {
                let outcome = sync(&self.manager, pull_only);
                self.store.perform_all(outcome.actions);
                Ok(outcome.report)
            }
        }
    }

    fn ready() -> Shell {
        let mut shell = Shell::new();
        shell.run(Commands::Init { path: ".".to_string() }).unwrap();
        shell.run(Commands::Whoami { set: Some("test-agent".to_string()) }).unwrap();
        shell
    }
}

fn plan(action: PlanAction) -> Commands {
    Commands::Plan { action }
}

fn debug(action: DebugAction) -> Commands {
    Commands::Debug { action }
}

fn deploy(action: DeployAction) -> Commands {
    Commands::Deploy { action }
}

#[test]
fn test_cli_init() {
    let mut shell = Shell::new();
    let stdout = shell.run(Commands::Init { path: ".".to_string() }).expect("init should succeed");
    assert!(stdout.contains("Initialized XAgentSync"));
    assert!(shell.store.has_regions());
    assert!(shell.store.has_ignore_marker());
    assert_eq!(
        stdout,
        "Initialized XAgentSync at \".\"\n  pending/  - handoffs waiting to be processed\n  archive/  - processed handoffs\n  .xas/     - local state (gitignored)\n\nNext: Set your identity with 'xas whoami --set <your-name>'"
    );
}

#[test]
fn test_cli_whoami() {
    let mut shell = Shell::new();
    shell.run(Commands::Init { path: ".".to_string() }).unwrap();
    let stdout = shell.run(Commands::Whoami { set: Some("test-agent".to_string()) }).unwrap();
    assert!(stdout.contains("test-agent"));
    assert_eq!(stdout, "Set identity to: test-agent");
    let stdout = shell.run(Commands::Whoami { set: None }).unwrap();
    assert!(stdout.contains("test-agent"));
    assert_eq!(stdout, "Current identity: test-agent");
}

#[test]
fn whoami_without_identity() {
    let mut shell = Shell::new();
    let stdout = shell.run(Commands::Whoami { set: None }).unwrap();
    assert_eq!(stdout, "No identity set. Use 'xas whoami --set <your-name>'");
    match get_current_agent(None) {
        Err(Error::AgentNotRegistered(detail)) => {
            assert_eq!(detail, "No identity set. Use 'xas whoami --set <name>'")
        }
        other => panic!("unexpected result {:?}", other),
    }
    assert_eq!(get_current_agent(Some("a".to_string())).unwrap(), "a");
}

#[test]
fn test_cli_status_empty() {
    let mut shell = Shell::ready();
    let stdout = shell.run(Commands::Status).unwrap();
    assert!(stdout.contains("test-agent"));
    assert!(stdout.contains("No pending handoffs"));
    assert_eq!(stdout, "Identity: test-agent\n\nNo pending handoffs.\n");
}

#[test]
fn test_cli_plan_workflow() {
    let mut shell = Shell::ready();

    let stdout = shell.run(plan(PlanAction::New { goal: "Test planning".to_string() })).unwrap();
    assert!(stdout.contains("Started plan handoff"));

    let stdout = shell
        .run(plan(PlanAction::Require {
            requirement: "Must be fast".to_string(),
            priority: "must".to_string(),
        }))
        .unwrap();
    assert!(stdout.contains("Added requirement"));

    let stdout = shell
        .run(plan(PlanAction::Decided { decision: "Use Rust".to_string(), why: "".to_string() }))
        .unwrap();
    assert!(stdout.contains("Recorded decision"));

    let stdout = shell
        .run(plan(PlanAction::Decided {
            decision: "Use serde".to_string(),
            why: "Best serialization".to_string(),
        }))
        .unwrap();
    assert!(stdout.contains("Recorded decision"));

    let stdout = shell
        .run(plan(PlanAction::Rejected {
            option: "Use Python".to_string(),
            reason: "Too slow".to_string(),
        }))
        .unwrap();
    assert!(stdout.contains("Recorded rejected"));

    let stdout = shell
        .run(plan(PlanAction::Question {
            question: "What about Go?".to_string(),
            importance: "medium".to_string(),
            blocking: false,
        }))
        .unwrap();
    assert!(stdout.contains("Added question"));

    let stdout = shell.run(Commands::Status).unwrap();
    assert!(stdout.contains("Work in progress"));
    assert!(stdout.contains("Test planning"));

    let wip = shell.wip().unwrap().unwrap();
    let ctx = wip.mode.as_plan().unwrap();
    assert_eq!(ctx.goal, "Test planning");
    assert_eq!(ctx.requirements.len(), 1);
    assert_eq!(ctx.requirements[0].priority, Priority::Must);
    assert_eq!(ctx.decisions.len(), 2);
    assert_eq!(ctx.decisions[0].rationale, "");
    assert_eq!(ctx.decisions[1].rationale, "Best serialization");
    assert_eq!(ctx.rejected_options.len(), 1);
    assert_eq!(ctx.open_questions.len(), 1);
    assert!(!ctx.open_questions[0].blocking);
    assert_eq!(wip.created_by, "test-agent");
}

#[test]
fn test_cli_debug_workflow() {
    let mut shell = Shell::ready();

    shell.run(debug(DebugAction::New { problem: "Server crashing".to_string() })).unwrap();

    let stdout =
        shell.run(debug(DebugAction::Symptom { symptom: "OOM errors in logs".to_string() })).unwrap();
    assert!(stdout.contains("Added symptom"));

    shell
        .run(debug(DebugAction::Hypothesis {
            theory: "Memory leak".to_string(),
            likelihood: "high".to_string(),
        }))
        .unwrap();

    let stdout = shell
        .run(debug(DebugAction::Tried {
            what: "Restarted server".to_string(),
            result: "No result captured".to_string(),
            outcome: "nothing".to_string(),
        }))
        .unwrap();
    assert!(stdout.contains("Recorded attempt"));

    shell
        .run(debug(DebugAction::Suspect {
            path: "src/cache.rs".to_string(),
            reason: "Unbounded cache".to_string(),
        }))
        .unwrap();

    let stdout = shell.run(Commands::Status).unwrap();
    assert!(stdout.contains("Server crashing"));

    let wip = shell.wip().unwrap().unwrap();
    let ctx = wip.mode.as_debug().unwrap();
    assert_eq!(ctx.symptoms, vec!["OOM errors in logs".to_string()]);
    assert_eq!(ctx.hypotheses[0].likelihood, Likelihood::High);
    assert_eq!(ctx.attempted[0].outcome, AttemptOutcome::NoEffect);
    assert_eq!(ctx.suspected_files[0].confidence, Likelihood::Medium);
}

#[test]
fn test_cli_deploy_workflow() {
    let mut shell = Shell::ready();

    shell.run(deploy(DeployAction::New { summary: "Ship v1.0".to_string() })).unwrap();
    shell.run(deploy(DeployAction::Ship { item: "src/*".to_string(), description: None })).unwrap();
    shell.run(deploy(DeployAction::Verify { step: "Run tests".to_string() })).unwrap();
    shell.run(deploy(DeployAction::Rollback { plan: "git revert HEAD".to_string() })).unwrap();

    let stdout = shell.run(Commands::Status).unwrap();
    assert!(stdout.contains("Ship v1.0"));
    assert_eq!(
        stdout,
        "Identity: test-agent\n\nNo pending handoffs.\n\nWork in progress: [deploy] Ship v1.0\n"
    );

    let wip = shell.wip().unwrap().unwrap();
    let ctx = wip.mode.as_deploy().unwrap();
    assert_eq!(ctx.what_to_ship[0].item, "src/*");
    assert_eq!(ctx.what_to_ship[0].description, "src/*");
    assert_eq!(ctx.verification_steps, vec!["Run tests".to_string()]);
    assert_eq!(ctx.rollback_plan, Some("git revert HEAD".to_string()));
}

#[test]
fn test_cli_receive_empty() {
    let mut shell = Shell::new();
    shell.run(Commands::Init { path: ".".to_string() }).unwrap();
    let stdout = shell
        .run(Commands::Receive { prompt: false, mode: None, full: false, archive: false })
        .unwrap();
    assert!(stdout.contains("No pending handoffs"));
    assert_eq!(stdout, "No pending handoffs in inbox.");
}

#[test]
fn test_cli_no_active_handoff_error() {
    let mut shell = Shell::ready();
    let result = shell.run(plan(PlanAction::Require {
        requirement: "Something".to_string(),
        priority: "should".to_string(),
    }));
    let error = result.unwrap_err();
    assert!(matches!(error, Error::NoActiveHandoff));
    let stderr = error.message();
    assert!(stderr.contains("No active handoff") || stderr.contains("NoActiveHandoff"));
    assert_eq!(
        stderr,
        "No active handoff in progress. Start one with 'deploy new', 'debug new', or 'plan new'"
    );
    for command in [
        deploy(DeployAction::Done),
        deploy(DeployAction::Verify { step: "s".to_string() }),
        debug(DebugAction::Done),
        debug(DebugAction::Symptom { symptom: "s".to_string() }),
        plan(PlanAction::Done),
    ] {
        assert!(matches!(shell.run(command), Err(Error::NoActiveHandoff)));
    }
    assert!(shell.store.wip().is_none());
}

#[test]
fn starting_needs_an_identity() {
    let mut shell = Shell::new();
    shell.run(Commands::Init { path: ".".to_string() }).unwrap();
    for command in [
        deploy(DeployAction::New { summary: "s".to_string() }),
        debug(DebugAction::New { problem: "p".to_string() }),
        plan(PlanAction::New { goal: "g".to_string() }),
    ] {
        match shell.run(command) {
            Err(Error::AgentNotRegistered(detail)) => {
                assert_eq!(detail, "No identity set. Use 'xas whoami --set <name>'")
            }
            other => panic!("unexpected result {:?}", other),
        }
    }
    let error = shell.run(plan(PlanAction::New { goal: "g".to_string() })).unwrap_err();
    assert_eq!(
        error.message(),
        "Agent not registered: No identity set. Use 'xas whoami --set <name>'"
    );
}

#[test]
fn actions_of_another_mode_change_nothing() {
    let mut shell = Shell::ready();
    shell.run(plan(PlanAction::New { goal: "g".to_string() })).unwrap();
    let before = shell.store.wip();
    let stdout = shell.run(debug(DebugAction::Symptom { symptom: "s".to_string() })).unwrap();
    assert_eq!(stdout, "Added symptom: s");
    assert_eq!(shell.store.wip(), before);
    shell.run(deploy(DeployAction::Rollback { plan: "p".to_string() })).unwrap();
    assert_eq!(shell.store.wip(), before);
}

#[test]
fn mode_commands_report_what_they_did() {
    let mut shell = Shell::ready();
    assert_eq!(
        shell.run(deploy(DeployAction::New { summary: "S".to_string() })).unwrap(),
        "Started deploy handoff: S\nUse 'xas deploy ship', 'xas deploy verify', etc. to add details.\nUse 'xas deploy done' to finalize."
    );
    let said = |shell: &mut Shell, action: DeployAction| shell.run(deploy(action)).unwrap();
    assert_eq!(
        said(&mut shell, DeployAction::Ship { item: "a".to_string(), description: Some("b".to_string()) }),
        "Added to ship: a"
    );
    assert_eq!(said(&mut shell, DeployAction::Verify { step: "v".to_string() }), "Added verification step: v");
    assert_eq!(said(&mut shell, DeployAction::Rollback { plan: "r".to_string() }), "Set rollback plan.");
    assert_eq!(
        said(&mut shell, DeployAction::EnvConcern { env: "prod".to_string(), concern: "c".to_string() }),
        "Added prod concern: c"
    );
    assert_eq!(
        said(&mut shell, DeployAction::Breaking { what: "w".to_string(), affects: "x".to_string() }),
        "Added breaking change: w affects x"
    );
    assert_eq!(
        said(&mut shell, DeployAction::Done),
        "Deploy handoff finalized: \"./pending/".to_string()
            + &shell.store.pending_files()[0].name
            + "\""
    );
    assert_eq!(
        shell.run(debug(DebugAction::New { problem: "P".to_string() })).unwrap(),
        "Started debug handoff: P\nUse 'xas debug symptom', 'xas debug tried', etc. to add details."
    );
    let said = |shell: &mut Shell, action: DebugAction| shell.run(debug(action)).unwrap();
    assert_eq!(said(&mut shell, DebugAction::Hypothesis { theory: "t".to_string(), likelihood: "LOW".to_string() }), "Added hypothesis: t");
    assert_eq!(said(&mut shell, DebugAction::Evidence { content: "c".to_string(), kind: "log".to_string() }), "Added evidence.");
    assert_eq!(said(&mut shell, DebugAction::Suspect { path: "p".to_string(), reason: "r".to_string() }), "Added suspect file: p");
    assert_eq!(said(&mut shell, DebugAction::Repro { steps: "s".to_string() }), "Set reproduction steps.");
    assert_eq!(said(&mut shell, DebugAction::TryNext { next: "n".to_string() }), "Set next step: n");
    assert_eq!(said(&mut shell, DebugAction::Tried { what: "w".to_string(), result: "r".to_string(), outcome: "worse".to_string() }), "Recorded attempt: w");
    let wip = shell.wip().unwrap().unwrap();
    let ctx = wip.mode.as_debug().unwrap();
    assert_eq!(ctx.hypotheses[0].likelihood, Likelihood::Low);
    assert_eq!(ctx.attempted[0].outcome, AttemptOutcome::MadeWorse);
    assert_eq!(wip.summary, "P");
    assert_eq!(ctx.problem_statement, "P");
    shell.run(debug(DebugAction::Done)).unwrap();
    assert_eq!(
        shell.run(plan(PlanAction::New { goal: "G".to_string() })).unwrap(),
        "Started plan handoff: G\nUse 'xas plan require', 'xas plan decided', etc. to add details."
    );
    let said = |shell: &mut Shell, action: PlanAction| shell.run(plan(action)).unwrap();
    assert_eq!(said(&mut shell, PlanAction::Question { question: "q".to_string(), importance: "i".to_string(), blocking: true }), "Added question (blocking): q");
    assert_eq!(said(&mut shell, PlanAction::Question { question: "q".to_string(), importance: "i".to_string(), blocking: false }), "Added question: q");
    assert_eq!(said(&mut shell, PlanAction::Constraint { constraint: "c".to_string() }), "Added constraint: c");
    assert_eq!(said(&mut shell, PlanAction::NextStep { step: "s".to_string() }), "Added next step: s");
    assert_eq!(said(&mut shell, PlanAction::Rejected { option: "o".to_string(), reason: "r".to_string() }), "Recorded rejected option: o");
    assert_eq!(said(&mut shell, PlanAction::Require { requirement: "r".to_string(), priority: "whenever".to_string() }), "Added requirement: r");
    let wip = shell.wip().unwrap().unwrap();
    assert_eq!(wip.mode.as_plan().unwrap().requirements[0].priority, Priority::Should);
    assert!(wip.mode.as_plan().unwrap().open_questions[0].blocking);
}

#[test]
fn finalizing_sends_and_clears() {
    let mut shell = Shell::ready();
    shell.run(debug(DebugAction::New { problem: "X".to_string() })).unwrap();
    shell.run(debug(DebugAction::Symptom { symptom: "Y".to_string() })).unwrap();
    let staged = shell.wip().unwrap().unwrap();
    shell.run(debug(DebugAction::Done)).unwrap();
    assert!(shell.store.wip().is_none());
    let pending = shell.pending();
    assert_eq!(pending.len(), 1);
    assert_eq!(pending[0].id, staged.id);
    assert_eq!(pending[0].mode.kind(), "debug");
    let prompt = pending[0].compile_prompt();
    assert!(prompt.contains("X") && prompt.contains("Y"));
    assert_eq!(shell.store.commit_count(), 0);
}

fn request(mode: HandoffModeArg, summary: &str) -> Commands {
    Commands::Handoff {
        mode,
        summary: summary.to_string(),
        priority_files: Vec::new(),
        must_know: Vec::new(),
        suggest_start: None,
        commit: None,
        branch: None,
        pr: None,
        tags: None,
        interactive: false,
    }
}

#[test]
fn a_handoff_is_composed_in_one_go() {
    let mut shell = Shell::ready();
    let stdout = shell
        .run(Commands::Handoff {
            mode: HandoffModeArg::Debug,
            summary: "Login fails".to_string(),
            priority_files: vec!["a.rs".to_string(), "b.rs".to_string()],
            must_know: vec!["async".to_string()],
            suggest_start: Some("read a.rs".to_string()),
            commit: None,
            branch: Some("fix/login".to_string()),
            pr: Some("42".to_string()),
            tags: Some(" auth , urgent,,x ".to_string()),
            interactive: false,
        })
        .unwrap();
    let pending = shell.pending();
    assert_eq!(pending.len(), 1);
    let h = &pending[0];
    assert_eq!(h.summary, "Login fails");
    assert_eq!(h.created_by, "test-agent");
    assert_eq!(h.mode.as_debug().unwrap().problem_statement, "Login fails");
    assert_eq!(h.warm_up.tldr, "Login fails");
    assert_eq!(h.warm_up.must_know, vec!["async".to_string()]);
    assert_eq!(h.warm_up.suggested_start, Some("read a.rs".to_string()));
    assert_eq!(h.warm_up.priority_files.len(), 2);
    assert_eq!(h.warm_up.priority_files[0].path, "a.rs");
    assert_eq!(h.warm_up.priority_files[0].reason, "Priority file");
    assert_eq!(h.warm_up.priority_files[0].rank, 1);
    assert_eq!(h.warm_up.priority_files[1].rank, 2);
    let git = h.git_ref.as_ref().unwrap();
    assert_eq!(git.ref_type, GitRefType::Branch);
    assert_eq!(git.value, "fix/login");
    assert_eq!(h.tags, vec!["auth".to_string(), "urgent".to_string(), "".to_string(), "x".to_string()]);
    let name = &shell.store.pending_files()[0].name;
    let id = uuid::Uuid::from_u128(h.id).to_string();
    assert_eq!(
        stdout,
        format!(
            "Handoff created: {}\n  Mode: debug\n  Summary: Login fails\n  Written to: \"./pending/{}\"",
            id, name
        )
    );
    assert!(name.ends_with(&format!("_{}.json", &id[..8])));
}

#[test]
fn a_composed_handoff_takes_the_current_commit() {
    let mut shell = Shell::under_version_control();
    shell.run(Commands::Whoami { set: Some("w".to_string()) }).unwrap();
    shell.run(request(HandoffModeArg::Plan, "goal")).unwrap();
    let pending = shell.pending();
    let git = pending[0].git_ref.as_ref().unwrap();
    assert_eq!(git.ref_type, GitRefType::Commit);
    assert_eq!(git.value, "01234567");
    assert_eq!(pending[0].mode.as_plan().unwrap().goal, "goal");
    assert_eq!(shell.store.commit_count(), 1);
    let mut plain = Shell::ready();
    plain.run(request(HandoffModeArg::Deploy, "s")).unwrap();
    assert!(plain.pending()[0].git_ref.is_none());
    assert!(plain.pending()[0].tags.is_empty());
    let mut nobody = Shell::new();
    assert!(matches!(
        nobody.run(request(HandoffModeArg::Deploy, "s")),
        Err(Error::AgentNotRegistered(_))
    ));
}

#[test]
fn ranks_follow_positions_as_far_as_eight_bits_go() {
    let mut shell = Shell::ready();
    let files: Vec<String> = (0..300).map(|i| format!("f{}", i)).collect();
    let mut command = request(HandoffModeArg::Deploy, "s");
    if let Commands::Handoff { priority_files, .. } = &mut command {
        *priority_files = files;
    }
    shell.run(command).unwrap();
    let pending = shell.pending();
    let ranks: Vec<u8> = pending[0].warm_up.priority_files.iter().map(|f| f.rank).collect();
    assert_eq!(ranks[0], 1);
    assert_eq!(ranks[254], 255);
    assert_eq!(ranks[255], 0);
    assert_eq!(ranks[299], 44);
}

#[test]
fn receive_lists_filters_and_archives() {
    let mut shell = Shell::ready();
    shell.run(request(HandoffModeArg::Deploy, "first")).unwrap();
    shell.run(request(HandoffModeArg::Plan, "second")).unwrap();
    let all = shell
        .run(Commands::Receive { prompt: false, mode: None, full: false, archive: false })
        .unwrap();
    assert!(all.starts_with("Found 2 handoff(s):\n\n["));
    assert!(all.contains("] "));
    assert!(all.contains(" - first\n  From: test-agent\n  Created: "));
    assert!(all.ends_with("\n\nUse --prompt to see the full compiled handoff prompt."));
    let plans = shell
        .run(Commands::Receive {
            prompt: false,
            mode: Some(HandoffModeArg::Plan),
            full: true,
            archive: false,
        })
        .unwrap();
    assert!(plans.starts_with("Found 1 handoff(s):\n\n[PLAN] "));
    assert!(plans.contains("  TL;DR: second\n\n"));
    assert!(!plans.contains("first"));
    let none = shell
        .run(Commands::Receive {
            prompt: true,
            mode: Some(HandoffModeArg::Debug),
            full: false,
            archive: false,
        })
        .unwrap();
    assert_eq!(none, "Found 0 handoff(s):\n\n");
    let prompts = shell
        .run(Commands::Receive {
            prompt: true,
            mode: Some(HandoffModeArg::Deploy),
            full: false,
            archive: true,
        })
        .unwrap();
    let rule = "\u{2550}".repeat(63);
    assert!(prompts.starts_with(&format!("Found 1 handoff(s):\n\n{}\n# Handoff: first\n\n", rule)));
    assert!(prompts.ends_with(&format!("\n{}\n\n  (archived)\n", rule)));
    assert_eq!(shell.pending().len(), 1);
    assert_eq!(shell.pending()[0].summary, "second");
    assert_eq!(shell.store.archive_files().len(), 1);
}

#[test]
fn status_shows_branch_pending_and_wip() {
    let mut shell = Shell::under_version_control();
    shell.run(Commands::Whoami { set: Some("w".to_string()) }).unwrap();
    shell.run(request(HandoffModeArg::Deploy, "sent")).unwrap();
    shell.run(debug(DebugAction::New { problem: "open".to_string() })).unwrap();
    let id = uuid::Uuid::from_u128(shell.pending()[0].id).to_string();
    assert_eq!(
        shell.run(Commands::Status).unwrap(),
        format!(
            "Identity: w\nBranch: main (01234567)\n\nPending handoffs: 1\n  [deploy] {} - sent\n\nWork in progress: [debug] open\n",
            &id[..8]
        )
    );
    let mut nobody = Shell::new();
    assert_eq!(
        nobody.run(Commands::Status).unwrap(),
        "Identity: (not set)\n\nNo pending handoffs.\n"
    );
}

#[test]
fn sync_fetches_then_commits() {
    let mut shell = Shell::under_version_control();
    assert_eq!(
        shell.run(Commands::Sync { pull_only: false }).unwrap(),
        "Pulling latest...\nCommitting local changes...\nDone."
    );
    assert_eq!(shell.store.commit_count(), 1);
    assert_eq!(shell.run(Commands::Sync { pull_only: true }).unwrap(), "Pulling latest...\nDone.");
    assert_eq!(shell.store.commit_count(), 1);
    let mut plain = Shell::new();
    plain.run(Commands::Sync { pull_only: false }).unwrap();
    assert_eq!(plain.store.commit_count(), 0);
    assert_eq!(sync(&plain.manager, false).actions.len(), 0);
    assert_eq!(sync(&shell.manager, false).actions.len(), 2);
    assert_eq!(sync(&shell.manager, true).actions.len(), 1);
}

#[test]
fn mode_arguments_name_their_mode() {
    assert_eq!(HandoffModeArg::Deploy.label(), "deploy");
    assert_eq!(HandoffModeArg::Debug.label(), "debug");
    assert_eq!(HandoffModeArg::Plan.label(), "plan");
}
