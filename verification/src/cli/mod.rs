//! The command line: its commands as plain values, and what each command
//! decides. Reading arguments and performing what was decided are the
//! caller's.

pub mod compose;
pub mod report;
pub mod wip;

use crate::error::{Error, ErrorView};
use crate::handoff::HandoffMode;
use crate::handoff::mode::HandoffModeView;
use vstd::prelude::*;

verus! {

/// A mode as named on the command line.
#[derive(Debug, Clone, Copy, PartialEq, Eq, Structural)]
pub enum HandoffModeArg {
    /// Deployment.
    Deploy,
    /// Troubleshooting.
    Debug,
    /// Planning.
    Plan,
}

impl HandoffModeArg {
    /// The name of the mode: `deploy`, `debug` or `plan`.
    pub open spec fn label_text(self) -> Seq<char> {
        match self {
            HandoffModeArg::Deploy => "deploy"@,
            HandoffModeArg::Debug => "debug"@,
            HandoffModeArg::Plan => "plan"@,
        }
    }

    /// The name of the mode.
    pub fn label(&self) -> (r: &'static str)
        ensures
            r@ == self.label_text(),
    {
        match self {
            HandoffModeArg::Deploy => "deploy",
            HandoffModeArg::Debug => "debug",
            HandoffModeArg::Plan => "plan",
        }
    }

    /// Whether a handoff mode is of this kind.
    pub open spec fn admits(self, mode: HandoffModeView) -> bool {
        match self {
            HandoffModeArg::Deploy => mode is Deploy,
            HandoffModeArg::Debug => mode is Debug,
            HandoffModeArg::Plan => mode is Plan,
        }
    }

    /// Whether a handoff mode is of this kind.
    pub fn matches(&self, mode: &HandoffMode) -> (r: bool)
        ensures
            r == self.admits(mode@),
    {
        match (self, mode) {
            (HandoffModeArg::Deploy, HandoffMode::Deploy(_)) => true,
            (HandoffModeArg::Debug, HandoffMode::Debug(_)) => true,
            (HandoffModeArg::Plan, HandoffMode::Plan(_)) => true,
            _ => false,
        }
    }
}

/// What `deploy` can be asked to do.
#[derive(Debug, Clone)]
pub enum DeployAction {
    /// Start a new deploy handoff.
    New { summary: String },
    /// Add something to ship; described by its own name where no
    /// description is given.
    Ship { item: String, description: Option<String> },
    /// Add a verification step.
    Verify { step: String },
    /// Set the rollback plan.
    Rollback { plan: String },
    /// Add an environment concern.
    EnvConcern { env: String, concern: String },
    /// Add a breaking change.
    Breaking { what: String, affects: String },
    /// Finalize the handoff.
    Done,
}

/// What `debug` can be asked to do.
#[derive(Debug, Clone)]
pub enum DebugAction {
    /// Start a new debug handoff with its problem statement.
    New { problem: String },
    /// Add a symptom.
    Symptom { symptom: String },
    /// Add a hypothesis with its likelihood as free text.
    Hypothesis { theory: String, likelihood: String },
    /// Record something that was tried, with its outcome as free text.
    Tried { what: String, result: String, outcome: String },
    /// Add evidence, with its kind as free text.
    Evidence { content: String, kind: String },
    /// Add a suspected file.
    Suspect { path: String, reason: String },
    /// Set the reproduction steps.
    Repro { steps: String },
    /// Set what to try next.
    TryNext { next: String },
    /// Finalize the handoff.
    Done,
}

/// What `plan` can be asked to do.
#[derive(Debug, Clone)]
pub enum PlanAction {
    /// Start a new plan handoff with its goal.
    New { goal: String },
    /// Add a requirement, with its priority as free text.
    Require { requirement: String, priority: String },
    /// Record a decision.
    Decided { decision: String, why: String },
    /// Record a rejected option.
    Rejected { option: String, reason: String },
    /// Add an open question.
    Question { question: String, importance: String, blocking: bool },
    /// Add a constraint.
    Constraint { constraint: String },
    /// Add a next step.
    NextStep { step: String },
    /// Finalize the handoff.
    Done,
}

/// The commands.
#[derive(Debug, Clone)]
pub enum Commands {
    /// Initialize a sync directory.
    Init { path: String },
    /// Create a handoff in one go.
    Handoff {
        mode: HandoffModeArg,
        summary: String,
        priority_files: Vec<String>,
        must_know: Vec<String>,
        suggest_start: Option<String>,
        commit: Option<String>,
        branch: Option<String>,
        pr: Option<String>,
        tags: Option<String>,
        interactive: bool,
    },
    /// Show pending handoffs.
    Receive { prompt: bool, mode: Option<HandoffModeArg>, full: bool, archive: bool },
    /// Show or set the identity.
    Whoami { set: Option<String> },
    /// Show the state of the store.
    Status,
    /// Deploy mode helpers.
    Deploy { action: DeployAction },
    /// Debug mode helpers.
    Debug { action: DebugAction },
    /// Plan mode helpers.
    Plan { action: PlanAction },
    /// Fetch, and commit unless told to pull only.
    Sync { pull_only: bool },
}

/// A command line as read.
#[derive(Debug, Clone)]
pub struct Cli {
    /// Path to the sync directory.
    pub sync_dir: String,
    /// Verbose output.
    pub verbose: bool,
    /// The command to run.
    pub command: Commands,
}

/// The key of the state entry that holds the identity.
pub open spec fn identity_key() -> Seq<char> {
    "current_agent"@
}

/// The detail of the condition raised where an identity is needed and none
/// is set.
pub open spec fn no_identity_detail() -> Seq<char> {
    "No identity set. Use 'xas whoami --set <name>'"@
}

/// The identity to act under. `entry` is what the identity's state entry
/// holds, if it exists. Fails where it does not.
pub fn get_current_agent(entry: Option<String>) -> (r: Result<String, Error>)
    ensures
        match entry {
            Some(who) => r == Ok::<String, Error>(who),
            None => r matches Err(e) && e@ == ErrorView::AgentNotRegistered(no_identity_detail()),
        },
{
    match entry {
        Some(who) => Ok(who),
        None => Err(
            Error::AgentNotRegistered("No identity set. Use 'xas whoami --set <name>'".to_owned()),
        ),
    }
}

} // verus!
