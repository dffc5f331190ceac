//! The three modes of a handoff: deploy, debug, plan.

use crate::error::{Error, ErrorView};
use crate::handoff::debug::{debug_section, DebugContext, DebugContextView};
use crate::handoff::deploy::{deploy_section, DeployContext, DeployContextView};
use crate::handoff::plan::{plan_section, PlanContext, PlanContextView};
use crate::text::{lowercased, same_text, to_lowercase};
use vstd::prelude::*;
use vstd::string::StringExecFns;

verus! {

/// The mode of a handoff with its context. Exactly one context is active.
#[derive(Debug, Clone)]
pub enum HandoffMode {
    /// Deployment: what to ship, verification, rollback, environment
    /// concerns.
    Deploy(DeployContext),
    /// Troubleshooting: problem statement, hypotheses, evidence, what was
    /// tried.
    Debug(DebugContext),
    /// Planning: requirements, decisions, rejected options, open questions.
    Plan(PlanContext),
}

/// What a handoff mode holds, as mathematical values.
pub enum HandoffModeView {
    Deploy(DeployContextView),
    Debug(DebugContextView),
    Plan(PlanContextView),
}

impl View for HandoffMode {
    type V = HandoffModeView;

    open spec fn view(&self) -> HandoffModeView {
        match self {
            HandoffMode::Deploy(c) => HandoffModeView::Deploy(c@),
            HandoffMode::Debug(c) => HandoffModeView::Debug(c@),
            HandoffMode::Plan(c) => HandoffModeView::Plan(c@),
        }
    }
}

impl HandoffModeView {
    /// The kind of the mode: `deploy`, `debug` or `plan`.
    pub open spec fn kind(self) -> Seq<char> {
        match self {
            HandoffModeView::Deploy(_) => "deploy"@,
            HandoffModeView::Debug(_) => "debug"@,
            HandoffModeView::Plan(_) => "plan"@,
        }
    }

    /// The rendered section of the active context.
    pub open spec fn section(self) -> Seq<char> {
        match self {
            HandoffModeView::Deploy(c) => deploy_section(c),
            HandoffModeView::Debug(c) => debug_section(c),
            HandoffModeView::Plan(c) => plan_section(c),
        }
    }
}

/// The problem statement of a debug mode made from a bare mode name.
pub open spec fn unspecified_problem() -> Seq<char> {
    "(problem not specified)"@
}

/// The goal of a plan mode made from a bare mode name.
pub open spec fn unspecified_goal() -> Seq<char> {
    "(goal not specified)"@
}

/// The mode that a lower-case name stands for, each with an empty context:
/// `deploy`, `deployment` and `ship`; `debug`, `troubleshoot` and `fix`;
/// `plan`, `planning` and `design`. No other name stands for a mode.
pub open spec fn mode_of_token(token: Seq<char>) -> Option<HandoffModeView> {
    if token == "deploy"@ || token == "deployment"@ || token == "ship"@ {
        Some(HandoffModeView::Deploy(DeployContextView::empty()))
    } else if token == "debug"@ || token == "troubleshoot"@ || token == "fix"@ {
        Some(HandoffModeView::Debug(DebugContextView::fresh(unspecified_problem())))
    } else if token == "plan"@ || token == "planning"@ || token == "design"@ {
        Some(HandoffModeView::Plan(PlanContextView::fresh(unspecified_goal())))
    } else {
        None
    }
}

/// The complaint about a name that stands for no mode.
pub open spec fn unknown_mode_text(name: Seq<char>) -> Seq<char> {
    "Unknown mode: "@ + name + ". Use deploy, debug, or plan."@
}

impl HandoffMode {
    /// The kind of the mode: `deploy`, `debug` or `plan`.
    pub fn kind(&self) -> (r: &'static str)
        ensures
            r@ == self@.kind(),
    {
        match self {
            HandoffMode::Deploy(_) => "deploy",
            HandoffMode::Debug(_) => "debug",
            HandoffMode::Plan(_) => "plan",
        }
    }

    /// Deploy mode with nothing recorded.
    pub fn deploy() -> (r: Self)
        ensures
            r@ == HandoffModeView::Deploy(DeployContextView::empty()),
    {
        HandoffMode::Deploy(DeployContext::default())
    }

    /// Debug mode for a problem, with nothing else recorded.
    pub fn debug(problem: &str) -> (r: Self)
        ensures
            r@ == HandoffModeView::Debug(DebugContextView::fresh(problem@)),
    {
        HandoffMode::Debug(DebugContext::new(problem))
    }

    /// Plan mode for a goal, with nothing else recorded.
    pub fn plan(goal: &str) -> (r: Self)
        ensures
            r@ == HandoffModeView::Plan(PlanContextView::fresh(goal@)),
    {
        HandoffMode::Plan(PlanContext::new(goal))
    }

    /// Renders the active context as a section of the briefing.
    pub fn compile_section(&self) -> (r: String)
        ensures
            r@ == self@.section(),
    {
        match self {
            HandoffMode::Deploy(ctx) => ctx.compile(),
            HandoffMode::Debug(ctx) => ctx.compile(),
            HandoffMode::Plan(ctx) => ctx.compile(),
        }
    }

    /// The deploy context, if this is deploy mode.
    pub fn as_deploy(&self) -> (r: Option<&DeployContext>)
        ensures
            match r {
                Some(ctx) => *self == HandoffMode::Deploy(*ctx),
                None => !(self is Deploy),
            },
    {
        match self {
            HandoffMode::Deploy(ctx) => Some(ctx),
            _ => None,
        }
    }

    /// The deploy context for changing, if this is deploy mode. The mode
    /// afterwards holds whatever the context was changed to.
    pub fn as_deploy_mut(&mut self) -> (r: Option<&mut DeployContext>)
        ensures
            match r {
                Some(ctx) => *old(self) == HandoffMode::Deploy(*ctx) && *final(self)
                    == HandoffMode::Deploy(*final(ctx)),
                None => !(*old(self) is Deploy) && *final(self) == *old(self),
            },
    {
        match self {
            HandoffMode::Deploy(ctx) => Some(ctx),
            _ => None,
        }
    }

    /// The debug context, if this is debug mode.
    pub fn as_debug(&self) -> (r: Option<&DebugContext>)
        ensures
            match r {
                Some(ctx) => *self == HandoffMode::Debug(*ctx),
                None => !(self is Debug),
            },
    {
        match self {
            HandoffMode::Debug(ctx) => Some(ctx),
            _ => None,
        }
    }

    /// The debug context for changing, if this is debug mode. The mode
    /// afterwards holds whatever the context was changed to.
    pub fn as_debug_mut(&mut self) -> (r: Option<&mut DebugContext>)
        ensures
            match r {
                Some(ctx) => *old(self) == HandoffMode::Debug(*ctx) && *final(self)
                    == HandoffMode::Debug(*final(ctx)),
                None => !(*old(self) is Debug) && *final(self) == *old(self),
            },
    {
        match self {
            HandoffMode::Debug(ctx) => Some(ctx),
            _ => None,
        }
    }

    /// The plan context, if this is plan mode.
    pub fn as_plan(&self) -> (r: Option<&PlanContext>)
        ensures
            match r {
                Some(ctx) => *self == HandoffMode::Plan(*ctx),
                None => !(self is Plan),
            },
    {
        match self {
            HandoffMode::Plan(ctx) => Some(ctx),
            _ => None,
        }
    }

    /// The plan context for changing, if this is plan mode. The mode
    /// afterwards holds whatever the context was changed to.
    pub fn as_plan_mut(&mut self) -> (r: Option<&mut PlanContext>)
        ensures
            match r {
                Some(ctx) => *old(self) == HandoffMode::Plan(*ctx) && *final(self)
                    == HandoffMode::Plan(*final(ctx)),
                None => !(*old(self) is Plan) && *final(self) == *old(self),
            },
    {
        match self {
            HandoffMode::Plan(ctx) => Some(ctx),
            _ => None,
        }
    }

    /// Reads a lower-case mode name. `name` is the text as it was given, for
    /// the complaint.
    pub fn from_token(token: &str, name: &str) -> (r: Result<HandoffMode, String>)
        ensures
            match r {
                Ok(mode) => mode_of_token(token@) == Some(mode@),
                Err(complaint) => mode_of_token(token@) is None && complaint@
                    == unknown_mode_text(name@),
            },
    {
        if same_text(token, "deploy") || same_text(token, "deployment") || same_text(
            token,
            "ship",
        ) {
            Ok(HandoffMode::deploy())
        } else if same_text(token, "debug") || same_text(token, "troubleshoot") || same_text(
            token,
            "fix",
        ) {
            Ok(HandoffMode::debug("(problem not specified)"))
        } else if same_text(token, "plan") || same_text(token, "planning") || same_text(
            token,
            "design",
        ) {
            Ok(HandoffMode::plan("(goal not specified)"))
        } else {
            let mut complaint = String::new();
            complaint.append("Unknown mode: ");
            complaint.append(name);
            complaint.append(". Use deploy, debug, or plan.");
            assert(complaint@ =~= unknown_mode_text(name@));
            Err(complaint)
        }
    }

    /// Reads a mode name, whatever its case.
    pub fn from_str(s: &str) -> (r: Result<HandoffMode, String>)
        ensures
            match r {
                Ok(mode) => mode_of_token(lowercased(s@)) == Some(mode@),
                Err(complaint) => mode_of_token(lowercased(s@)) is None && complaint@
                    == unknown_mode_text(s@),
            },
    {
        let token = to_lowercase(s);
        HandoffMode::from_token(token.as_str(), s)
    }
}

impl HandoffMode {
    /// Reads a mode name given at a boundary, whatever its case. A name
    /// that stands for no mode is the condition of an invalid mode, with
    /// the name as given.
    pub fn parse(name: &str) -> (r: Result<HandoffMode, Error>)
        ensures
            match r {
                Ok(mode) => mode_of_token(lowercased(name@)) == Some(mode@),
                Err(e) => mode_of_token(lowercased(name@)) is None && e@
                    == ErrorView::InvalidMode(name@),
            },
    {
        match HandoffMode::from_str(name) {
            Ok(mode) => Ok(mode),
            Err(_) => Err(Error::InvalidMode(name.to_owned())),
        }
    }
}

/// Compiling is a function of what a mode holds: two modes that hold the
/// same compile to the same text, character for character, however often
/// they are compiled.
pub proof fn lemma_compile_deterministic(a: HandoffMode, b: HandoffMode)
    requires
        a@ == b@,
    ensures
        a@.section() == b@.section(),
{
}

} // verus!
