//! The mode commands: each starts a handoff in progress, adds a detail to
//! the one staged, or finalizes it.

use crate::cli::{get_current_agent, no_identity_detail, DebugAction, DeployAction, PlanAction};
use crate::error::{Error, ErrorView};
use crate::handoff::{Handoff, HandoffMode, HandoffView};
use crate::handoff::debug::{
    AttemptOutcome, AttemptView, DebugContext, DebugContextView, EvidenceKind, EvidenceView,
    HypothesisView, Likelihood, SuspectedFileView,
};
use crate::handoff::deploy::{
    BreakingChangeView, Confidence, DeployContext, DeployContextView, EnvConcernView, ShipItemView,
};
use crate::handoff::mode::HandoffModeView;
use crate::handoff::plan::{
    ConstraintView, DecisionView, OpenQuestionView, PlanContext, PlanContextView, Priority,
    RejectedOptionView, RequirementView,
};
use crate::text::{lowercased};
use vstd::prelude::*;
use vstd::string::StringExecFns;

verus! {

/// What to do with the handoff in progress after a mode command.
#[derive(Debug, Clone)]
pub enum WipStep {
    /// Stage it: save it to the work-in-progress slot.
    Stage(Handoff),
    /// Finalize it: send it to the pending region, then clear the slot.
    Finalize(Handoff),
}

/// The outcome of a mode command: the step to take, and what to tell the
/// user once it is taken. Finalizing has nothing to tell here: its report
/// names the path written, which the sending gives.
#[derive(Debug, Clone)]
pub struct WipOutcome {
    pub step: WipStep,
    pub report: String,
}

/// A deploy context after an action: the detail added. Starting and
/// finalizing add none.
pub open spec fn deploy_applied(c: DeployContextView, action: DeployAction) -> DeployContextView {
    match action {
        DeployAction::Ship { item, description } => DeployContextView {
            what_to_ship: c.what_to_ship.push(
                ShipItemView {
                    item: item@,
                    description: match description {
                        Some(d) => d@,
                        None => item@,
                    },
                    confidence: Confidence::Medium,
                },
            ),
            ..c
        },
        DeployAction::Verify { step } => DeployContextView {
            verification_steps: c.verification_steps.push(step@),
            ..c
        },
        DeployAction::Rollback { plan } => DeployContextView { rollback_plan: Some(plan@), ..c },
        DeployAction::EnvConcern { env, concern } => DeployContextView {
            env_concerns: c.env_concerns.push(
                EnvConcernView { environment: env@, concern: concern@, mitigation: None },
            ),
            ..c
        },
        DeployAction::Breaking { what, affects } => DeployContextView {
            breaking_changes: c.breaking_changes.push(
                BreakingChangeView { what: what@, affects: affects@, migration: None },
            ),
            ..c
        },
        DeployAction::New { .. } => c,
        DeployAction::Done => c,
    }
}

/// What a deploy action reports.
pub open spec fn deploy_report(action: DeployAction) -> Seq<char> {
    match action {
        DeployAction::New { summary } => "Started deploy handoff: "@ + summary@
            + "\nUse 'xas deploy ship', 'xas deploy verify', etc. to add details.\nUse 'xas deploy done' to finalize."@,
        DeployAction::Ship { item, .. } => "Added to ship: "@ + item@,
        DeployAction::Verify { step } => "Added verification step: "@ + step@,
        DeployAction::Rollback { .. } => "Set rollback plan."@,
        DeployAction::EnvConcern { env, concern } => "Added "@ + env@ + " concern: "@ + concern@,
        DeployAction::Breaking { what, affects } => "Added breaking change: "@ + what@
            + " affects "@ + affects@,
        DeployAction::Done => Seq::empty(),
    }
}

/// A debug context after an action: the detail added, free-text levels
/// read leniently. Starting and finalizing add none.
pub open spec fn debug_applied(c: DebugContextView, action: DebugAction) -> DebugContextView {
    match action {
        DebugAction::Symptom { symptom } => DebugContextView {
            symptoms: c.symptoms.push(symptom@),
            ..c
        },
        DebugAction::Hypothesis { theory, likelihood } => DebugContextView {
            hypotheses: c.hypotheses.push(
                HypothesisView {
                    theory: theory@,
                    support: Seq::empty(),
                    against: Seq::empty(),
                    likelihood: Likelihood::of_token(lowercased(likelihood@)),
                },
            ),
            ..c
        },
        DebugAction::Tried { what, result, outcome } => DebugContextView {
            attempted: c.attempted.push(
                AttemptView {
                    what: what@,
                    result: result@,
                    outcome: AttemptOutcome::of_token(lowercased(outcome@)),
                },
            ),
            ..c
        },
        DebugAction::Evidence { content, kind } => DebugContextView {
            evidence: c.evidence.push(
                EvidenceView {
                    kind: EvidenceKind::of_token(lowercased(kind@)),
                    content: content@,
                    source: None,
                    timestamp: None,
                },
            ),
            ..c
        },
        DebugAction::Suspect { path, reason } => DebugContextView {
            suspected_files: c.suspected_files.push(
                SuspectedFileView {
                    path: path@,
                    reason: reason@,
                    lines: None,
                    confidence: Likelihood::Medium,
                },
            ),
            ..c
        },
        DebugAction::Repro { steps } => DebugContextView { reproduction_steps: Some(steps@), ..c },
        DebugAction::TryNext { next } => DebugContextView { next_to_try: Some(next@), ..c },
        DebugAction::New { .. } => c,
        DebugAction::Done => c,
    }
}

/// What a debug action reports.
pub open spec fn debug_report(action: DebugAction) -> Seq<char> {
    match action {
        DebugAction::New { problem } => "Started debug handoff: "@ + problem@
            + "\nUse 'xas debug symptom', 'xas debug tried', etc. to add details."@,
        DebugAction::Symptom { symptom } => "Added symptom: "@ + symptom@,
        DebugAction::Hypothesis { theory, .. } => "Added hypothesis: "@ + theory@,
        DebugAction::Tried { what, .. } => "Recorded attempt: "@ + what@,
        DebugAction::Evidence { .. } => "Added evidence."@,
        DebugAction::Suspect { path, .. } => "Added suspect file: "@ + path@,
        DebugAction::Repro { .. } => "Set reproduction steps."@,
        DebugAction::TryNext { next } => "Set next step: "@ + next@,
        DebugAction::Done => Seq::empty(),
    }
}

/// A plan context after an action: the detail added, the priority read
/// leniently. Starting and finalizing add none.
pub open spec fn plan_applied(c: PlanContextView, action: PlanAction) -> PlanContextView {
    match action {
        PlanAction::Require { requirement, priority } => PlanContextView {
            requirements: c.requirements.push(
                RequirementView {
                    description: requirement@,
                    priority: Priority::of_token(lowercased(priority@)),
                    source: None,
                    confirmed: false,
                },
            ),
            ..c
        },
        PlanAction::Decided { decision, why } => PlanContextView {
            decisions: c.decisions.push(
                DecisionView {
                    decision: decision@,
                    rationale: why@,
                    context: None,
                    reversible: true,
                },
            ),
            ..c
        },
        PlanAction::Rejected { option, reason } => PlanContextView {
            rejected_options: c.rejected_options.push(
                RejectedOptionView { option: option@, reason: reason@, reconsiderable: true },
            ),
            ..c
        },
        PlanAction::Question { question, importance, blocking } => PlanContextView {
            open_questions: c.open_questions.push(
                OpenQuestionView {
                    question: question@,
                    importance: importance@,
                    ask_who: None,
                    blocking,
                },
            ),
            ..c
        },
        PlanAction::Constraint { constraint } => PlanContextView {
            constraints: c.constraints.push(
                ConstraintView { constraint: constraint@, reason: None, negotiable: false },
            ),
            ..c
        },
        PlanAction::NextStep { step } => PlanContextView {
            next_steps: c.next_steps.push(step@),
            ..c
        },
        PlanAction::New { .. } => c,
        PlanAction::Done => c,
    }
}

/// What a plan action reports.
pub open spec fn plan_report(action: PlanAction) -> Seq<char> {
    match action {
        PlanAction::New { goal } => "Started plan handoff: "@ + goal@
            + "\nUse 'xas plan require', 'xas plan decided', etc. to add details."@,
        PlanAction::Require { requirement, .. } => "Added requirement: "@ + requirement@,
        PlanAction::Decided { decision, .. } => "Recorded decision: "@ + decision@,
        PlanAction::Rejected { option, .. } => "Recorded rejected option: "@ + option@,
        PlanAction::Question { question, blocking, .. } => "Added question"@ + (if blocking {
            " (blocking)"@
        } else {
            Seq::empty()
        }) + ": "@ + question@,
        PlanAction::Constraint { constraint } => "Added constraint: "@ + constraint@,
        PlanAction::NextStep { step } => "Added next step: "@ + step@,
        PlanAction::Done => Seq::empty(),
    }
}

/// A mode after a deploy action: its context changed where the mode is
/// deploy; a mode of another kind is left as it is.
pub open spec fn mode_after_deploy(mode: HandoffModeView, action: DeployAction) -> HandoffModeView {
    match mode {
        HandoffModeView::Deploy(c) => HandoffModeView::Deploy(deploy_applied(c, action)),
        other => other,
    }
}

/// A mode after a debug action: its context changed where the mode is
/// debug; a mode of another kind is left as it is.
pub open spec fn mode_after_debug(mode: HandoffModeView, action: DebugAction) -> HandoffModeView {
    match mode {
        HandoffModeView::Debug(c) => HandoffModeView::Debug(debug_applied(c, action)),
        other => other,
    }
}

/// A mode after a plan action: its context changed where the mode is plan;
/// a mode of another kind is left as it is.
pub open spec fn mode_after_plan(mode: HandoffModeView, action: PlanAction) -> HandoffModeView {
    match mode {
        HandoffModeView::Plan(c) => HandoffModeView::Plan(plan_applied(c, action)),
        other => other,
    }
}

fn concat2(a: &str, b: &str) -> (r: String)
    ensures
        r@ == a@ + b@,
{
    let mut r = a.to_owned();
    r.append(b);
    r
}

fn render_deploy_report(action: &DeployAction) -> (r: String)
    ensures
        r@ == deploy_report(*action),
{
    match action {
        DeployAction::New { summary } => {
            let mut r = concat2("Started deploy handoff: ", summary.as_str());
            r.append(
                "\nUse 'xas deploy ship', 'xas deploy verify', etc. to add details.\nUse 'xas deploy done' to finalize.",
            );
            r
        },
        DeployAction::Ship { item, .. } => concat2("Added to ship: ", item.as_str()),
        DeployAction::Verify { step } => concat2("Added verification step: ", step.as_str()),
        DeployAction::Rollback { .. } => "Set rollback plan.".to_owned(),
        DeployAction::EnvConcern { env, concern } => {
            let mut r = concat2("Added ", env.as_str());
            r.append(" concern: ");
            r.append(concern.as_str());
            r
        },
        DeployAction::Breaking { what, affects } => {
            let mut r = concat2("Added breaking change: ", what.as_str());
            r.append(" affects ");
            r.append(affects.as_str());
            r
        },
        DeployAction::Done => String::new(),
    }
}

fn render_debug_report(action: &DebugAction) -> (r: String)
    ensures
        r@ == debug_report(*action),
{
    match action {
        DebugAction::New { problem } => {
            let mut r = concat2("Started debug handoff: ", problem.as_str());
            r.append("\nUse 'xas debug symptom', 'xas debug tried', etc. to add details.");
            r
        },
        DebugAction::Symptom { symptom } => concat2("Added symptom: ", symptom.as_str()),
        DebugAction::Hypothesis { theory, .. } => concat2("Added hypothesis: ", theory.as_str()),
        DebugAction::Tried { what, .. } => concat2("Recorded attempt: ", what.as_str()),
        DebugAction::Evidence { .. } => "Added evidence.".to_owned(),
        DebugAction::Suspect { path, .. } => concat2("Added suspect file: ", path.as_str()),
        DebugAction::Repro { .. } => "Set reproduction steps.".to_owned(),
        DebugAction::TryNext { next } => concat2("Set next step: ", next.as_str()),
        DebugAction::Done => String::new(),
    }
}

fn render_plan_report(action: &PlanAction) -> (r: String)
    ensures
        r@ == plan_report(*action),
{
    match action {
        PlanAction::New { goal } => {
            let mut r = concat2("Started plan handoff: ", goal.as_str());
            r.append("\nUse 'xas plan require', 'xas plan decided', etc. to add details.");
            r
        },
        PlanAction::Require { requirement, .. } => concat2(
            "Added requirement: ",
            requirement.as_str(),
        ),
        PlanAction::Decided { decision, .. } => concat2("Recorded decision: ", decision.as_str()),
        PlanAction::Rejected { option, .. } => concat2(
            "Recorded rejected option: ",
            option.as_str(),
        ),
        PlanAction::Question { question, blocking, .. } => {
            let mut r = "Added question".to_owned();
            if *blocking {
                r.append(" (blocking)");
            }
            let ghost head = r@;
            assert(head =~= "Added question"@ + (if *blocking {
                " (blocking)"@
            } else {
                Seq::empty()
            }));
            r.append(": ");
            r.append(question.as_str());
            r
        },
        PlanAction::Constraint { constraint } => concat2("Added constraint: ", constraint.as_str()),
        PlanAction::NextStep { step } => concat2("Added next step: ", step.as_str()),
        PlanAction::Done => String::new(),
    }
}

fn apply_deploy(ctx: DeployContext, action: &DeployAction) -> (r: DeployContext)
    ensures
        r@ == deploy_applied(ctx@, *action),
{
    match action {
        DeployAction::Ship { item, description } => match description {
            Some(d) => ctx.ship(item.as_str(), d.as_str()),
            None => ctx.ship(item.as_str(), item.as_str()),
        },
        DeployAction::Verify { step } => ctx.verify(step.as_str()),
        DeployAction::Rollback { plan } => ctx.rollback(plan.as_str()),
        DeployAction::EnvConcern { env, concern } => ctx.env_concern(
            env.as_str(),
            concern.as_str(),
        ),
        DeployAction::Breaking { what, affects } => ctx.breaking(what.as_str(), affects.as_str()),
        DeployAction::New { .. } => ctx,
        DeployAction::Done => ctx,
    }
}

fn apply_debug(ctx: DebugContext, action: &DebugAction) -> (r: DebugContext)
    ensures
        r@ == debug_applied(ctx@, *action),
{
    match action {
        DebugAction::Symptom { symptom } => ctx.symptom(symptom.as_str()),
        DebugAction::Hypothesis { theory, likelihood } => ctx.hypothesis(
            theory.as_str(),
            Likelihood::parse(likelihood.as_str()),
        ),
        DebugAction::Tried { what, result, outcome } => ctx.tried(
            what.as_str(),
            result.as_str(),
            AttemptOutcome::parse(outcome.as_str()),
        ),
        DebugAction::Evidence { content, kind } => ctx.evidence(
            EvidenceKind::parse(kind.as_str()),
            content.as_str(),
        ),
        DebugAction::Suspect { path, reason } => ctx.suspect_file(path.as_str(), reason.as_str()),
        DebugAction::Repro { steps } => ctx.repro(steps.as_str()),
        DebugAction::TryNext { next } => ctx.try_next(next.as_str()),
        DebugAction::New { .. } => ctx,
        DebugAction::Done => ctx,
    }
}

fn apply_plan(ctx: PlanContext, action: &PlanAction) -> (r: PlanContext)
    ensures
        r@ == plan_applied(ctx@, *action),
{
    match action {
        PlanAction::Require { requirement, priority } => ctx.requirement(
            requirement.as_str(),
            Priority::parse(priority.as_str()),
        ),
        PlanAction::Decided { decision, why } => ctx.decided(decision.as_str(), why.as_str()),
        PlanAction::Rejected { option, reason } => ctx.rejected(option.as_str(), reason.as_str()),
        PlanAction::Question { question, importance, blocking } => if *blocking {
            ctx.blocking_question(question.as_str(), importance.as_str())
        } else {
            ctx.question(question.as_str(), importance.as_str())
        },
        PlanAction::Constraint { constraint } => ctx.constraint(constraint.as_str()),
        PlanAction::NextStep { step } => ctx.next_step(step.as_str()),
        PlanAction::New { .. } => ctx,
        PlanAction::Done => ctx,
    }
}

/// Applies a deploy action to a handoff: to its context where its mode is
/// deploy, to nothing where it is not.
pub fn handoff_after_deploy(handoff: Handoff, action: &DeployAction) -> (r: Handoff)
    ensures
        r@ == (HandoffView { mode: mode_after_deploy(handoff@.mode, *action), ..handoff@ }),
{
    let Handoff { id, mode, created_by, created_at, summary, session, warm_up, git_ref, tags } =
        handoff;
    let mode = match mode {
        HandoffMode::Deploy(ctx) => HandoffMode::Deploy(apply_deploy(ctx, action)),
        other => other,
    };
    Handoff { id, mode, created_by, created_at, summary, session, warm_up, git_ref, tags }
}

/// Applies a debug action to a handoff: to its context where its mode is
/// debug, to nothing where it is not.
pub fn handoff_after_debug(handoff: Handoff, action: &DebugAction) -> (r: Handoff)
    ensures
        r@ == (HandoffView { mode: mode_after_debug(handoff@.mode, *action), ..handoff@ }),
{
    let Handoff { id, mode, created_by, created_at, summary, session, warm_up, git_ref, tags } =
        handoff;
    let mode = match mode {
        HandoffMode::Debug(ctx) => HandoffMode::Debug(apply_debug(ctx, action)),
        other => other,
    };
    Handoff { id, mode, created_by, created_at, summary, session, warm_up, git_ref, tags }
}

/// Applies a plan action to a handoff: to its context where its mode is
/// plan, to nothing where it is not.
pub fn handoff_after_plan(handoff: Handoff, action: &PlanAction) -> (r: Handoff)
    ensures
        r@ == (HandoffView { mode: mode_after_plan(handoff@.mode, *action), ..handoff@ }),
{
    let Handoff { id, mode, created_by, created_at, summary, session, warm_up, git_ref, tags } =
        handoff;
    let mode = match mode {
        HandoffMode::Plan(ctx) => HandoffMode::Plan(apply_plan(ctx, action)),
        other => other,
    };
    Handoff { id, mode, created_by, created_at, summary, session, warm_up, git_ref, tags }
}

/// Whether the step of an outcome is to stage a handoff that holds `h`.
pub open spec fn stages(outcome: WipOutcome, h: HandoffView) -> bool {
    outcome.step matches WipStep::Stage(next) && next@ == h
}

/// Whether a step is what a start under the identity `who` gives: staging
/// a handoff just created with this mode and summary.
pub open spec fn starts(
    outcome: WipOutcome,
    mode: HandoffModeView,
    summary: Seq<char>,
    who: Seq<char>,
) -> bool {
    outcome.step matches WipStep::Stage(h) && h@ == HandoffView::fresh(
        h@.id,
        h@.created_at,
        mode,
        summary,
        who,
    )
}

/// Runs a deploy command. `wip` is the handoff in progress, if any;
/// `identity` what the identity's state entry holds, if it exists.
///
/// Starting needs an identity and stages a new deploy handoff. Finalizing
/// needs a handoff in progress and hands it on unchanged. Every other
/// action needs one too, applies itself to it and stages the result.
pub fn deploy_step(action: DeployAction, wip: Option<Handoff>, identity: Option<String>) -> (r:
    Result<WipOutcome, Error>)
    ensures
        match action {
            DeployAction::New { summary } => match identity {
                Some(who) => r matches Ok(o) && starts(
                    o,
                    HandoffModeView::Deploy(DeployContextView::empty()),
                    summary@,
                    who@,
                ) && o.report@ == deploy_report(action),
                None => r matches Err(e) && e@ == ErrorView::AgentNotRegistered(
                    no_identity_detail(),
                ),
            },
            DeployAction::Done => match wip {
                Some(h) => r matches Ok(o) && o.step == WipStep::Finalize(h) && o.report@.len()
                    == 0,
                None => r matches Err(e) && e@ == ErrorView::NoActiveHandoff,
            },
            _ => match wip {
                Some(h) => r matches Ok(o) && o.report@ == deploy_report(action) && stages(
                    o,
                    HandoffView { mode: mode_after_deploy(h@.mode, action), ..h@ },
                ),
                None => r matches Err(e) && e@ == ErrorView::NoActiveHandoff,
            },
        },
{
    let report = render_deploy_report(&action);
    match &action {
        DeployAction::New { summary } => match get_current_agent(identity) {
            Ok(who) => {
                let handoff = Handoff::new(HandoffMode::deploy(), summary.as_str(), who.as_str());
                Ok(WipOutcome { step: WipStep::Stage(handoff), report })
            },
            Err(e) => Err(e),
        },
        DeployAction::Done => match wip {
            Some(h) => Ok(WipOutcome { step: WipStep::Finalize(h), report }),
            None => Err(Error::NoActiveHandoff),
        },
        _ => match wip {
            Some(h) => {
                let next = handoff_after_deploy(h, &action);
                Ok(WipOutcome { step: WipStep::Stage(next), report })
            },
            None => Err(Error::NoActiveHandoff),
        },
    }
}

/// Runs a debug command. `wip` is the handoff in progress, if any;
/// `identity` what the identity's state entry holds, if it exists.
///
/// Starting needs an identity and stages a new debug handoff whose problem
/// and summary are the problem given. Finalizing needs a handoff in
/// progress and hands it on unchanged. Every other action needs one too,
/// applies itself to it and stages the result.
pub fn debug_step(action: DebugAction, wip: Option<Handoff>, identity: Option<String>) -> (r:
    Result<WipOutcome, Error>)
    ensures
        match action {
            DebugAction::New { problem } => match identity {
                Some(who) => r matches Ok(o) && starts(
                    o,
                    HandoffModeView::Debug(DebugContextView::fresh(problem@)),
                    problem@,
                    who@,
                ) && o.report@ == debug_report(action),
                None => r matches Err(e) && e@ == ErrorView::AgentNotRegistered(
                    no_identity_detail(),
                ),
            },
            DebugAction::Done => match wip {
                Some(h) => r matches Ok(o) && o.step == WipStep::Finalize(h) && o.report@.len()
                    == 0,
                None => r matches Err(e) && e@ == ErrorView::NoActiveHandoff,
            },
            _ => match wip {
                Some(h) => r matches Ok(o) && o.report@ == debug_report(action) && stages(
                    o,
                    HandoffView { mode: mode_after_debug(h@.mode, action), ..h@ },
                ),
                None => r matches Err(e) && e@ == ErrorView::NoActiveHandoff,
            },
        },
{
    let report = render_debug_report(&action);
    match &action {
        DebugAction::New { problem } => match get_current_agent(identity) {
            Ok(who) => {
                let handoff = Handoff::new(
                    HandoffMode::debug(problem.as_str()),
                    problem.as_str(),
                    who.as_str(),
                );
                Ok(WipOutcome { step: WipStep::Stage(handoff), report })
            },
            Err(e) => Err(e),
        },
        DebugAction::Done => match wip {
            Some(h) => Ok(WipOutcome { step: WipStep::Finalize(h), report }),
            None => Err(Error::NoActiveHandoff),
        },
        _ => match wip {
            Some(h) => {
                let next = handoff_after_debug(h, &action);
                Ok(WipOutcome { step: WipStep::Stage(next), report })
            },
            None => Err(Error::NoActiveHandoff),
        },
    }
}

/// Runs a plan command. `wip` is the handoff in progress, if any;
/// `identity` what the identity's state entry holds, if it exists.
///
/// Starting needs an identity and stages a new plan handoff whose goal and
/// summary are the goal given. Finalizing needs a handoff in progress and
/// hands it on unchanged. Every other action needs one too, applies itself
/// to it and stages the result.
pub fn plan_step(action: PlanAction, wip: Option<Handoff>, identity: Option<String>) -> (r: Result<
    WipOutcome,
    Error,
>)
    ensures
        match action {
            PlanAction::New { goal } => match identity {
                Some(who) => r matches Ok(o) && starts(
                    o,
                    HandoffModeView::Plan(PlanContextView::fresh(goal@)),
                    goal@,
                    who@,
                ) && o.report@ == plan_report(action),
                None => r matches Err(e) && e@ == ErrorView::AgentNotRegistered(
                    no_identity_detail(),
                ),
            },
            PlanAction::Done => match wip {
                Some(h) => r matches Ok(o) && o.step == WipStep::Finalize(h) && o.report@.len()
                    == 0,
                None => r matches Err(e) && e@ == ErrorView::NoActiveHandoff,
            },
            _ => match wip {
                Some(h) => r matches Ok(o) && o.report@ == plan_report(action) && stages(
                    o,
                    HandoffView { mode: mode_after_plan(h@.mode, action), ..h@ },
                ),
                None => r matches Err(e) && e@ == ErrorView::NoActiveHandoff,
            },
        },
{
    let report = render_plan_report(&action);
    match &action {
        PlanAction::New { goal } => match get_current_agent(identity) {
            Ok(who) => {
                let handoff = Handoff::new(
                    HandoffMode::plan(goal.as_str()),
                    goal.as_str(),
                    who.as_str(),
                );
                Ok(WipOutcome { step: WipStep::Stage(handoff), report })
            },
            Err(e) => Err(e),
        },
        PlanAction::Done => match wip {
            Some(h) => Ok(WipOutcome { step: WipStep::Finalize(h), report }),
            None => Err(Error::NoActiveHandoff),
        },
        _ => match wip {
            Some(h) => {
                let next = handoff_after_plan(h, &action);
                Ok(WipOutcome { step: WipStep::Stage(next), report })
            },
            None => Err(Error::NoActiveHandoff),
        },
    }
}

} // verus!
