//! Plan mode context: requirements, decisions made, options rejected, open
//! questions.

use crate::render::{
    append_numbered_section, append_section, entry_lines, numbered_lines, section, Entry,
};
use crate::text::{
    decimal, decimal_text, lowercased, opt_text, same_text, texts, to_lowercase, views,
};
use vstd::prelude::*;
use vstd::string::StringExecFns;

verus! {

/// Priority level of a requirement.
#[derive(Debug, Clone, Copy, PartialEq, Eq, Structural)]
pub enum Priority {
    Must,
    Should,
    Could,
    Wont,
}

impl View for Priority {
    type V = Priority;

    open spec fn view(&self) -> Priority {
        *self
    }
}

impl Default for Priority {
    fn default() -> (r: Self)
        ensures
            r == Priority::Should,
    {
        Priority::Should
    }
}

impl Priority {
    /// The name of the level, as it is rendered.
    pub open spec fn label_text(self) -> Seq<char> {
        match self {
            Priority::Must => "Must"@,
            Priority::Should => "Should"@,
            Priority::Could => "Could"@,
            Priority::Wont => "Wont"@,
        }
    }

    /// The name of the level, as it is rendered.
    pub fn label(&self) -> (r: &'static str)
        ensures
            r@ == self.label_text(),
    {
        match self {
            Priority::Must => "Must",
            Priority::Should => "Should",
            Priority::Could => "Could",
            Priority::Wont => "Wont",
        }
    }

    /// The level that a lower-case token stands for: `must`, `could` and
    /// `wont` for themselves, anything else for should.
    pub open spec fn of_token(token: Seq<char>) -> Priority {
        if token == "must"@ {
            Priority::Must
        } else if token == "could"@ {
            Priority::Could
        } else if token == "wont"@ {
            Priority::Wont
        } else {
            Priority::Should
        }
    }

    /// Reads a lower-case token. Never fails: an unknown token is should.
    pub fn from_token(token: &str) -> (r: Priority)
        ensures
            r == Priority::of_token(token@),
    {
        if same_text(token, "must") {
            Priority::Must
        } else if same_text(token, "could") {
            Priority::Could
        } else if same_text(token, "wont") {
            Priority::Wont
        } else {
            Priority::Should
        }
    }

    /// Reads free text, whatever its case. Never fails: unknown text is
    /// should.
    pub fn parse(text: &str) -> (r: Priority)
        ensures
            r == Priority::of_token(lowercased(text@)),
    {
        let token = to_lowercase(text);
        Priority::from_token(token.as_str())
    }
}

/// Phase of planning.
#[derive(Debug, Clone, Copy, PartialEq, Eq, Structural)]
pub enum PlanPhase {
    Discovery,
    Requirements,
    Design,
    Review,
    Ready,
}

impl View for PlanPhase {
    type V = PlanPhase;

    open spec fn view(&self) -> PlanPhase {
        *self
    }
}

impl Default for PlanPhase {
    fn default() -> (r: Self)
        ensures
            r == PlanPhase::Discovery,
    {
        PlanPhase::Discovery
    }
}

impl PlanPhase {
    /// The name of the phase, as it is rendered.
    pub open spec fn label_text(self) -> Seq<char> {
        match self {
            PlanPhase::Discovery => "Discovery"@,
            PlanPhase::Requirements => "Requirements"@,
            PlanPhase::Design => "Design"@,
            PlanPhase::Review => "Review"@,
            PlanPhase::Ready => "Ready"@,
        }
    }

    /// The name of the phase, as it is rendered.
    pub fn label(&self) -> (r: &'static str)
        ensures
            r@ == self.label_text(),
    {
        match self {
            PlanPhase::Discovery => "Discovery",
            PlanPhase::Requirements => "Requirements",
            PlanPhase::Design => "Design",
            PlanPhase::Review => "Review",
            PlanPhase::Ready => "Ready",
        }
    }
}

/// A requirement.
#[derive(Debug, Clone)]
pub struct Requirement {
    /// The requirement.
    pub description: String,
    /// Priority.
    pub priority: Priority,
    /// Source of this requirement.
    pub source: Option<String>,
    /// Is it validated or confirmed?
    pub confirmed: bool,
}

/// What a requirement holds, as mathematical values.
pub struct RequirementView {
    pub description: Seq<char>,
    pub priority: Priority,
    pub source: Option<Seq<char>>,
    pub confirmed: bool,
}

impl View for Requirement {
    type V = RequirementView;

    open spec fn view(&self) -> RequirementView {
        RequirementView {
            description: self.description@,
            priority: self.priority,
            source: opt_text(self.source),
            confirmed: self.confirmed,
        }
    }
}

/// A decision that was made.
#[derive(Debug, Clone)]
pub struct Decision {
    /// What was decided.
    pub decision: String,
    /// Why this was chosen.
    pub rationale: String,
    /// When it was made, or by whom.
    pub context: Option<String>,
    /// Is it reversible?
    pub reversible: bool,
}

/// What a decision holds, as mathematical values.
pub struct DecisionView {
    pub decision: Seq<char>,
    pub rationale: Seq<char>,
    pub context: Option<Seq<char>>,
    pub reversible: bool,
}

impl View for Decision {
    type V = DecisionView;

    open spec fn view(&self) -> DecisionView {
        DecisionView {
            decision: self.decision@,
            rationale: self.rationale@,
            context: opt_text(self.context),
            reversible: self.reversible,
        }
    }
}

/// An option that was rejected.
#[derive(Debug, Clone)]
pub struct RejectedOption {
    /// What the option was.
    pub option: String,
    /// Why it was rejected.
    pub reason: String,
    /// Could it be reconsidered?
    pub reconsiderable: bool,
}

/// What a rejected option holds, as mathematical values.
pub struct RejectedOptionView {
    pub option: Seq<char>,
    pub reason: Seq<char>,
    pub reconsiderable: bool,
}

impl View for RejectedOption {
    type V = RejectedOptionView;

    open spec fn view(&self) -> RejectedOptionView {
        RejectedOptionView {
            option: self.option@,
            reason: self.reason@,
            reconsiderable: self.reconsiderable,
        }
    }
}

/// A question that needs answering.
#[derive(Debug, Clone)]
pub struct OpenQuestion {
    /// The question.
    pub question: String,
    /// Why it matters.
    pub importance: String,
    /// Who might know the answer.
    pub ask_who: Option<String>,
    /// Is it blocking progress?
    pub blocking: bool,
}

/// What an open question holds, as mathematical values.
pub struct OpenQuestionView {
    pub question: Seq<char>,
    pub importance: Seq<char>,
    pub ask_who: Option<Seq<char>>,
    pub blocking: bool,
}

impl View for OpenQuestion {
    type V = OpenQuestionView;

    open spec fn view(&self) -> OpenQuestionView {
        OpenQuestionView {
            question: self.question@,
            importance: self.importance@,
            ask_who: opt_text(self.ask_who),
            blocking: self.blocking,
        }
    }
}

/// A constraint.
#[derive(Debug, Clone)]
pub struct Constraint {
    /// The constraint.
    pub constraint: String,
    /// Why it exists.
    pub reason: Option<String>,
    /// Is it negotiable?
    pub negotiable: bool,
}

/// What a constraint holds, as mathematical values.
pub struct ConstraintView {
    pub constraint: Seq<char>,
    pub reason: Option<Seq<char>>,
    pub negotiable: bool,
}

impl View for Constraint {
    type V = ConstraintView;

    open spec fn view(&self) -> ConstraintView {
        ConstraintView {
            constraint: self.constraint@,
            reason: opt_text(self.reason),
            negotiable: self.negotiable,
        }
    }
}

/// Context for planning handoffs.
#[derive(Debug, Clone)]
pub struct PlanContext {
    /// The goal being worked toward.
    pub goal: String,
    /// Requirements gathered.
    pub requirements: Vec<Requirement>,
    /// Decisions that have been made.
    pub decisions: Vec<Decision>,
    /// Options that were considered but rejected.
    pub rejected_options: Vec<RejectedOption>,
    /// Questions that still need answers.
    pub open_questions: Vec<OpenQuestion>,
    /// Suggested next steps.
    pub next_steps: Vec<String>,
    /// Constraints and limitations.
    pub constraints: Vec<Constraint>,
    /// Key stakeholders or considerations.
    pub stakeholders: Vec<String>,
    /// Current phase of planning.
    pub phase: PlanPhase,
    /// Rough progress estimate, at most 100.
    pub progress_pct: Option<u8>,
}

/// What a plan context holds, as mathematical values.
pub struct PlanContextView {
    pub goal: Seq<char>,
    pub requirements: Seq<RequirementView>,
    pub decisions: Seq<DecisionView>,
    pub rejected_options: Seq<RejectedOptionView>,
    pub open_questions: Seq<OpenQuestionView>,
    pub next_steps: Seq<Seq<char>>,
    pub constraints: Seq<ConstraintView>,
    pub stakeholders: Seq<Seq<char>>,
    pub phase: PlanPhase,
    pub progress_pct: Option<u8>,
}

impl View for PlanContext {
    type V = PlanContextView;

    open spec fn view(&self) -> PlanContextView {
        PlanContextView {
            goal: self.goal@,
            requirements: views(self.requirements@),
            decisions: views(self.decisions@),
            rejected_options: views(self.rejected_options@),
            open_questions: views(self.open_questions@),
            next_steps: texts(self.next_steps@),
            constraints: views(self.constraints@),
            stakeholders: texts(self.stakeholders@),
            phase: self.phase,
            progress_pct: self.progress_pct,
        }
    }
}

impl PlanContextView {
    /// The context that holds a goal and nothing else, in the discovery
    /// phase.
    pub open spec fn fresh(goal: Seq<char>) -> PlanContextView {
        PlanContextView {
            goal,
            requirements: Seq::empty(),
            decisions: Seq::empty(),
            rejected_options: Seq::empty(),
            open_questions: Seq::empty(),
            next_steps: Seq::empty(),
            constraints: Seq::empty(),
            stakeholders: Seq::empty(),
            phase: PlanPhase::Discovery,
            progress_pct: None,
        }
    }
}

/// The line of one requirement: priority, a mark if confirmed, description.
pub open spec fn requirement_line(x: RequirementView) -> Seq<char> {
    "- **"@ + x.priority.label_text() + "**"@ + (if x.confirmed {
        " âœ“"@
    } else {
        Seq::empty()
    }) + ": "@ + x.description + "\n"@
}

/// The lines of one decision: what was decided, then why.
pub open spec fn decision_lines(x: DecisionView) -> Seq<char> {
    "- **"@ + x.decision + "**\n"@ + "  Rationale: "@ + x.rationale + "\n"@
}

/// The line of one rejected option, struck through, with a note if it could
/// be reconsidered, and the reason.
pub open spec fn rejected_line(x: RejectedOptionView) -> Seq<char> {
    "- ~~"@ + x.option + "~~"@ + (if x.reconsiderable {
        " (could reconsider)"@
    } else {
        Seq::empty()
    }) + ": "@ + x.reason + "\n"@
}

/// The lines of one open question: the question, flagged if it blocks, then
/// why it matters.
pub open spec fn question_lines(x: OpenQuestionView) -> Seq<char> {
    "- "@ + x.question + (if x.blocking {
        " **[BLOCKING]**"@
    } else {
        Seq::empty()
    }) + "\n"@ + "  Why it matters: "@ + x.importance + "\n"@
}

/// The line of one constraint.
pub open spec fn constraint_line(x: ConstraintView) -> Seq<char> {
    "- "@ + x.constraint + "\n"@
}

/// The phase line: the phase, and the progress if it was estimated.
pub open spec fn phase_line(phase: PlanPhase, progress_pct: Option<u8>) -> Seq<char> {
    "**Phase**: "@ + phase.label_text() + (match progress_pct {
        Some(pct) => " ("@ + decimal_text(pct as nat) + "% complete)"@,
        None => Seq::empty(),
    }) + "\n\n"@
}

/// The rendered planning section: the title, the goal and the phase line,
/// then in this order and each only if it has content: requirements,
/// decisions, rejected options, open questions, constraints, next steps.
pub open spec fn plan_section(c: PlanContextView) -> Seq<char> {
    "## Planning Context\n\n"@ + "### Goal\n\n"@ + c.goal + "\n\n"@ + phase_line(
        c.phase,
        c.progress_pct,
    ) + section("### Requirements\n\n"@, entry_lines::<Requirement>(c.requirements)) + section(
        "### Decisions Made\n\n"@,
        entry_lines::<Decision>(c.decisions),
    ) + section("### Options Rejected\n\n"@, entry_lines::<RejectedOption>(c.rejected_options))
        + section("### Open Questions\n\n"@, entry_lines::<OpenQuestion>(c.open_questions))
        + section("### Constraints\n\n"@, entry_lines::<Constraint>(c.constraints)) + section(
        "### Suggested Next Steps\n\n"@,
        numbered_lines(c.next_steps),
    )
}

impl Entry for Requirement {
    open spec fn entry_text(v: RequirementView) -> Seq<char> {
        requirement_line(v)
    }

    fn render(&self) -> (r: String) {
        let mut r = String::new();
        r.append("- **");
        r.append(self.priority.label());
        r.append("**");
        if self.confirmed {
            r.append(" âœ“");
        }
        let ghost head = r@;
        assert(head =~= "- **"@ + self.priority.label_text() + "**"@ + (if self.confirmed {
            " âœ“"@
        } else {
            Seq::empty()
        }));
        r.append(": ");
        r.append(self.description.as_str());
        r.append("\n");
        assert(r@ =~= requirement_line(self@));
        r
    }
}

impl Entry for Decision {
    open spec fn entry_text(v: DecisionView) -> Seq<char> {
        decision_lines(v)
    }

    fn render(&self) -> (r: String) {
        let mut r = String::new();
        r.append("- **");
        r.append(self.decision.as_str());
        r.append("**\n");
        r.append("  Rationale: ");
        r.append(self.rationale.as_str());
        r.append("\n");
        assert(r@ =~= decision_lines(self@));
        r
    }
}

impl Entry for RejectedOption {
    open spec fn entry_text(v: RejectedOptionView) -> Seq<char> {
        rejected_line(v)
    }

    fn render(&self) -> (r: String) {
        let mut r = String::new();
        r.append("- ~~");
        r.append(self.option.as_str());
        r.append("~~");
        if self.reconsiderable {
            r.append(" (could reconsider)");
        }
        let ghost head = r@;
        assert(head =~= "- ~~"@ + self.option@ + "~~"@ + (if self.reconsiderable {
            " (could reconsider)"@
        } else {
            Seq::empty()
        }));
        r.append(": ");
        r.append(self.reason.as_str());
        r.append("\n");
        assert(r@ =~= rejected_line(self@));
        r
    }
}

impl Entry for OpenQuestion {
    open spec fn entry_text(v: OpenQuestionView) -> Seq<char> {
        question_lines(v)
    }

    fn render(&self) -> (r: String) {
        let mut r = String::new();
        r.append("- ");
        r.append(self.question.as_str());
        if self.blocking {
            r.append(" **[BLOCKING]**");
        }
        let ghost head = r@;
        assert(head =~= "- "@ + self.question@ + (if self.blocking {
            " **[BLOCKING]**"@
        } else {
            Seq::empty()
        }));
        r.append("\n");
        r.append("  Why it matters: ");
        r.append(self.importance.as_str());
        r.append("\n");
        assert(r@ =~= question_lines(self@));
        r
    }
}

impl Entry for Constraint {
    open spec fn entry_text(v: ConstraintView) -> Seq<char> {
        constraint_line(v)
    }

    fn render(&self) -> (r: String) {
        let mut r = String::new();
        r.append("- ");
        r.append(self.constraint.as_str());
        r.append("\n");
        assert(r@ =~= constraint_line(self@));
        r
    }
}

fn append_phase_line(out: &mut String, phase: PlanPhase, progress_pct: Option<u8>)
    ensures
        final(out)@ == old(out)@ + phase_line(phase, progress_pct),
{
    out.append("**Phase**: ");
    out.append(phase.label());
    match progress_pct {
        Some(pct) => {
            let number = decimal(pct as u64);
            out.append(" (");
            out.append(number.as_str());
            out.append("% complete)");
            out.append("\n\n");
            assert(out@ =~= old(out)@ + phase_line(phase, progress_pct));
        },
        None => {
            out.append("\n\n");
            assert(out@ =~= old(out)@ + phase_line(phase, progress_pct));
        },
    }
}

impl Default for PlanContext {
    fn default() -> (r: Self)
        ensures
            r@ == PlanContextView::fresh("(goal not specified)"@),
    {
        PlanContext::new("(goal not specified)")
    }
}

impl PlanContext {
    /// A context that holds the goal and nothing else, in the discovery
    /// phase.
    pub fn new(goal: &str) -> (r: Self)
        ensures
            r@ == PlanContextView::fresh(goal@),
    {
        let r = PlanContext {
            goal: goal.to_owned(),
            requirements: Vec::new(),
            decisions: Vec::new(),
            rejected_options: Vec::new(),
            open_questions: Vec::new(),
            next_steps: Vec::new(),
            constraints: Vec::new(),
            stakeholders: Vec::new(),
            phase: PlanPhase::Discovery,
            progress_pct: None,
        };
        assert(r@.requirements =~= Seq::empty());
        assert(r@.decisions =~= Seq::empty());
        assert(r@.rejected_options =~= Seq::empty());
        assert(r@.open_questions =~= Seq::empty());
        assert(r@.next_steps =~= Seq::empty());
        assert(r@.constraints =~= Seq::empty());
        assert(r@.stakeholders =~= Seq::empty());
        r
    }

    /// Adds a requirement, unconfirmed and without source.
    pub fn requirement(self, desc: &str, priority: Priority) -> (r: Self)
        ensures
            r@ == (PlanContextView {
                requirements: self@.requirements.push(
                    RequirementView {
                        description: desc@,
                        priority,
                        source: None,
                        confirmed: false,
                    },
                ),
                ..self@
            }),
    {
        let mut r = self;
        r.requirements.push(
            Requirement { description: desc.to_owned(), priority, source: None, confirmed: false },
        );
        assert(r@.requirements =~= self@.requirements.push(
            RequirementView { description: desc@, priority, source: None, confirmed: false },
        ));
        r
    }

    /// Records a decision, reversible and without context.
    pub fn decided(self, decision: &str, rationale: &str) -> (r: Self)
        ensures
            r@ == (PlanContextView {
                decisions: self@.decisions.push(
                    DecisionView {
                        decision: decision@,
                        rationale: rationale@,
                        context: None,
                        reversible: true,
                    },
                ),
                ..self@
            }),
    {
        let mut r = self;
        r.decisions.push(
            Decision {
                decision: decision.to_owned(),
                rationale: rationale.to_owned(),
                context: None,
                reversible: true,
            },
        );
        assert(r@.decisions =~= self@.decisions.push(
            DecisionView {
                decision: decision@,
                rationale: rationale@,
                context: None,
                reversible: true,
            },
        ));
        r
    }

    /// Records a rejected option, one that could be reconsidered.
    pub fn rejected(self, option: &str, reason: &str) -> (r: Self)
        ensures
            r@ == (PlanContextView {
                rejected_options: self@.rejected_options.push(
                    RejectedOptionView { option: option@, reason: reason@, reconsiderable: true },
                ),
                ..self@
            }),
    {
        let mut r = self;
        r.rejected_options.push(
            RejectedOption {
                option: option.to_owned(),
                reason: reason.to_owned(),
                reconsiderable: true,
            },
        );
        assert(r@.rejected_options =~= self@.rejected_options.push(
            RejectedOptionView { option: option@, reason: reason@, reconsiderable: true },
        ));
        r
    }

    fn push_question(self, question: &str, importance: &str, blocking: bool) -> (r: Self)
        ensures
            r@ == (PlanContextView {
                open_questions: self@.open_questions.push(
                    OpenQuestionView {
                        question: question@,
                        importance: importance@,
                        ask_who: None,
                        blocking,
                    },
                ),
                ..self@
            }),
    {
        let mut r = self;
        r.open_questions.push(
            OpenQuestion {
                question: question.to_owned(),
                importance: importance.to_owned(),
                ask_who: None,
                blocking,
            },
        );
        assert(r@.open_questions =~= self@.open_questions.push(
            OpenQuestionView {
                question: question@,
                importance: importance@,
                ask_who: None,
                blocking,
            },
        ));
        r
    }

    /// Adds an open question that does not block.
    pub fn question(self, question: &str, importance: &str) -> (r: Self)
        ensures
            r@ == (PlanContextView {
                open_questions: self@.open_questions.push(
                    OpenQuestionView {
                        question: question@,
                        importance: importance@,
                        ask_who: None,
                        blocking: false,
                    },
                ),
                ..self@
            }),
    {
        self.push_question(question, importance, false)
    }

    /// Adds an open question that blocks progress.
    pub fn blocking_question(self, question: &str, importance: &str) -> (r: Self)
        ensures
            r@ == (PlanContextView {
                open_questions: self@.open_questions.push(
                    OpenQuestionView {
                        question: question@,
                        importance: importance@,
                        ask_who: None,
                        blocking: true,
                    },
                ),
                ..self@
            }),
    {
        self.push_question(question, importance, true)
    }

    /// Adds a next step.
    pub fn next_step(self, step: &str) -> (r: Self)
        ensures
            r@ == (PlanContextView { next_steps: self@.next_steps.push(step@), ..self@ }),
    {
        let mut r = self;
        r.next_steps.push(step.to_owned());
        assert(r@.next_steps =~= self@.next_steps.push(step@));
        r
    }

    /// Adds a constraint, not negotiable and without reason.
    pub fn constraint(self, constraint: &str) -> (r: Self)
        ensures
            r@ == (PlanContextView {
                constraints: self@.constraints.push(
                    ConstraintView { constraint: constraint@, reason: None, negotiable: false },
                ),
                ..self@
            }),
    {
        let mut r = self;
        r.constraints.push(
            Constraint { constraint: constraint.to_owned(), reason: None, negotiable: false },
        );
        assert(r@.constraints =~= self@.constraints.push(
            ConstraintView { constraint: constraint@, reason: None, negotiable: false },
        ));
        r
    }

    /// Sets the phase.
    pub fn phase(self, phase: PlanPhase) -> (r: Self)
        ensures
            r@ == (PlanContextView { phase, ..self@ }),
    {
        let mut r = self;
        r.phase = phase;
        r
    }

    /// Sets the progress estimate, clamped to at most 100.
    pub fn progress(self, pct: u8) -> (r: Self)
        ensures
            r@ == (PlanContextView {
                progress_pct: Some(
                    if pct <= 100 {
                        pct
                    } else {
                        100u8
                    },
                ),
                ..self@
            }),
    {
        let mut r = self;
        r.progress_pct = Some(
            if pct <= 100 {
                pct
            } else {
                100
            },
        );
        r
    }

    /// Renders this context as a section of the briefing.
    pub fn compile(&self) -> (out: String)
        ensures
            out@ == plan_section(self@),
    {
        let mut out = String::new();
        out.append("## Planning Context\n\n");
        out.append("### Goal\n\n");
        out.append(self.goal.as_str());
        out.append("\n\n");
        append_phase_line(&mut out, self.phase, self.progress_pct);
        append_section(&mut out, "### Requirements\n\n", &self.requirements);
        append_section(&mut out, "### Decisions Made\n\n", &self.decisions);
        append_section(&mut out, "### Options Rejected\n\n", &self.rejected_options);
        append_section(&mut out, "### Open Questions\n\n", &self.open_questions);
        append_section(&mut out, "### Constraints\n\n", &self.constraints);
        append_numbered_section(&mut out, "### Suggested Next Steps\n\n", &self.next_steps);
        assert(out@ =~= plan_section(self@));
        out
    }
}

/// With only a goal stated, the planning section is its title, the goal and
/// the phase line for discovery.
pub proof fn lemma_fresh_plan_section(goal: Seq<char>)
    ensures
        plan_section(PlanContextView::fresh(goal)) == "## Planning Context\n\n"@ + "### Goal\n\n"@
            + goal + "\n\n"@ + "**Phase**: "@ + "Discovery"@ + "\n\n"@,
{
    let c = PlanContextView::fresh(goal);
    assert(entry_lines::<Requirement>(c.requirements).len() == 0);
    assert(entry_lines::<Decision>(c.decisions).len() == 0);
    assert(entry_lines::<RejectedOption>(c.rejected_options).len() == 0);
    assert(entry_lines::<OpenQuestion>(c.open_questions).len() == 0);
    assert(entry_lines::<Constraint>(c.constraints).len() == 0);
    assert(numbered_lines(c.next_steps).len() == 0);
    assert(plan_section(c) =~= "## Planning Context\n\n"@ + "### Goal\n\n"@ + goal + "\n\n"@
        + "**Phase**: "@ + "Discovery"@ + "\n\n"@);
}

} // verus!
