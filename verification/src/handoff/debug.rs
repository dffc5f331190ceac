//! Debug mode context: what is broken, the hypotheses, the evidence, what
//! was tried.

use crate::render::{
    append_block, append_bullet_section, append_bullets, append_paragraph, append_section,
    block, bullet_lines, entry_lines, paragraph, section, Entry,
};
use crate::text::{lowercased, opt_text, same_text, texts, to_lowercase, views};
use vstd::prelude::*;
use vstd::string::StringExecFns;

verus! {

/// Likelihood of a hypothesis.
#[derive(Debug, Clone, Copy, PartialEq, Eq, Structural)]
pub enum Likelihood {
    High,
    Medium,
    Low,
    Eliminated,
}

impl View for Likelihood {
    type V = Likelihood;

    open spec fn view(&self) -> Likelihood {
        *self
    }
}

impl Default for Likelihood {
    fn default() -> (r: Self)
        ensures
            r == Likelihood::Medium,
    {
        Likelihood::Medium
    }
}

impl Likelihood {
    /// The name of the level, as it is rendered.
    pub open spec fn label_text(self) -> Seq<char> {
        match self {
            Likelihood::High => "High"@,
            Likelihood::Medium => "Medium"@,
            Likelihood::Low => "Low"@,
            Likelihood::Eliminated => "Eliminated"@,
        }
    }

    /// The name of the level, as it is rendered.
    pub fn label(&self) -> (r: &'static str)
        ensures
            r@ == self.label_text(),
    {
        match self {
            Likelihood::High => "High",
            Likelihood::Medium => "Medium",
            Likelihood::Low => "Low",
            Likelihood::Eliminated => "Eliminated",
        }
    }

    /// The level that a lower-case token stands for: `high` and `low` for
    /// themselves, anything else for medium.
    pub open spec fn of_token(token: Seq<char>) -> Likelihood {
        if token == "high"@ {
            Likelihood::High
        } else if token == "low"@ {
            Likelihood::Low
        } else {
            Likelihood::Medium
        }
    }

    /// Reads a lower-case token. Never fails: an unknown token is medium.
    pub fn from_token(token: &str) -> (r: Likelihood)
        ensures
            r == Likelihood::of_token(token@),
    {
        if same_text(token, "high") {
            Likelihood::High
        } else if same_text(token, "low") {
            Likelihood::Low
        } else {
            Likelihood::Medium
        }
    }

    /// Reads free text, whatever its case. Never fails: unknown text is
    /// medium.
    pub fn parse(text: &str) -> (r: Likelihood)
        ensures
            r == Likelihood::of_token(lowercased(text@)),
    {
        let token = to_lowercase(text);
        Likelihood::from_token(token.as_str())
    }
}

/// Outcome of an attempt.
#[derive(Debug, Clone, Copy, PartialEq, Eq, Structural)]
pub enum AttemptOutcome {
    Fixed,
    Helped,
    NoEffect,
    MadeWorse,
    Inconclusive,
}

impl View for AttemptOutcome {
    type V = AttemptOutcome;

    open spec fn view(&self) -> AttemptOutcome {
        *self
    }
}

impl Default for AttemptOutcome {
    fn default() -> (r: Self)
        ensures
            r == AttemptOutcome::NoEffect,
    {
        AttemptOutcome::NoEffect
    }
}

impl AttemptOutcome {
    /// The name of the outcome, as it is rendered.
    pub open spec fn label_text(self) -> Seq<char> {
        match self {
            AttemptOutcome::Fixed => "Fixed"@,
            AttemptOutcome::Helped => "Helped"@,
            AttemptOutcome::NoEffect => "NoEffect"@,
            AttemptOutcome::MadeWorse => "MadeWorse"@,
            AttemptOutcome::Inconclusive => "Inconclusive"@,
        }
    }

    /// The name of the outcome, as it is rendered.
    pub fn label(&self) -> (r: &'static str)
        ensures
            r@ == self.label_text(),
    {
        match self {
            AttemptOutcome::Fixed => "Fixed",
            AttemptOutcome::Helped => "Helped",
            AttemptOutcome::NoEffect => "NoEffect",
            AttemptOutcome::MadeWorse => "MadeWorse",
            AttemptOutcome::Inconclusive => "Inconclusive",
        }
    }

    /// The outcome that a lower-case token stands for: `fixed`, `helped`,
    /// `worse`; anything else for no effect.
    pub open spec fn of_token(token: Seq<char>) -> AttemptOutcome {
        if token == "fixed"@ {
            AttemptOutcome::Fixed
        } else if token == "helped"@ {
            AttemptOutcome::Helped
        } else if token == "worse"@ {
            AttemptOutcome::MadeWorse
        } else {
            AttemptOutcome::NoEffect
        }
    }

    /// Reads a lower-case token. Never fails: an unknown token is no effect.
    pub fn from_token(token: &str) -> (r: AttemptOutcome)
        ensures
            r == AttemptOutcome::of_token(token@),
    {
        if same_text(token, "fixed") {
            AttemptOutcome::Fixed
        } else if same_text(token, "helped") {
            AttemptOutcome::Helped
        } else if same_text(token, "worse") {
            AttemptOutcome::MadeWorse
        } else {
            AttemptOutcome::NoEffect
        }
    }

    /// Reads free text, whatever its case. Never fails: unknown text is no
    /// effect.
    pub fn parse(text: &str) -> (r: AttemptOutcome)
        ensures
            r == AttemptOutcome::of_token(lowercased(text@)),
    {
        let token = to_lowercase(text);
        AttemptOutcome::from_token(token.as_str())
    }
}

/// Kind of evidence.
#[derive(Debug, Clone, Copy, PartialEq, Eq, Structural)]
pub enum EvidenceKind {
    Observation,
    LogEntry,
    ErrorMessage,
    StackTrace,
    Metric,
    UserReport,
    Screenshot,
}

impl View for EvidenceKind {
    type V = EvidenceKind;

    open spec fn view(&self) -> EvidenceKind {
        *self
    }
}

impl Default for EvidenceKind {
    fn default() -> (r: Self)
        ensures
            r == EvidenceKind::Observation,
    {
        EvidenceKind::Observation
    }
}

impl EvidenceKind {
    /// The name of the kind, as it is rendered.
    pub open spec fn label_text(self) -> Seq<char> {
        match self {
            EvidenceKind::Observation => "Observation"@,
            EvidenceKind::LogEntry => "LogEntry"@,
            EvidenceKind::ErrorMessage => "ErrorMessage"@,
            EvidenceKind::StackTrace => "StackTrace"@,
            EvidenceKind::Metric => "Metric"@,
            EvidenceKind::UserReport => "UserReport"@,
            EvidenceKind::Screenshot => "Screenshot"@,
        }
    }

    /// The name of the kind, as it is rendered.
    pub fn label(&self) -> (r: &'static str)
        ensures
            r@ == self.label_text(),
    {
        match self {
            EvidenceKind::Observation => "Observation",
            EvidenceKind::LogEntry => "LogEntry",
            EvidenceKind::ErrorMessage => "ErrorMessage",
            EvidenceKind::StackTrace => "StackTrace",
            EvidenceKind::Metric => "Metric",
            EvidenceKind::UserReport => "UserReport",
            EvidenceKind::Screenshot => "Screenshot",
        }
    }

    /// The kind that a lower-case token stands for: `log`, `error`, `stack`
    /// or `stacktrace`; anything else for an observation.
    pub open spec fn of_token(token: Seq<char>) -> EvidenceKind {
        if token == "log"@ {
            EvidenceKind::LogEntry
        } else if token == "error"@ {
            EvidenceKind::ErrorMessage
        } else if token == "stack"@ || token == "stacktrace"@ {
            EvidenceKind::StackTrace
        } else {
            EvidenceKind::Observation
        }
    }

    /// Reads a lower-case token. Never fails: an unknown token is an
    /// observation.
    pub fn from_token(token: &str) -> (r: EvidenceKind)
        ensures
            r == EvidenceKind::of_token(token@),
    {
        if same_text(token, "log") {
            EvidenceKind::LogEntry
        } else if same_text(token, "error") {
            EvidenceKind::ErrorMessage
        } else if same_text(token, "stack") || same_text(token, "stacktrace") {
            EvidenceKind::StackTrace
        } else {
            EvidenceKind::Observation
        }
    }

    /// Reads free text, whatever its case. Never fails: unknown text is an
    /// observation.
    pub fn parse(text: &str) -> (r: EvidenceKind)
        ensures
            r == EvidenceKind::of_token(lowercased(text@)),
    {
        let token = to_lowercase(text);
        EvidenceKind::from_token(token.as_str())
    }
}

/// A hypothesis about what might be wrong.
#[derive(Debug, Clone)]
pub struct Hypothesis {
    /// The hypothesis.
    pub theory: String,
    /// Supporting evidence.
    pub support: Vec<String>,
    /// Contradicting evidence.
    pub against: Vec<String>,
    /// Likelihood assessment.
    pub likelihood: Likelihood,
}

/// What a hypothesis holds, as mathematical values.
pub struct HypothesisView {
    pub theory: Seq<char>,
    pub support: Seq<Seq<char>>,
    pub against: Seq<Seq<char>>,
    pub likelihood: Likelihood,
}

impl View for Hypothesis {
    type V = HypothesisView;

    open spec fn view(&self) -> HypothesisView {
        HypothesisView {
            theory: self.theory@,
            support: texts(self.support@),
            against: texts(self.against@),
            likelihood: self.likelihood,
        }
    }
}

/// Something that was attempted.
#[derive(Debug, Clone)]
pub struct Attempt {
    /// What was tried.
    pub what: String,
    /// What happened.
    pub result: String,
    /// Did it help, hurt or do nothing?
    pub outcome: AttemptOutcome,
}

/// What an attempt holds, as mathematical values.
pub struct AttemptView {
    pub what: Seq<char>,
    pub result: Seq<char>,
    pub outcome: AttemptOutcome,
}

impl View for Attempt {
    type V = AttemptView;

    open spec fn view(&self) -> AttemptView {
        AttemptView { what: self.what@, result: self.result@, outcome: self.outcome }
    }
}

/// A piece of evidence.
#[derive(Debug, Clone)]
pub struct Evidence {
    /// Type of evidence.
    pub kind: EvidenceKind,
    /// The evidence content.
    pub content: String,
    /// Where it came from.
    pub source: Option<String>,
    /// When it was observed.
    pub timestamp: Option<String>,
}

/// What a piece of evidence holds, as mathematical values.
pub struct EvidenceView {
    pub kind: EvidenceKind,
    pub content: Seq<char>,
    pub source: Option<Seq<char>>,
    pub timestamp: Option<Seq<char>>,
}

impl View for Evidence {
    type V = EvidenceView;

    open spec fn view(&self) -> EvidenceView {
        EvidenceView {
            kind: self.kind,
            content: self.content@,
            source: opt_text(self.source),
            timestamp: opt_text(self.timestamp),
        }
    }
}

/// A file suspected to be involved.
#[derive(Debug, Clone)]
pub struct SuspectedFile {
    /// Path to the file.
    pub path: String,
    /// Why it is suspected.
    pub reason: String,
    /// Specific lines if known.
    pub lines: Option<String>,
    /// Confidence.
    pub confidence: Likelihood,
}

/// What a suspected file holds, as mathematical values.
pub struct SuspectedFileView {
    pub path: Seq<char>,
    pub reason: Seq<char>,
    pub lines: Option<Seq<char>>,
    pub confidence: Likelihood,
}

impl View for SuspectedFile {
    type V = SuspectedFileView;

    open spec fn view(&self) -> SuspectedFileView {
        SuspectedFileView {
            path: self.path@,
            reason: self.reason@,
            lines: opt_text(self.lines),
            confidence: self.confidence,
        }
    }
}

/// Context for debug and troubleshooting handoffs.
#[derive(Debug, Clone)]
pub struct DebugContext {
    /// Clear statement of the problem.
    pub problem_statement: String,
    /// How the problem manifests.
    pub symptoms: Vec<String>,
    /// Current hypotheses about the cause.
    pub hypotheses: Vec<Hypothesis>,
    /// What has been tried already.
    pub attempted: Vec<Attempt>,
    /// Evidence gathered (logs, errors, observations).
    pub evidence: Vec<Evidence>,
    /// Files suspected to be involved.
    pub suspected_files: Vec<SuspectedFile>,
    /// Steps to reproduce the issue.
    pub reproduction_steps: Option<String>,
    /// Current best theory.
    pub working_theory: Option<String>,
    /// What the previous session was about to try.
    pub next_to_try: Option<String>,
}

/// What a debug context holds, as mathematical values.
pub struct DebugContextView {
    pub problem_statement: Seq<char>,
    pub symptoms: Seq<Seq<char>>,
    pub hypotheses: Seq<HypothesisView>,
    pub attempted: Seq<AttemptView>,
    pub evidence: Seq<EvidenceView>,
    pub suspected_files: Seq<SuspectedFileView>,
    pub reproduction_steps: Option<Seq<char>>,
    pub working_theory: Option<Seq<char>>,
    pub next_to_try: Option<Seq<char>>,
}

impl View for DebugContext {
    type V = DebugContextView;

    open spec fn view(&self) -> DebugContextView {
        DebugContextView {
            problem_statement: self.problem_statement@,
            symptoms: texts(self.symptoms@),
            hypotheses: views(self.hypotheses@),
            attempted: views(self.attempted@),
            evidence: views(self.evidence@),
            suspected_files: views(self.suspected_files@),
            reproduction_steps: opt_text(self.reproduction_steps),
            working_theory: opt_text(self.working_theory),
            next_to_try: opt_text(self.next_to_try),
        }
    }
}

impl DebugContextView {
    /// The context that holds a problem statement and nothing else.
    pub open spec fn fresh(problem: Seq<char>) -> DebugContextView {
        DebugContextView {
            problem_statement: problem,
            symptoms: Seq::empty(),
            hypotheses: Seq::empty(),
            attempted: Seq::empty(),
            evidence: Seq::empty(),
            suspected_files: Seq::empty(),
            reproduction_steps: None,
            working_theory: None,
            next_to_try: None,
        }
    }
}

/// The lines of one hypothesis: its likelihood and theory, then what
/// supports it, then what speaks against it.
pub open spec fn hypothesis_lines(h: HypothesisView) -> Seq<char> {
    "- **"@ + h.likelihood.label_text() + "**: "@ + h.theory + "\n"@ + bullet_lines(
        "  - Supports: "@,
        h.support,
    ).flatten() + bullet_lines("  - Against: "@, h.against).flatten()
}

/// The line of one attempt: what was tried, what happened, the outcome.
pub open spec fn attempt_line(a: AttemptView) -> Seq<char> {
    "- **"@ + a.what + "** â†’ "@ + a.result + " ("@ + a.outcome.label_text() + ")\n"@
}

/// The block of one piece of evidence: its kind, its source if known, and
/// the content between fences.
pub open spec fn evidence_block(e: EvidenceView) -> Seq<char> {
    "**"@ + e.kind.label_text() + "**"@ + (match e.source {
        Some(src) => " (from "@ + src + ")"@,
        None => Seq::empty(),
    }) + ":\n```\n"@ + e.content + "\n```\n\n"@
}

/// The lines of one suspected file: path, confidence and reason, then the
/// line range if known.
pub open spec fn suspect_lines(f: SuspectedFileView) -> Seq<char> {
    "- `"@ + f.path + "` ("@ + f.confidence.label_text() + "): "@ + f.reason + "\n"@ + match f.lines {
        Some(l) => "  Lines: "@ + l + "\n"@,
        None => Seq::empty(),
    }
}

/// The rendered troubleshooting section: the title and the problem, then in
/// this order and each only if it has content: symptoms, reproduction,
/// working theory, hypotheses, what was tried, evidence, suspected files,
/// next step.
pub open spec fn debug_section(c: DebugContextView) -> Seq<char> {
    "## Troubleshooting Context\n\n"@ + "### Problem\n\n"@ + c.problem_statement + "\n\n"@ + section(
        "### Symptoms\n\n"@,
        bullet_lines("- "@, c.symptoms),
    ) + paragraph("### How to Reproduce\n\n"@, c.reproduction_steps) + paragraph(
        "### Current Working Theory\n\n"@,
        c.working_theory,
    ) + section("### Hypotheses\n\n"@, entry_lines::<Hypothesis>(c.hypotheses)) + section(
        "### Already Tried\n\n"@,
        entry_lines::<Attempt>(c.attempted),
    ) + block("### Evidence\n\n"@, entry_lines::<Evidence>(c.evidence)) + section(
        "### Suspected Files\n\n"@,
        entry_lines::<SuspectedFile>(c.suspected_files),
    ) + paragraph("### Suggested Next Step\n\n"@, c.next_to_try)
}

impl Entry for Hypothesis {
    open spec fn entry_text(v: HypothesisView) -> Seq<char> {
        hypothesis_lines(v)
    }

    fn render(&self) -> (r: String) {
        let mut r = String::new();
        r.append("- **");
        r.append(self.likelihood.label());
        r.append("**: ");
        r.append(self.theory.as_str());
        r.append("\n");
        append_bullets(&mut r, "  - Supports: ", &self.support);
        append_bullets(&mut r, "  - Against: ", &self.against);
        assert(r@ =~= hypothesis_lines(self@));
        r
    }
}

impl Entry for Attempt {
    open spec fn entry_text(v: AttemptView) -> Seq<char> {
        attempt_line(v)
    }

    fn render(&self) -> (r: String) {
        let mut r = String::new();
        r.append("- **");
        r.append(self.what.as_str());
        r.append("** â†’ ");
        r.append(self.result.as_str());
        r.append(" (");
        r.append(self.outcome.label());
        r.append(")\n");
        assert(r@ =~= attempt_line(self@));
        r
    }
}

impl Entry for Evidence {
    open spec fn entry_text(v: EvidenceView) -> Seq<char> {
        evidence_block(v)
    }

    fn render(&self) -> (r: String) {
        let mut r = String::new();
        r.append("**");
        r.append(self.kind.label());
        r.append("**");
        match &self.source {
            Some(src) => {
                r.append(" (from ");
                r.append(src.as_str());
                r.append(")");
            },
            None => {},
        }
        let ghost head = r@;
        assert(head =~= "**"@ + self.kind.label_text() + "**"@ + (match self@.source {
            Some(src) => " (from "@ + src + ")"@,
            None => Seq::empty(),
        }));
        r.append(":\n```\n");
        r.append(self.content.as_str());
        r.append("\n```\n\n");
        assert(r@ =~= evidence_block(self@));
        r
    }
}

impl Entry for SuspectedFile {
    open spec fn entry_text(v: SuspectedFileView) -> Seq<char> {
        suspect_lines(v)
    }

    fn render(&self) -> (r: String) {
        let mut r = String::new();
        r.append("- `");
        r.append(self.path.as_str());
        r.append("` (");
        r.append(self.confidence.label());
        r.append("): ");
        r.append(self.reason.as_str());
        r.append("\n");
        match &self.lines {
            Some(l) => {
                r.append("  Lines: ");
                r.append(l.as_str());
                r.append("\n");
                assert(r@ =~= suspect_lines(self@));
            },
            None => {
                assert(r@ =~= suspect_lines(self@));
            },
        }
        r
    }
}

impl Default for DebugContext {
    fn default() -> (r: Self)
        ensures
            r@ == DebugContextView::fresh("(problem not specified)"@),
    {
        DebugContext::new("(problem not specified)")
    }
}

impl DebugContext {
    /// A context that holds the problem statement and nothing else.
    pub fn new(problem: &str) -> (r: Self)
        ensures
            r@ == DebugContextView::fresh(problem@),
    {
        let r = DebugContext {
            problem_statement: problem.to_owned(),
            symptoms: Vec::new(),
            hypotheses: Vec::new(),
            attempted: Vec::new(),
            evidence: Vec::new(),
            suspected_files: Vec::new(),
            reproduction_steps: None,
            working_theory: None,
            next_to_try: None,
        };
        assert(r@.symptoms =~= Seq::empty());
        assert(r@.hypotheses =~= Seq::empty());
        assert(r@.attempted =~= Seq::empty());
        assert(r@.evidence =~= Seq::empty());
        assert(r@.suspected_files =~= Seq::empty());
        r
    }

    /// Adds a symptom.
    pub fn symptom(self, symptom: &str) -> (r: Self)
        ensures
            r@ == (DebugContextView { symptoms: self@.symptoms.push(symptom@), ..self@ }),
    {
        let mut r = self;
        r.symptoms.push(symptom.to_owned());
        assert(r@.symptoms =~= self@.symptoms.push(symptom@));
        r
    }

    /// Adds a hypothesis, with no evidence for or against it yet.
    pub fn hypothesis(self, theory: &str, likelihood: Likelihood) -> (r: Self)
        ensures
            r@ == (DebugContextView {
                hypotheses: self@.hypotheses.push(
                    HypothesisView {
                        theory: theory@,
                        support: Seq::empty(),
                        against: Seq::empty(),
                        likelihood,
                    },
                ),
                ..self@
            }),
    {
        let mut r = self;
        let h = Hypothesis {
            theory: theory.to_owned(),
            support: Vec::new(),
            against: Vec::new(),
            likelihood,
        };
        assert(h@.support =~= Seq::empty());
        assert(h@.against =~= Seq::empty());
        r.hypotheses.push(h);
        assert(r@.hypotheses =~= self@.hypotheses.push(h@));
        r
    }

    /// Records an attempt.
    pub fn tried(self, what: &str, result: &str, outcome: AttemptOutcome) -> (r: Self)
        ensures
            r@ == (DebugContextView {
                attempted: self@.attempted.push(
                    AttemptView { what: what@, result: result@, outcome },
                ),
                ..self@
            }),
    {
        let mut r = self;
        r.attempted.push(Attempt { what: what.to_owned(), result: result.to_owned(), outcome });
        assert(r@.attempted =~= self@.attempted.push(
            AttemptView { what: what@, result: result@, outcome },
        ));
        r
    }

    /// Adds a piece of evidence, with no source and no time.
    pub fn evidence(self, kind: EvidenceKind, content: &str) -> (r: Self)
        ensures
            r@ == (DebugContextView {
                evidence: self@.evidence.push(
                    EvidenceView { kind, content: content@, source: None, timestamp: None },
                ),
                ..self@
            }),
    {
        let mut r = self;
        r.evidence.push(Evidence { kind, content: content.to_owned(), source: None, timestamp: None });
        assert(r@.evidence =~= self@.evidence.push(
            EvidenceView { kind, content: content@, source: None, timestamp: None },
        ));
        r
    }

    /// Adds a suspected file, at medium confidence and with no line range.
    pub fn suspect_file(self, path: &str, reason: &str) -> (r: Self)
        ensures
            r@ == (DebugContextView {
                suspected_files: self@.suspected_files.push(
                    SuspectedFileView {
                        path: path@,
                        reason: reason@,
                        lines: None,
                        confidence: Likelihood::Medium,
                    },
                ),
                ..self@
            }),
    {
        let mut r = self;
        r.suspected_files.push(
            SuspectedFile {
                path: path.to_owned(),
                reason: reason.to_owned(),
                lines: None,
                confidence: Likelihood::Medium,
            },
        );
        assert(r@.suspected_files =~= self@.suspected_files.push(
            SuspectedFileView {
                path: path@,
                reason: reason@,
                lines: None,
                confidence: Likelihood::Medium,
            },
        ));
        r
    }

    /// Sets the reproduction steps.
    pub fn repro(self, steps: &str) -> (r: Self)
        ensures
            r@ == (DebugContextView { reproduction_steps: Some(steps@), ..self@ }),
    {
        let mut r = self;
        r.reproduction_steps = Some(steps.to_owned());
        r
    }

    /// Sets the working theory.
    pub fn theory(self, theory: &str) -> (r: Self)
        ensures
            r@ == (DebugContextView { working_theory: Some(theory@), ..self@ }),
    {
        let mut r = self;
        r.working_theory = Some(theory.to_owned());
        r
    }

    /// Sets what to try next.
    pub fn try_next(self, next: &str) -> (r: Self)
        ensures
            r@ == (DebugContextView { next_to_try: Some(next@), ..self@ }),
    {
        let mut r = self;
        r.next_to_try = Some(next.to_owned());
        r
    }

    /// Renders this context as a section of the briefing.
    pub fn compile(&self) -> (out: String)
        ensures
            out@ == debug_section(self@),
    {
        let mut out = String::new();
        out.append("## Troubleshooting Context\n\n");
        out.append("### Problem\n\n");
        out.append(self.problem_statement.as_str());
        out.append("\n\n");
        append_bullet_section(&mut out, "### Symptoms\n\n", "- ", &self.symptoms);
        append_paragraph(&mut out, "### How to Reproduce\n\n", &self.reproduction_steps);
        append_paragraph(&mut out, "### Current Working Theory\n\n", &self.working_theory);
        append_section(&mut out, "### Hypotheses\n\n", &self.hypotheses);
        append_section(&mut out, "### Already Tried\n\n", &self.attempted);
        append_block(&mut out, "### Evidence\n\n", &self.evidence);
        append_section(&mut out, "### Suspected Files\n\n", &self.suspected_files);
        append_paragraph(&mut out, "### Suggested Next Step\n\n", &self.next_to_try);
        assert(out@ =~= debug_section(self@));
        out
    }
}

/// With only a problem stated, the troubleshooting section is its title and
/// the problem.
pub proof fn lemma_fresh_debug_section(problem: Seq<char>)
    ensures
        debug_section(DebugContextView::fresh(problem)) == "## Troubleshooting Context\n\n"@
            + "### Problem\n\n"@ + problem + "\n\n"@,
{
    let c = DebugContextView::fresh(problem);
    assert(bullet_lines("- "@, c.symptoms).len() == 0);
    assert(entry_lines::<Hypothesis>(c.hypotheses).len() == 0);
    assert(entry_lines::<Attempt>(c.attempted).len() == 0);
    assert(entry_lines::<Evidence>(c.evidence).len() == 0);
    assert(entry_lines::<SuspectedFile>(c.suspected_files).len() == 0);
    assert(debug_section(c) =~= "## Troubleshooting Context\n\n"@ + "### Problem\n\n"@ + problem
        + "\n\n"@);
}

} // verus!
