//! Deploy mode context: what is ready to ship, how to verify it, how to roll
//! it back.

use crate::render::{
    append_numbered_section, append_paragraph, append_section, entry_lines, numbered_lines,
    paragraph, section, Entry,
};
use crate::text::{opt_text, texts, views};
use vstd::prelude::*;
use vstd::string::StringExecFns;

verus! {

/// Confidence level of a ship item.
#[derive(Debug, Clone, Copy, PartialEq, Eq, Structural)]
pub enum Confidence {
    High,
    Medium,
    Low,
}

impl View for Confidence {
    type V = Confidence;

    open spec fn view(&self) -> Confidence {
        *self
    }
}

impl Default for Confidence {
    fn default() -> (r: Self)
        ensures
            r == Confidence::Medium,
    {
        Confidence::Medium
    }
}

impl Confidence {
    /// The name of the level, as it is rendered.
    pub open spec fn label_text(self) -> Seq<char> {
        match self {
            Confidence::High => "High"@,
            Confidence::Medium => "Medium"@,
            Confidence::Low => "Low"@,
        }
    }

    /// The name of the level, as it is rendered.
    pub fn label(&self) -> (r: &'static str)
        ensures
            r@ == self.label_text(),
    {
        match self {
            Confidence::High => "High",
            Confidence::Medium => "Medium",
            Confidence::Low => "Low",
        }
    }
}

/// Something ready to ship.
#[derive(Debug, Clone)]
pub struct ShipItem {
    /// What it is (file, feature, fix).
    pub item: String,
    /// Brief description.
    pub description: String,
    /// Confidence level.
    pub confidence: Confidence,
}

/// What a ship item holds, as mathematical values.
pub struct ShipItemView {
    pub item: Seq<char>,
    pub description: Seq<char>,
    pub confidence: Confidence,
}

impl View for ShipItem {
    type V = ShipItemView;

    open spec fn view(&self) -> ShipItemView {
        ShipItemView {
            item: self.item@,
            description: self.description@,
            confidence: self.confidence,
        }
    }
}

/// Environment-specific concern.
#[derive(Debug, Clone)]
pub struct EnvConcern {
    /// Which environment (prod, staging, dev).
    pub environment: String,
    /// The concern.
    pub concern: String,
    /// Mitigation if any.
    pub mitigation: Option<String>,
}

/// What an environment concern holds, as mathematical values.
pub struct EnvConcernView {
    pub environment: Seq<char>,
    pub concern: Seq<char>,
    pub mitigation: Option<Seq<char>>,
}

impl View for EnvConcern {
    type V = EnvConcernView;

    open spec fn view(&self) -> EnvConcernView {
        EnvConcernView {
            environment: self.environment@,
            concern: self.concern@,
            mitigation: opt_text(self.mitigation),
        }
    }
}

/// A dependency that must be in place.
#[derive(Debug, Clone)]
pub struct Dependency {
    /// What the dependency is.
    pub name: String,
    /// Why it is needed.
    pub reason: String,
    /// Is it already in place?
    pub in_place: bool,
}

/// What a dependency holds, as mathematical values.
pub struct DependencyView {
    pub name: Seq<char>,
    pub reason: Seq<char>,
    pub in_place: bool,
}

impl View for Dependency {
    type V = DependencyView;

    open spec fn view(&self) -> DependencyView {
        DependencyView { name: self.name@, reason: self.reason@, in_place: self.in_place }
    }
}

/// A breaking change.
#[derive(Debug, Clone)]
pub struct BreakingChange {
    /// What breaks.
    pub what: String,
    /// Who or what is affected.
    pub affects: String,
    /// Migration path.
    pub migration: Option<String>,
}

/// What a breaking change holds, as mathematical values.
pub struct BreakingChangeView {
    pub what: Seq<char>,
    pub affects: Seq<char>,
    pub migration: Option<Seq<char>>,
}

impl View for BreakingChange {
    type V = BreakingChangeView;

    open spec fn view(&self) -> BreakingChangeView {
        BreakingChangeView {
            what: self.what@,
            affects: self.affects@,
            migration: opt_text(self.migration),
        }
    }
}

/// Checklist item.
#[derive(Debug, Clone)]
pub struct ChecklistItem {
    /// The item.
    pub item: String,
    /// Is it done?
    pub done: bool,
}

/// What a checklist item holds, as mathematical values.
pub struct ChecklistItemView {
    pub item: Seq<char>,
    pub done: bool,
}

impl View for ChecklistItem {
    type V = ChecklistItemView;

    open spec fn view(&self) -> ChecklistItemView {
        ChecklistItemView { item: self.item@, done: self.done }
    }
}

/// Context for deployment handoffs.
#[derive(Debug, Clone)]
pub struct DeployContext {
    /// What is ready to ship (files, features, changes).
    pub what_to_ship: Vec<ShipItem>,
    /// Steps to verify the deployment works.
    pub verification_steps: Vec<String>,
    /// How to roll back if things go wrong.
    pub rollback_plan: Option<String>,
    /// Environment-specific concerns.
    pub env_concerns: Vec<EnvConcern>,
    /// Dependencies that must be in place.
    pub dependencies: Vec<Dependency>,
    /// Breaking changes to be aware of.
    pub breaking_changes: Vec<BreakingChange>,
    /// Pre-deployment checklist items.
    pub checklist: Vec<ChecklistItem>,
    /// Post-deployment monitoring notes.
    pub monitoring_notes: Option<String>,
}

/// What a deploy context holds, as mathematical values.
pub struct DeployContextView {
    pub what_to_ship: Seq<ShipItemView>,
    pub verification_steps: Seq<Seq<char>>,
    pub rollback_plan: Option<Seq<char>>,
    pub env_concerns: Seq<EnvConcernView>,
    pub dependencies: Seq<DependencyView>,
    pub breaking_changes: Seq<BreakingChangeView>,
    pub checklist: Seq<ChecklistItemView>,
    pub monitoring_notes: Option<Seq<char>>,
}

impl View for DeployContext {
    type V = DeployContextView;

    open spec fn view(&self) -> DeployContextView {
        DeployContextView {
            what_to_ship: views(self.what_to_ship@),
            verification_steps: texts(self.verification_steps@),
            rollback_plan: opt_text(self.rollback_plan),
            env_concerns: views(self.env_concerns@),
            dependencies: views(self.dependencies@),
            breaking_changes: views(self.breaking_changes@),
            checklist: views(self.checklist@),
            monitoring_notes: opt_text(self.monitoring_notes),
        }
    }
}

impl DeployContextView {
    /// The context with nothing recorded.
    pub open spec fn empty() -> DeployContextView {
        DeployContextView {
            what_to_ship: Seq::empty(),
            verification_steps: Seq::empty(),
            rollback_plan: None,
            env_concerns: Seq::empty(),
            dependencies: Seq::empty(),
            breaking_changes: Seq::empty(),
            checklist: Seq::empty(),
            monitoring_notes: None,
        }
    }
}

/// The line of one ship item.
pub open spec fn ship_line(x: ShipItemView) -> Seq<char> {
    "- **"@ + x.item + "** ("@ + x.confidence.label_text() + "): "@ + x.description + "\n"@
}

/// The lines of one breaking change: what breaks and whom it affects, then
/// the migration path if there is one.
pub open spec fn breaking_lines(x: BreakingChangeView) -> Seq<char> {
    "- **"@ + x.what + "** affects "@ + x.affects + "\n"@ + match x.migration {
        Some(m) => "  Migration: "@ + m + "\n"@,
        None => Seq::empty(),
    }
}

/// The line of one environment concern.
pub open spec fn concern_line(x: EnvConcernView) -> Seq<char> {
    "- **"@ + x.environment + "**: "@ + x.concern + "\n"@
}

/// The line of one checklist item, with its box ticked or not.
pub open spec fn checklist_line(x: ChecklistItemView) -> Seq<char> {
    "- ["@ + (if x.done {
        "x"@
    } else {
        " "@
    }) + "] "@ + x.item + "\n"@
}

/// The rendered deployment section: the title, then in this order and each
/// only if it has content: ready to ship, verification steps, rollback plan,
/// breaking changes, environment concerns, checklist.
pub open spec fn deploy_section(c: DeployContextView) -> Seq<char> {
    "## Deployment Context\n\n"@ + section(
        "### Ready to Ship\n\n"@,
        entry_lines::<ShipItem>(c.what_to_ship),
    ) + section("### Verification Steps\n\n"@, numbered_lines(c.verification_steps)) + paragraph(
        "### Rollback Plan\n\n"@,
        c.rollback_plan,
    ) + section(
        "### Breaking Changes\n\n"@,
        entry_lines::<BreakingChange>(c.breaking_changes),
    ) + section(
        "### Environment Concerns\n\n"@,
        entry_lines::<EnvConcern>(c.env_concerns),
    ) + section(
        "### Checklist\n\n"@,
        entry_lines::<ChecklistItem>(c.checklist),
    )
}

impl Entry for ShipItem {
    open spec fn entry_text(v: ShipItemView) -> Seq<char> {
        ship_line(v)
    }

    fn render(&self) -> (r: String) {
        let mut r = String::new();
        r.append("- **");
        r.append(self.item.as_str());
        r.append("** (");
        r.append(self.confidence.label());
        r.append("): ");
        r.append(self.description.as_str());
        r.append("\n");
        assert(r@ =~= ship_line(self@));
        r
    }
}

impl Entry for BreakingChange {
    open spec fn entry_text(v: BreakingChangeView) -> Seq<char> {
        breaking_lines(v)
    }

    fn render(&self) -> (r: String) {
        let mut r = String::new();
        r.append("- **");
        r.append(self.what.as_str());
        r.append("** affects ");
        r.append(self.affects.as_str());
        r.append("\n");
        match &self.migration {
            Some(m) => {
                r.append("  Migration: ");
                r.append(m.as_str());
                r.append("\n");
                assert(r@ =~= breaking_lines(self@));
            },
            None => {
                assert(r@ =~= breaking_lines(self@));
            },
        }
        r
    }
}

impl Entry for EnvConcern {
    open spec fn entry_text(v: EnvConcernView) -> Seq<char> {
        concern_line(v)
    }

    fn render(&self) -> (r: String) {
        let mut r = String::new();
        r.append("- **");
        r.append(self.environment.as_str());
        r.append("**: ");
        r.append(self.concern.as_str());
        r.append("\n");
        assert(r@ =~= concern_line(self@));
        r
    }
}

impl Entry for ChecklistItem {
    open spec fn entry_text(v: ChecklistItemView) -> Seq<char> {
        checklist_line(v)
    }

    fn render(&self) -> (r: String) {
        let mut r = String::new();
        r.append("- [");
        if self.done {
            r.append("x");
        } else {
            r.append(" ");
        }
        r.append("] ");
        r.append(self.item.as_str());
        r.append("\n");
        assert(r@ =~= checklist_line(self@));
        r
    }
}

impl Default for DeployContext {
    fn default() -> (r: Self)
        ensures
            r@ == DeployContextView::empty(),
    {
        let r = DeployContext {
            what_to_ship: Vec::new(),
            verification_steps: Vec::new(),
            rollback_plan: None,
            env_concerns: Vec::new(),
            dependencies: Vec::new(),
            breaking_changes: Vec::new(),
            checklist: Vec::new(),
            monitoring_notes: None,
        };
        assert(r@.what_to_ship =~= Seq::empty());
        assert(r@.verification_steps =~= Seq::empty());
        assert(r@.env_concerns =~= Seq::empty());
        assert(r@.dependencies =~= Seq::empty());
        assert(r@.breaking_changes =~= Seq::empty());
        assert(r@.checklist =~= Seq::empty());
        r
    }
}

impl DeployContext {
    /// Adds something to ship, at medium confidence.
    pub fn ship(self, item: &str, description: &str) -> (r: Self)
        ensures
            r@ == (DeployContextView {
                what_to_ship: self@.what_to_ship.push(
                    ShipItemView {
                        item: item@,
                        description: description@,
                        confidence: Confidence::Medium,
                    },
                ),
                ..self@
            }),
    {
        let mut r = self;
        r.what_to_ship.push(
            ShipItem {
                item: item.to_owned(),
                description: description.to_owned(),
                confidence: Confidence::Medium,
            },
        );
        assert(r@.what_to_ship =~= self@.what_to_ship.push(
            ShipItemView { item: item@, description: description@, confidence: Confidence::Medium },
        ));
        r
    }

    /// Adds a verification step.
    pub fn verify(self, step: &str) -> (r: Self)
        ensures
            r@ == (DeployContextView {
                verification_steps: self@.verification_steps.push(step@),
                ..self@
            }),
    {
        let mut r = self;
        r.verification_steps.push(step.to_owned());
        assert(r@.verification_steps =~= self@.verification_steps.push(step@));
        r
    }

    /// Sets the rollback plan.
    pub fn rollback(self, plan: &str) -> (r: Self)
        ensures
            r@ == (DeployContextView { rollback_plan: Some(plan@), ..self@ }),
    {
        let mut r = self;
        r.rollback_plan = Some(plan.to_owned());
        r
    }

    /// Adds an environment concern, without mitigation.
    pub fn env_concern(self, env: &str, concern: &str) -> (r: Self)
        ensures
            r@ == (DeployContextView {
                env_concerns: self@.env_concerns.push(
                    EnvConcernView { environment: env@, concern: concern@, mitigation: None },
                ),
                ..self@
            }),
    {
        let mut r = self;
        r.env_concerns.push(
            EnvConcern {
                environment: env.to_owned(),
                concern: concern.to_owned(),
                mitigation: None,
            },
        );
        assert(r@.env_concerns =~= self@.env_concerns.push(
            EnvConcernView { environment: env@, concern: concern@, mitigation: None },
        ));
        r
    }

    /// Adds a breaking change, without migration path.
    pub fn breaking(self, what: &str, affects: &str) -> (r: Self)
        ensures
            r@ == (DeployContextView {
                breaking_changes: self@.breaking_changes.push(
                    BreakingChangeView { what: what@, affects: affects@, migration: None },
                ),
                ..self@
            }),
    {
        let mut r = self;
        r.breaking_changes.push(
            BreakingChange { what: what.to_owned(), affects: affects.to_owned(), migration: None },
        );
        assert(r@.breaking_changes =~= self@.breaking_changes.push(
            BreakingChangeView { what: what@, affects: affects@, migration: None },
        ));
        r
    }

    /// Adds a checklist item.
    pub fn checklist(self, item: &str, done: bool) -> (r: Self)
        ensures
            r@ == (DeployContextView {
                checklist: self@.checklist.push(ChecklistItemView { item: item@, done }),
                ..self@
            }),
    {
        let mut r = self;
        r.checklist.push(ChecklistItem { item: item.to_owned(), done });
        assert(r@.checklist =~= self@.checklist.push(ChecklistItemView { item: item@, done }));
        r
    }

    /// Renders this context as a section of the briefing.
    pub fn compile(&self) -> (out: String)
        ensures
            out@ == deploy_section(self@),
    {
        let mut out = String::new();
        out.append("## Deployment Context\n\n");
        append_section(&mut out, "### Ready to Ship\n\n", &self.what_to_ship);
        append_numbered_section(&mut out, "### Verification Steps\n\n", &self.verification_steps);
        append_paragraph(&mut out, "### Rollback Plan\n\n", &self.rollback_plan);
        append_section(&mut out, "### Breaking Changes\n\n", &self.breaking_changes);
        append_section(&mut out, "### Environment Concerns\n\n", &self.env_concerns);
        append_section(&mut out, "### Checklist\n\n", &self.checklist);
        assert(out@ =~= deploy_section(self@));
        out
    }
}

/// With nothing recorded, the deployment section is its title alone.
pub proof fn lemma_empty_deploy_section()
    ensures
        deploy_section(DeployContextView::empty()) == "## Deployment Context\n\n"@,
{
    let c = DeployContextView::empty();
    assert(entry_lines::<ShipItem>(c.what_to_ship).len() == 0);
    assert(numbered_lines(c.verification_steps).len() == 0);
    assert(entry_lines::<BreakingChange>(c.breaking_changes).len() == 0);
    assert(entry_lines::<EnvConcern>(c.env_concerns).len() == 0);
    assert(entry_lines::<ChecklistItem>(c.checklist).len() == 0);
    assert(deploy_section(c) =~= "## Deployment Context\n\n"@);
}

} // verus!
