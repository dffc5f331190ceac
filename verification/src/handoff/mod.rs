//! The handoff: the unit of transfer between two work sessions. It binds a
//! mode-specific context to who made it, when, and how to warm up.

pub mod debug;
pub mod deploy;
pub mod mode;
pub mod plan;
pub mod prompt;

pub use debug::DebugContext;
pub use deploy::DeployContext;
pub use mode::HandoffMode;
pub use plan::PlanContext;

use crate::codec::Codec;
use crate::context::{SessionState, SessionStateView};
use crate::error::Error;
use crate::handoff::mode::HandoffModeView;
use crate::ident::random_id;
use crate::json::{document_of_text, parse_document, render_document, text_of_document, Json};
use crate::order::Ranked;
use crate::text::{opt_text, opt_view, texts, views};
use crate::time::{Instant, Timestamp};
use vstd::prelude::*;

verus! {

/// Type of a source-control reference.
#[derive(Debug, Clone, Copy, PartialEq, Eq, Structural)]
pub enum GitRefType {
    Commit,
    Branch,
    PullRequest,
    Tag,
}

impl View for GitRefType {
    type V = GitRefType;

    open spec fn view(&self) -> GitRefType {
        *self
    }
}

impl GitRefType {
    /// The name of the type, as it is rendered.
    pub open spec fn label_text(self) -> Seq<char> {
        match self {
            GitRefType::Commit => "Commit"@,
            GitRefType::Branch => "Branch"@,
            GitRefType::PullRequest => "PullRequest"@,
            GitRefType::Tag => "Tag"@,
        }
    }

    /// The name of the type, as it is rendered.
    pub fn label(&self) -> (r: &'static str)
        ensures
            r@ == self.label_text(),
    {
        match self {
            GitRefType::Commit => "Commit",
            GitRefType::Branch => "Branch",
            GitRefType::PullRequest => "PullRequest",
            GitRefType::Tag => "Tag",
        }
    }
}

/// Reference to a source-control object.
#[derive(Debug, Clone)]
pub struct GitRef {
    /// Type of reference.
    pub ref_type: GitRefType,
    /// The reference value (hash, branch name, pull-request number).
    pub value: String,
    /// Optional remote.
    pub remote: Option<String>,
}

/// What a source-control reference holds, as mathematical values.
pub struct GitRefView {
    pub ref_type: GitRefType,
    pub value: Seq<char>,
    pub remote: Option<Seq<char>>,
}

impl View for GitRef {
    type V = GitRefView;

    open spec fn view(&self) -> GitRefView {
        GitRefView { ref_type: self.ref_type, value: self.value@, remote: opt_text(self.remote) }
    }
}

impl GitRef {
    /// A reference to a commit, without remote.
    pub fn commit(sha: &str) -> (r: Self)
        ensures
            r@ == (GitRefView { ref_type: GitRefType::Commit, value: sha@, remote: None }),
    {
        GitRef { ref_type: GitRefType::Commit, value: sha.to_owned(), remote: None }
    }

    /// A reference to a branch, without remote.
    pub fn branch(name: &str) -> (r: Self)
        ensures
            r@ == (GitRefView { ref_type: GitRefType::Branch, value: name@, remote: None }),
    {
        GitRef { ref_type: GitRefType::Branch, value: name.to_owned(), remote: None }
    }

    /// A reference to a pull request, without remote.
    pub fn pull_request(number: &str) -> (r: Self)
        ensures
            r@ == (GitRefView { ref_type: GitRefType::PullRequest, value: number@, remote: None }),
    {
        GitRef { ref_type: GitRefType::PullRequest, value: number.to_owned(), remote: None }
    }
}

/// A file to read first, with its rank.
#[derive(Debug, Clone)]
pub struct PriorityFile {
    /// Path to the file.
    pub path: String,
    /// Why this file matters.
    pub reason: String,
    /// Specific lines or sections to focus on.
    pub focus: Option<String>,
    /// Priority rank, 1 the highest. Ranks are the caller's: they need not
    /// be distinct or without gaps.
    pub rank: u8,
}

/// What a priority file holds, as mathematical values.
pub struct PriorityFileView {
    pub path: Seq<char>,
    pub reason: Seq<char>,
    pub focus: Option<Seq<char>>,
    pub rank: u8,
}

impl View for PriorityFile {
    type V = PriorityFileView;

    open spec fn view(&self) -> PriorityFileView {
        PriorityFileView {
            path: self.path@,
            reason: self.reason@,
            focus: opt_text(self.focus),
            rank: self.rank,
        }
    }
}

/// Warm-up sequence to bootstrap the receiving session.
#[derive(Debug, Clone)]
pub struct WarmUpSequence {
    /// Files to read first, in the order given.
    pub priority_files: Vec<PriorityFile>,
    /// The essential context in few words.
    pub tldr: String,
    /// Key things the receiving session must know.
    pub must_know: Vec<String>,
    /// Suggested first action.
    pub suggested_start: Option<String>,
    /// Estimated tokens needed for full understanding.
    pub estimated_tokens: Option<u32>,
}

/// What a warm-up sequence holds, as mathematical values.
pub struct WarmUpSequenceView {
    pub priority_files: Seq<PriorityFileView>,
    pub tldr: Seq<char>,
    pub must_know: Seq<Seq<char>>,
    pub suggested_start: Option<Seq<char>>,
    pub estimated_tokens: Option<u32>,
}

impl View for WarmUpSequence {
    type V = WarmUpSequenceView;

    open spec fn view(&self) -> WarmUpSequenceView {
        WarmUpSequenceView {
            priority_files: views(self.priority_files@),
            tldr: self.tldr@,
            must_know: texts(self.must_know@),
            suggested_start: opt_text(self.suggested_start),
            estimated_tokens: self.estimated_tokens,
        }
    }
}

impl WarmUpSequenceView {
    /// The sequence that holds a summary and nothing else.
    pub open spec fn fresh(tldr: Seq<char>) -> WarmUpSequenceView {
        WarmUpSequenceView {
            priority_files: Seq::empty(),
            tldr,
            must_know: Seq::empty(),
            suggested_start: None,
            estimated_tokens: None,
        }
    }
}

impl Default for WarmUpSequence {
    fn default() -> (r: Self)
        ensures
            r@ == WarmUpSequenceView::fresh(Seq::empty()),
    {
        let r = WarmUpSequence {
            priority_files: Vec::new(),
            tldr: String::new(),
            must_know: Vec::new(),
            suggested_start: None,
            estimated_tokens: None,
        };
        assert(r@.priority_files =~= Seq::empty());
        assert(r@.must_know =~= Seq::empty());
        r
    }
}

impl WarmUpSequence {
    /// A warm-up sequence that holds the summary and nothing else.
    pub fn new(tldr: &str) -> (r: Self)
        ensures
            r@ == WarmUpSequenceView::fresh(tldr@),
    {
        let mut r = WarmUpSequence::default();
        r.tldr = tldr.to_owned();
        r
    }

    /// Adds a priority file with its rank, without focus note.
    pub fn with_file(self, path: &str, reason: &str, rank: u8) -> (r: Self)
        ensures
            r@ == (WarmUpSequenceView {
                priority_files: self@.priority_files.push(
                    PriorityFileView { path: path@, reason: reason@, focus: None, rank },
                ),
                ..self@
            }),
    {
        let mut r = self;
        let file = PriorityFile {
            path: path.to_owned(),
            reason: reason.to_owned(),
            focus: None,
            rank,
        };
        r.priority_files.push(file);
        assert(r@.priority_files =~= self@.priority_files.push(file@));
        r
    }

    /// Adds a must-know item.
    pub fn must_know(self, item: &str) -> (r: Self)
        ensures
            r@ == (WarmUpSequenceView { must_know: self@.must_know.push(item@), ..self@ }),
    {
        let mut r = self;
        r.must_know.push(item.to_owned());
        assert(r@.must_know =~= self@.must_know.push(item@));
        r
    }

    /// Sets the suggested first action.
    pub fn suggest_start(self, action: &str) -> (r: Self)
        ensures
            r@ == (WarmUpSequenceView { suggested_start: Some(action@), ..self@ }),
    {
        let mut r = self;
        r.suggested_start = Some(action.to_owned());
        r
    }
}

/// A handoff: a context with its provenance and warm-up.
#[derive(Debug, Clone)]
pub struct Handoff {
    /// Unique identifier, a 128-bit value.
    pub id: u128,
    /// The mode with its context.
    pub mode: HandoffMode,
    /// Who created this handoff.
    pub created_by: String,
    /// When this handoff was created.
    pub created_at: Timestamp,
    /// Brief summary, the subject line.
    pub summary: String,
    /// What the creating session did.
    pub session: SessionState,
    /// Warm-up sequence for the receiving session.
    pub warm_up: WarmUpSequence,
    /// Source-control reference this relates to.
    pub git_ref: Option<GitRef>,
    /// Tags, in the order added; a tag may occur twice.
    pub tags: Vec<String>,
}

/// What a handoff holds, as mathematical values.
pub struct HandoffView {
    pub id: u128,
    pub mode: HandoffModeView,
    pub created_by: Seq<char>,
    pub created_at: Instant,
    pub summary: Seq<char>,
    pub session: SessionStateView,
    pub warm_up: WarmUpSequenceView,
    pub git_ref: Option<GitRefView>,
    pub tags: Seq<Seq<char>>,
}

/// The view of an optional source-control reference.
pub open spec fn opt_git_ref(g: Option<GitRef>) -> Option<GitRefView> {
    opt_view(g)
}

impl View for Handoff {
    type V = HandoffView;

    open spec fn view(&self) -> HandoffView {
        HandoffView {
            id: self.id,
            mode: self.mode@,
            created_by: self.created_by@,
            created_at: self.created_at@,
            summary: self.summary@,
            session: self.session@,
            warm_up: self.warm_up@,
            git_ref: opt_git_ref(self.git_ref),
            tags: texts(self.tags@),
        }
    }
}

impl HandoffView {
    /// The handoff as it is created: the given identity, time, mode, summary
    /// and creator, and everything else empty.
    pub open spec fn fresh(
        id: u128,
        created_at: Instant,
        mode: HandoffModeView,
        summary: Seq<char>,
        created_by: Seq<char>,
    ) -> HandoffView {
        HandoffView {
            id,
            mode,
            created_by,
            created_at,
            summary,
            session: SessionStateView::empty(),
            warm_up: WarmUpSequenceView::fresh(Seq::empty()),
            git_ref: None,
            tags: Seq::empty(),
        }
    }
}

impl Ranked for Handoff {
    /// Newer handoffs rank higher.
    open spec fn rank(&self) -> int {
        self.created_at@.ticks()
    }

    fn outranks(&self, other: &Self) -> (b: bool) {
        self.created_at.is_after(&other.created_at)
    }
}

impl Handoff {
    /// The handoff with this identity and creation time, and with nothing
    /// attached yet.
    pub fn assemble(
        id: u128,
        created_at: Timestamp,
        mode: HandoffMode,
        summary: &str,
        created_by: &str,
    ) -> (r: Self)
        ensures
            r@ == HandoffView::fresh(id, created_at@, mode@, summary@, created_by@),
            r.mode == mode,
    {
        let r = Handoff {
            id,
            mode,
            created_by: created_by.to_owned(),
            created_at,
            summary: summary.to_owned(),
            session: SessionState::default(),
            warm_up: WarmUpSequence::default(),
            git_ref: None,
            tags: Vec::new(),
        };
        assert(r@.tags =~= Seq::empty());
        r
    }

    /// A new handoff: a fresh identity, the current time, and nothing
    /// attached yet.
    pub fn new(mode: HandoffMode, summary: &str, created_by: &str) -> (r: Self)
        ensures
            r@ == HandoffView::fresh(r@.id, r@.created_at, mode@, summary@, created_by@),
            r.mode == mode,
    {
        Handoff::assemble(random_id(), Timestamp::now(), mode, summary, created_by)
    }

    /// Sets the session state.
    pub fn with_session(self, session: SessionState) -> (r: Self)
        ensures
            r@ == (HandoffView { session: session@, ..self@ }),
    {
        let mut r = self;
        r.session = session;
        r
    }

    /// Sets the warm-up sequence.
    pub fn with_warm_up(self, warm_up: WarmUpSequence) -> (r: Self)
        ensures
            r@ == (HandoffView { warm_up: warm_up@, ..self@ }),
    {
        let mut r = self;
        r.warm_up = warm_up;
        r
    }

    /// Attaches a source-control reference.
    pub fn with_git_ref(self, git_ref: GitRef) -> (r: Self)
        ensures
            r@ == (HandoffView { git_ref: Some(git_ref@), ..self@ }),
    {
        let mut r = self;
        r.git_ref = Some(git_ref);
        r
    }

    /// Adds a tag behind those already there, whether or not it is among
    /// them.
    pub fn with_tag(self, tag: &str) -> (r: Self)
        ensures
            r@ == (HandoffView { tags: self@.tags.push(tag@), ..self@ }),
    {
        let mut r = self;
        r.tags.push(tag.to_owned());
        assert(r@.tags =~= self@.tags.push(tag@));
        r
    }
}

/// The JSON text of a handoff: that of its document.
pub open spec fn text_of_handoff(h: HandoffView) -> Seq<char> {
    text_of_document(Handoff::encoded(h))
}

/// The handoff that a JSON text holds: the one that its document stands
/// for, or nothing where the text is not JSON or its document not a
/// handoff.
pub open spec fn handoff_of_text(text: Seq<char>) -> Option<HandoffView> {
    match document_of_text(text) {
        Some(doc) => Handoff::decoded(doc),
        None => None,
    }
}

impl Handoff {
    /// The handoff as a JSON document.
    pub fn to_document(&self) -> (doc: Json)
        ensures
            doc@ == Handoff::encoded(self@),
    {
        self.encode()
    }

    /// The handoff that a JSON document stands for. Fails where the
    /// document is not of a handoff's form.
    pub fn from_document(doc: &Json) -> (r: Result<Handoff, Error>)
        ensures
            match r {
                Ok(h) => Handoff::decoded(doc@) == Some(h@),
                Err(e) => Handoff::decoded(doc@) is None && e matches Error::Serialization(_),
            },
    {
        match Handoff::decode(doc) {
            Some(h) => Ok(h),
            None => Err(Error::Serialization("the document is not a handoff".to_owned())),
        }
    }

    /// Serializes the handoff to JSON. Every handoff has its JSON: the
    /// result is never a failure.
    pub fn to_json(&self) -> (r: Result<String, Error>)
        ensures
            r matches Ok(text) && text@ == text_of_handoff(self@),
    {
        let doc = self.encode();
        match render_document(&doc) {
            Ok(text) => Ok(text),
            Err(cause) => Err(Error::Serialization(cause)),
        }
    }

    /// Reads a handoff from JSON. Fails exactly where the text holds none.
    pub fn from_json(json: &str) -> (r: Result<Handoff, Error>)
        ensures
            match r {
                Ok(h) => handoff_of_text(json@) == Some(h@),
                Err(e) => handoff_of_text(json@) is None && e matches Error::Serialization(_),
            },
    {
        match parse_document(json) {
            Ok(doc) => Handoff::from_document(&doc),
            Err(cause) => Err(Error::Serialization(cause)),
        }
    }
}

/// Round trip: the document written for a handoff is read as that handoff,
/// equal in identifier, instants, mode and every collection, provided that
/// the identifier and the instants read back from the texts they are
/// written as, which is for the crates that write and read them to keep.
pub proof fn lemma_handoff_round_trip(h: HandoffView)
    requires
        Handoff::reads_back(h),
    ensures
        Handoff::decoded(Handoff::encoded(h)) == Some(h),
{
    Handoff::lemma_round_trip(h);
}

/// Round trip through text: the JSON written for a handoff is read as that
/// handoff, provided that its document reads back, and that the text
/// written for the document is read as a document that stands for the same
/// handoff: one with the same fields, in whatever order. The second is for
/// the crate that writes and reads JSON to keep.
pub proof fn lemma_handoff_text_round_trip(h: HandoffView)
    requires
        Handoff::reads_back(h),
        document_of_text(text_of_document(Handoff::encoded(h))) matches Some(back)
            && Handoff::decoded(back) == Handoff::decoded(Handoff::encoded(h)),
    ensures
        handoff_of_text(text_of_handoff(h)) == Some(h),
{
    Handoff::lemma_round_trip(h);
}

} // verus!
