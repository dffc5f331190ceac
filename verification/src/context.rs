//! Session state: the append-only log of what a session did, kept for the
//! session that takes over.

use crate::order::{rank_of, ranked, sort_ranked, Ranked};
use crate::text::{decimal, decimal_text, opt_text, opt_view, texts, views};
use crate::time::{Instant, Timestamp};
use vstd::prelude::*;
use vstd::string::StrSliceExecFns;
use vstd::string::StringExecFns;

verus! {

/// Category of an observation.
#[derive(Debug, Clone, Copy, PartialEq, Eq, Structural)]
pub enum ObservationCategory {
    General,
    Pattern,
    Gotcha,
    Insight,
    Question,
    Risk,
}

impl View for ObservationCategory {
    type V = ObservationCategory;

    open spec fn view(&self) -> ObservationCategory {
        *self
    }
}

impl Default for ObservationCategory {
    fn default() -> (r: Self)
        ensures
            r == ObservationCategory::General,
    {
        ObservationCategory::General
    }
}

/// A file that was read.
#[derive(Debug, Clone)]
pub struct FileRead {
    /// Path to the file.
    pub path: String,
    /// Why it was read.
    pub purpose: Option<String>,
    /// Key takeaways from reading it.
    pub takeaways: Vec<String>,
    /// Position in the order of reading, counted from one.
    pub read_order: Option<u32>,
}

/// What a read file holds, as mathematical values.
pub struct FileReadView {
    pub path: Seq<char>,
    pub purpose: Option<Seq<char>>,
    pub takeaways: Seq<Seq<char>>,
    pub read_order: Option<u32>,
}

impl View for FileRead {
    type V = FileReadView;

    open spec fn view(&self) -> FileReadView {
        FileReadView {
            path: self.path@,
            purpose: opt_text(self.purpose),
            takeaways: texts(self.takeaways@),
            read_order: self.read_order,
        }
    }
}

/// The position by which a read file is ordered: its read order, or 999
/// when it has none.
pub open spec fn read_position(read_order: Option<u32>) -> int {
    match read_order {
        Some(n) => n as int,
        None => 999,
    }
}

impl<'a> Ranked for &'a FileRead {
    /// Earlier reads rank higher.
    open spec fn rank(&self) -> int {
        -read_position(self.read_order)
    }

    fn outranks(&self, other: &Self) -> (b: bool) {
        let mine: u32 = match self.read_order {
            Some(n) => n,
            None => 999,
        };
        let theirs: u32 = match other.read_order {
            Some(n) => n,
            None => 999,
        };
        mine < theirs
    }
}

/// A file that was modified.
#[derive(Debug, Clone)]
pub struct FileModified {
    /// Path to the file.
    pub path: String,
    /// Brief summary of changes.
    pub change_summary: Option<String>,
    /// Lines changed, approximately.
    pub lines_changed: Option<u32>,
}

/// What a modified file holds, as mathematical values.
pub struct FileModifiedView {
    pub path: Seq<char>,
    pub change_summary: Option<Seq<char>>,
    pub lines_changed: Option<u32>,
}

impl View for FileModified {
    type V = FileModifiedView;

    open spec fn view(&self) -> FileModifiedView {
        FileModifiedView {
            path: self.path@,
            change_summary: opt_text(self.change_summary),
            lines_changed: self.lines_changed,
        }
    }
}

/// A command or tool that was run.
#[derive(Debug, Clone)]
pub struct CommandRun {
    /// The command.
    pub command: String,
    /// What it was for.
    pub purpose: Option<String>,
    /// Did it succeed?
    pub success: bool,
    /// Notable output, if any.
    pub notable_output: Option<String>,
}

/// What a run command holds, as mathematical values.
pub struct CommandRunView {
    pub command: Seq<char>,
    pub purpose: Option<Seq<char>>,
    pub success: bool,
    pub notable_output: Option<Seq<char>>,
}

impl View for CommandRun {
    type V = CommandRunView;

    open spec fn view(&self) -> CommandRunView {
        CommandRunView {
            command: self.command@,
            purpose: opt_text(self.purpose),
            success: self.success,
            notable_output: opt_text(self.notable_output),
        }
    }
}

/// An observation made during the session.
#[derive(Debug, Clone)]
pub struct Observation {
    /// The observation.
    pub note: String,
    /// Category.
    pub category: ObservationCategory,
    /// Importance, from 1 to 5.
    pub importance: u8,
}

/// What an observation holds, as mathematical values.
pub struct ObservationView {
    pub note: Seq<char>,
    pub category: ObservationCategory,
    pub importance: u8,
}

impl View for Observation {
    type V = ObservationView;

    open spec fn view(&self) -> ObservationView {
        ObservationView { note: self.note@, category: self.category, importance: self.importance }
    }
}

/// A decision made during the session.
#[derive(Debug, Clone)]
pub struct SessionDecision {
    /// What was decided.
    pub decision: String,
    /// Why, briefly.
    pub why: String,
    /// Alternatives considered.
    pub alternatives: Vec<String>,
}

/// What a session decision holds, as mathematical values.
pub struct SessionDecisionView {
    pub decision: Seq<char>,
    pub why: Seq<char>,
    pub alternatives: Seq<Seq<char>>,
}

impl View for SessionDecision {
    type V = SessionDecisionView;

    open spec fn view(&self) -> SessionDecisionView {
        SessionDecisionView {
            decision: self.decision@,
            why: self.why@,
            alternatives: texts(self.alternatives@),
        }
    }
}

/// Something that was tried but did not work.
#[derive(Debug, Clone)]
pub struct DeadEnd {
    /// What was tried.
    pub approach: String,
    /// Why it did not work.
    pub reason: String,
    /// Should this be revisited?
    pub revisit: bool,
}

/// What a dead end holds, as mathematical values.
pub struct DeadEndView {
    pub approach: Seq<char>,
    pub reason: Seq<char>,
    pub revisit: bool,
}

impl View for DeadEnd {
    type V = DeadEndView;

    open spec fn view(&self) -> DeadEndView {
        DeadEndView { approach: self.approach@, reason: self.reason@, revisit: self.revisit }
    }
}

/// What a session did.
#[derive(Debug, Clone)]
pub struct SessionState {
    /// When the session started.
    pub started_at: Option<Timestamp>,
    /// When the session ended.
    pub ended_at: Option<Timestamp>,
    /// Files that were read during the session.
    pub files_read: Vec<FileRead>,
    /// Files that were modified.
    pub files_modified: Vec<FileModified>,
    /// Files that were created.
    pub files_created: Vec<String>,
    /// Commands and tools that were run.
    pub commands_run: Vec<CommandRun>,
    /// Key observations made during the session.
    pub observations: Vec<Observation>,
    /// Decisions made during the session.
    pub decisions: Vec<SessionDecision>,
    /// Things that did not work.
    pub dead_ends: Vec<DeadEnd>,
}

/// What a session state holds, as mathematical values.
pub struct SessionStateView {
    pub started_at: Option<Instant>,
    pub ended_at: Option<Instant>,
    pub files_read: Seq<FileReadView>,
    pub files_modified: Seq<FileModifiedView>,
    pub files_created: Seq<Seq<char>>,
    pub commands_run: Seq<CommandRunView>,
    pub observations: Seq<ObservationView>,
    pub decisions: Seq<SessionDecisionView>,
    pub dead_ends: Seq<DeadEndView>,
}

/// The view of an optional timestamp.
pub open spec fn opt_instant(t: Option<Timestamp>) -> Option<Instant> {
    opt_view(t)
}

impl View for SessionState {
    type V = SessionStateView;

    open spec fn view(&self) -> SessionStateView {
        SessionStateView {
            started_at: opt_instant(self.started_at),
            ended_at: opt_instant(self.ended_at),
            files_read: views(self.files_read@),
            files_modified: views(self.files_modified@),
            files_created: texts(self.files_created@),
            commands_run: views(self.commands_run@),
            observations: views(self.observations@),
            decisions: views(self.decisions@),
            dead_ends: views(self.dead_ends@),
        }
    }
}

impl SessionStateView {
    /// The log with nothing recorded and no start or end.
    pub open spec fn empty() -> SessionStateView {
        SessionStateView {
            started_at: None,
            ended_at: None,
            files_read: Seq::empty(),
            files_modified: Seq::empty(),
            files_created: Seq::empty(),
            commands_run: Seq::empty(),
            observations: Seq::empty(),
            decisions: Seq::empty(),
            dead_ends: Seq::empty(),
        }
    }

    /// The read order given to the next file read: one more than the number
    /// of files read so far, held at the largest 32-bit number.
    pub open spec fn next_read_order(self) -> u32 {
        if self.files_read.len() < u32::MAX {
            (self.files_read.len() + 1) as u32
        } else {
            u32::MAX
        }
    }

    /// The log after one more file read.
    pub open spec fn with_read(self, path: Seq<char>, purpose: Option<Seq<char>>) -> SessionStateView {
        SessionStateView {
            files_read: self.files_read.push(
                FileReadView {
                    path,
                    purpose,
                    takeaways: Seq::empty(),
                    read_order: Some(self.next_read_order()),
                },
            ),
            ..self
        }
    }

    /// The log after one more observation.
    pub open spec fn with_observation(
        self,
        note: Seq<char>,
        category: ObservationCategory,
        importance: u8,
    ) -> SessionStateView {
        SessionStateView {
            observations: self.observations.push(ObservationView { note, category, importance }),
            ..self
        }
    }
}

/// An importance held within 1 to 5.
pub open spec fn clamped_importance(importance: u8) -> u8 {
    if importance < 1 {
        1
    } else if importance > 5 {
        5
    } else {
        importance
    }
}

/// One sentence of a summary: the words before the count, the count, the
/// words behind it; nothing when the count is zero.
pub open spec fn count_sentence(before: Seq<char>, count: nat, behind: Seq<char>) -> Seq<char> {
    if count == 0 {
        Seq::empty()
    } else {
        before + decimal_text(count) + behind
    }
}

/// The sentences of a summary, each with a space behind it: files modified,
/// files created, decisions made, dead ends, each only if there are any.
pub open spec fn summary_sentences(s: SessionStateView) -> Seq<char> {
    count_sentence("Modified "@, s.files_modified.len(), " files. "@) + count_sentence(
        "Created "@,
        s.files_created.len(),
        " files. "@,
    ) + count_sentence("Made "@, s.decisions.len(), " decisions. "@) + count_sentence(
        ""@,
        s.dead_ends.len(),
        " dead ends noted. "@,
    )
}

/// The summary of a session: its sentences without the space behind the
/// last, or `Exploratory session.` when there are none.
pub open spec fn summary_text(s: SessionStateView) -> Seq<char> {
    let sentences = summary_sentences(s);
    if sentences.len() == 0 {
        "Exploratory session."@
    } else {
        sentences.drop_last()
    }
}

fn append_count_sentence(out: &mut String, before: &str, count: usize, behind: &str)
    ensures
        final(out)@ == old(out)@ + count_sentence(before@, count as nat, behind@),
{
    if count > 0 {
        let number = decimal(count as u64);
        out.append(before);
        out.append(number.as_str());
        out.append(behind);
        assert(out@ =~= old(out)@ + count_sentence(before@, count as nat, behind@));
    } else {
        assert(out@ =~= old(out)@ + count_sentence(before@, count as nat, behind@));
    }
}

impl Default for SessionState {
    fn default() -> (r: Self)
        ensures
            r@ == SessionStateView::empty(),
    {
        let r = SessionState {
            started_at: None,
            ended_at: None,
            files_read: Vec::new(),
            files_modified: Vec::new(),
            files_created: Vec::new(),
            commands_run: Vec::new(),
            observations: Vec::new(),
            decisions: Vec::new(),
            dead_ends: Vec::new(),
        };
        assert(r@.files_read =~= Seq::empty());
        assert(r@.files_modified =~= Seq::empty());
        assert(r@.files_created =~= Seq::empty());
        assert(r@.commands_run =~= Seq::empty());
        assert(r@.observations =~= Seq::empty());
        assert(r@.decisions =~= Seq::empty());
        assert(r@.dead_ends =~= Seq::empty());
        r
    }
}

impl SessionState {
    /// A log that starts at `started_at`, with nothing recorded.
    pub fn started(started_at: Timestamp) -> (r: Self)
        ensures
            r@ == (SessionStateView { started_at: Some(started_at@), ..SessionStateView::empty() }),
    {
        let mut r = SessionState::default();
        r.started_at = Some(started_at);
        r
    }

    /// A log that starts now, with nothing recorded.
    pub fn new() -> (r: Self)
        ensures
            r@.started_at is Some,
            r@ == (SessionStateView { started_at: r@.started_at, ..SessionStateView::empty() }),
    {
        SessionState::started(Timestamp::now())
    }

    fn push_read(self, path: &str, purpose: Option<String>) -> (r: Self)
        ensures
            r@ == self@.with_read(path@, opt_text(purpose)),
    {
        let mut r = self;
        let count = r.files_read.len();
        let order: u32 = if count < u32::MAX as usize {
            (count + 1) as u32
        } else {
            u32::MAX
        };
        let entry = FileRead {
            path: path.to_owned(),
            purpose,
            takeaways: Vec::new(),
            read_order: Some(order),
        };
        assert(entry@.takeaways =~= Seq::empty());
        r.files_read.push(entry);
        assert(r@.files_read =~= self@.files_read.push(entry@));
        r
    }

    /// Records a file read, with the next read order.
    pub fn read_file(self, path: &str) -> (r: Self)
        ensures
            r@ == self@.with_read(path@, None),
    {
        self.push_read(path, None)
    }

    /// Records a file read and why it was read, with the next read order.
    pub fn read_file_for(self, path: &str, purpose: &str) -> (r: Self)
        ensures
            r@ == self@.with_read(path@, Some(purpose@)),
    {
        self.push_read(path, Some(purpose.to_owned()))
    }

    /// Records a file modification with a summary of the change.
    pub fn modified_file(self, path: &str, summary: &str) -> (r: Self)
        ensures
            r@ == (SessionStateView {
                files_modified: self@.files_modified.push(
                    FileModifiedView {
                        path: path@,
                        change_summary: Some(summary@),
                        lines_changed: None,
                    },
                ),
                ..self@
            }),
    {
        let mut r = self;
        let entry = FileModified {
            path: path.to_owned(),
            change_summary: Some(summary.to_owned()),
            lines_changed: None,
        };
        r.files_modified.push(entry);
        assert(r@.files_modified =~= self@.files_modified.push(entry@));
        r
    }

    /// Records a created file.
    pub fn created_file(self, path: &str) -> (r: Self)
        ensures
            r@ == (SessionStateView { files_created: self@.files_created.push(path@), ..self@ }),
    {
        let mut r = self;
        r.files_created.push(path.to_owned());
        assert(r@.files_created =~= self@.files_created.push(path@));
        r
    }

    /// Records a command that was run, without purpose or output.
    pub fn ran_command(self, command: &str, success: bool) -> (r: Self)
        ensures
            r@ == (SessionStateView {
                commands_run: self@.commands_run.push(
                    CommandRunView {
                        command: command@,
                        purpose: None,
                        success,
                        notable_output: None,
                    },
                ),
                ..self@
            }),
    {
        let mut r = self;
        let entry = CommandRun {
            command: command.to_owned(),
            purpose: None,
            success,
            notable_output: None,
        };
        r.commands_run.push(entry);
        assert(r@.commands_run =~= self@.commands_run.push(entry@));
        r
    }

    fn push_observation(self, note: &str, category: ObservationCategory, importance: u8) -> (r:
        Self)
        ensures
            r@ == self@.with_observation(note@, category, importance),
    {
        let mut r = self;
        let entry = Observation { note: note.to_owned(), category, importance };
        r.observations.push(entry);
        assert(r@.observations =~= self@.observations.push(entry@));
        r
    }

    /// Records an observation, its importance held within 1 to 5.
    pub fn observed(self, note: &str, category: ObservationCategory, importance: u8) -> (r: Self)
        ensures
            r@ == self@.with_observation(note@, category, clamped_importance(importance)),
    {
        let held: u8 = if importance < 1 {
            1
        } else if importance > 5 {
            5
        } else {
            importance
        };
        self.push_observation(note, category, held)
    }

    /// Records a gotcha: an observation of that category, of importance 4.
    pub fn gotcha(self, note: &str) -> (r: Self)
        ensures
            r@ == self@.with_observation(note@, ObservationCategory::Gotcha, 4),
    {
        self.push_observation(note, ObservationCategory::Gotcha, 4)
    }

    /// Records a decision, with no alternatives.
    pub fn decided(self, decision: &str, why: &str) -> (r: Self)
        ensures
            r@ == (SessionStateView {
                decisions: self@.decisions.push(
                    SessionDecisionView {
                        decision: decision@,
                        why: why@,
                        alternatives: Seq::empty(),
                    },
                ),
                ..self@
            }),
    {
        let mut r = self;
        let entry = SessionDecision {
            decision: decision.to_owned(),
            why: why.to_owned(),
            alternatives: Vec::new(),
        };
        assert(entry@.alternatives =~= Seq::empty());
        r.decisions.push(entry);
        assert(r@.decisions =~= self@.decisions.push(entry@));
        r
    }

    /// Records a dead end, not marked for another look.
    pub fn dead_end(self, approach: &str, reason: &str) -> (r: Self)
        ensures
            r@ == (SessionStateView {
                dead_ends: self@.dead_ends.push(
                    DeadEndView { approach: approach@, reason: reason@, revisit: false },
                ),
                ..self@
            }),
    {
        let mut r = self;
        let entry = DeadEnd {
            approach: approach.to_owned(),
            reason: reason.to_owned(),
            revisit: false,
        };
        r.dead_ends.push(entry);
        assert(r@.dead_ends =~= self@.dead_ends.push(entry@));
        r
    }

    /// Ends the session at `ended_at`.
    pub fn ended(self, ended_at: Timestamp) -> (r: Self)
        ensures
            r@ == (SessionStateView { ended_at: Some(ended_at@), ..self@ }),
    {
        let mut r = self;
        r.ended_at = Some(ended_at);
        r
    }

    /// Ends the session now.
    pub fn end(self) -> (r: Self)
        ensures
            r@.ended_at is Some,
            r@ == (SessionStateView { ended_at: r@.ended_at, ..self@ }),
    {
        self.ended(Timestamp::now())
    }

    /// The files read, by rising read order; files of equal order, and
    /// those without one, which count as 999, in the order they were
    /// recorded.
    pub fn files_by_read_order(&self) -> (r: Vec<&FileRead>)
        ensures
            r@ == ranked(self.files_read@.map_values(|f: FileRead| &f), rank_of::<&FileRead>()),
            r@.len() == self.files_read@.len(),
            forall|i: int, j: int|
                0 <= i < j < r@.len() ==> read_position(r@[i].read_order) <= read_position(
                    r@[j].read_order,
                ),
    {
        let ghost all = self.files_read@.map_values(|f: FileRead| &f);
        let mut files: Vec<&FileRead> = Vec::new();
        let mut i: usize = 0;
        while i < self.files_read.len()
            invariant
                i <= self.files_read.len(),
                all == self.files_read@.map_values(|f: FileRead| &f),
                files@ == all.take(i as int),
            decreases self.files_read.len() - i,
        {
            files.push(&self.files_read[i]);
            assert(files@ =~= all.take(i + 1));
            i += 1;
        }
        assert(all.take(self.files_read.len() as int) =~= all);
        let r = sort_ranked(files);
        assert forall|i: int, j: int| 0 <= i < j < r@.len() implies read_position(
            r@[i].read_order,
        ) <= read_position(r@[j].read_order) by {
            assert(rank_of::<&FileRead>()(r@[i]) >= rank_of::<&FileRead>()(r@[j]));
        }
        r
    }

    /// The observations of importance 3 or more, in the order they were
    /// recorded.
    pub fn important_observations(&self) -> (r: Vec<&Observation>)
        ensures
            r@.map_values(|o: &Observation| *o) == self.observations@.filter(
                |o: Observation| o.importance >= 3,
            ),
    {
        let ghost keep = |o: Observation| o.importance >= 3;
        let mut r: Vec<&Observation> = Vec::new();
        let mut i: usize = 0;
        proof {
            assert(self.observations@.take(0) =~= Seq::empty());
            assert(r@.map_values(|o: &Observation| *o) =~= Seq::empty());
        }
        while i < self.observations.len()
            invariant
                i <= self.observations.len(),
                keep == |o: Observation| o.importance >= 3,
                r@.map_values(|o: &Observation| *o) == self.observations@.take(i as int).filter(
                    keep,
                ),
            decreases self.observations.len() - i,
        {
            let ghost before = r@.map_values(|o: &Observation| *o);
            let o = &self.observations[i];
            proof {
                let next = self.observations@.take(i + 1);
                assert(next.drop_last() =~= self.observations@.take(i as int));
                assert(next.last() == *o);
                reveal(Seq::filter);
            }
            if o.importance >= 3 {
                r.push(o);
                assert(r@.map_values(|o: &Observation| *o) =~= before.push(*o));
            }
            i += 1;
        }
        assert(self.observations@.take(self.observations.len() as int) =~= self.observations@);
        r
    }

    /// A one-line summary of the session.
    pub fn summarize(&self) -> (r: String)
        ensures
            r@ == summary_text(self@),
    {
        let mut sentences = String::new();
        append_count_sentence(&mut sentences, "Modified ", self.files_modified.len(), " files. ");
        append_count_sentence(&mut sentences, "Created ", self.files_created.len(), " files. ");
        append_count_sentence(&mut sentences, "Made ", self.decisions.len(), " decisions. ");
        append_count_sentence(&mut sentences, "", self.dead_ends.len(), " dead ends noted. ");
        assert(sentences@ =~= summary_sentences(self@));
        let n = sentences.as_str().unicode_len();
        if n == 0 {
            "Exploratory session.".to_owned()
        } else {
            let r = sentences.as_str().substring_char(0, n - 1).to_owned();
            assert(r@ =~= sentences@.drop_last());
            r
        }
    }
}

} // verus!
