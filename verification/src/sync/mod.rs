//! The sync store: three regions under a root (pending, archive and local
//! state with its single work-in-progress slot), and what each operation
//! on them does.
//!
//! The store itself lives on disk and, optionally, under version control.
//! This module decides; its caller performs. Every operation takes what its
//! caller has read from the store and returns the actions to perform on it.
//! The model says what each action does to the store, and the laws are
//! stated over it.

pub mod laws;
pub mod layout;
pub mod model;

pub use layout::{child_path, join_path, SyncConfig, SyncConfigView};
pub use model::{action_views, opt_action, StoreAction, StoreActionView, StoreModel};

use crate::error::{Error, ErrorView};
use crate::handoff::{handoff_of_text, text_of_handoff, Handoff, HandoffView};
use crate::ident::{short_id, short_text};
use crate::json::{
    document_of_text, parse_document, render_document, text_of_document, Json, JsonView,
};
use crate::order::{lemma_ranked, lemma_ranked_mapped, rank_of, ranked, sort_ranked, Ranked};
use crate::sync::layout::ignore_body;
use crate::text::{contains_text, ends_with_text, text_contains, text_ends_with, texts, views};
use crate::time::{formatted, stamp_pattern};
use vstd::prelude::*;
use vstd::string::StrSliceExecFns;
use vstd::string::StringExecFns;

verus! {

/// Whether a file name in the pending region is that of a handoff: whether
/// its extension is `json`, which is to say that it ends in `.json` and has
/// something before that.
pub open spec fn is_handoff_name(name: Seq<char>) -> bool {
    name.len() > 5 && text_ends_with(name, ".json"@)
}

/// Whether a file name in the pending region is that of a handoff.
pub fn is_handoff_file(name: &str) -> (r: bool)
    ensures
        r == is_handoff_name(name@),
{
    proof {
        reveal_strlit(".json");
    }
    name.unicode_len() > 5 && ends_with_text(name, ".json")
}

/// The file name of a pending handoff, given its creation time as a stamp:
/// the stamp, an underscore, the short form of the identifier, `.json`.
pub open spec fn handoff_file_name(stamp: Seq<char>, id: u128) -> Seq<char> {
    stamp + "_"@ + short_text(id) + ".json"@
}

/// The file name under which a handoff is sent: its creation time to the
/// second, then its identifier's short form, so that names sort by time
/// and do not collide.
pub open spec fn sent_name(h: HandoffView) -> Seq<char> {
    handoff_file_name(formatted(h.created_at.secs, h.created_at.nanos, stamp_pattern()), h.id)
}

/// The message of the commit made on sending: the mode kind in brackets and
/// the summary.
pub open spec fn sent_message(h: HandoffView) -> Seq<char> {
    "XAS handoff ["@ + h.mode.kind() + "]: "@ + h.summary
}

/// The file name of a pending handoff, given its creation time as a stamp.
pub fn file_name_for(stamp: &str, id: u128) -> (r: String)
    ensures
        r@ == handoff_file_name(stamp@, id),
{
    let short = short_id(id);
    let mut r = stamp.to_owned();
    r.append("_");
    r.append(short.as_str());
    r.append(".json");
    assert(r@ =~= handoff_file_name(stamp@, id));
    r
}

/// A file found in the pending region: its name and what it holds.
#[derive(Debug, Clone)]
pub struct PendingFile {
    pub name: String,
    pub content: String,
}

/// Whether a file of the pending region is read as a handoff: whether it
/// is named as one and holds one.
pub open spec fn is_readable(file: PendingFile) -> bool {
    is_handoff_name(file.name@) && handoff_of_text(file.content@) is Some
}

/// The handoffs among the files of the pending region, in the order of the
/// listing: those of the files that are read as handoffs.
pub open spec fn readable(files: Seq<PendingFile>) -> Seq<HandoffView>
    decreases files.len(),
{
    if files.len() == 0 {
        Seq::empty()
    } else {
        let rest = readable(files.drop_last());
        let file = files.last();
        if is_readable(file) {
            rest.push(handoff_of_text(file.content@)->0)
        } else {
            rest
        }
    }
}

/// Whether a listing shows a region: a file for each name of the region,
/// with what the region holds under it, and no name twice.
pub open spec fn lists(listing: Seq<PendingFile>, region: Map<Seq<char>, Seq<char>>) -> bool {
    &&& forall|i: int|
        0 <= i < listing.len() ==> region.contains_key(#[trigger] listing[i].name@)
            && region[listing[i].name@] == listing[i].content@
    &&& forall|name: Seq<char>|
        region.contains_key(name) ==> exists|i: int|
            0 <= i < listing.len() && #[trigger] listing[i].name@ == name
    &&& forall|i: int, j: int| 0 <= i < j < listing.len() ==> listing[i].name@ != listing[j].name@
}

/// Whether a file of the pending region is read as the handoff `h`.
pub open spec fn holds(file: PendingFile, h: HandoffView) -> bool {
    is_readable(file) && handoff_of_text(file.content@) == Some(h)
}

/// How many files of a listing satisfy `p`.
pub open spec fn tally(files: Seq<PendingFile>, p: spec_fn(PendingFile) -> bool) -> nat
    decreases files.len(),
{
    if files.len() == 0 {
        0
    } else {
        tally(files.drop_last(), p) + if p(files.last()) {
            1nat
        } else {
            0nat
        }
    }
}

/// Whether `p` looks at nothing but what a file is named and what it
/// holds.
pub open spec fn by_content(p: spec_fn(PendingFile) -> bool) -> bool {
    forall|x: PendingFile, y: PendingFile|
        x.name@ == y.name@ && x.content@ == y.content@ ==> #[trigger] p(x) == #[trigger] p(y)
}

/// Being read as the handoff `h`, as a property of files.
pub open spec fn holding(h: HandoffView) -> spec_fn(PendingFile) -> bool {
    |file: PendingFile| holds(file, h)
}

/// How many files of a listing are read as the handoff `h`.
pub open spec fn holders(files: Seq<PendingFile>, h: HandoffView) -> nat {
    tally(files, holding(h))
}

/// Being read as a handoff, as a property of files.
pub open spec fn being_readable() -> spec_fn(PendingFile) -> bool {
    |file: PendingFile| is_readable(file)
}

/// Whether a file of this name and content is read as the handoff `h`.
pub open spec fn named_holds(name: Seq<char>, content: Seq<char>, h: HandoffView) -> bool {
    is_handoff_name(name) && handoff_of_text(content) == Some(h)
}

/// How often a handoff is received from a listing.
pub open spec fn received_count(files: Seq<PendingFile>, h: HandoffView) -> nat {
    ranked(readable(files), by_creation()).to_multiset().count(h)
}

/// The rank by which handoffs are received: newer first.
pub open spec fn by_creation() -> spec_fn(HandoffView) -> int {
    |h: HandoffView| h.created_at.ticks()
}

/// Whether the name at `i` is the first in the listing to contain `id`.
pub open spec fn first_match(names: Seq<Seq<char>>, id: Seq<char>, i: int) -> bool {
    &&& 0 <= i < names.len()
    &&& text_contains(names[i], id)
    &&& forall|j: int| 0 <= j < i ==> !text_contains(#[trigger] names[j], id)
}

/// Whether no name in the listing contains `id`.
pub open spec fn no_match(names: Seq<Seq<char>>, id: Seq<char>) -> bool {
    forall|j: int| 0 <= j < names.len() ==> !text_contains(#[trigger] names[j], id)
}

/// What sending a handoff does: the file name, its path, and the actions.
#[derive(Debug, Clone)]
pub struct SendPlan {
    /// The name of the file in the pending region.
    pub name: String,
    /// The path of the file.
    pub path: String,
    /// What to perform: the write, then the commit if one is due.
    pub actions: Vec<StoreAction>,
}

/// The actions of a send: the write into the pending region, then the
/// commit where sending commits and the store is under version control.
pub open spec fn send_actions(
    name: Seq<char>,
    document: Seq<char>,
    commits: bool,
    message: Seq<char>,
) -> Seq<StoreActionView> {
    if commits {
        seq![
            StoreActionView::WritePending { name, content: document },
            StoreActionView::Commit { message },
        ]
    } else {
        seq![StoreActionView::WritePending { name, content: document }]
    }
}

/// The actions of initialization: create the regions, and write the ignore
/// marker unless it is there.
pub open spec fn init_actions(marker_present: bool) -> Seq<StoreActionView> {
    if marker_present {
        seq![StoreActionView::CreateRegions]
    } else {
        seq![
            StoreActionView::CreateRegions,
            StoreActionView::WriteIgnoreMarker { content: ignore_body() },
        ]
    }
}

/// The JSON text of a state value: that of the string as a document.
pub open spec fn json_of_text(value: Seq<char>) -> Seq<char> {
    text_of_document(JsonView::Text(value))
}

/// The state value that a JSON text holds: the string that the text is the
/// document of, or nothing where the text is not JSON or not a string.
pub open spec fn text_of_json(content: Seq<char>) -> Option<Seq<char>> {
    match document_of_text(content) {
        Some(JsonView::Text(value)) => Some(value),
        _ => None,
    }
}

/// The action that writes a state entry: the value as JSON under the key.
pub open spec fn json_state_write(key: Seq<char>, value: Seq<char>) -> StoreActionView {
    StoreActionView::WriteState { key, content: json_of_text(value) }
}

/// The action of clearing the slot: its removal, or none where it is empty.
pub open spec fn clear_action(present: bool) -> Option<StoreActionView> {
    if present {
        Some(StoreActionView::RemoveWip)
    } else {
        None
    }
}

/// The sync manager: the layout of a store, and whether the store is under
/// version control.
#[derive(Debug, Clone)]
pub struct SyncManager {
    config: SyncConfig,
    backed: bool,
}

/// What a sync manager holds: the layout and whether the store is backed.
pub struct SyncManagerView {
    pub config: SyncConfigView,
    pub backed: bool,
}

impl View for SyncManager {
    type V = SyncManagerView;

    closed spec fn view(&self) -> SyncManagerView {
        SyncManagerView { config: self.config@, backed: self.backed }
    }
}

impl SyncManager {
    /// A manager for the store laid out by `config`. `backed` says whether
    /// version-control metadata was found at the root.
    pub fn new(config: SyncConfig, backed: bool) -> (r: Self)
        ensures
            r@ == (SyncManagerView { config: config@, backed }),
    {
        SyncManager { config, backed }
    }

    /// The layout of the store.
    pub fn config(&self) -> (r: &SyncConfig)
        ensures
            r@ == self@.config,
    {
        &self.config
    }

    /// Whether the store is under version control.
    pub fn is_backed(&self) -> (r: bool)
        ensures
            r == self@.backed,
    {
        self.backed
    }

    /// Initializes the store: creates the regions, which is harmless where
    /// they exist, and writes the ignore marker unless it is there.
    pub fn init(&self, marker_present: bool) -> (r: Vec<StoreAction>)
        ensures
            action_views(r@) == init_actions(marker_present),
    {
        let mut r: Vec<StoreAction> = Vec::new();
        r.push(StoreAction::CreateRegions);
        if !marker_present {
            r.push(
                StoreAction::WriteIgnoreMarker { content: "wip.json\ncurrent_agent.json\n".to_owned() },
            );
        }
        assert(action_views(r@) =~= init_actions(marker_present));
        r
    }

    /// Sends a handoff whose creation time is given as a stamp: `document`,
    /// its serialized form, goes into the pending region under the
    /// handoff's file name, and is committed where the store commits.
    pub fn send_handoff_stamped(&self, handoff: &Handoff, stamp: &str, document: &str) -> (r:
        SendPlan)
        ensures
            r.name@ == handoff_file_name(stamp@, handoff@.id),
            r.path@ == child_path(self@.config.pending, r.name@),
            action_views(r.actions@) == send_actions(
                r.name@,
                document@,
                self@.config.auto_commit && self@.backed,
                sent_message(handoff@),
            ),
    {
        let name = file_name_for(stamp, handoff.id);
        let path = self.config.pending_file(name.as_str());
        let mut actions: Vec<StoreAction> = Vec::new();
        actions.push(StoreAction::WritePending { name: name.clone(), content: document.to_owned() });
        if self.config.auto_commit {
            let mut message = String::new();
            message.append("XAS handoff [");
            message.append(handoff.mode.kind());
            message.append("]: ");
            message.append(handoff.summary.as_str());
            assert(message@ =~= sent_message(handoff@));
            match self.commit_changes(message.as_str()) {
                Some(commit) => {
                    actions.push(commit);
                },
                None => {},
            }
        }
        assert(action_views(actions@) =~= send_actions(
            name@,
            document@,
            self@.config.auto_commit && self@.backed,
            sent_message(handoff@),
        ));
        SendPlan { name, path, actions }
    }

    /// Sends a handoff: its JSON goes into the pending region under the
    /// handoff's file name, and is committed where the store commits. Every
    /// handoff can be sent: the result is never a failure.
    pub fn send_handoff(&self, handoff: &Handoff) -> (r: Result<SendPlan, Error>)
        ensures
            r matches Ok(plan) && {
                &&& plan.name@ == sent_name(handoff@)
                &&& plan.path@ == child_path(self@.config.pending, plan.name@)
                &&& action_views(plan.actions@) == send_actions(
                    plan.name@,
                    text_of_handoff(handoff@),
                    self@.config.auto_commit && self@.backed,
                    sent_message(handoff@),
                )
            },
    {
        let document = match handoff.to_json() {
            Ok(text) => text,
            Err(e) => {
                return Err(e);
            },
        };
        let stamp = handoff.created_at.format_stamp();
        Ok(self.send_handoff_stamped(handoff, stamp.as_str(), document.as_str()))
    }

    /// The pending handoffs, newest first: of the files listed, those that
    /// are named as handoffs and hold one; the others are passed over.
    /// Handoffs created at the same instant stay in the order of the
    /// listing.
    pub fn receive_handoffs(&self, files: &Vec<PendingFile>) -> (r: Vec<Handoff>)
        ensures
            views(r@) == ranked(readable(files@), by_creation()),
            views(r@).to_multiset() == readable(files@).to_multiset(),
            forall|i: int, j: int|
                0 <= i < j < r@.len() ==> !r@[j]@.created_at.after(r@[i]@.created_at),
    {
        let mut found: Vec<Handoff> = Vec::new();
        let mut k: usize = 0;
        proof {
            assert(files@.take(0) =~= Seq::<PendingFile>::empty());
            assert(views(found@) =~= Seq::<HandoffView>::empty());
        }
        while k < files.len()
            invariant
                k <= files.len(),
                views(found@) == readable(files@.take(k as int)),
            decreases files.len() - k,
        {
            let file = &files[k];
            proof {
                assert(files@.take(k + 1).drop_last() =~= files@.take(k as int));
                assert(files@.take(k + 1).last() == *file);
            }
            if is_handoff_file(file.name.as_str()) {
                match Handoff::from_json(file.content.as_str()) {
                    Ok(handoff) => {
                        let ghost before = found@;
                        found.push(handoff);
                        assert(views(found@) =~= views(before).push(handoff@));
                    },
                    Err(_) => {},
                }
            }
            k += 1;
        }
        proof {
            assert(files@.take(files.len() as int) =~= files@);
        }
        let ghost unordered = found@;
        let r = sort_ranked(found);
        proof {
            let lift = |h: Handoff| h@;
            assert forall|h: Handoff| #[trigger] by_creation()(lift(h)) == rank_of::<Handoff>()(
                h,
            ) by {}
            lemma_ranked_mapped(unordered, lift, rank_of::<Handoff>(), by_creation());
            assert(unordered.map_values(lift) =~= views(unordered));
            assert(r@.map_values(lift) =~= views(r@));
            lemma_ranked(readable(files@), by_creation());
        }
        assert forall|i: int, j: int| 0 <= i < j < r@.len() implies !r@[j]@.created_at.after(
            r@[i]@.created_at,
        ) by {
            assert(rank_of::<Handoff>()(r@[i]) >= rank_of::<Handoff>()(r@[j]));
        }
        r
    }

    /// Archives a pending handoff: the first file in the listing whose name
    /// contains `handoff_id` is to be moved to the archive. Which file is
    /// first is for the listing to say: where several names contain the
    /// identifier, another listing of the same region may choose another
    /// file. Fails where no name contains it.
    pub fn archive_handoff(&self, names: &Vec<String>, handoff_id: &str) -> (r: Result<
        StoreAction,
        Error,
    >)
        ensures
            match r {
                Ok(action) => exists|i: int|
                    first_match(texts(names@), handoff_id@, i) && action@
                        == (StoreActionView::ArchivePending { name: #[trigger] texts(names@)[i] }),
                Err(e) => no_match(texts(names@), handoff_id@) && e@ == ErrorView::HandoffNotFound(
                    handoff_id@,
                ),
            },
    {
        let mut i: usize = 0;
        while i < names.len()
            invariant
                i <= names.len(),
                forall|j: int| 0 <= j < i ==> !text_contains(#[trigger] texts(names@)[j], handoff_id@),
            decreases names.len() - i,
        {
            if contains_text(names[i].as_str(), handoff_id) {
                assert(first_match(texts(names@), handoff_id@, i as int));
                return Ok(StoreAction::ArchivePending { name: names[i].clone() });
            }
            i += 1;
        }
        Err(Error::HandoffNotFound(handoff_id.to_owned()))
    }

    /// Stages a handoff as work in progress: its JSON replaces whatever the
    /// slot holds. Every handoff can be staged: the result is never a
    /// failure.
    pub fn save_wip(&self, handoff: &Handoff) -> (r: Result<StoreAction, Error>)
        ensures
            r matches Ok(action) && action@ == (StoreActionView::WriteWip {
                content: text_of_handoff(handoff@),
            }),
    {
        match handoff.to_json() {
            Ok(content) => Ok(StoreAction::WriteWip { content }),
            Err(e) => Err(e),
        }
    }

    /// The handoff in progress. `content` is what the slot holds, or
    /// nothing where it is empty. An empty slot is no failure; content
    /// that holds no handoff is.
    pub fn load_wip(&self, content: Option<&str>) -> (r: Result<Option<Handoff>, Error>)
        ensures
            match content {
                None => r matches Ok(None),
                Some(c) => match handoff_of_text(c@) {
                    Some(h) => r matches Ok(Some(loaded)) && loaded@ == h,
                    None => r matches Err(Error::Serialization(_)),
                },
            },
    {
        match content {
            None => Ok(None),
            Some(c) => match Handoff::from_json(c) {
                Ok(handoff) => Ok(Some(handoff)),
                Err(e) => Err(e),
            },
        }
    }

    /// Clears the slot: removes it where it is present, does nothing where
    /// it is not.
    pub fn clear_wip(&self, present: bool) -> (r: Option<StoreAction>)
        ensures
            opt_action(r) == clear_action(present),
    {
        if present {
            Some(StoreAction::RemoveWip)
        } else {
            None
        }
    }

    /// Commits everything under the root with `message`; does nothing where
    /// the store is not under version control.
    pub fn commit_changes(&self, message: &str) -> (r: Option<StoreAction>)
        ensures
            opt_action(r) == if self@.backed {
                Some(StoreActionView::Commit { message: message@ })
            } else {
                None
            },
    {
        if self.backed {
            Some(StoreAction::Commit { message: message.to_owned() })
        } else {
            None
        }
    }

    /// Fetches the branch `main` from the remote `origin`, without merging;
    /// does nothing where the store is not under version control.
    pub fn pull(&self) -> (r: Option<StoreAction>)
        ensures
            opt_action(r) == if self@.backed {
                Some(StoreActionView::Fetch { remote: "origin"@, branch: "main"@ })
            } else {
                None
            },
    {
        if self.backed {
            Some(StoreAction::Fetch { remote: "origin".to_owned(), branch: "main".to_owned() })
        } else {
            None
        }
    }

    /// Whether any file listed in the pending region is named as a handoff.
    pub fn has_pending_handoffs(&self, names: &Vec<String>) -> (r: bool)
        ensures
            r == exists|i: int| 0 <= i < names@.len() && is_handoff_name(#[trigger] names@[i]@),
    {
        let mut i: usize = 0;
        while i < names.len()
            invariant
                i <= names.len(),
                forall|j: int| 0 <= j < i ==> !is_handoff_name(#[trigger] names@[j]@),
            decreases names.len() - i,
        {
            if is_handoff_file(names[i].as_str()) {
                return true;
            }
            i += 1;
        }
        false
    }

    /// Reads a state entry. `content` is what the entry's file holds, or
    /// nothing where there is no such file. An absent entry is no failure;
    /// content that is not JSON for one string is.
    pub fn read_state(&self, content: Option<&str>) -> (r: Result<Option<String>, Error>)
        ensures
            match content {
                None => r matches Ok(None),
                Some(c) => match text_of_json(c@) {
                    Some(value) => r matches Ok(Some(v)) && v@ == value,
                    None => r matches Err(Error::Serialization(_)),
                },
            },
    {
        match content {
            None => Ok(None),
            Some(c) => match parse_document(c) {
                Ok(Json::Text(value)) => Ok(Some(value)),
                Ok(_) => Err(Error::Serialization("invalid type: expected a string".to_owned())),
                Err(cause) => Err(Error::Serialization(cause)),
            },
        }
    }

    /// Writes a state entry: the value as JSON under the key. Every value
    /// can be written: the result is never a failure.
    pub fn write_state(&self, key: &str, value: &str) -> (r: Result<StoreAction, Error>)
        ensures
            r matches Ok(action) && action@ == json_state_write(key@, value@),
    {
        match render_document(&Json::Text(value.to_owned())) {
            Ok(content) => Ok(StoreAction::WriteState { key: key.to_owned(), content }),
            Err(cause) => Err(Error::Serialization(cause)),
        }
    }

    /// The current commit. `head` is what version control reports, if
    /// anything. Nothing where the store is not under version control.
    pub fn current_commit(&self, head: Option<String>) -> (r: Option<String>)
        ensures
            r == if self@.backed {
                head
            } else {
                None
            },
    {
        if self.backed {
            head
        } else {
            None
        }
    }

    /// The current branch. `head` is what version control reports, if
    /// anything. Nothing where the store is not under version control.
    pub fn current_branch(&self, head: Option<String>) -> (r: Option<String>)
        ensures
            r == if self@.backed {
                head
            } else {
                None
            },
    {
        if self.backed {
            head
        } else {
            None
        }
    }
}

} // verus!
