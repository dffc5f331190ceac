//! The model of a store: what it holds, the actions that can be performed
//! on it, and what each action does to it.

use vstd::prelude::*;

verus! {

/// One thing to perform on the store.
#[derive(Debug, Clone)]
pub enum StoreAction {
    /// Create the pending, state and archive directories where absent.
    CreateRegions,
    /// Write the ignore marker into the state directory.
    WriteIgnoreMarker { content: String },
    /// Write a file into the pending region, replacing one of that name.
    WritePending { name: String, content: String },
    /// Move a file from the pending region to the archive, by one rename.
    ArchivePending { name: String },
    /// Write the work-in-progress slot, replacing what it holds.
    WriteWip { content: String },
    /// Remove the work-in-progress slot.
    RemoveWip,
    /// Write a state entry, replacing the one of that key.
    WriteState { key: String, content: String },
    /// Stage everything under the root and commit it with this message.
    Commit { message: String },
    /// Fetch a branch from a remote, without merging.
    Fetch { remote: String, branch: String },
}

/// An action on the store, as mathematical values.
pub enum StoreActionView {
    CreateRegions,
    WriteIgnoreMarker { content: Seq<char> },
    WritePending { name: Seq<char>, content: Seq<char> },
    ArchivePending { name: Seq<char> },
    WriteWip { content: Seq<char> },
    RemoveWip,
    WriteState { key: Seq<char>, content: Seq<char> },
    Commit { message: Seq<char> },
    Fetch { remote: Seq<char>, branch: Seq<char> },
}

impl View for StoreAction {
    type V = StoreActionView;

    open spec fn view(&self) -> StoreActionView {
        match self {
            StoreAction::CreateRegions => StoreActionView::CreateRegions,
            StoreAction::WriteIgnoreMarker { content } => StoreActionView::WriteIgnoreMarker {
                content: content@,
            },
            StoreAction::WritePending { name, content } => StoreActionView::WritePending {
                name: name@,
                content: content@,
            },
            StoreAction::ArchivePending { name } => StoreActionView::ArchivePending { name: name@ },
            StoreAction::WriteWip { content } => StoreActionView::WriteWip { content: content@ },
            StoreAction::RemoveWip => StoreActionView::RemoveWip,
            StoreAction::WriteState { key, content } => StoreActionView::WriteState {
                key: key@,
                content: content@,
            },
            StoreAction::Commit { message } => StoreActionView::Commit { message: message@ },
            StoreAction::Fetch { remote, branch } => StoreActionView::Fetch {
                remote: remote@,
                branch: branch@,
            },
        }
    }
}

/// The view of an optional action.
pub open spec fn opt_action(a: Option<StoreAction>) -> Option<StoreActionView> {
    match a {
        Some(a) => Some(a@),
        None => None,
    }
}

/// The views of a sequence of actions.
pub open spec fn action_views(actions: Seq<StoreAction>) -> Seq<StoreActionView> {
    actions.map_values(|a: StoreAction| a@)
}

/// What a store holds: its regions as maps from file name to content, the
/// work-in-progress slot, the state entries by key, and what was committed
/// and fetched.
pub struct StoreModel {
    /// Whether the three directories exist.
    pub regions: bool,
    /// The ignore marker, if written.
    pub ignore_marker: Option<Seq<char>>,
    /// The pending region.
    pub pending: Map<Seq<char>, Seq<char>>,
    /// The archive.
    pub archive: Map<Seq<char>, Seq<char>>,
    /// The work-in-progress slot.
    pub wip: Option<Seq<char>>,
    /// The state entries.
    pub state: Map<Seq<char>, Seq<char>>,
    /// The messages of the commits made, oldest first.
    pub commits: Seq<Seq<char>>,
    /// The fetches made, oldest first, each a remote and a branch.
    pub fetches: Seq<(Seq<char>, Seq<char>)>,
}

impl StoreModel {
    /// A store in which nothing exists yet.
    pub open spec fn empty() -> StoreModel {
        StoreModel {
            regions: false,
            ignore_marker: None,
            pending: Map::empty(),
            archive: Map::empty(),
            wip: None,
            state: Map::empty(),
            commits: Seq::empty(),
            fetches: Seq::empty(),
        }
    }

    /// The store after one action. Archiving a name that is not pending
    /// changes nothing.
    pub open spec fn after(self, action: StoreActionView) -> StoreModel {
        match action {
            StoreActionView::CreateRegions => StoreModel { regions: true, ..self },
            StoreActionView::WriteIgnoreMarker { content } => StoreModel {
                ignore_marker: Some(content),
                ..self
            },
            StoreActionView::WritePending { name, content } => StoreModel {
                pending: self.pending.insert(name, content),
                ..self
            },
            StoreActionView::ArchivePending { name } => if self.pending.contains_key(name) {
                StoreModel {
                    pending: self.pending.remove(name),
                    archive: self.archive.insert(name, self.pending[name]),
                    ..self
                }
            } else {
                self
            },
            StoreActionView::WriteWip { content } => StoreModel { wip: Some(content), ..self },
            StoreActionView::RemoveWip => StoreModel { wip: None, ..self },
            StoreActionView::WriteState { key, content } => StoreModel {
                state: self.state.insert(key, content),
                ..self
            },
            StoreActionView::Commit { message } => StoreModel {
                commits: self.commits.push(message),
                ..self
            },
            StoreActionView::Fetch { remote, branch } => StoreModel {
                fetches: self.fetches.push((remote, branch)),
                ..self
            },
        }
    }

    /// The store after one action, or unchanged where there is none.
    pub open spec fn after_opt(self, action: Option<StoreActionView>) -> StoreModel {
        match action {
            Some(a) => self.after(a),
            None => self,
        }
    }

    /// The store after a sequence of actions, first to last.
    pub open spec fn after_all(self, actions: Seq<StoreActionView>) -> StoreModel
        decreases actions.len(),
    {
        if actions.len() == 0 {
            self
        } else {
            self.after(actions[0]).after_all(actions.drop_first())
        }
    }

    /// What a read of the state entry `key` finds.
    pub open spec fn state_entry(self, key: Seq<char>) -> Option<Seq<char>> {
        if self.state.contains_key(key) {
            Some(self.state[key])
        } else {
            None
        }
    }
}

} // verus!
