//! A store in memory: the store model as a value on which actions are
//! performed and from which the regions are read, for use without a disk.

use crate::sync::{action_views, lists, PendingFile, StoreAction, StoreModel};
use crate::text::{opt_text, same_text, texts};
use vstd::prelude::*;

verus! {

/// A file of a region: its name and what it holds.
#[derive(Debug, Clone)]
pub struct StoredFile {
    pub name: String,
    pub content: String,
}

/// The region that a sequence of files stands for, as a map from name to
/// content; a later file of a name replaces an earlier.
pub open spec fn file_map(files: Seq<StoredFile>) -> Map<Seq<char>, Seq<char>>
    decreases files.len(),
{
    if files.len() == 0 {
        Map::empty()
    } else {
        file_map(files.drop_last()).insert(files.last().name@, files.last().content@)
    }
}

/// Whether no two files have the same name.
pub open spec fn names_distinct(files: Seq<StoredFile>) -> bool {
    forall|i: int, j: int| 0 <= i < j < files.len() ==> files[i].name@ != files[j].name@
}

/// The names of a region are the names of its files.
pub proof fn lemma_file_map_names(files: Seq<StoredFile>, name: Seq<char>)
    ensures
        file_map(files).contains_key(name) <==> exists|i: int|
            0 <= i < files.len() && #[trigger] files[i].name@ == name,
    decreases files.len(),
{
    if files.len() > 0 {
        let rest = files.drop_last();
        lemma_file_map_names(rest, name);
        if file_map(files).contains_key(name) {
            if files.last().name@ == name {
                assert(files[files.len() - 1].name@ == name);
            } else {
                let i = choose|i: int| 0 <= i < rest.len() && #[trigger] rest[i].name@ == name;
                assert(files[i].name@ == name);
            }
        }
        if exists|i: int| 0 <= i < files.len() && #[trigger] files[i].name@ == name {
            let i = choose|i: int| 0 <= i < files.len() && #[trigger] files[i].name@ == name;
            if i < rest.len() {
                assert(rest[i].name@ == name);
            }
        }
    }
}

/// Where names are distinct, a region holds under the name of each file
/// what that file holds.
pub proof fn lemma_file_map_at(files: Seq<StoredFile>, i: int)
    requires
        names_distinct(files),
        0 <= i < files.len(),
    ensures
        file_map(files).contains_key(files[i].name@),
        file_map(files)[files[i].name@] == files[i].content@,
    decreases files.len(),
{
    let rest = files.drop_last();
    if i < files.len() - 1 {
        assert(names_distinct(rest)) by {
            assert forall|a: int, b: int| 0 <= a < b < rest.len() implies rest[a].name@
                != rest[b].name@ by {
                assert(rest[a] == files[a] && rest[b] == files[b]);
            }
        }
        lemma_file_map_at(rest, i);
        assert(rest[i] == files[i]);
        assert(files[i].name@ != files[files.len() - 1].name@);
    }
}

/// Where names are distinct, taking a file out takes its name out of the
/// region and leaves the rest.
pub proof fn lemma_file_map_remove(files: Seq<StoredFile>, i: int)
    requires
        names_distinct(files),
        0 <= i < files.len(),
    ensures
        file_map(files.remove(i)) == file_map(files).remove(files[i].name@),
        names_distinct(files.remove(i)),
    decreases files.len(),
{
    let less = files.remove(i);
    assert(names_distinct(less)) by {
        assert forall|a: int, b: int| 0 <= a < b < less.len() implies less[a].name@
            != less[b].name@ by {
            let a0 = if a < i {
                a
            } else {
                a + 1
            };
            let b0 = if b < i {
                b
            } else {
                b + 1
            };
            assert(less[a] == files[a0] && less[b] == files[b0]);
        }
    }
    let rest = files.drop_last();
    if i == files.len() - 1 {
        assert(less =~= rest);
        assert(!file_map(rest).contains_key(files[i].name@)) by {
            lemma_file_map_names(rest, files[i].name@);
            if exists|k: int| 0 <= k < rest.len() && #[trigger] rest[k].name@ == files[i].name@ {
                let k = choose|k: int|
                    0 <= k < rest.len() && #[trigger] rest[k].name@ == files[i].name@;
                assert(rest[k] == files[k]);
            }
        }
        assert(file_map(less) =~= file_map(files).remove(files[i].name@));
    } else {
        assert(names_distinct(rest)) by {
            assert forall|a: int, b: int| 0 <= a < b < rest.len() implies rest[a].name@
                != rest[b].name@ by {
                assert(rest[a] == files[a] && rest[b] == files[b]);
            }
        }
        lemma_file_map_remove(rest, i);
        assert(rest[i] == files[i]);
        assert(less.drop_last() =~= rest.remove(i));
        assert(less.last() == files.last());
        assert(files[i].name@ != files[files.len() - 1].name@);
        assert(file_map(less) =~= file_map(files).remove(files[i].name@));
    }
}

/// The position of the file of that name, if there is one.
fn position(files: &Vec<StoredFile>, name: &str) -> (r: Option<usize>)
    ensures
        match r {
            Some(i) => i < files@.len() && files@[i as int].name@ == name@,
            None => forall|i: int| 0 <= i < files@.len() ==> files@[i].name@ != name@,
        },
{
    let mut i: usize = 0;
    while i < files.len()
        invariant
            i <= files.len(),
            forall|k: int| 0 <= k < i ==> files@[k].name@ != name@,
        decreases files.len() - i,
    {
        if same_text(files[i].name.as_str(), name) {
            return Some(i);
        }
        i += 1;
    }
    None
}

/// Puts a file into a region, in place of the one of that name if there is
/// one.
fn put(files: &mut Vec<StoredFile>, name: String, content: String)
    requires
        names_distinct(old(files)@),
    ensures
        names_distinct(final(files)@),
        file_map(final(files)@) == file_map(old(files)@).insert(name@, content@),
{
    let ghost before = files@;
    match position(files, name.as_str()) {
        Some(i) => {
            proof {
                lemma_file_map_remove(before, i as int);
            }
            files.remove(i);
        },
        None => {},
    }
    let ghost cleared = files@;
    proof {
        assert(forall|k: int| 0 <= k < cleared.len() ==> cleared[k].name@ != name@) by {
            assert forall|k: int| 0 <= k < cleared.len() implies cleared[k].name@ != name@ by {
                if cleared.len() < before.len() {
                    let i = choose|i: int|
                        0 <= i < before.len() && before[i].name@ == name@ && cleared
                            == before.remove(i);
                    let k0 = if k < i {
                        k
                    } else {
                        k + 1
                    };
                    assert(cleared[k] == before[k0]);
                    if k0 < i {
                        assert(before[k0].name@ != before[i].name@);
                    } else {
                        assert(before[i].name@ != before[k0].name@);
                    }
                }
            }
        }
        assert(file_map(cleared).insert(name@, content@) =~= file_map(before).insert(
            name@,
            content@,
        ));
    }
    files.push(StoredFile { name, content });
    proof {
        assert(files@.drop_last() =~= cleared);
        assert(names_distinct(files@)) by {
            assert forall|a: int, b: int| 0 <= a < b < files@.len() implies files@[a].name@
                != files@[b].name@ by {
                assert(files@[a] == cleared[a]);
                if b < cleared.len() {
                    assert(files@[b] == cleared[b]);
                }
            }
        }
    }
}

/// The listing of a region.
fn listing_of(files: &Vec<StoredFile>) -> (r: Vec<PendingFile>)
    requires
        names_distinct(files@),
    ensures
        lists(r@, file_map(files@)),
        r@.len() == files@.len(),
        forall|i: int|
            0 <= i < r@.len() ==> r@[i].name@ == files@[i].name@ && r@[i].content@
                == files@[i].content@,
{
    let mut r: Vec<PendingFile> = Vec::new();
    let mut i: usize = 0;
    while i < files.len()
        invariant
            i <= files.len(),
            r@.len() == i,
            forall|k: int|
                0 <= k < i ==> r@[k].name@ == files@[k].name@ && r@[k].content@
                    == files@[k].content@,
        decreases files.len() - i,
    {
        r.push(PendingFile { name: files[i].name.clone(), content: files[i].content.clone() });
        i += 1;
    }
    proof {
        let region = file_map(files@);
        assert forall|k: int| 0 <= k < r@.len() implies region.contains_key(
            #[trigger] r@[k].name@,
        ) && region[r@[k].name@] == r@[k].content@ by {
            lemma_file_map_at(files@, k);
        }
        assert forall|name: Seq<char>| region.contains_key(name) implies exists|k: int|
            0 <= k < r@.len() && #[trigger] r@[k].name@ == name by {
            lemma_file_map_names(files@, name);
            let k = choose|k: int| 0 <= k < files@.len() && #[trigger] files@[k].name@ == name;
            assert(r@[k].name@ == name);
        }
    }
    r
}

/// What a region holds under a name, if anything.
fn content_of(files: &Vec<StoredFile>, name: &str) -> (r: Option<String>)
    requires
        names_distinct(files@),
    ensures
        opt_text(r) == if file_map(files@).contains_key(name@) {
            Some(file_map(files@)[name@])
        } else {
            None
        },
{
    proof {
        lemma_file_map_names(files@, name@);
    }
    match position(files, name) {
        Some(i) => {
            proof {
                lemma_file_map_at(files@, i as int);
            }
            Some(files[i].content.clone())
        },
        None => None,
    }
}

/// The views of the fetches made.
pub open spec fn fetch_views(fetches: Seq<(String, String)>) -> Seq<(Seq<char>, Seq<char>)> {
    fetches.map_values(|f: (String, String)| (f.0@, f.1@))
}

/// A store held in memory.
#[derive(Debug)]
pub struct MemoryStore {
    regions: bool,
    ignore_marker: Option<String>,
    pending: Vec<StoredFile>,
    archive: Vec<StoredFile>,
    wip: Option<String>,
    state: Vec<StoredFile>,
    commits: Vec<String>,
    fetches: Vec<(String, String)>,
}

impl View for MemoryStore {
    type V = StoreModel;

    closed spec fn view(&self) -> StoreModel {
        StoreModel {
            regions: self.regions,
            ignore_marker: opt_text(self.ignore_marker),
            pending: file_map(self.pending@),
            archive: file_map(self.archive@),
            wip: opt_text(self.wip),
            state: file_map(self.state@),
            commits: texts(self.commits@),
            fetches: fetch_views(self.fetches@),
        }
    }
}

impl MemoryStore {
    #[verifier::type_invariant]
    spec fn names_are_distinct(self) -> bool {
        names_distinct(self.pending@) && names_distinct(self.archive@) && names_distinct(
            self.state@,
        )
    }

    /// A store in which nothing exists yet.
    pub fn new() -> (r: Self)
        ensures
            r@ == StoreModel::empty(),
    {
        let r = MemoryStore {
            regions: false,
            ignore_marker: None,
            pending: Vec::new(),
            archive: Vec::new(),
            wip: None,
            state: Vec::new(),
            commits: Vec::new(),
            fetches: Vec::new(),
        };
        assert(r@.commits =~= Seq::empty());
        assert(r@.fetches =~= Seq::empty());
        r
    }

    /// Performs one action.
    pub fn perform(&mut self, action: StoreAction)
        ensures
            final(self)@ == old(self)@.after(action@),
    {
        proof {
            use_type_invariant(&*self);
        }
        match action {
            StoreAction::CreateRegions => {
                self.regions = true;
            },
            StoreAction::WriteIgnoreMarker { content } => {
                self.ignore_marker = Some(content);
            },
            StoreAction::WritePending { name, content } => {
                let mut pending: Vec<StoredFile> = Vec::new();
                std::mem::swap(&mut self.pending, &mut pending);
                put(&mut pending, name, content);
                std::mem::swap(&mut self.pending, &mut pending);
            },
            StoreAction::ArchivePending { name } => {
                proof {
                    lemma_file_map_names(self.pending@, name@);
                }
                match position(&self.pending, name.as_str()) {
                    Some(i) => {
                        proof {
                            lemma_file_map_at(self.pending@, i as int);
                            lemma_file_map_remove(self.pending@, i as int);
                        }
                        let mut pending: Vec<StoredFile> = Vec::new();
                        let mut archive: Vec<StoredFile> = Vec::new();
                        std::mem::swap(&mut self.pending, &mut pending);
                        std::mem::swap(&mut self.archive, &mut archive);
                        let file = pending.remove(i);
                        put(&mut archive, file.name, file.content);
                        std::mem::swap(&mut self.pending, &mut pending);
                        std::mem::swap(&mut self.archive, &mut archive);
                    },
                    None => {},
                }
            },
            StoreAction::WriteWip { content } => {
                self.wip = Some(content);
            },
            StoreAction::RemoveWip => {
                self.wip = None;
            },
            StoreAction::WriteState { key, content } => {
                let mut state: Vec<StoredFile> = Vec::new();
                std::mem::swap(&mut self.state, &mut state);
                put(&mut state, key, content);
                std::mem::swap(&mut self.state, &mut state);
            },
            StoreAction::Commit { message } => {
                let mut commits: Vec<String> = Vec::new();
                std::mem::swap(&mut self.commits, &mut commits);
                let ghost before = commits@;
                commits.push(message);
                assert(texts(commits@) =~= texts(before).push(message@));
                std::mem::swap(&mut self.commits, &mut commits);
            },
            StoreAction::Fetch { remote, branch } => {
                let mut fetches: Vec<(String, String)> = Vec::new();
                std::mem::swap(&mut self.fetches, &mut fetches);
                let ghost before = fetches@;
                fetches.push((remote, branch));
                assert(fetch_views(fetches@) =~= fetch_views(before).push((remote@, branch@)));
                std::mem::swap(&mut self.fetches, &mut fetches);
            },
        }
    }

    /// Performs one action, or none.
    pub fn perform_opt(&mut self, action: Option<StoreAction>)
        ensures
            final(self)@ == old(self)@.after_opt(crate::sync::opt_action(action)),
    {
        match action {
            Some(a) => {
                self.perform(a);
            },
            None => {},
        }
    }

    /// Performs a sequence of actions, first to last.
    pub fn perform_all(&mut self, actions: Vec<StoreAction>)
        ensures
            final(self)@ == old(self)@.after_all(action_views(actions@)),
    {
        let ghost all = action_views(actions@);
        let mut rest = actions;
        while rest.len() > 0
            invariant
                rest@.len() <= all.len(),
                action_views(rest@) == all.skip(all.len() - rest@.len()),
                self@.after_all(action_views(rest@)) == old(self)@.after_all(all),
            decreases rest.len(),
        {
            let ghost views = action_views(rest@);
            let action = rest.remove(0);
            proof {
                assert(views[0] == action@);
                assert(action_views(rest@) =~= views.drop_first());
            }
            self.perform(action);
        }
        proof {
            assert(all.skip(0) =~= all);
        }
    }

    /// Whether the regions exist.
    pub fn has_regions(&self) -> (r: bool)
        ensures
            r == self@.regions,
    {
        self.regions
    }

    /// Whether the ignore marker is written.
    pub fn has_ignore_marker(&self) -> (r: bool)
        ensures
            r == self@.ignore_marker is Some,
    {
        self.ignore_marker.is_some()
    }

    /// The listing of the pending region, in the order in which its files
    /// were last written.
    pub fn pending_files(&self) -> (r: Vec<PendingFile>)
        ensures
            lists(r@, self@.pending),
    {
        proof {
            use_type_invariant(self);
        }
        listing_of(&self.pending)
    }

    /// The listing of the archive, in the order in which its files came.
    pub fn archive_files(&self) -> (r: Vec<PendingFile>)
        ensures
            lists(r@, self@.archive),
    {
        proof {
            use_type_invariant(self);
        }
        listing_of(&self.archive)
    }

    /// What the work-in-progress slot holds, if anything.
    pub fn wip(&self) -> (r: Option<String>)
        ensures
            opt_text(r) == self@.wip,
    {
        self.wip.clone()
    }

    /// What the state entry of a key holds, if it exists.
    pub fn state_entry(&self, key: &str) -> (r: Option<String>)
        ensures
            opt_text(r) == self@.state_entry(key@),
    {
        proof {
            use_type_invariant(self);
        }
        content_of(&self.state, key)
    }

    /// How many commits were made.
    pub fn commit_count(&self) -> (r: usize)
        ensures
            r == self@.commits.len(),
    {
        self.commits.len()
    }
}

} // verus!
