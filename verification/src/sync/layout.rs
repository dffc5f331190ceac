//! The layout of a store: where its regions and files lie under the root.

use vstd::prelude::*;
use vstd::string::StrSliceExecFns;
use vstd::string::StringExecFns;

verus! {

/// The path of `name` under the directory `dir`: the two joined by one
/// separator, none added where `dir` is empty or ends in one.
pub open spec fn child_path(dir: Seq<char>, name: Seq<char>) -> Seq<char> {
    if dir.len() == 0 || dir.last() == '/' {
        dir + name
    } else {
        dir + "/"@ + name
    }
}

/// The path of `name` under the directory `dir`.
pub fn join_path(dir: &str, name: &str) -> (r: String)
    ensures
        r@ == child_path(dir@, name@),
{
    let n = dir.unicode_len();
    let mut r = dir.to_owned();
    if n > 0 && dir.get_char(n - 1) != '/' {
        r.append("/");
    }
    r.append(name);
    assert(r@ =~= child_path(dir@, name@));
    r
}

/// Where the regions of a store lie, and whether sending commits.
#[derive(Debug, Clone)]
pub struct SyncConfig {
    /// The root directory, usually a version-control working copy.
    pub sync_dir: String,
    /// Directory of pending handoffs, shared by all identities.
    pub pending: String,
    /// Directory of local state: identity and work in progress.
    pub state: String,
    /// Directory of archived handoffs.
    pub archive: String,
    /// Whether sending a handoff commits it.
    pub auto_commit: bool,
    /// Whether a commit is pushed afterwards.
    pub auto_push: bool,
}

/// What a layout holds, as mathematical values.
pub struct SyncConfigView {
    pub sync_dir: Seq<char>,
    pub pending: Seq<char>,
    pub state: Seq<char>,
    pub archive: Seq<char>,
    pub auto_commit: bool,
    pub auto_push: bool,
}

impl View for SyncConfig {
    type V = SyncConfigView;

    open spec fn view(&self) -> SyncConfigView {
        SyncConfigView {
            sync_dir: self.sync_dir@,
            pending: self.pending@,
            state: self.state@,
            archive: self.archive@,
            auto_commit: self.auto_commit,
            auto_push: self.auto_push,
        }
    }
}

impl SyncConfigView {
    /// The layout under the current directory: `pending`, `.xas` and
    /// `archive`, committing on send, never pushing.
    pub open spec fn standard() -> SyncConfigView {
        SyncConfigView {
            sync_dir: "."@,
            pending: "pending"@,
            state: ".xas"@,
            archive: "archive"@,
            auto_commit: true,
            auto_push: false,
        }
    }

    /// The same layout under the root `dir`.
    pub open spec fn rooted(dir: Seq<char>) -> SyncConfigView {
        SyncConfigView {
            sync_dir: dir,
            pending: child_path(dir, "pending"@),
            state: child_path(dir, ".xas"@),
            archive: child_path(dir, "archive"@),
            auto_commit: true,
            auto_push: false,
        }
    }
}

impl Default for SyncConfig {
    fn default() -> (r: Self)
        ensures
            r@ == SyncConfigView::standard(),
    {
        SyncConfig {
            sync_dir: ".".to_owned(),
            pending: "pending".to_owned(),
            state: ".xas".to_owned(),
            archive: "archive".to_owned(),
            auto_commit: true,
            auto_push: false,
        }
    }
}

/// The name of the work-in-progress slot in the state directory.
pub open spec fn wip_name() -> Seq<char> {
    "wip.json"@
}

/// The name of the ignore marker in the state directory.
pub open spec fn ignore_name() -> Seq<char> {
    ".gitignore"@
}

/// What the ignore marker holds: the names of the local-only files, one to
/// a line.
pub open spec fn ignore_body() -> Seq<char> {
    "wip.json\ncurrent_agent.json\n"@
}

/// The file name of a state entry: the key with the extension `.json`.
pub open spec fn state_name(key: Seq<char>) -> Seq<char> {
    key + ".json"@
}

impl SyncConfig {
    /// The standard layout under the root `sync_dir`.
    pub fn with_sync_dir(sync_dir: &str) -> (r: Self)
        ensures
            r@ == SyncConfigView::rooted(sync_dir@),
    {
        SyncConfig {
            sync_dir: sync_dir.to_owned(),
            pending: join_path(sync_dir, "pending"),
            state: join_path(sync_dir, ".xas"),
            archive: join_path(sync_dir, "archive"),
            auto_commit: true,
            auto_push: false,
        }
    }

    /// The path of a pending handoff file.
    pub fn pending_file(&self, name: &str) -> (r: String)
        ensures
            r@ == child_path(self@.pending, name@),
    {
        join_path(self.pending.as_str(), name)
    }

    /// The path of an archived handoff file.
    pub fn archive_file(&self, name: &str) -> (r: String)
        ensures
            r@ == child_path(self@.archive, name@),
    {
        join_path(self.archive.as_str(), name)
    }

    /// The path of the work-in-progress slot.
    pub fn wip_file(&self) -> (r: String)
        ensures
            r@ == child_path(self@.state, wip_name()),
    {
        join_path(self.state.as_str(), "wip.json")
    }

    /// The path of the ignore marker.
    pub fn ignore_file(&self) -> (r: String)
        ensures
            r@ == child_path(self@.state, ignore_name()),
    {
        join_path(self.state.as_str(), ".gitignore")
    }

    /// The path of the state entry for `key`.
    pub fn state_file(&self, key: &str) -> (r: String)
        ensures
            r@ == child_path(self@.state, state_name(key@)),
    {
        let mut name = key.to_owned();
        name.append(".json");
        join_path(self.state.as_str(), name.as_str())
    }
}

} // verus!
