//! The `handoff` command: a handoff made in one go from what the command
//! line gives.

use crate::cli::{get_current_agent, no_identity_detail, HandoffModeArg};
use crate::error::{Error, ErrorView};
use crate::handoff::{
    GitRef, GitRefType, GitRefView, Handoff, HandoffMode, HandoffView, PriorityFile,
    PriorityFileView, WarmUpSequence, WarmUpSequenceView,
};
use crate::handoff::debug::DebugContextView;
use crate::handoff::deploy::DeployContextView;
use crate::handoff::mode::HandoffModeView;
use crate::handoff::plan::PlanContextView;
use crate::ident::{hyphenated, hyphenated_text};
use crate::text::{
    debug_quoted, leading, leading_text, opt_text, quote, split_at_char, split_text, texts,
    trim, trimmed, views,
};
use crate::time::Instant;
use vstd::prelude::*;
use vstd::string::StringExecFns;

verus! {

/// What the `handoff` command is given.
#[derive(Debug, Clone)]
pub struct HandoffRequest {
    /// The mode.
    pub mode: HandoffModeArg,
    /// The summary; it is also the problem or goal of the mode, and the
    /// warm-up's summary.
    pub summary: String,
    /// Files to read first, ranked in the order given.
    pub priority_files: Vec<String>,
    /// Must-know items.
    pub must_know: Vec<String>,
    /// Suggested first action.
    pub suggest_start: Option<String>,
    /// A commit to attach.
    pub commit: Option<String>,
    /// A branch to attach.
    pub branch: Option<String>,
    /// A pull request to attach.
    pub pr: Option<String>,
    /// Tags, separated by commas.
    pub tags: Option<String>,
}

/// The mode that a request asks for: deploy with nothing recorded, or debug
/// or plan with the summary as problem or goal.
pub open spec fn requested_mode(mode: HandoffModeArg, summary: Seq<char>) -> HandoffModeView {
    match mode {
        HandoffModeArg::Deploy => HandoffModeView::Deploy(DeployContextView::empty()),
        HandoffModeArg::Debug => HandoffModeView::Debug(DebugContextView::fresh(summary)),
        HandoffModeArg::Plan => HandoffModeView::Plan(PlanContextView::fresh(summary)),
    }
}

/// The rank of the file at position `i`: one more than the position, as far
/// as eight bits hold it.
pub open spec fn position_rank(i: int) -> u8 {
    ((i + 1) % 256) as u8
}

/// The priority files of a request: each path with the stock reason, no
/// focus note, and ranked by its position.
pub open spec fn requested_files(paths: Seq<Seq<char>>) -> Seq<PriorityFileView> {
    Seq::new(
        paths.len(),
        |i: int|
            PriorityFileView {
                path: paths[i],
                reason: "Priority file"@,
                focus: None,
                rank: position_rank(i),
            },
    )
}

/// The source-control reference of a request: the commit given, else the
/// branch, else the pull request, else the first eight characters of the
/// current commit, else none.
pub open spec fn requested_git_ref(
    commit: Option<Seq<char>>,
    branch: Option<Seq<char>>,
    pr: Option<Seq<char>>,
    head: Option<Seq<char>>,
) -> Option<GitRefView> {
    match (commit, branch, pr, head) {
        (Some(sha), _, _, _) => Some(
            GitRefView { ref_type: GitRefType::Commit, value: sha, remote: None },
        ),
        (None, Some(name), _, _) => Some(
            GitRefView { ref_type: GitRefType::Branch, value: name, remote: None },
        ),
        (None, None, Some(number), _) => Some(
            GitRefView { ref_type: GitRefType::PullRequest, value: number, remote: None },
        ),
        (None, None, None, Some(sha)) => Some(
            GitRefView { ref_type: GitRefType::Commit, value: leading_text(sha, 8), remote: None },
        ),
        (None, None, None, None) => None,
    }
}

/// The tags of a request: the pieces between commas, each trimmed.
pub open spec fn requested_tags(tags: Option<Seq<char>>) -> Seq<Seq<char>> {
    match tags {
        Some(t) => split_text(t, ',').map_values(|piece: Seq<char>| trimmed(piece)),
        None => Seq::empty(),
    }
}

/// The handoff that a request makes, under an identity and at an instant.
pub open spec fn composed(
    id: u128,
    created_at: Instant,
    request: HandoffRequest,
    who: Seq<char>,
    head: Option<Seq<char>>,
) -> HandoffView {
    HandoffView {
        warm_up: WarmUpSequenceView {
            priority_files: requested_files(texts(request.priority_files@)),
            tldr: request.summary@,
            must_know: texts(request.must_know@),
            suggested_start: opt_text(request.suggest_start),
            estimated_tokens: None,
        },
        git_ref: requested_git_ref(
            opt_text(request.commit),
            opt_text(request.branch),
            opt_text(request.pr),
            head,
        ),
        tags: requested_tags(opt_text(request.tags)),
        ..HandoffView::fresh(
            id,
            created_at,
            requested_mode(request.mode, request.summary@),
            request.summary@,
            who,
        )
    }
}

fn priority_files_of(paths: &Vec<String>) -> (r: Vec<PriorityFile>)
    ensures
        views(r@) == requested_files(texts(paths@)),
{
    let mut r: Vec<PriorityFile> = Vec::new();
    let mut i: usize = 0;
    while i < paths.len()
        invariant
            i <= paths.len(),
            views(r@) == requested_files(texts(paths@)).take(i as int),
        decreases paths.len() - i,
    {
        let position: usize = i + 1;
        let file = PriorityFile {
            path: paths[i].clone(),
            reason: "Priority file".to_owned(),
            focus: None,
            rank: (position % 256) as u8,
        };
        let ghost before = r@;
        r.push(file);
        proof {
            let wanted = requested_files(texts(paths@));
            assert(texts(paths@)[i as int] == paths@[i as int]@);
            assert(file@ == wanted[i as int]);
            assert(views(r@) =~= views(before).push(file@));
            assert(wanted.take(i + 1) =~= wanted.take(i as int).push(wanted[i as int]));
        }
        i += 1;
    }
    assert(requested_files(texts(paths@)).take(paths.len() as int) =~= requested_files(
        texts(paths@),
    ));
    r
}

fn git_ref_of(
    commit: Option<String>,
    branch: Option<String>,
    pr: Option<String>,
    head: Option<String>,
) -> (r: Option<GitRef>)
    ensures
        crate::handoff::opt_git_ref(r) == requested_git_ref(
            opt_text(commit),
            opt_text(branch),
            opt_text(pr),
            opt_text(head),
        ),
{
    match commit {
        Some(sha) => Some(GitRef::commit(sha.as_str())),
        None => match branch {
            Some(name) => Some(GitRef::branch(name.as_str())),
            None => match pr {
                Some(number) => Some(GitRef::pull_request(number.as_str())),
                None => match head {
                    Some(sha) => {
                        let short = leading(sha.as_str(), 8);
                        Some(GitRef::commit(short.as_str()))
                    },
                    None => None,
                },
            },
        },
    }
}

fn tags_of(tags: &Option<String>) -> (r: Vec<String>)
    ensures
        texts(r@) == requested_tags(opt_text(*tags)),
{
    match tags {
        None => {
            let r: Vec<String> = Vec::new();
            assert(texts(r@) =~= Seq::empty());
            r
        },
        Some(t) => {
            let pieces = split_at_char(t.as_str(), ',');
            let ghost wanted = split_text(t@, ',').map_values(|piece: Seq<char>| trimmed(piece));
            let mut r: Vec<String> = Vec::new();
            let mut i: usize = 0;
            while i < pieces.len()
                invariant
                    i <= pieces.len(),
                    texts(pieces@) == split_text(t@, ','),
                    wanted == split_text(t@, ',').map_values(|piece: Seq<char>| trimmed(piece)),
                    texts(r@) == wanted.take(i as int),
                decreases pieces.len() - i,
            {
                let tag = trim(pieces[i].as_str());
                let ghost before = r@;
                r.push(tag);
                proof {
                    assert(texts(pieces@)[i as int] == pieces@[i as int]@);
                    assert(tag@ == wanted[i as int]);
                    assert(texts(r@) =~= texts(before).push(tag@));
                    assert(wanted.take(i + 1) =~= wanted.take(i as int).push(wanted[i as int]));
                }
                i += 1;
            }
            assert(wanted.take(pieces.len() as int) =~= wanted);
            r
        },
    }
}

/// Makes the handoff that a request asks for. `identity` is what the
/// identity's state entry holds, if it exists; `head` the current commit,
/// if the store reports one. Fails where no identity is set.
pub fn compose(request: HandoffRequest, identity: Option<String>, head: Option<String>) -> (r:
    Result<Handoff, Error>)
    ensures
        match identity {
            Some(who) => r matches Ok(h) && h@ == composed(
                h@.id,
                h@.created_at,
                request,
                who@,
                opt_text(head),
            ),
            None => r matches Err(e) && e@ == ErrorView::AgentNotRegistered(no_identity_detail()),
        },
{
    let who = match get_current_agent(identity) {
        Ok(who) => who,
        Err(e) => {
            return Err(e);
        },
    };
    let mode = match request.mode {
        HandoffModeArg::Deploy => HandoffMode::deploy(),
        HandoffModeArg::Debug => HandoffMode::debug(request.summary.as_str()),
        HandoffModeArg::Plan => HandoffMode::plan(request.summary.as_str()),
    };
    let files = priority_files_of(&request.priority_files);
    let tags = tags_of(&request.tags);
    let git_ref = git_ref_of(request.commit, request.branch, request.pr, head);
    let warm_up = WarmUpSequence {
        priority_files: files,
        tldr: request.summary.clone(),
        must_know: request.must_know,
        suggested_start: request.suggest_start,
        estimated_tokens: None,
    };
    let base = Handoff::new(mode, request.summary.as_str(), who.as_str());
    let Handoff { id, mode, created_by, created_at, summary, session, .. } = base;
    Ok(Handoff { id, mode, created_by, created_at, summary, session, warm_up, git_ref, tags })
}

/// What the `handoff` command reports: the identifier, the mode kind, the
/// summary, and the path written, quoted.
pub open spec fn created_report(h: HandoffView, path: Seq<char>) -> Seq<char> {
    "Handoff created: "@ + hyphenated_text(h.id) + "\n  Mode: "@ + h.mode.kind() + "\n  Summary: "@
        + h.summary + "\n  Written to: "@ + debug_quoted(path)
}

/// What the `handoff` command reports once the handoff is written to
/// `path`.
pub fn report_created(handoff: &Handoff, path: &str) -> (r: String)
    ensures
        r@ == created_report(handoff@, path@),
{
    let id = hyphenated(handoff.id);
    let quoted = quote(path);
    let mut r = "Handoff created: ".to_owned();
    r.append(id.as_str());
    r.append("\n  Mode: ");
    r.append(handoff.mode.kind());
    r.append("\n  Summary: ");
    r.append(handoff.summary.as_str());
    r.append("\n  Written to: ");
    r.append(quoted.as_str());
    assert(r@ =~= created_report(handoff@, path@));
    r
}

} // verus!
