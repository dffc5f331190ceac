//! What the other commands decide and report: `init`, `receive`, `whoami`,
//! `status` and `sync`.

use crate::cli::{identity_key, HandoffModeArg};
use crate::error::Error;
use crate::handoff::prompt::prompt_text;
use crate::handoff::{opt_git_ref, GitRef, GitRefView, Handoff, HandoffMode, HandoffView};
use crate::handoff::mode::HandoffModeView;
use crate::ident::{short_id, short_text};
use crate::render::{append_bullets, append_entries, bullet_lines, entry_lines, Entry};
use crate::sync::{
    action_views, json_state_write, opt_action, StoreAction, StoreActionView, SyncManager,
};
use crate::text::{
    debug_quoted, decimal, decimal_text, leading, leading_text, opt_text, quote, views,
};
use crate::time::{formatted, listing_pattern, minute_pattern};
use vstd::prelude::*;
use vstd::string::StringExecFns;

verus! {

/// What `init` reports once the store at `path` is initialized.
pub open spec fn init_report(path: Seq<char>) -> Seq<char> {
    "Initialized XAgentSync at "@ + debug_quoted(path)
        + "\n  pending/  - handoffs waiting to be processed\n  archive/  - processed handoffs\n  .xas/     - local state (gitignored)\n\nNext: Set your identity with 'xas whoami --set <your-name>'"@
}

/// What `init` reports once the store at `path` is initialized.
pub fn report_init(path: &str) -> (r: String)
    ensures
        r@ == init_report(path@),
{
    let quoted = quote(path);
    let mut r = "Initialized XAgentSync at ".to_owned();
    r.append(quoted.as_str());
    r.append(
        "\n  pending/  - handoffs waiting to be processed\n  archive/  - processed handoffs\n  .xas/     - local state (gitignored)\n\nNext: Set your identity with 'xas whoami --set <your-name>'",
    );
    r
}

/// The kind of a mode in capitals.
pub open spec fn kind_capitals(mode: HandoffModeView) -> Seq<char> {
    match mode {
        HandoffModeView::Deploy(_) => "DEPLOY"@,
        HandoffModeView::Debug(_) => "DEBUG"@,
        HandoffModeView::Plan(_) => "PLAN"@,
    }
}

fn capitals(mode: &HandoffMode) -> (r: &'static str)
    ensures
        r@ == kind_capitals(mode@),
{
    match mode {
        HandoffMode::Deploy(_) => "DEPLOY",
        HandoffMode::Debug(_) => "DEBUG",
        HandoffMode::Plan(_) => "PLAN",
    }
}

/// The rule drawn above and below a briefing.
pub open spec fn rule() -> Seq<char> {
    "═══════════════════════════════════════════════════════════════"@
}

/// A briefing as `receive` shows it: between two rules, a blank line
/// behind.
pub open spec fn prompt_entry(prompt: Seq<char>) -> Seq<char> {
    rule() + "\n"@ + prompt + "\n"@ + rule() + "\n\n"@
}

/// The source-control line of a listing, or nothing without a reference.
pub open spec fn listing_git_line(g: Option<GitRefView>) -> Seq<char> {
    match g {
        Some(g) => "  Git: "@ + g.ref_type.label_text() + " "@ + g.value + "\n"@,
        None => Seq::empty(),
    }
}

/// The details that a full listing adds: the summary of the warm-up, and
/// the must-know items if there are any.
pub open spec fn listing_details(h: HandoffView, full: bool) -> Seq<char> {
    if full {
        "  TL;DR: "@ + h.warm_up.tldr + "\n"@ + (if h.warm_up.must_know.len() == 0 {
            Seq::empty()
        } else {
            "  Must know:\n"@ + bullet_lines("    - "@, h.warm_up.must_know).flatten()
        })
    } else {
        Seq::empty()
    }
}

/// A handoff as `receive` lists it, given its creation time as text: kind,
/// short identifier and summary; creator; creation time; the source-control
/// reference if any; the details if asked for; a blank line.
pub open spec fn listing_entry(h: HandoffView, created: Seq<char>, full: bool) -> Seq<char> {
    "["@ + kind_capitals(h.mode) + "] "@ + short_text(h.id) + " - "@ + h.summary + "\n"@
        + "  From: "@ + h.created_by + "\n"@ + "  Created: "@ + created + "\n"@ + listing_git_line(
        h.git_ref,
    ) + listing_details(h, full) + "\n"@
}

/// A handoff as `receive` shows it: its briefing where that is asked for,
/// else its listing.
pub open spec fn receive_entry(h: HandoffView, show_prompt: bool, full: bool) -> Seq<char> {
    if show_prompt {
        prompt_entry(
            prompt_text(h, formatted(h.created_at.secs, h.created_at.nanos, minute_pattern())),
        )
    } else {
        listing_entry(
            h,
            formatted(h.created_at.secs, h.created_at.nanos, listing_pattern()),
            full,
        )
    }
}

/// A briefing between two rules.
pub fn show_prompt_entry(prompt: &str) -> (r: String)
    ensures
        r@ == prompt_entry(prompt@),
{
    let mut r = "═══════════════════════════════════════════════════════════════".to_owned();
    r.append("\n");
    r.append(prompt);
    r.append("\n");
    r.append("═══════════════════════════════════════════════════════════════");
    r.append("\n\n");
    assert(r@ =~= prompt_entry(prompt@));
    r
}

fn append_listing_git_line(out: &mut String, git_ref: &Option<GitRef>)
    ensures
        final(out)@ == old(out)@ + listing_git_line(opt_git_ref(*git_ref)),
{
    match git_ref {
        Some(git) => {
            out.append("  Git: ");
            out.append(git.ref_type.label());
            out.append(" ");
            out.append(git.value.as_str());
            out.append("\n");
            assert(out@ =~= old(out)@ + listing_git_line(opt_git_ref(*git_ref)));
        },
        None => {
            assert(out@ =~= old(out)@ + listing_git_line(opt_git_ref(*git_ref)));
        },
    }
}

fn append_listing_details(out: &mut String, h: &Handoff, full: bool)
    ensures
        final(out)@ == old(out)@ + listing_details(h@, full),
{
    if full {
        out.append("  TL;DR: ");
        out.append(h.warm_up.tldr.as_str());
        out.append("\n");
        if h.warm_up.must_know.len() > 0 {
            out.append("  Must know:\n");
            append_bullets(out, "    - ", &h.warm_up.must_know);
        }
        assert(out@ =~= old(out)@ + listing_details(h@, full));
    } else {
        assert(out@ =~= old(out)@ + listing_details(h@, full));
    }
}

/// A handoff as `receive` lists it, given its creation time as text.
pub fn list_entry(h: &Handoff, created: &str, full: bool) -> (r: String)
    ensures
        r@ == listing_entry(h@, created@, full),
{
    let short = short_id(h.id);
    let mut r = "[".to_owned();
    r.append(capitals(&h.mode));
    r.append("] ");
    r.append(short.as_str());
    r.append(" - ");
    r.append(h.summary.as_str());
    r.append("\n");
    r.append("  From: ");
    r.append(h.created_by.as_str());
    r.append("\n");
    r.append("  Created: ");
    r.append(created);
    r.append("\n");
    let ghost head = r@;
    assert(head =~= "["@ + kind_capitals(h@.mode) + "] "@ + short_text(h@.id) + " - "@ + h@.summary
        + "\n"@ + "  From: "@ + h@.created_by + "\n"@ + "  Created: "@ + created@ + "\n"@);
    append_listing_git_line(&mut r, &h.git_ref);
    append_listing_details(&mut r, h, full);
    r.append("\n");
    assert(r@ =~= listing_entry(h@, created@, full));
    r
}

/// A handoff as `receive` shows it.
pub fn show_entry(h: &Handoff, show_prompt: bool, full: bool) -> (r: String)
    ensures
        r@ == receive_entry(h@, show_prompt, full),
{
    if show_prompt {
        let prompt = h.compile_prompt();
        show_prompt_entry(prompt.as_str())
    } else {
        let created = h.created_at.format_listing();
        list_entry(h, created.as_str(), full)
    }
}

/// Whether `receive` shows a handoff: every handoff without a filter, the
/// handoffs of the mode with one.
pub open spec fn selected(mode: Option<HandoffModeArg>) -> spec_fn(Handoff) -> bool {
    |h: Handoff|
        match mode {
            Some(m) => m.admits(h@.mode),
            None => true,
        }
}

/// The handoffs that `receive` shows, in the order they came.
pub fn select_mode(handoffs: Vec<Handoff>, mode: Option<HandoffModeArg>) -> (r: Vec<Handoff>)
    ensures
        r@ == handoffs@.filter(selected(mode)),
{
    let ghost all = handoffs@;
    let mut rest = handoffs;
    let mut kept: Vec<Handoff> = Vec::new();
    proof {
        assert(all.take(0) =~= Seq::<Handoff>::empty());
        reveal(Seq::filter);
    }
    while rest.len() > 0
        invariant
            rest@.len() <= all.len(),
            rest@ == all.skip(all.len() - rest@.len()),
            kept@ == all.take(all.len() - rest@.len()).filter(selected(mode)),
        decreases rest.len(),
    {
        let ghost k = all.len() - rest@.len();
        let h = rest.remove(0);
        proof {
            assert(h == all[k]);
            assert(all.take(k + 1).drop_last() =~= all.take(k));
            assert(all.take(k + 1).last() == h);
            assert(rest@ =~= all.skip(k + 1));
            reveal(Seq::filter);
        }
        let keep = match &mode {
            Some(m) => m.matches(&h.mode),
            None => true,
        };
        if keep {
            kept.push(h);
        }
    }
    proof {
        assert(all.take(all.len() as int) =~= all);
    }
    kept
}

/// The heading of what `receive` shows: that nothing is pending, or how
/// many handoffs follow.
pub open spec fn receive_heading(pending: nat, shown: nat) -> Seq<char> {
    if pending == 0 {
        "No pending handoffs in inbox."@
    } else {
        "Found "@ + decimal_text(shown) + " handoff(s):\n"@
    }
}

/// The heading of what `receive` shows. `pending` counts the handoffs
/// received, `shown` those that pass the filter.
pub fn report_receive_heading(pending: usize, shown: usize) -> (r: String)
    ensures
        r@ == receive_heading(pending as nat, shown as nat),
{
    if pending == 0 {
        "No pending handoffs in inbox.".to_owned()
    } else {
        let number = decimal(shown as u64);
        let mut r = "Found ".to_owned();
        r.append(number.as_str());
        r.append(" handoff(s):\n");
        r
    }
}

/// The last line of a listing: the hint at briefings, where listings were
/// shown and there was something to list.
pub open spec fn receive_footer(show_prompt: bool, shown: nat) -> Option<Seq<char>> {
    if !show_prompt && shown > 0 {
        Some("Use --prompt to see the full compiled handoff prompt."@)
    } else {
        None
    }
}

/// The last line of a listing, if there is one.
pub fn report_receive_footer(show_prompt: bool, shown: usize) -> (r: Option<String>)
    ensures
        opt_text(r) == receive_footer(show_prompt, shown as nat),
{
    if !show_prompt && shown > 0 {
        Some("Use --prompt to see the full compiled handoff prompt.".to_owned())
    } else {
        None
    }
}

/// The identifier by which `receive` archives a handoff it has shown: the
/// short form.
pub fn archive_id(h: &Handoff) -> (r: String)
    ensures
        r@ == short_text(h@.id),
{
    short_id(h.id)
}

/// What `whoami` decides and reports: with an identity to set, the write
/// of the identity's state entry; without, the identity that is set, or
/// that none is.
pub open spec fn whoami_report(set: Option<Seq<char>>, identity: Option<Seq<char>>) -> Seq<char> {
    match set {
        Some(id) => "Set identity to: "@ + id,
        None => match identity {
            Some(id) => "Current identity: "@ + id,
            None => "No identity set. Use 'xas whoami --set <your-name>'"@,
        },
    }
}

/// The outcome of `whoami`: the action to perform, if any, and the report.
#[derive(Debug, Clone)]
pub struct WhoamiOutcome {
    pub action: Option<StoreAction>,
    pub report: String,
}

/// Runs `whoami`. `identity` is what the identity's state entry holds, if
/// it exists. Setting an identity writes that entry as JSON; showing it
/// writes nothing. Neither fails.
pub fn whoami(manager: &SyncManager, set: Option<String>, identity: Option<String>) -> (r: Result<
    WhoamiOutcome,
    Error,
>)
    ensures
        match set {
            Some(id) => r matches Ok(o) && opt_action(o.action) == Some(
                json_state_write(identity_key(), id@),
            ) && o.report@ == whoami_report(Some(id@), opt_text(identity)),
            None => r matches Ok(o) && o.action is None && o.report@ == whoami_report(
                None,
                opt_text(identity),
            ),
        },
{
    match set {
        Some(id) => match manager.write_state("current_agent", id.as_str()) {
            Ok(action) => {
                let mut report = "Set identity to: ".to_owned();
                report.append(id.as_str());
                Ok(WhoamiOutcome { action: Some(action), report })
            },
            Err(e) => Err(e),
        },
        None => {
            let report = match identity {
                Some(id) => {
                    let mut report = "Current identity: ".to_owned();
                    report.append(id.as_str());
                    report
                },
                None => "No identity set. Use 'xas whoami --set <your-name>'".to_owned(),
            };
            Ok(WhoamiOutcome { action: None, report })
        },
    }
}

/// The line of one handoff in `status`: kind, short identifier, summary.
pub open spec fn status_line(h: HandoffView) -> Seq<char> {
    "  ["@ + h.mode.kind() + "] "@ + short_text(h.id) + " - "@ + h.summary + "\n"@
}

impl Entry for Handoff {
    open spec fn entry_text(v: HandoffView) -> Seq<char> {
        status_line(v)
    }

    fn render(&self) -> (r: String) {
        let short = short_id(self.id);
        let mut r = "  [".to_owned();
        r.append(self.mode.kind());
        r.append("] ");
        r.append(short.as_str());
        r.append(" - ");
        r.append(self.summary.as_str());
        r.append("\n");
        assert(r@ =~= status_line(self@));
        r
    }
}

/// The identity line of `status`.
pub open spec fn status_identity(identity: Option<Seq<char>>) -> Seq<char> {
    match identity {
        Some(id) => "Identity: "@ + id + "\n"@,
        None => "Identity: (not set)\n"@,
    }
}

/// The branch line of `status`: the branch, and the first eight characters
/// of the commit if there is one; nothing without a branch.
pub open spec fn status_branch(branch: Option<Seq<char>>, commit: Option<Seq<char>>) -> Seq<char> {
    match branch {
        Some(b) => "Branch: "@ + b + (match commit {
            Some(c) => " ("@ + leading_text(c, 8) + ")"@,
            None => Seq::empty(),
        }) + "\n"@,
        None => Seq::empty(),
    }
}

/// The pending handoffs in `status`: their number and a line for each, or
/// that there are none.
pub open spec fn status_pending(handoffs: Seq<HandoffView>) -> Seq<char> {
    if handoffs.len() == 0 {
        "\nNo pending handoffs.\n"@
    } else {
        "\nPending handoffs: "@ + decimal_text(handoffs.len()) + "\n"@ + entry_lines::<Handoff>(
            handoffs,
        ).flatten()
    }
}

/// The work in progress in `status`, or nothing where the slot is empty.
pub open spec fn status_wip(wip: Option<HandoffView>) -> Seq<char> {
    match wip {
        Some(h) => "\nWork in progress: ["@ + h.mode.kind() + "] "@ + h.summary + "\n"@,
        None => Seq::empty(),
    }
}

/// What `status` reports: identity, branch and commit, pending handoffs,
/// work in progress.
pub open spec fn status_report(
    identity: Option<Seq<char>>,
    branch: Option<Seq<char>>,
    commit: Option<Seq<char>>,
    handoffs: Seq<HandoffView>,
    wip: Option<HandoffView>,
) -> Seq<char> {
    status_identity(identity) + status_branch(branch, commit) + status_pending(handoffs)
        + status_wip(wip)
}

/// The view of an optional handoff.
pub open spec fn opt_handoff(h: Option<&Handoff>) -> Option<HandoffView> {
    match h {
        Some(h) => Some(h@),
        None => None,
    }
}

fn append_status_branch(out: &mut String, branch: &Option<String>, commit: &Option<String>)
    ensures
        final(out)@ == old(out)@ + status_branch(opt_text(*branch), opt_text(*commit)),
{
    match branch {
        Some(b) => {
            out.append("Branch: ");
            out.append(b.as_str());
            match commit {
                Some(c) => {
                    let short = leading(c.as_str(), 8);
                    out.append(" (");
                    out.append(short.as_str());
                    out.append(")");
                },
                None => {},
            }
            let ghost head = out@;
            assert(head =~= old(out)@ + ("Branch: "@ + b@ + (match opt_text(*commit) {
                Some(c) => " ("@ + leading_text(c, 8) + ")"@,
                None => Seq::empty(),
            })));
            out.append("\n");
            assert(out@ =~= old(out)@ + status_branch(opt_text(*branch), opt_text(*commit)));
        },
        None => {
            assert(out@ =~= old(out)@ + status_branch(opt_text(*branch), opt_text(*commit)));
        },
    }
}

fn append_status_pending(out: &mut String, handoffs: &Vec<Handoff>)
    ensures
        final(out)@ == old(out)@ + status_pending(views(handoffs@)),
{
    if handoffs.len() == 0 {
        out.append("\nNo pending handoffs.\n");
    } else {
        let number = decimal(handoffs.len() as u64);
        out.append("\nPending handoffs: ");
        out.append(number.as_str());
        out.append("\n");
        append_entries(out, handoffs);
        assert(out@ =~= old(out)@ + status_pending(views(handoffs@)));
    }
}

/// What `status` reports. `identity` is what the identity's state entry
/// holds, `branch` and `commit` what the store reports of version control,
/// `handoffs` the pending handoffs as received, `wip` the handoff in
/// progress; each may be absent.
pub fn report_status(
    identity: &Option<String>,
    branch: &Option<String>,
    commit: &Option<String>,
    handoffs: &Vec<Handoff>,
    wip: Option<&Handoff>,
) -> (r: String)
    ensures
        r@ == status_report(
            opt_text(*identity),
            opt_text(*branch),
            opt_text(*commit),
            views(handoffs@),
            opt_handoff(wip),
        ),
{
    let mut r = String::new();
    match identity {
        Some(id) => {
            r.append("Identity: ");
            r.append(id.as_str());
            r.append("\n");
        },
        None => {
            r.append("Identity: (not set)\n");
        },
    }
    assert(r@ =~= status_identity(opt_text(*identity)));
    append_status_branch(&mut r, branch, commit);
    append_status_pending(&mut r, handoffs);
    let ghost before = r@;
    match wip {
        Some(h) => {
            r.append("\nWork in progress: [");
            r.append(h.mode.kind());
            r.append("] ");
            r.append(h.summary.as_str());
            r.append("\n");
        },
        None => {},
    }
    assert(r@ =~= before + status_wip(opt_handoff(wip)));
    r
}

/// The message of the commit that `sync` makes.
pub open spec fn sync_message() -> Seq<char> {
    "XAgentSync sync"@
}

/// What `sync` performs on a store under version control: the fetch, then
/// the commit unless it is to pull only. On a store that is not, nothing.
pub open spec fn sync_actions(backed: bool, pull_only: bool) -> Seq<StoreActionView> {
    if !backed {
        Seq::empty()
    } else if pull_only {
        seq![StoreActionView::Fetch { remote: "origin"@, branch: "main"@ }]
    } else {
        seq![
            StoreActionView::Fetch { remote: "origin"@, branch: "main"@ },
            StoreActionView::Commit { message: sync_message() },
        ]
    }
}

/// What `sync` reports, line by line as it goes.
pub open spec fn sync_report(pull_only: bool) -> Seq<char> {
    if pull_only {
        "Pulling latest...\nDone."@
    } else {
        "Pulling latest...\nCommitting local changes...\nDone."@
    }
}

/// The outcome of `sync`: the actions to perform, in order, and the report.
#[derive(Debug, Clone)]
pub struct SyncOutcome {
    pub actions: Vec<StoreAction>,
    pub report: String,
}

/// Runs `sync`: fetch, then commit unless told to pull only.
pub fn sync(manager: &SyncManager, pull_only: bool) -> (r: SyncOutcome)
    ensures
        action_views(r.actions@) == sync_actions(manager@.backed, pull_only),
        r.report@ == sync_report(pull_only),
{
    let mut actions: Vec<StoreAction> = Vec::new();
    match manager.pull() {
        Some(fetch) => {
            actions.push(fetch);
        },
        None => {},
    }
    if !pull_only {
        match manager.commit_changes("XAgentSync sync") {
            Some(commit) => {
                actions.push(commit);
            },
            None => {},
        }
    }
    let report = if pull_only {
        "Pulling latest...\nDone.".to_owned()
    } else {
        "Pulling latest...\nCommitting local changes...\nDone.".to_owned()
    };
    assert(action_views(actions@) =~= sync_actions(manager@.backed, pull_only));
    SyncOutcome { actions, report }
}

} // verus!
