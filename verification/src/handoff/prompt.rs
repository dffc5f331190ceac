//! The briefing: a handoff rendered for the session that receives it.

use crate::context::{FileModified, FileModifiedView, SessionState, SessionStateView};
use crate::handoff::{
    opt_git_ref, GitRef, GitRefView, Handoff, HandoffView, PriorityFile, PriorityFileView,
};
use crate::render::{
    append_bullet_section, append_entries, append_paragraph, append_section, bullet_lines,
    entry_lines, paragraph, section, Entry,
};
use crate::text::{decimal, decimal_text};
use crate::time::{formatted, minute_pattern};
use vstd::prelude::*;
use vstd::string::StringExecFns;

verus! {

/// The lines of one priority file: rank, path and reason, then the focus
/// note if there is one.
pub open spec fn priority_lines(f: PriorityFileView) -> Seq<char> {
    decimal_text(f.rank as nat) + ". `"@ + f.path + "` - "@ + f.reason + "\n"@ + match f.focus {
        Some(focus) => "   Focus: "@ + focus + "\n"@,
        None => Seq::empty(),
    }
}

/// The line of one modified file: its path, and the summary of the change
/// if there is one.
pub open spec fn modified_line(f: FileModifiedView) -> Seq<char> {
    "- `"@ + f.path + "`"@ + (match f.change_summary {
        Some(note) => " - "@ + note,
        None => Seq::empty(),
    }) + "\n"@
}

/// The header of a briefing: summary, mode kind in quotes, creator, and the
/// creation time as already formatted.
pub open spec fn prompt_header(h: HandoffView, created: Seq<char>) -> Seq<char> {
    "# Handoff: "@ + h.summary + "\n\n"@ + "**Mode**: \""@ + h.mode.kind() + "\"\n"@ + "**From**: "@
        + h.created_by + "\n"@ + "**Created**: "@ + created + "\n\n"@
}

/// The summary paragraph of a briefing, or nothing when the summary is
/// empty.
pub open spec fn prompt_tldr(tldr: Seq<char>) -> Seq<char> {
    if tldr.len() == 0 {
        Seq::empty()
    } else {
        "## TL;DR\n\n"@ + tldr + "\n\n"@
    }
}

/// The activity of the previous session: the files it modified, under
/// their heading and with a blank line behind; nothing at all where it
/// modified none, whatever else it did.
pub open spec fn prompt_activity(s: SessionStateView) -> Seq<char> {
    if s.files_modified.len() == 0 {
        Seq::empty()
    } else {
        "## Previous Session Activity\n\n"@ + "**Modified**:\n"@ + entry_lines::<FileModified>(
            s.files_modified,
        ).flatten() + "\n"@
    }
}

/// The source-control line of a briefing, or nothing without a reference.
pub open spec fn prompt_git_line(g: Option<GitRefView>) -> Seq<char> {
    match g {
        Some(g) => "**Git "@ + g.ref_type.label_text() + "**: `"@ + g.value + "`\n"@,
        None => Seq::empty(),
    }
}

/// The briefing for the receiving session, given the creation time as
/// text. In this order, each part only if it has content: header, summary,
/// the mode's section, must-know items, priority files, suggested first
/// action, previous session activity, source-control reference.
pub open spec fn prompt_text(h: HandoffView, created: Seq<char>) -> Seq<char> {
    prompt_header(h, created) + prompt_tldr(h.warm_up.tldr) + h.mode.section() + section(
        "## Must Know\n\n"@,
        bullet_lines("- "@, h.warm_up.must_know),
    ) + section(
        "## Start Here (Priority Files)\n\n"@,
        entry_lines::<PriorityFile>(h.warm_up.priority_files),
    ) + paragraph("## Suggested First Action\n\n"@, h.warm_up.suggested_start) + prompt_activity(
        h.session,
    ) + prompt_git_line(h.git_ref)
}

impl Entry for PriorityFile {
    open spec fn entry_text(v: PriorityFileView) -> Seq<char> {
        priority_lines(v)
    }

    fn render(&self) -> (r: String) {
        let mut r = decimal(self.rank as u64);
        r.append(". `");
        r.append(self.path.as_str());
        r.append("` - ");
        r.append(self.reason.as_str());
        r.append("\n");
        match &self.focus {
            Some(focus) => {
                r.append("   Focus: ");
                r.append(focus.as_str());
                r.append("\n");
                assert(r@ =~= priority_lines(self@));
            },
            None => {
                assert(r@ =~= priority_lines(self@));
            },
        }
        r
    }
}

impl Entry for FileModified {
    open spec fn entry_text(v: FileModifiedView) -> Seq<char> {
        modified_line(v)
    }

    fn render(&self) -> (r: String) {
        let mut r = String::new();
        r.append("- `");
        r.append(self.path.as_str());
        r.append("`");
        match &self.change_summary {
            Some(note) => {
                r.append(" - ");
                r.append(note.as_str());
            },
            None => {},
        }
        let ghost head = r@;
        assert(head =~= "- `"@ + self.path@ + "`"@ + (match self@.change_summary {
            Some(note) => " - "@ + note,
            None => Seq::empty(),
        }));
        r.append("\n");
        assert(r@ =~= modified_line(self@));
        r
    }
}

fn append_header(out: &mut String, h: &Handoff, created: &str)
    ensures
        final(out)@ == old(out)@ + prompt_header(h@, created@),
{
    out.append("# Handoff: ");
    out.append(h.summary.as_str());
    out.append("\n\n");
    out.append("**Mode**: \"");
    out.append(h.mode.kind());
    out.append("\"\n");
    out.append("**From**: ");
    out.append(h.created_by.as_str());
    out.append("\n");
    out.append("**Created**: ");
    out.append(created);
    out.append("\n\n");
    assert(out@ =~= old(out)@ + prompt_header(h@, created@));
}

fn append_tldr(out: &mut String, tldr: &String)
    ensures
        final(out)@ == old(out)@ + prompt_tldr(tldr@),
{
    if !tldr.as_str().is_empty() {
        out.append("## TL;DR\n\n");
        out.append(tldr.as_str());
        out.append("\n\n");
        assert(out@ =~= old(out)@ + prompt_tldr(tldr@));
    } else {
        assert(out@ =~= old(out)@ + prompt_tldr(tldr@));
    }
}

fn append_activity(out: &mut String, session: &SessionState)
    ensures
        final(out)@ == old(out)@ + prompt_activity(session@),
{
    if session.files_modified.len() > 0 {
        out.append("## Previous Session Activity\n\n");
        out.append("**Modified**:\n");
        append_entries(out, &session.files_modified);
        out.append("\n");
        assert(out@ =~= old(out)@ + prompt_activity(session@));
    } else {
        assert(out@ =~= old(out)@ + prompt_activity(session@));
    }
}

fn append_git_line(out: &mut String, git_ref: &Option<GitRef>)
    ensures
        final(out)@ == old(out)@ + prompt_git_line(opt_git_ref(*git_ref)),
{
    match git_ref {
        Some(git) => {
            out.append("**Git ");
            out.append(git.ref_type.label());
            out.append("**: `");
            out.append(git.value.as_str());
            out.append("`\n");
            assert(out@ =~= old(out)@ + prompt_git_line(opt_git_ref(*git_ref)));
        },
        None => {
            assert(out@ =~= old(out)@ + prompt_git_line(opt_git_ref(*git_ref)));
        },
    }
}

impl Handoff {
    /// The briefing for the receiving session, with the creation time given
    /// as text.
    pub fn compile_prompt_dated(&self, created: &str) -> (out: String)
        ensures
            out@ == prompt_text(self@, created@),
    {
        let mut out = String::new();
        append_header(&mut out, self, created);
        append_tldr(&mut out, &self.warm_up.tldr);
        let body = self.mode.compile_section();
        out.append(body.as_str());
        append_bullet_section(&mut out, "## Must Know\n\n", "- ", &self.warm_up.must_know);
        append_section(&mut out, "## Start Here (Priority Files)\n\n", &self.warm_up.priority_files);
        append_paragraph(&mut out, "## Suggested First Action\n\n", &self.warm_up.suggested_start);
        append_activity(&mut out, &self.session);
        append_git_line(&mut out, &self.git_ref);
        assert(out@ =~= prompt_text(self@, created@));
        out
    }

    /// The briefing for the receiving session, its creation time written as
    /// date, hour and minute in UTC.
    pub fn compile_prompt(&self) -> (out: String)
        ensures
            out@ == prompt_text(
                self@,
                formatted(self@.created_at.secs, self@.created_at.nanos, minute_pattern()),
            ),
    {
        let created = self.created_at.format_minute();
        self.compile_prompt_dated(created.as_str())
    }
}

/// The briefing is a function of what a handoff holds: two handoffs that
/// hold the same are briefed alike, character for character.
pub proof fn lemma_prompt_deterministic(a: Handoff, b: Handoff, created: Seq<char>)
    requires
        a@ == b@,
    ensures
        prompt_text(a@, created) == prompt_text(b@, created),
{
}

} // verus!
