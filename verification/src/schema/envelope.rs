//! The document form of the handoff and of what it carries.

use crate::codec::{
    encode_list, encode_optional, encoded_list, encoded_optional, lemma_field_found,
    lemma_list_round_trip, lemma_optional_round_trip, listed, optional, required, take_list,
    take_optional, take_required, Codec,
};
use crate::context::{SessionState};
use crate::handoff::{
    DebugContext, DeployContext, GitRef, GitRefType, GitRefView, Handoff, HandoffMode,
    HandoffView, PlanContext, PriorityFile, PriorityFileView, WarmUpSequence, WarmUpSequenceView,
};
use crate::handoff::mode::HandoffModeView;
use crate::ident::{hyphenated, hyphenated_text, parse_id, parsed_id};
use crate::json::{fields_view, lemma_object_view, Json, JsonView};
use crate::text::same_text;
use crate::time::{
    read_rfc3339, representable, rfc3339_instant, rfc3339_text, Instant, Timestamp,
};
use vstd::prelude::*;

verus! {

impl Codec for Timestamp {
    /// An instant is written as its date and time in the form of RFC 3339.
    open spec fn encoded(v: Instant) -> JsonView {
        JsonView::Text(rfc3339_text(v.secs, v.nanos))
    }

    /// Read from a text that is a date and time in that form, or in the
    /// relaxed form of it that chrono accepts, and that the calendar can
    /// represent.
    open spec fn decoded(doc: JsonView) -> Option<Instant> {
        match doc {
            JsonView::Text(s) => match rfc3339_instant(s) {
                Some((secs, nanos)) => if representable(secs, nanos) {
                    Some(Instant { secs, nanos })
                } else {
                    None
                },
                None => None,
            },
            _ => None,
        }
    }

    /// An instant reads back where it is representable and the text
    /// written for it is read as the same instant.
    open spec fn reads_back(v: Instant) -> bool {
        representable(v.secs, v.nanos) && rfc3339_instant(rfc3339_text(v.secs, v.nanos)) == Some(
            (v.secs, v.nanos),
        )
    }

    fn encode(&self) -> (doc: Json) {
        Json::Text(self.to_rfc3339())
    }

    fn decode(doc: &Json) -> (r: Option<Self>) {
        match doc {
            Json::Text(s) => match read_rfc3339(s.as_str()) {
                Some((secs, nanos)) => Timestamp::from_parts(secs, nanos),
                None => None,
            },
            _ => None,
        }
    }

    proof fn lemma_round_trip(v: Instant) {
    }
}

impl Codec for u128 {
    /// An identifier is written in its hyphenated form.
    open spec fn encoded(v: u128) -> JsonView {
        JsonView::Text(hyphenated_text(v))
    }

    /// Read from a text that is an identifier in any of the forms that
    /// identifiers are written in.
    open spec fn decoded(doc: JsonView) -> Option<u128> {
        match doc {
            JsonView::Text(s) => parsed_id(s),
            _ => None,
        }
    }

    /// An identifier reads back where its hyphenated form is read as the
    /// same identifier.
    open spec fn reads_back(v: u128) -> bool {
        parsed_id(hyphenated_text(v)) == Some(v)
    }

    fn encode(&self) -> (doc: Json) {
        Json::Text(hyphenated(*self))
    }

    fn decode(doc: &Json) -> (r: Option<Self>) {
        match doc {
            Json::Text(s) => parse_id(s.as_str()),
            _ => None,
        }
    }

    proof fn lemma_round_trip(v: u128) {
    }
}

impl Codec for GitRefType {
    /// A reference type is written as its name.
    open spec fn encoded(v: GitRefType) -> JsonView {
        JsonView::Text(
            match v {
                GitRefType::Commit => "commit"@,
                GitRefType::Branch => "branch"@,
                GitRefType::PullRequest => "pull_request"@,
                GitRefType::Tag => "tag"@,
            },
        )
    }

    open spec fn decoded(doc: JsonView) -> Option<GitRefType> {
        match doc {
            JsonView::Text(s) => if s == "commit"@ {
                Some(GitRefType::Commit)
            } else if s == "branch"@ {
                Some(GitRefType::Branch)
            } else if s == "pull_request"@ {
                Some(GitRefType::PullRequest)
            } else if s == "tag"@ {
                Some(GitRefType::Tag)
            } else {
                None
            },
            _ => None,
        }
    }

    open spec fn reads_back(v: GitRefType) -> bool {
        true
    }

    fn encode(&self) -> (doc: Json) {
        let name = match self {
            GitRefType::Commit => "commit",
            GitRefType::Branch => "branch",
            GitRefType::PullRequest => "pull_request",
            GitRefType::Tag => "tag",
        };
        Json::Text(name.to_owned())
    }

    fn decode(doc: &Json) -> (r: Option<Self>) {
        match doc {
            Json::Text(s) => if same_text(s.as_str(), "commit") {
                Some(GitRefType::Commit)
            } else if same_text(s.as_str(), "branch") {
                Some(GitRefType::Branch)
            } else if same_text(s.as_str(), "pull_request") {
                Some(GitRefType::PullRequest)
            } else if same_text(s.as_str(), "tag") {
                Some(GitRefType::Tag)
            } else {
                None
            },
            _ => None,
        }
    }

    proof fn lemma_round_trip(v: GitRefType) {
        reveal_strlit("commit");
        reveal_strlit("branch");
        reveal_strlit("pull_request");
        reveal_strlit("tag");
        assert("commit"@.len() == 6);
        assert("branch"@.len() == 6);
        assert("pull_request"@.len() == 12);
        assert("tag"@.len() == 3);
        assert("commit"@[0] != "branch"@[0]);
    }
}

impl Codec for GitRef {
    /// A source-control reference is written as an object with a field for each of
    /// its parts.
    open spec fn encoded(v: GitRefView) -> JsonView {
        JsonView::Object(
            seq![
                ("ref_type"@, GitRefType::encoded(v.ref_type)),
                ("value"@, String::encoded(v.value)),
                ("remote"@, encoded_optional::<String>(v.remote)),
            ],
        )
    }

    /// Read from an object that has every part; parts that may be absent
    /// may be missing or null, and fields of other names are passed over.
    open spec fn decoded(doc: JsonView) -> Option<GitRefView> {
        match doc {
            JsonView::Object(fields) => if required::<GitRefType>(fields, "ref_type"@) is Some
                    && required::<String>(fields, "value"@) is Some
                    && optional::<String>(fields, "remote"@) is Some {
                Some(
                    GitRefView {
                        ref_type: required::<GitRefType>(fields, "ref_type"@)->0,
                        value: required::<String>(fields, "value"@)->0,
                        remote: optional::<String>(fields, "remote"@)->0,
                    },
                )
            } else {
                None
            },
            _ => None,
        }
    }

    open spec fn reads_back(v: GitRefView) -> bool {
        true
    }

    fn encode(&self) -> (doc: Json) {
        let mut fields: Vec<(String, Json)> = Vec::new();
        fields.push(("ref_type".to_owned(), self.ref_type.encode()));
        fields.push(("value".to_owned(), self.value.encode()));
        fields.push(("remote".to_owned(), encode_optional(&self.remote)));
        proof {
            lemma_object_view(fields);
            assert(fields_view(fields@) =~= Self::encoded(self@)->Object_0);
        }
        Json::Object(fields)
    }

    fn decode(doc: &Json) -> (r: Option<Self>) {
        match doc {
            Json::Object(fields) => {
                proof {
                    lemma_object_view(*fields);
                }
                let ref_type = match take_required::<GitRefType>(fields, "ref_type") {
                    Some(x) => x,
                    None => {
                        return None;
                    },
                };
                let value = match take_required::<String>(fields, "value") {
                    Some(x) => x,
                    None => {
                        return None;
                    },
                };
                let remote = match take_optional::<String>(fields, "remote") {
                    Some(x) => x,
                    None => {
                        return None;
                    },
                };
                Some(GitRef { ref_type, value, remote })
            },
            _ => None,
        }
    }

    proof fn lemma_round_trip(v: GitRefView) {
        let fields = Self::encoded(v)->Object_0;
        reveal_strlit("ref_type");
        reveal_strlit("value");
        reveal_strlit("remote");
        assert("ref_type"@.len() == 8);
        assert("value"@.len() == 5);
        assert("remote"@.len() == 6);
        lemma_field_found(fields, 0);
        GitRefType::lemma_round_trip(v.ref_type);
        lemma_field_found(fields, 1);
        lemma_optional_round_trip::<String>(fields, 2, v.remote);
    }
}

impl Codec for PriorityFile {
    /// A priority file is written as an object with a field for each of
    /// its parts.
    open spec fn encoded(v: PriorityFileView) -> JsonView {
        JsonView::Object(
            seq![
                ("path"@, String::encoded(v.path)),
                ("reason"@, String::encoded(v.reason)),
                ("focus"@, encoded_optional::<String>(v.focus)),
                ("rank"@, u8::encoded(v.rank)),
            ],
        )
    }

    /// Read from an object that has every part; parts that may be absent
    /// may be missing or null, and fields of other names are passed over.
    open spec fn decoded(doc: JsonView) -> Option<PriorityFileView> {
        match doc {
            JsonView::Object(fields) => if required::<String>(fields, "path"@) is Some
                    && required::<String>(fields, "reason"@) is Some
                    && optional::<String>(fields, "focus"@) is Some
                    && required::<u8>(fields, "rank"@) is Some {
                Some(
                    PriorityFileView {
                        path: required::<String>(fields, "path"@)->0,
                        reason: required::<String>(fields, "reason"@)->0,
                        focus: optional::<String>(fields, "focus"@)->0,
                        rank: required::<u8>(fields, "rank"@)->0,
                    },
                )
            } else {
                None
            },
            _ => None,
        }
    }

    open spec fn reads_back(v: PriorityFileView) -> bool {
        true
    }

    fn encode(&self) -> (doc: Json) {
        let mut fields: Vec<(String, Json)> = Vec::new();
        fields.push(("path".to_owned(), self.path.encode()));
        fields.push(("reason".to_owned(), self.reason.encode()));
        fields.push(("focus".to_owned(), encode_optional(&self.focus)));
        fields.push(("rank".to_owned(), self.rank.encode()));
        proof {
            lemma_object_view(fields);
            assert(fields_view(fields@) =~= Self::encoded(self@)->Object_0);
        }
        Json::Object(fields)
    }

    fn decode(doc: &Json) -> (r: Option<Self>) {
        match doc {
            Json::Object(fields) => {
                proof {
                    lemma_object_view(*fields);
                }
                let path = match take_required::<String>(fields, "path") {
                    Some(x) => x,
                    None => {
                        return None;
                    },
                };
                let reason = match take_required::<String>(fields, "reason") {
                    Some(x) => x,
                    None => {
                        return None;
                    },
                };
                let focus = match take_optional::<String>(fields, "focus") {
                    Some(x) => x,
                    None => {
                        return None;
                    },
                };
                let rank = match take_required::<u8>(fields, "rank") {
                    Some(x) => x,
                    None => {
                        return None;
                    },
                };
                Some(PriorityFile { path, reason, focus, rank })
            },
            _ => None,
        }
    }

    proof fn lemma_round_trip(v: PriorityFileView) {
        let fields = Self::encoded(v)->Object_0;
        reveal_strlit("path");
        reveal_strlit("reason");
        reveal_strlit("focus");
        reveal_strlit("rank");
        assert("path"@.len() == 4);
        assert("reason"@.len() == 6);
        assert("focus"@.len() == 5);
        assert("rank"@.len() == 4);
        assert("path"@[0] != "rank"@[0]);
        lemma_field_found(fields, 0);
        lemma_field_found(fields, 1);
        lemma_optional_round_trip::<String>(fields, 2, v.focus);
        lemma_field_found(fields, 3);
    }
}

impl Codec for WarmUpSequence {
    /// A warm-up sequence is written as an object with a field for each of
    /// its parts.
    open spec fn encoded(v: WarmUpSequenceView) -> JsonView {
        JsonView::Object(
            seq![
                ("priority_files"@, encoded_list::<PriorityFile>(v.priority_files)),
                ("tldr"@, String::encoded(v.tldr)),
                ("must_know"@, encoded_list::<String>(v.must_know)),
                ("suggested_start"@, encoded_optional::<String>(v.suggested_start)),
                ("estimated_tokens"@, encoded_optional::<u32>(v.estimated_tokens)),
            ],
        )
    }

    /// Read from an object that has every part; parts that may be absent
    /// may be missing or null, and fields of other names are passed over.
    open spec fn decoded(doc: JsonView) -> Option<WarmUpSequenceView> {
        match doc {
            JsonView::Object(fields) => if listed::<PriorityFile>(fields, "priority_files"@) is Some
                    && required::<String>(fields, "tldr"@) is Some
                    && listed::<String>(fields, "must_know"@) is Some
                    && optional::<String>(fields, "suggested_start"@) is Some
                    && optional::<u32>(fields, "estimated_tokens"@) is Some {
                Some(
                    WarmUpSequenceView {
                        priority_files: listed::<PriorityFile>(fields, "priority_files"@)->0,
                        tldr: required::<String>(fields, "tldr"@)->0,
                        must_know: listed::<String>(fields, "must_know"@)->0,
                        suggested_start: optional::<String>(fields, "suggested_start"@)->0,
                        estimated_tokens: optional::<u32>(fields, "estimated_tokens"@)->0,
                    },
                )
            } else {
                None
            },
            _ => None,
        }
    }

    open spec fn reads_back(v: WarmUpSequenceView) -> bool {
        true
    }

    fn encode(&self) -> (doc: Json) {
        let mut fields: Vec<(String, Json)> = Vec::new();
        fields.push(("priority_files".to_owned(), encode_list(&self.priority_files)));
        fields.push(("tldr".to_owned(), self.tldr.encode()));
        fields.push(("must_know".to_owned(), encode_list(&self.must_know)));
        fields.push(("suggested_start".to_owned(), encode_optional(&self.suggested_start)));
        fields.push(("estimated_tokens".to_owned(), encode_optional(&self.estimated_tokens)));
        proof {
            lemma_object_view(fields);
            assert(fields_view(fields@) =~= Self::encoded(self@)->Object_0);
        }
        Json::Object(fields)
    }

    fn decode(doc: &Json) -> (r: Option<Self>) {
        match doc {
            Json::Object(fields) => {
                proof {
                    lemma_object_view(*fields);
                }
                let priority_files = match take_list::<PriorityFile>(fields, "priority_files") {
                    Some(x) => x,
                    None => {
                        return None;
                    },
                };
                let tldr = match take_required::<String>(fields, "tldr") {
                    Some(x) => x,
                    None => {
                        return None;
                    },
                };
                let must_know = match take_list::<String>(fields, "must_know") {
                    Some(x) => x,
                    None => {
                        return None;
                    },
                };
                let suggested_start = match take_optional::<String>(fields, "suggested_start") {
                    Some(x) => x,
                    None => {
                        return None;
                    },
                };
                let estimated_tokens = match take_optional::<u32>(fields, "estimated_tokens") {
                    Some(x) => x,
                    None => {
                        return None;
                    },
                };
                Some(WarmUpSequence { priority_files, tldr, must_know, suggested_start, estimated_tokens })
            },
            _ => None,
        }
    }

    proof fn lemma_round_trip(v: WarmUpSequenceView) {
        let fields = Self::encoded(v)->Object_0;
        reveal_strlit("priority_files");
        reveal_strlit("tldr");
        reveal_strlit("must_know");
        reveal_strlit("suggested_start");
        reveal_strlit("estimated_tokens");
        assert("priority_files"@.len() == 14);
        assert("tldr"@.len() == 4);
        assert("must_know"@.len() == 9);
        assert("suggested_start"@.len() == 15);
        assert("estimated_tokens"@.len() == 16);
        lemma_field_found(fields, 0);
        lemma_list_round_trip::<PriorityFile>(v.priority_files);
        lemma_field_found(fields, 1);
        lemma_field_found(fields, 2);
        lemma_list_round_trip::<String>(v.must_know);
        lemma_optional_round_trip::<String>(fields, 3, v.suggested_start);
        lemma_optional_round_trip::<u32>(fields, 4, v.estimated_tokens);
    }
}

/// The name under which a mode is tagged.
pub open spec fn mode_tag(mode: HandoffModeView) -> Seq<char> {
    match mode {
        HandoffModeView::Deploy(_) => "Deploy"@,
        HandoffModeView::Debug(_) => "Debug"@,
        HandoffModeView::Plan(_) => "Plan"@,
    }
}

impl Codec for HandoffMode {
    /// A mode is written as an object of two fields: `kind`, the tag of
    /// the mode, and `context`, the document of its context.
    open spec fn encoded(v: HandoffModeView) -> JsonView {
        JsonView::Object(
            seq![
                ("kind"@, JsonView::Text(mode_tag(v))),
                (
                    "context"@,
                    match v {
                        HandoffModeView::Deploy(c) => DeployContext::encoded(c),
                        HandoffModeView::Debug(c) => DebugContext::encoded(c),
                        HandoffModeView::Plan(c) => PlanContext::encoded(c),
                    },
                ),
            ],
        )
    }

    /// Read from an object whose `kind` is one of the three tags and whose
    /// `context` is a context of that kind.
    open spec fn decoded(doc: JsonView) -> Option<HandoffModeView> {
        match doc {
            JsonView::Object(fields) => match required::<String>(fields, "kind"@) {
                Some(tag) => if tag == "Deploy"@ {
                    match required::<DeployContext>(fields, "context"@) {
                        Some(c) => Some(HandoffModeView::Deploy(c)),
                        None => None,
                    }
                } else if tag == "Debug"@ {
                    match required::<DebugContext>(fields, "context"@) {
                        Some(c) => Some(HandoffModeView::Debug(c)),
                        None => None,
                    }
                } else if tag == "Plan"@ {
                    match required::<PlanContext>(fields, "context"@) {
                        Some(c) => Some(HandoffModeView::Plan(c)),
                        None => None,
                    }
                } else {
                    None
                },
                None => None,
            },
            _ => None,
        }
    }

    open spec fn reads_back(v: HandoffModeView) -> bool {
        true
    }

    fn encode(&self) -> (doc: Json) {
        let (tag, context) = match self {
            HandoffMode::Deploy(c) => ("Deploy", c.encode()),
            HandoffMode::Debug(c) => ("Debug", c.encode()),
            HandoffMode::Plan(c) => ("Plan", c.encode()),
        };
        let mut fields: Vec<(String, Json)> = Vec::new();
        fields.push(("kind".to_owned(), Json::Text(tag.to_owned())));
        fields.push(("context".to_owned(), context));
        proof {
            lemma_object_view(fields);
            assert(fields_view(fields@) =~= Self::encoded(self@)->Object_0);
        }
        Json::Object(fields)
    }

    fn decode(doc: &Json) -> (r: Option<Self>) {
        match doc {
            Json::Object(fields) => {
                proof {
                    lemma_object_view(*fields);
                }
                let tag = match take_required::<String>(fields, "kind") {
                    Some(x) => x,
                    None => {
                        return None;
                    },
                };
                if same_text(tag.as_str(), "Deploy") {
                    match take_required::<DeployContext>(fields, "context") {
                        Some(c) => Some(HandoffMode::Deploy(c)),
                        None => None,
                    }
                } else if same_text(tag.as_str(), "Debug") {
                    match take_required::<DebugContext>(fields, "context") {
                        Some(c) => Some(HandoffMode::Debug(c)),
                        None => None,
                    }
                } else if same_text(tag.as_str(), "Plan") {
                    match take_required::<PlanContext>(fields, "context") {
                        Some(c) => Some(HandoffMode::Plan(c)),
                        None => None,
                    }
                } else {
                    None
                }
            },
            _ => None,
        }
    }

    proof fn lemma_round_trip(v: HandoffModeView) {
        let fields = Self::encoded(v)->Object_0;
        reveal_strlit("kind");
        reveal_strlit("context");
        assert("kind"@.len() == 4);
        assert("context"@.len() == 7);
        reveal_strlit("Deploy");
        reveal_strlit("Debug");
        reveal_strlit("Plan");
        assert("Deploy"@.len() == 6);
        assert("Debug"@.len() == 5);
        assert("Plan"@.len() == 4);
        lemma_field_found(fields, 0);
        lemma_field_found(fields, 1);
        match v {
            HandoffModeView::Deploy(c) => {
                DeployContext::lemma_round_trip(c);
            },
            HandoffModeView::Debug(c) => {
                DebugContext::lemma_round_trip(c);
            },
            HandoffModeView::Plan(c) => {
                PlanContext::lemma_round_trip(c);
            },
        }
    }
}

impl Codec for Handoff {
    /// A handoff is written as an object with a field for each of
    /// its parts.
    open spec fn encoded(v: HandoffView) -> JsonView {
        JsonView::Object(
            seq![
                ("id"@, u128::encoded(v.id)),
                ("mode"@, HandoffMode::encoded(v.mode)),
                ("created_by"@, String::encoded(v.created_by)),
                ("created_at"@, Timestamp::encoded(v.created_at)),
                ("summary"@, String::encoded(v.summary)),
                ("session"@, SessionState::encoded(v.session)),
                ("warm_up"@, WarmUpSequence::encoded(v.warm_up)),
                ("git_ref"@, encoded_optional::<GitRef>(v.git_ref)),
                ("tags"@, encoded_list::<String>(v.tags)),
            ],
        )
    }

    /// Read from an object that has every part; parts that may be absent
    /// may be missing or null, and fields of other names are passed over.
    open spec fn decoded(doc: JsonView) -> Option<HandoffView> {
        match doc {
            JsonView::Object(fields) => if required::<u128>(fields, "id"@) is Some
                    && required::<HandoffMode>(fields, "mode"@) is Some
                    && required::<String>(fields, "created_by"@) is Some
                    && required::<Timestamp>(fields, "created_at"@) is Some
                    && required::<String>(fields, "summary"@) is Some
                    && required::<SessionState>(fields, "session"@) is Some
                    && required::<WarmUpSequence>(fields, "warm_up"@) is Some
                    && optional::<GitRef>(fields, "git_ref"@) is Some
                    && listed::<String>(fields, "tags"@) is Some {
                Some(
                    HandoffView {
                        id: required::<u128>(fields, "id"@)->0,
                        mode: required::<HandoffMode>(fields, "mode"@)->0,
                        created_by: required::<String>(fields, "created_by"@)->0,
                        created_at: required::<Timestamp>(fields, "created_at"@)->0,
                        summary: required::<String>(fields, "summary"@)->0,
                        session: required::<SessionState>(fields, "session"@)->0,
                        warm_up: required::<WarmUpSequence>(fields, "warm_up"@)->0,
                        git_ref: optional::<GitRef>(fields, "git_ref"@)->0,
                        tags: listed::<String>(fields, "tags"@)->0,
                    },
                )
            } else {
                None
            },
            _ => None,
        }
    }

    open spec fn reads_back(v: HandoffView) -> bool {
        &&& u128::reads_back(v.id)
        &&& Timestamp::reads_back(v.created_at)
        &&& SessionState::reads_back(v.session)
    }

    fn encode(&self) -> (doc: Json) {
        let mut fields: Vec<(String, Json)> = Vec::new();
        fields.push(("id".to_owned(), self.id.encode()));
        fields.push(("mode".to_owned(), self.mode.encode()));
        fields.push(("created_by".to_owned(), self.created_by.encode()));
        fields.push(("created_at".to_owned(), self.created_at.encode()));
        fields.push(("summary".to_owned(), self.summary.encode()));
        fields.push(("session".to_owned(), self.session.encode()));
        fields.push(("warm_up".to_owned(), self.warm_up.encode()));
        fields.push(("git_ref".to_owned(), encode_optional(&self.git_ref)));
        fields.push(("tags".to_owned(), encode_list(&self.tags)));
        proof {
            lemma_object_view(fields);
            assert(fields_view(fields@) =~= Self::encoded(self@)->Object_0);
        }
        Json::Object(fields)
    }

    fn decode(doc: &Json) -> (r: Option<Self>) {
        match doc {
            Json::Object(fields) => {
                proof {
                    lemma_object_view(*fields);
                }
                let id = match take_required::<u128>(fields, "id") {
                    Some(x) => x,
                    None => {
                        return None;
                    },
                };
                let mode = match take_required::<HandoffMode>(fields, "mode") {
                    Some(x) => x,
                    None => {
                        return None;
                    },
                };
                let created_by = match take_required::<String>(fields, "created_by") {
                    Some(x) => x,
                    None => {
                        return None;
                    },
                };
                let created_at = match take_required::<Timestamp>(fields, "created_at") {
                    Some(x) => x,
                    None => {
                        return None;
                    },
                };
                let summary = match take_required::<String>(fields, "summary") {
                    Some(x) => x,
                    None => {
                        return None;
                    },
                };
                let session = match take_required::<SessionState>(fields, "session") {
                    Some(x) => x,
                    None => {
                        return None;
                    },
                };
                let warm_up = match take_required::<WarmUpSequence>(fields, "warm_up") {
                    Some(x) => x,
                    None => {
                        return None;
                    },
                };
                let git_ref = match take_optional::<GitRef>(fields, "git_ref") {
                    Some(x) => x,
                    None => {
                        return None;
                    },
                };
                let tags = match take_list::<String>(fields, "tags") {
                    Some(x) => x,
                    None => {
                        return None;
                    },
                };
                Some(Handoff { id, mode, created_by, created_at, summary, session, warm_up, git_ref, tags })
            },
            _ => None,
        }
    }

    proof fn lemma_round_trip(v: HandoffView) {
        let fields = Self::encoded(v)->Object_0;
        reveal_strlit("id");
        reveal_strlit("mode");
        reveal_strlit("created_by");
        reveal_strlit("created_at");
        reveal_strlit("summary");
        reveal_strlit("session");
        reveal_strlit("warm_up");
        reveal_strlit("git_ref");
        reveal_strlit("tags");
        assert("id"@.len() == 2);
        assert("mode"@.len() == 4);
        assert("created_by"@.len() == 10);
        assert("created_at"@.len() == 10);
        assert("summary"@.len() == 7);
        assert("session"@.len() == 7);
        assert("warm_up"@.len() == 7);
        assert("git_ref"@.len() == 7);
        assert("tags"@.len() == 4);
        assert("created_by"@[8] != "created_at"@[8]);
        assert("summary"@[1] != "session"@[1]);
        assert("summary"@[0] != "warm_up"@[0]);
        assert("session"@[0] != "warm_up"@[0]);
        assert("summary"@[0] != "git_ref"@[0]);
        assert("session"@[0] != "git_ref"@[0]);
        assert("warm_up"@[0] != "git_ref"@[0]);
        assert("mode"@[0] != "tags"@[0]);
        lemma_field_found(fields, 0);
        u128::lemma_round_trip(v.id);
        lemma_field_found(fields, 1);
        HandoffMode::lemma_round_trip(v.mode);
        lemma_field_found(fields, 2);
        lemma_field_found(fields, 3);
        Timestamp::lemma_round_trip(v.created_at);
        lemma_field_found(fields, 4);
        lemma_field_found(fields, 5);
        SessionState::lemma_round_trip(v.session);
        lemma_field_found(fields, 6);
        WarmUpSequence::lemma_round_trip(v.warm_up);
        lemma_optional_round_trip::<GitRef>(fields, 7, v.git_ref);
        lemma_field_found(fields, 8);
        lemma_list_round_trip::<String>(v.tags);
    }
}

} // verus!
