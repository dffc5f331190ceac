//! The document form of the session state.

use crate::codec::{
    encode_list, encode_optional, encoded_list, encoded_optional, lemma_field_found,
    lemma_list_round_trip, lemma_optional_round_trip, listed, optional, optional_reads_back,
    required, take_list, take_optional, take_required, Codec,
};
use crate::context::{
    CommandRun, CommandRunView, DeadEnd, DeadEndView, FileModified, FileModifiedView, FileRead,
    FileReadView, Observation, ObservationCategory, ObservationView, SessionDecision,
    SessionDecisionView, SessionState, SessionStateView,
};
use crate::json::{fields_view, lemma_object_view, Json, JsonView};
use crate::text::same_text;
use crate::time::Timestamp;
use vstd::prelude::*;

verus! {

impl Codec for ObservationCategory {
    /// A category of observation is written as its name.
    open spec fn encoded(v: ObservationCategory) -> JsonView {
        JsonView::Text(
            match v {
                ObservationCategory::General => "general"@,
                ObservationCategory::Pattern => "pattern"@,
                ObservationCategory::Gotcha => "gotcha"@,
                ObservationCategory::Insight => "insight"@,
                ObservationCategory::Question => "question"@,
                ObservationCategory::Risk => "risk"@,
            },
        )
    }

    open spec fn decoded(doc: JsonView) -> Option<ObservationCategory> {
        match doc {
            JsonView::Text(s) => if s == "general"@ {
                Some(ObservationCategory::General)
            } else if s == "pattern"@ {
                Some(ObservationCategory::Pattern)
            } else if s == "gotcha"@ {
                Some(ObservationCategory::Gotcha)
            } else if s == "insight"@ {
                Some(ObservationCategory::Insight)
            } else if s == "question"@ {
                Some(ObservationCategory::Question)
            } else if s == "risk"@ {
                Some(ObservationCategory::Risk)
            } else {
                None
            },
            _ => None,
        }
    }

    open spec fn reads_back(v: ObservationCategory) -> bool {
        true
    }

    fn encode(&self) -> (doc: Json) {
        let name = match self {
            ObservationCategory::General => "general",
            ObservationCategory::Pattern => "pattern",
            ObservationCategory::Gotcha => "gotcha",
            ObservationCategory::Insight => "insight",
            ObservationCategory::Question => "question",
            ObservationCategory::Risk => "risk",
        };
        Json::Text(name.to_owned())
    }

    fn decode(doc: &Json) -> (r: Option<Self>) {
        match doc {
            Json::Text(s) => if same_text(s.as_str(), "general") {
                Some(ObservationCategory::General)
            } else if same_text(s.as_str(), "pattern") {
                Some(ObservationCategory::Pattern)
            } else if same_text(s.as_str(), "gotcha") {
                Some(ObservationCategory::Gotcha)
            } else if same_text(s.as_str(), "insight") {
                Some(ObservationCategory::Insight)
            } else if same_text(s.as_str(), "question") {
                Some(ObservationCategory::Question)
            } else if same_text(s.as_str(), "risk") {
                Some(ObservationCategory::Risk)
            } else {
                None
            },
            _ => None,
        }
    }

    proof fn lemma_round_trip(v: ObservationCategory) {
        reveal_strlit("general");
        reveal_strlit("pattern");
        reveal_strlit("gotcha");
        reveal_strlit("insight");
        reveal_strlit("question");
        reveal_strlit("risk");
        assert("general"@.len() == 7);
        assert("pattern"@.len() == 7);
        assert("gotcha"@.len() == 6);
        assert("insight"@.len() == 7);
        assert("question"@.len() == 8);
        assert("risk"@.len() == 4);
        assert("general"@[0] != "pattern"@[0]);
        assert("general"@[0] != "insight"@[0]);
        assert("pattern"@[0] != "insight"@[0]);
    }
}

impl Codec for FileRead {
    /// A file read is written as an object with a field for each of
    /// its parts.
    open spec fn encoded(v: FileReadView) -> JsonView {
        JsonView::Object(
            seq![
                ("path"@, String::encoded(v.path)),
                ("purpose"@, encoded_optional::<String>(v.purpose)),
                ("takeaways"@, encoded_list::<String>(v.takeaways)),
                ("read_order"@, encoded_optional::<u32>(v.read_order)),
            ],
        )
    }

    /// Read from an object that has every part; parts that may be absent
    /// may be missing or null, and fields of other names are passed over.
    open spec fn decoded(doc: JsonView) -> Option<FileReadView> {
        match doc {
            JsonView::Object(fields) => if required::<String>(fields, "path"@) is Some
                    && optional::<String>(fields, "purpose"@) is Some
                    && listed::<String>(fields, "takeaways"@) is Some
                    && optional::<u32>(fields, "read_order"@) is Some {
                Some(
                    FileReadView {
                        path: required::<String>(fields, "path"@)->0,
                        purpose: optional::<String>(fields, "purpose"@)->0,
                        takeaways: listed::<String>(fields, "takeaways"@)->0,
                        read_order: optional::<u32>(fields, "read_order"@)->0,
                    },
                )
            } else {
                None
            },
            _ => None,
        }
    }

    open spec fn reads_back(v: FileReadView) -> bool {
        true
    }

    fn encode(&self) -> (doc: Json) {
        let mut fields: Vec<(String, Json)> = Vec::new();
        fields.push(("path".to_owned(), self.path.encode()));
        fields.push(("purpose".to_owned(), encode_optional(&self.purpose)));
        fields.push(("takeaways".to_owned(), encode_list(&self.takeaways)));
        fields.push(("read_order".to_owned(), encode_optional(&self.read_order)));
        proof {
            lemma_object_view(fields);
            assert(fields_view(fields@) =~= Self::encoded(self@)->Object_0);
        }
        Json::Object(fields)
    }

    fn decode(doc: &Json) -> (r: Option<Self>) {
        match doc {
            Json::Object(fields) => {
                proof {
                    lemma_object_view(*fields);
                }
                let path = match take_required::<String>(fields, "path") {
                    Some(x) => x,
                    None => {
                        return None;
                    },
                };
                let purpose = match take_optional::<String>(fields, "purpose") {
                    Some(x) => x,
                    None => {
                        return None;
                    },
                };
                let takeaways = match take_list::<String>(fields, "takeaways") {
                    Some(x) => x,
                    None => {
                        return None;
                    },
                };
                let read_order = match take_optional::<u32>(fields, "read_order") {
                    Some(x) => x,
                    None => {
                        return None;
                    },
                };
                Some(FileRead { path, purpose, takeaways, read_order })
            },
            _ => None,
        }
    }

    proof fn lemma_round_trip(v: FileReadView) {
        let fields = Self::encoded(v)->Object_0;
        reveal_strlit("path");
        reveal_strlit("purpose");
        reveal_strlit("takeaways");
        reveal_strlit("read_order");
        assert("path"@.len() == 4);
        assert("purpose"@.len() == 7);
        assert("takeaways"@.len() == 9);
        assert("read_order"@.len() == 10);
        lemma_field_found(fields, 0);
        lemma_optional_round_trip::<String>(fields, 1, v.purpose);
        lemma_field_found(fields, 2);
        lemma_list_round_trip::<String>(v.takeaways);
        lemma_optional_round_trip::<u32>(fields, 3, v.read_order);
    }
}

impl Codec for FileModified {
    /// A file modified is written as an object with a field for each of
    /// its parts.
    open spec fn encoded(v: FileModifiedView) -> JsonView {
        JsonView::Object(
            seq![
                ("path"@, String::encoded(v.path)),
                ("change_summary"@, encoded_optional::<String>(v.change_summary)),
                ("lines_changed"@, encoded_optional::<u32>(v.lines_changed)),
            ],
        )
    }

    /// Read from an object that has every part; parts that may be absent
    /// may be missing or null, and fields of other names are passed over.
    open spec fn decoded(doc: JsonView) -> Option<FileModifiedView> {
        match doc {
            JsonView::Object(fields) => if required::<String>(fields, "path"@) is Some
                    && optional::<String>(fields, "change_summary"@) is Some
                    && optional::<u32>(fields, "lines_changed"@) is Some {
                Some(
                    FileModifiedView {
                        path: required::<String>(fields, "path"@)->0,
                        change_summary: optional::<String>(fields, "change_summary"@)->0,
                        lines_changed: optional::<u32>(fields, "lines_changed"@)->0,
                    },
                )
            } else {
                None
            },
            _ => None,
        }
    }

    open spec fn reads_back(v: FileModifiedView) -> bool {
        true
    }

    fn encode(&self) -> (doc: Json) {
        let mut fields: Vec<(String, Json)> = Vec::new();
        fields.push(("path".to_owned(), self.path.encode()));
        fields.push(("change_summary".to_owned(), encode_optional(&self.change_summary)));
        fields.push(("lines_changed".to_owned(), encode_optional(&self.lines_changed)));
        proof {
            lemma_object_view(fields);
            assert(fields_view(fields@) =~= Self::encoded(self@)->Object_0);
        }
        Json::Object(fields)
    }

    fn decode(doc: &Json) -> (r: Option<Self>) {
        match doc {
            Json::Object(fields) => {
                proof {
                    lemma_object_view(*fields);
                }
                let path = match take_required::<String>(fields, "path") {
                    Some(x) => x,
                    None => {
                        return None;
                    },
                };
                let change_summary = match take_optional::<String>(fields, "change_summary") {
                    Some(x) => x,
                    None => {
                        return None;
                    },
                };
                let lines_changed = match take_optional::<u32>(fields, "lines_changed") {
                    Some(x) => x,
                    None => {
                        return None;
                    },
                };
                Some(FileModified { path, change_summary, lines_changed })
            },
            _ => None,
        }
    }

    proof fn lemma_round_trip(v: FileModifiedView) {
        let fields = Self::encoded(v)->Object_0;
        reveal_strlit("path");
        reveal_strlit("change_summary");
        reveal_strlit("lines_changed");
        assert("path"@.len() == 4);
        assert("change_summary"@.len() == 14);
        assert("lines_changed"@.len() == 13);
        lemma_field_found(fields, 0);
        lemma_optional_round_trip::<String>(fields, 1, v.change_summary);
        lemma_optional_round_trip::<u32>(fields, 2, v.lines_changed);
    }
}

impl Codec for CommandRun {
    /// A command run is written as an object with a field for each of
    /// its parts.
    open spec fn encoded(v: CommandRunView) -> JsonView {
        JsonView::Object(
            seq![
                ("command"@, String::encoded(v.command)),
                ("purpose"@, encoded_optional::<String>(v.purpose)),
                ("success"@, bool::encoded(v.success)),
                ("notable_output"@, encoded_optional::<String>(v.notable_output)),
            ],
        )
    }

    /// Read from an object that has every part; parts that may be absent
    /// may be missing or null, and fields of other names are passed over.
    open spec fn decoded(doc: JsonView) -> Option<CommandRunView> {
        match doc {
            JsonView::Object(fields) => if required::<String>(fields, "command"@) is Some
                    && optional::<String>(fields, "purpose"@) is Some
                    && required::<bool>(fields, "success"@) is Some
                    && optional::<String>(fields, "notable_output"@) is Some {
                Some(
                    CommandRunView {
                        command: required::<String>(fields, "command"@)->0,
                        purpose: optional::<String>(fields, "purpose"@)->0,
                        success: required::<bool>(fields, "success"@)->0,
                        notable_output: optional::<String>(fields, "notable_output"@)->0,
                    },
                )
            } else {
                None
            },
            _ => None,
        }
    }

    open spec fn reads_back(v: CommandRunView) -> bool {
        true
    }

    fn encode(&self) -> (doc: Json) {
        let mut fields: Vec<(String, Json)> = Vec::new();
        fields.push(("command".to_owned(), self.command.encode()));
        fields.push(("purpose".to_owned(), encode_optional(&self.purpose)));
        fields.push(("success".to_owned(), self.success.encode()));
        fields.push(("notable_output".to_owned(), encode_optional(&self.notable_output)));
        proof {
            lemma_object_view(fields);
            assert(fields_view(fields@) =~= Self::encoded(self@)->Object_0);
        }
        Json::Object(fields)
    }

    fn decode(doc: &Json) -> (r: Option<Self>) {
        match doc {
            Json::Object(fields) => {
                proof {
                    lemma_object_view(*fields);
                }
                let command = match take_required::<String>(fields, "command") {
                    Some(x) => x,
                    None => {
                        return None;
                    },
                };
                let purpose = match take_optional::<String>(fields, "purpose") {
                    Some(x) => x,
                    None => {
                        return None;
                    },
                };
                let success = match take_required::<bool>(fields, "success") {
                    Some(x) => x,
                    None => {
                        return None;
                    },
                };
                let notable_output = match take_optional::<String>(fields, "notable_output") {
                    Some(x) => x,
                    None => {
                        return None;
                    },
                };
                Some(CommandRun { command, purpose, success, notable_output })
            },
            _ => None,
        }
    }

    proof fn lemma_round_trip(v: CommandRunView) {
        let fields = Self::encoded(v)->Object_0;
        reveal_strlit("command");
        reveal_strlit("purpose");
        reveal_strlit("success");
        reveal_strlit("notable_output");
        assert("command"@.len() == 7);
        assert("purpose"@.len() == 7);
        assert("success"@.len() == 7);
        assert("notable_output"@.len() == 14);
        assert("command"@[0] != "purpose"@[0]);
        assert("command"@[0] != "success"@[0]);
        assert("purpose"@[0] != "success"@[0]);
        lemma_field_found(fields, 0);
        lemma_optional_round_trip::<String>(fields, 1, v.purpose);
        lemma_field_found(fields, 2);
        lemma_optional_round_trip::<String>(fields, 3, v.notable_output);
    }
}

impl Codec for Observation {
    /// An observation is written as an object with a field for each of
    /// its parts.
    open spec fn encoded(v: ObservationView) -> JsonView {
        JsonView::Object(
            seq![
                ("note"@, String::encoded(v.note)),
                ("category"@, ObservationCategory::encoded(v.category)),
                ("importance"@, u8::encoded(v.importance)),
            ],
        )
    }

    /// Read from an object that has every part; parts that may be absent
    /// may be missing or null, and fields of other names are passed over.
    open spec fn decoded(doc: JsonView) -> Option<ObservationView> {
        match doc {
            JsonView::Object(fields) => if required::<String>(fields, "note"@) is Some
                    && required::<ObservationCategory>(fields, "category"@) is Some
                    && required::<u8>(fields, "importance"@) is Some {
                Some(
                    ObservationView {
                        note: required::<String>(fields, "note"@)->0,
                        category: required::<ObservationCategory>(fields, "category"@)->0,
                        importance: required::<u8>(fields, "importance"@)->0,
                    },
                )
            } else {
                None
            },
            _ => None,
        }
    }

    open spec fn reads_back(v: ObservationView) -> bool {
        true
    }

    fn encode(&self) -> (doc: Json) {
        let mut fields: Vec<(String, Json)> = Vec::new();
        fields.push(("note".to_owned(), self.note.encode()));
        fields.push(("category".to_owned(), self.category.encode()));
        fields.push(("importance".to_owned(), self.importance.encode()));
        proof {
            lemma_object_view(fields);
            assert(fields_view(fields@) =~= Self::encoded(self@)->Object_0);
        }
        Json::Object(fields)
    }

    fn decode(doc: &Json) -> (r: Option<Self>) {
        match doc {
            Json::Object(fields) => {
                proof {
                    lemma_object_view(*fields);
                }
                let note = match take_required::<String>(fields, "note") {
                    Some(x) => x,
                    None => {
                        return None;
                    },
                };
                let category = match take_required::<ObservationCategory>(fields, "category") {
                    Some(x) => x,
                    None => {
                        return None;
                    },
                };
                let importance = match take_required::<u8>(fields, "importance") {
                    Some(x) => x,
                    None => {
                        return None;
                    },
                };
                Some(Observation { note, category, importance })
            },
            _ => None,
        }
    }

    proof fn lemma_round_trip(v: ObservationView) {
        let fields = Self::encoded(v)->Object_0;
        reveal_strlit("note");
        reveal_strlit("category");
        reveal_strlit("importance");
        assert("note"@.len() == 4);
        assert("category"@.len() == 8);
        assert("importance"@.len() == 10);
        lemma_field_found(fields, 0);
        lemma_field_found(fields, 1);
        ObservationCategory::lemma_round_trip(v.category);
        lemma_field_found(fields, 2);
    }
}

impl Codec for SessionDecision {
    /// A session decision is written as an object with a field for each of
    /// its parts.
    open spec fn encoded(v: SessionDecisionView) -> JsonView {
        JsonView::Object(
            seq![
                ("decision"@, String::encoded(v.decision)),
                ("why"@, String::encoded(v.why)),
                ("alternatives"@, encoded_list::<String>(v.alternatives)),
            ],
        )
    }

    /// Read from an object that has every part; parts that may be absent
    /// may be missing or null, and fields of other names are passed over.
    open spec fn decoded(doc: JsonView) -> Option<SessionDecisionView> {
        match doc {
            JsonView::Object(fields) => if required::<String>(fields, "decision"@) is Some
                    && required::<String>(fields, "why"@) is Some
                    && listed::<String>(fields, "alternatives"@) is Some {
                Some(
                    SessionDecisionView {
                        decision: required::<String>(fields, "decision"@)->0,
                        why: required::<String>(fields, "why"@)->0,
                        alternatives: listed::<String>(fields, "alternatives"@)->0,
                    },
                )
            } else {
                None
            },
            _ => None,
        }
    }

    open spec fn reads_back(v: SessionDecisionView) -> bool {
        true
    }

    fn encode(&self) -> (doc: Json) {
        let mut fields: Vec<(String, Json)> = Vec::new();
        fields.push(("decision".to_owned(), self.decision.encode()));
        fields.push(("why".to_owned(), self.why.encode()));
        fields.push(("alternatives".to_owned(), encode_list(&self.alternatives)));
        proof {
            lemma_object_view(fields);
            assert(fields_view(fields@) =~= Self::encoded(self@)->Object_0);
        }
        Json::Object(fields)
    }

    fn decode(doc: &Json) -> (r: Option<Self>) {
        match doc {
            Json::Object(fields) => {
                proof {
                    lemma_object_view(*fields);
                }
                let decision = match take_required::<String>(fields, "decision") {
                    Some(x) => x,
                    None => {
                        return None;
                    },
                };
                let why = match take_required::<String>(fields, "why") {
                    Some(x) => x,
                    None => {
                        return None;
                    },
                };
                let alternatives = match take_list::<String>(fields, "alternatives") {
                    Some(x) => x,
                    None => {
                        return None;
                    },
                };
                Some(SessionDecision { decision, why, alternatives })
            },
            _ => None,
        }
    }

    proof fn lemma_round_trip(v: SessionDecisionView) {
        let fields = Self::encoded(v)->Object_0;
        reveal_strlit("decision");
        reveal_strlit("why");
        reveal_strlit("alternatives");
        assert("decision"@.len() == 8);
        assert("why"@.len() == 3);
        assert("alternatives"@.len() == 12);
        lemma_field_found(fields, 0);
        lemma_field_found(fields, 1);
        lemma_field_found(fields, 2);
        lemma_list_round_trip::<String>(v.alternatives);
    }
}

impl Codec for DeadEnd {
    /// A dead end is written as an object with a field for each of
    /// its parts.
    open spec fn encoded(v: DeadEndView) -> JsonView {
        JsonView::Object(
            seq![
                ("approach"@, String::encoded(v.approach)),
                ("reason"@, String::encoded(v.reason)),
                ("revisit"@, bool::encoded(v.revisit)),
            ],
        )
    }

    /// Read from an object that has every part; parts that may be absent
    /// may be missing or null, and fields of other names are passed over.
    open spec fn decoded(doc: JsonView) -> Option<DeadEndView> {
        match doc {
            JsonView::Object(fields) => if required::<String>(fields, "approach"@) is Some
                    && required::<String>(fields, "reason"@) is Some
                    && required::<bool>(fields, "revisit"@) is Some {
                Some(
                    DeadEndView {
                        approach: required::<String>(fields, "approach"@)->0,
                        reason: required::<String>(fields, "reason"@)->0,
                        revisit: required::<bool>(fields, "revisit"@)->0,
                    },
                )
            } else {
                None
            },
            _ => None,
        }
    }

    open spec fn reads_back(v: DeadEndView) -> bool {
        true
    }

    fn encode(&self) -> (doc: Json) {
        let mut fields: Vec<(String, Json)> = Vec::new();
        fields.push(("approach".to_owned(), self.approach.encode()));
        fields.push(("reason".to_owned(), self.reason.encode()));
        fields.push(("revisit".to_owned(), self.revisit.encode()));
        proof {
            lemma_object_view(fields);
            assert(fields_view(fields@) =~= Self::encoded(self@)->Object_0);
        }
        Json::Object(fields)
    }

    fn decode(doc: &Json) -> (r: Option<Self>) {
        match doc {
            Json::Object(fields) => {
                proof {
                    lemma_object_view(*fields);
                }
                let approach = match take_required::<String>(fields, "approach") {
                    Some(x) => x,
                    None => {
                        return None;
                    },
                };
                let reason = match take_required::<String>(fields, "reason") {
                    Some(x) => x,
                    None => {
                        return None;
                    },
                };
                let revisit = match take_required::<bool>(fields, "revisit") {
                    Some(x) => x,
                    None => {
                        return None;
                    },
                };
                Some(DeadEnd { approach, reason, revisit })
            },
            _ => None,
        }
    }

    proof fn lemma_round_trip(v: DeadEndView) {
        let fields = Self::encoded(v)->Object_0;
        reveal_strlit("approach");
        reveal_strlit("reason");
        reveal_strlit("revisit");
        assert("approach"@.len() == 8);
        assert("reason"@.len() == 6);
        assert("revisit"@.len() == 7);
        lemma_field_found(fields, 0);
        lemma_field_found(fields, 1);
        lemma_field_found(fields, 2);
    }
}

impl Codec for SessionState {
    /// A session state is written as an object with a field for each of
    /// its parts.
    open spec fn encoded(v: SessionStateView) -> JsonView {
        JsonView::Object(
            seq![
                ("started_at"@, encoded_optional::<Timestamp>(v.started_at)),
                ("ended_at"@, encoded_optional::<Timestamp>(v.ended_at)),
                ("files_read"@, encoded_list::<FileRead>(v.files_read)),
                ("files_modified"@, encoded_list::<FileModified>(v.files_modified)),
                ("files_created"@, encoded_list::<String>(v.files_created)),
                ("commands_run"@, encoded_list::<CommandRun>(v.commands_run)),
                ("observations"@, encoded_list::<Observation>(v.observations)),
                ("decisions"@, encoded_list::<SessionDecision>(v.decisions)),
                ("dead_ends"@, encoded_list::<DeadEnd>(v.dead_ends)),
            ],
        )
    }

    /// Read from an object that has every part; parts that may be absent
    /// may be missing or null, and fields of other names are passed over.
    open spec fn decoded(doc: JsonView) -> Option<SessionStateView> {
        match doc {
            JsonView::Object(fields) => if optional::<Timestamp>(fields, "started_at"@) is Some
                    && optional::<Timestamp>(fields, "ended_at"@) is Some
                    && listed::<FileRead>(fields, "files_read"@) is Some
                    && listed::<FileModified>(fields, "files_modified"@) is Some
                    && listed::<String>(fields, "files_created"@) is Some
                    && listed::<CommandRun>(fields, "commands_run"@) is Some
                    && listed::<Observation>(fields, "observations"@) is Some
                    && listed::<SessionDecision>(fields, "decisions"@) is Some
                    && listed::<DeadEnd>(fields, "dead_ends"@) is Some {
                Some(
                    SessionStateView {
                        started_at: optional::<Timestamp>(fields, "started_at"@)->0,
                        ended_at: optional::<Timestamp>(fields, "ended_at"@)->0,
                        files_read: listed::<FileRead>(fields, "files_read"@)->0,
                        files_modified: listed::<FileModified>(fields, "files_modified"@)->0,
                        files_created: listed::<String>(fields, "files_created"@)->0,
                        commands_run: listed::<CommandRun>(fields, "commands_run"@)->0,
                        observations: listed::<Observation>(fields, "observations"@)->0,
                        decisions: listed::<SessionDecision>(fields, "decisions"@)->0,
                        dead_ends: listed::<DeadEnd>(fields, "dead_ends"@)->0,
                    },
                )
            } else {
                None
            },
            _ => None,
        }
    }

    open spec fn reads_back(v: SessionStateView) -> bool {
        &&& optional_reads_back::<Timestamp>(v.started_at)
        &&& optional_reads_back::<Timestamp>(v.ended_at)
    }

    fn encode(&self) -> (doc: Json) {
        let mut fields: Vec<(String, Json)> = Vec::new();
        fields.push(("started_at".to_owned(), encode_optional(&self.started_at)));
        fields.push(("ended_at".to_owned(), encode_optional(&self.ended_at)));
        fields.push(("files_read".to_owned(), encode_list(&self.files_read)));
        fields.push(("files_modified".to_owned(), encode_list(&self.files_modified)));
        fields.push(("files_created".to_owned(), encode_list(&self.files_created)));
        fields.push(("commands_run".to_owned(), encode_list(&self.commands_run)));
        fields.push(("observations".to_owned(), encode_list(&self.observations)));
        fields.push(("decisions".to_owned(), encode_list(&self.decisions)));
        fields.push(("dead_ends".to_owned(), encode_list(&self.dead_ends)));
        proof {
            lemma_object_view(fields);
            assert(fields_view(fields@) =~= Self::encoded(self@)->Object_0);
        }
        Json::Object(fields)
    }

    fn decode(doc: &Json) -> (r: Option<Self>) {
        match doc {
            Json::Object(fields) => {
                proof {
                    lemma_object_view(*fields);
                }
                let started_at = match take_optional::<Timestamp>(fields, "started_at") {
                    Some(x) => x,
                    None => {
                        return None;
                    },
                };
                let ended_at = match take_optional::<Timestamp>(fields, "ended_at") {
                    Some(x) => x,
                    None => {
                        return None;
                    },
                };
                let files_read = match take_list::<FileRead>(fields, "files_read") {
                    Some(x) => x,
                    None => {
                        return None;
                    },
                };
                let files_modified = match take_list::<FileModified>(fields, "files_modified") {
                    Some(x) => x,
                    None => {
                        return None;
                    },
                };
                let files_created = match take_list::<String>(fields, "files_created") {
                    Some(x) => x,
                    None => {
                        return None;
                    },
                };
                let commands_run = match take_list::<CommandRun>(fields, "commands_run") {
                    Some(x) => x,
                    None => {
                        return None;
                    },
                };
                let observations = match take_list::<Observation>(fields, "observations") {
                    Some(x) => x,
                    None => {
                        return None;
                    },
                };
                let decisions = match take_list::<SessionDecision>(fields, "decisions") {
                    Some(x) => x,
                    None => {
                        return None;
                    },
                };
                let dead_ends = match take_list::<DeadEnd>(fields, "dead_ends") {
                    Some(x) => x,
                    None => {
                        return None;
                    },
                };
                Some(SessionState { started_at, ended_at, files_read, files_modified, files_created, commands_run, observations, decisions, dead_ends })
            },
            _ => None,
        }
    }

    proof fn lemma_round_trip(v: SessionStateView) {
        let fields = Self::encoded(v)->Object_0;
        reveal_strlit("started_at");
        reveal_strlit("ended_at");
        reveal_strlit("files_read");
        reveal_strlit("files_modified");
        reveal_strlit("files_created");
        reveal_strlit("commands_run");
        reveal_strlit("observations");
        reveal_strlit("decisions");
        reveal_strlit("dead_ends");
        assert("started_at"@.len() == 10);
        assert("ended_at"@.len() == 8);
        assert("files_read"@.len() == 10);
        assert("files_modified"@.len() == 14);
        assert("files_created"@.len() == 13);
        assert("commands_run"@.len() == 12);
        assert("observations"@.len() == 12);
        assert("decisions"@.len() == 9);
        assert("dead_ends"@.len() == 9);
        assert("started_at"@[0] != "files_read"@[0]);
        assert("commands_run"@[0] != "observations"@[0]);
        assert("decisions"@[2] != "dead_ends"@[2]);
        lemma_optional_round_trip::<Timestamp>(fields, 0, v.started_at);
        lemma_optional_round_trip::<Timestamp>(fields, 1, v.ended_at);
        lemma_field_found(fields, 2);
        lemma_list_round_trip::<FileRead>(v.files_read);
        lemma_field_found(fields, 3);
        lemma_list_round_trip::<FileModified>(v.files_modified);
        lemma_field_found(fields, 4);
        lemma_list_round_trip::<String>(v.files_created);
        lemma_field_found(fields, 5);
        lemma_list_round_trip::<CommandRun>(v.commands_run);
        lemma_field_found(fields, 6);
        lemma_list_round_trip::<Observation>(v.observations);
        lemma_field_found(fields, 7);
        lemma_list_round_trip::<SessionDecision>(v.decisions);
        lemma_field_found(fields, 8);
        lemma_list_round_trip::<DeadEnd>(v.dead_ends);
    }
}

} // verus!
