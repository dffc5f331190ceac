//! The document form of the debug context.

use crate::codec::{
    encode_list, encode_optional, encoded_list, encoded_optional, lemma_field_found,
    lemma_list_round_trip, lemma_optional_round_trip, listed, optional, required, take_list,
    take_optional, take_required, Codec,
};
use crate::handoff::debug::{
    Attempt, AttemptOutcome, AttemptView, DebugContext, DebugContextView, Evidence, EvidenceKind,
    EvidenceView, Hypothesis, HypothesisView, Likelihood, SuspectedFile, SuspectedFileView,
};
use crate::json::{fields_view, lemma_object_view, Json, JsonView};
use crate::text::same_text;
use vstd::prelude::*;

verus! {

impl Codec for Likelihood {
    /// A likelihood is written as its name.
    open spec fn encoded(v: Likelihood) -> JsonView {
        JsonView::Text(
            match v {
                Likelihood::High => "high"@,
                Likelihood::Medium => "medium"@,
                Likelihood::Low => "low"@,
                Likelihood::Eliminated => "eliminated"@,
            },
        )
    }

    open spec fn decoded(doc: JsonView) -> Option<Likelihood> {
        match doc {
            JsonView::Text(s) => if s == "high"@ {
                Some(Likelihood::High)
            } else if s == "medium"@ {
                Some(Likelihood::Medium)
            } else if s == "low"@ {
                Some(Likelihood::Low)
            } else if s == "eliminated"@ {
                Some(Likelihood::Eliminated)
            } else {
                None
            },
            _ => None,
        }
    }

    open spec fn reads_back(v: Likelihood) -> bool {
        true
    }

    fn encode(&self) -> (doc: Json) {
        let name = match self {
            Likelihood::High => "high",
            Likelihood::Medium => "medium",
            Likelihood::Low => "low",
            Likelihood::Eliminated => "eliminated",
        };
        Json::Text(name.to_owned())
    }

    fn decode(doc: &Json) -> (r: Option<Self>) {
        match doc {
            Json::Text(s) => if same_text(s.as_str(), "high") {
                Some(Likelihood::High)
            } else if same_text(s.as_str(), "medium") {
                Some(Likelihood::Medium)
            } else if same_text(s.as_str(), "low") {
                Some(Likelihood::Low)
            } else if same_text(s.as_str(), "eliminated") {
                Some(Likelihood::Eliminated)
            } else {
                None
            },
            _ => None,
        }
    }

    proof fn lemma_round_trip(v: Likelihood) {
        reveal_strlit("high");
        reveal_strlit("medium");
        reveal_strlit("low");
        reveal_strlit("eliminated");
        assert("high"@.len() == 4);
        assert("medium"@.len() == 6);
        assert("low"@.len() == 3);
        assert("eliminated"@.len() == 10);
    }
}

impl Codec for AttemptOutcome {
    /// An outcome is written as its name.
    open spec fn encoded(v: AttemptOutcome) -> JsonView {
        JsonView::Text(
            match v {
                AttemptOutcome::Fixed => "fixed"@,
                AttemptOutcome::Helped => "helped"@,
                AttemptOutcome::NoEffect => "no_effect"@,
                AttemptOutcome::MadeWorse => "made_worse"@,
                AttemptOutcome::Inconclusive => "inconclusive"@,
            },
        )
    }

    open spec fn decoded(doc: JsonView) -> Option<AttemptOutcome> {
        match doc {
            JsonView::Text(s) => if s == "fixed"@ {
                Some(AttemptOutcome::Fixed)
            } else if s == "helped"@ {
                Some(AttemptOutcome::Helped)
            } else if s == "no_effect"@ {
                Some(AttemptOutcome::NoEffect)
            } else if s == "made_worse"@ {
                Some(AttemptOutcome::MadeWorse)
            } else if s == "inconclusive"@ {
                Some(AttemptOutcome::Inconclusive)
            } else {
                None
            },
            _ => None,
        }
    }

    open spec fn reads_back(v: AttemptOutcome) -> bool {
        true
    }

    fn encode(&self) -> (doc: Json) {
        let name = match self {
            AttemptOutcome::Fixed => "fixed",
            AttemptOutcome::Helped => "helped",
            AttemptOutcome::NoEffect => "no_effect",
            AttemptOutcome::MadeWorse => "made_worse",
            AttemptOutcome::Inconclusive => "inconclusive",
        };
        Json::Text(name.to_owned())
    }

    fn decode(doc: &Json) -> (r: Option<Self>) {
        match doc {
            Json::Text(s) => if same_text(s.as_str(), "fixed") {
                Some(AttemptOutcome::Fixed)
            } else if same_text(s.as_str(), "helped") {
                Some(AttemptOutcome::Helped)
            } else if same_text(s.as_str(), "no_effect") {
                Some(AttemptOutcome::NoEffect)
            } else if same_text(s.as_str(), "made_worse") {
                Some(AttemptOutcome::MadeWorse)
            } else if same_text(s.as_str(), "inconclusive") {
                Some(AttemptOutcome::Inconclusive)
            } else {
                None
            },
            _ => None,
        }
    }

    proof fn lemma_round_trip(v: AttemptOutcome) {
        reveal_strlit("fixed");
        reveal_strlit("helped");
        reveal_strlit("no_effect");
        reveal_strlit("made_worse");
        reveal_strlit("inconclusive");
        assert("fixed"@.len() == 5);
        assert("helped"@.len() == 6);
        assert("no_effect"@.len() == 9);
        assert("made_worse"@.len() == 10);
        assert("inconclusive"@.len() == 12);
    }
}

impl Codec for EvidenceKind {
    /// A kind of evidence is written as its name.
    open spec fn encoded(v: EvidenceKind) -> JsonView {
        JsonView::Text(
            match v {
                EvidenceKind::Observation => "observation"@,
                EvidenceKind::LogEntry => "log_entry"@,
                EvidenceKind::ErrorMessage => "error_message"@,
                EvidenceKind::StackTrace => "stack_trace"@,
                EvidenceKind::Metric => "metric"@,
                EvidenceKind::UserReport => "user_report"@,
                EvidenceKind::Screenshot => "screenshot"@,
            },
        )
    }

    open spec fn decoded(doc: JsonView) -> Option<EvidenceKind> {
        match doc {
            JsonView::Text(s) => if s == "observation"@ {
                Some(EvidenceKind::Observation)
            } else if s == "log_entry"@ {
                Some(EvidenceKind::LogEntry)
            } else if s == "error_message"@ {
                Some(EvidenceKind::ErrorMessage)
            } else if s == "stack_trace"@ {
                Some(EvidenceKind::StackTrace)
            } else if s == "metric"@ {
                Some(EvidenceKind::Metric)
            } else if s == "user_report"@ {
                Some(EvidenceKind::UserReport)
            } else if s == "screenshot"@ {
                Some(EvidenceKind::Screenshot)
            } else {
                None
            },
            _ => None,
        }
    }

    open spec fn reads_back(v: EvidenceKind) -> bool {
        true
    }

    fn encode(&self) -> (doc: Json) {
        let name = match self {
            EvidenceKind::Observation => "observation",
            EvidenceKind::LogEntry => "log_entry",
            EvidenceKind::ErrorMessage => "error_message",
            EvidenceKind::StackTrace => "stack_trace",
            EvidenceKind::Metric => "metric",
            EvidenceKind::UserReport => "user_report",
            EvidenceKind::Screenshot => "screenshot",
        };
        Json::Text(name.to_owned())
    }

    fn decode(doc: &Json) -> (r: Option<Self>) {
        match doc {
            Json::Text(s) => if same_text(s.as_str(), "observation") {
                Some(EvidenceKind::Observation)
            } else if same_text(s.as_str(), "log_entry") {
                Some(EvidenceKind::LogEntry)
            } else if same_text(s.as_str(), "error_message") {
                Some(EvidenceKind::ErrorMessage)
            } else if same_text(s.as_str(), "stack_trace") {
                Some(EvidenceKind::StackTrace)
            } else if same_text(s.as_str(), "metric") {
                Some(EvidenceKind::Metric)
            } else if same_text(s.as_str(), "user_report") {
                Some(EvidenceKind::UserReport)
            } else if same_text(s.as_str(), "screenshot") {
                Some(EvidenceKind::Screenshot)
            } else {
                None
            },
            _ => None,
        }
    }

    proof fn lemma_round_trip(v: EvidenceKind) {
        reveal_strlit("observation");
        reveal_strlit("log_entry");
        reveal_strlit("error_message");
        reveal_strlit("stack_trace");
        reveal_strlit("metric");
        reveal_strlit("user_report");
        reveal_strlit("screenshot");
        assert("observation"@.len() == 11);
        assert("log_entry"@.len() == 9);
        assert("error_message"@.len() == 13);
        assert("stack_trace"@.len() == 11);
        assert("metric"@.len() == 6);
        assert("user_report"@.len() == 11);
        assert("screenshot"@.len() == 10);
        assert("observation"@[0] != "stack_trace"@[0]);
        assert("observation"@[0] != "user_report"@[0]);
        assert("stack_trace"@[0] != "user_report"@[0]);
    }
}

impl Codec for Hypothesis {
    /// A hypothesis is written as an object with a field for each of
    /// its parts.
    open spec fn encoded(v: HypothesisView) -> JsonView {
        JsonView::Object(
            seq![
                ("theory"@, String::encoded(v.theory)),
                ("support"@, encoded_list::<String>(v.support)),
                ("against"@, encoded_list::<String>(v.against)),
                ("likelihood"@, Likelihood::encoded(v.likelihood)),
            ],
        )
    }

    /// Read from an object that has every part; parts that may be absent
    /// may be missing or null, and fields of other names are passed over.
    open spec fn decoded(doc: JsonView) -> Option<HypothesisView> {
        match doc {
            JsonView::Object(fields) => if required::<String>(fields, "theory"@) is Some
                    && listed::<String>(fields, "support"@) is Some
                    && listed::<String>(fields, "against"@) is Some
                    && required::<Likelihood>(fields, "likelihood"@) is Some {
                Some(
                    HypothesisView {
                        theory: required::<String>(fields, "theory"@)->0,
                        support: listed::<String>(fields, "support"@)->0,
                        against: listed::<String>(fields, "against"@)->0,
                        likelihood: required::<Likelihood>(fields, "likelihood"@)->0,
                    },
                )
            } else {
                None
            },
            _ => None,
        }
    }

    open spec fn reads_back(v: HypothesisView) -> bool {
        true
    }

    fn encode(&self) -> (doc: Json) {
        let mut fields: Vec<(String, Json)> = Vec::new();
        fields.push(("theory".to_owned(), self.theory.encode()));
        fields.push(("support".to_owned(), encode_list(&self.support)));
        fields.push(("against".to_owned(), encode_list(&self.against)));
        fields.push(("likelihood".to_owned(), self.likelihood.encode()));
        proof {
            lemma_object_view(fields);
            assert(fields_view(fields@) =~= Self::encoded(self@)->Object_0);
        }
        Json::Object(fields)
    }

    fn decode(doc: &Json) -> (r: Option<Self>) {
        match doc {
            Json::Object(fields) => {
                proof {
                    lemma_object_view(*fields);
                }
                let theory = match take_required::<String>(fields, "theory") {
                    Some(x) => x,
                    None => {
                        return None;
                    },
                };
                let support = match take_list::<String>(fields, "support") {
                    Some(x) => x,
                    None => {
                        return None;
                    },
                };
                let against = match take_list::<String>(fields, "against") {
                    Some(x) => x,
                    None => {
                        return None;
                    },
                };
                let likelihood = match take_required::<Likelihood>(fields, "likelihood") {
                    Some(x) => x,
                    None => {
                        return None;
                    },
                };
                Some(Hypothesis { theory, support, against, likelihood })
            },
            _ => None,
        }
    }

    proof fn lemma_round_trip(v: HypothesisView) {
        let fields = Self::encoded(v)->Object_0;
        reveal_strlit("theory");
        reveal_strlit("support");
        reveal_strlit("against");
        reveal_strlit("likelihood");
        assert("theory"@.len() == 6);
        assert("support"@.len() == 7);
        assert("against"@.len() == 7);
        assert("likelihood"@.len() == 10);
        assert("support"@[0] != "against"@[0]);
        lemma_field_found(fields, 0);
        lemma_field_found(fields, 1);
        lemma_list_round_trip::<String>(v.support);
        lemma_field_found(fields, 2);
        lemma_list_round_trip::<String>(v.against);
        lemma_field_found(fields, 3);
        Likelihood::lemma_round_trip(v.likelihood);
    }
}

impl Codec for Attempt {
    /// An attempt is written as an object with a field for each of
    /// its parts.
    open spec fn encoded(v: AttemptView) -> JsonView {
        JsonView::Object(
            seq![
                ("what"@, String::encoded(v.what)),
                ("result"@, String::encoded(v.result)),
                ("outcome"@, AttemptOutcome::encoded(v.outcome)),
            ],
        )
    }

    /// Read from an object that has every part; parts that may be absent
    /// may be missing or null, and fields of other names are passed over.
    open spec fn decoded(doc: JsonView) -> Option<AttemptView> {
        match doc {
            JsonView::Object(fields) => if required::<String>(fields, "what"@) is Some
                    && required::<String>(fields, "result"@) is Some
                    && required::<AttemptOutcome>(fields, "outcome"@) is Some {
                Some(
                    AttemptView {
                        what: required::<String>(fields, "what"@)->0,
                        result: required::<String>(fields, "result"@)->0,
                        outcome: required::<AttemptOutcome>(fields, "outcome"@)->0,
                    },
                )
            } else {
                None
            },
            _ => None,
        }
    }

    open spec fn reads_back(v: AttemptView) -> bool {
        true
    }

    fn encode(&self) -> (doc: Json) {
        let mut fields: Vec<(String, Json)> = Vec::new();
        fields.push(("what".to_owned(), self.what.encode()));
        fields.push(("result".to_owned(), self.result.encode()));
        fields.push(("outcome".to_owned(), self.outcome.encode()));
        proof {
            lemma_object_view(fields);
            assert(fields_view(fields@) =~= Self::encoded(self@)->Object_0);
        }
        Json::Object(fields)
    }

    fn decode(doc: &Json) -> (r: Option<Self>) {
        match doc {
            Json::Object(fields) => {
                proof {
                    lemma_object_view(*fields);
                }
                let what = match take_required::<String>(fields, "what") {
                    Some(x) => x,
                    None => {
                        return None;
                    },
                };
                let result = match take_required::<String>(fields, "result") {
                    Some(x) => x,
                    None => {
                        return None;
                    },
                };
                let outcome = match take_required::<AttemptOutcome>(fields, "outcome") {
                    Some(x) => x,
                    None => {
                        return None;
                    },
                };
                Some(Attempt { what, result, outcome })
            },
            _ => None,
        }
    }

    proof fn lemma_round_trip(v: AttemptView) {
        let fields = Self::encoded(v)->Object_0;
        reveal_strlit("what");
        reveal_strlit("result");
        reveal_strlit("outcome");
        assert("what"@.len() == 4);
        assert("result"@.len() == 6);
        assert("outcome"@.len() == 7);
        lemma_field_found(fields, 0);
        lemma_field_found(fields, 1);
        lemma_field_found(fields, 2);
        AttemptOutcome::lemma_round_trip(v.outcome);
    }
}

impl Codec for Evidence {
    /// A piece of evidence is written as an object with a field for each of
    /// its parts.
    open spec fn encoded(v: EvidenceView) -> JsonView {
        JsonView::Object(
            seq![
                ("kind"@, EvidenceKind::encoded(v.kind)),
                ("content"@, String::encoded(v.content)),
                ("source"@, encoded_optional::<String>(v.source)),
                ("timestamp"@, encoded_optional::<String>(v.timestamp)),
            ],
        )
    }

    /// Read from an object that has every part; parts that may be absent
    /// may be missing or null, and fields of other names are passed over.
    open spec fn decoded(doc: JsonView) -> Option<EvidenceView> {
        match doc {
            JsonView::Object(fields) => if required::<EvidenceKind>(fields, "kind"@) is Some
                    && required::<String>(fields, "content"@) is Some
                    && optional::<String>(fields, "source"@) is Some
                    && optional::<String>(fields, "timestamp"@) is Some {
                Some(
                    EvidenceView {
                        kind: required::<EvidenceKind>(fields, "kind"@)->0,
                        content: required::<String>(fields, "content"@)->0,
                        source: optional::<String>(fields, "source"@)->0,
                        timestamp: optional::<String>(fields, "timestamp"@)->0,
                    },
                )
            } else {
                None
            },
            _ => None,
        }
    }

    open spec fn reads_back(v: EvidenceView) -> bool {
        true
    }

    fn encode(&self) -> (doc: Json) {
        let mut fields: Vec<(String, Json)> = Vec::new();
        fields.push(("kind".to_owned(), self.kind.encode()));
        fields.push(("content".to_owned(), self.content.encode()));
        fields.push(("source".to_owned(), encode_optional(&self.source)));
        fields.push(("timestamp".to_owned(), encode_optional(&self.timestamp)));
        proof {
            lemma_object_view(fields);
            assert(fields_view(fields@) =~= Self::encoded(self@)->Object_0);
        }
        Json::Object(fields)
    }

    fn decode(doc: &Json) -> (r: Option<Self>) {
        match doc {
            Json::Object(fields) => {
                proof {
                    lemma_object_view(*fields);
                }
                let kind = match take_required::<EvidenceKind>(fields, "kind") {
                    Some(x) => x,
                    None => {
                        return None;
                    },
                };
                let content = match take_required::<String>(fields, "content") {
                    Some(x) => x,
                    None => {
                        return None;
                    },
                };
                let source = match take_optional::<String>(fields, "source") {
                    Some(x) => x,
                    None => {
                        return None;
                    },
                };
                let timestamp = match take_optional::<String>(fields, "timestamp") {
                    Some(x) => x,
                    None => {
                        return None;
                    },
                };
                Some(Evidence { kind, content, source, timestamp })
            },
            _ => None,
        }
    }

    proof fn lemma_round_trip(v: EvidenceView) {
        let fields = Self::encoded(v)->Object_0;
        reveal_strlit("kind");
        reveal_strlit("content");
        reveal_strlit("source");
        reveal_strlit("timestamp");
        assert("kind"@.len() == 4);
        assert("content"@.len() == 7);
        assert("source"@.len() == 6);
        assert("timestamp"@.len() == 9);
        lemma_field_found(fields, 0);
        EvidenceKind::lemma_round_trip(v.kind);
        lemma_field_found(fields, 1);
        lemma_optional_round_trip::<String>(fields, 2, v.source);
        lemma_optional_round_trip::<String>(fields, 3, v.timestamp);
    }
}

impl Codec for SuspectedFile {
    /// A suspected file is written as an object with a field for each of
    /// its parts.
    open spec fn encoded(v: SuspectedFileView) -> JsonView {
        JsonView::Object(
            seq![
                ("path"@, String::encoded(v.path)),
                ("reason"@, String::encoded(v.reason)),
                ("lines"@, encoded_optional::<String>(v.lines)),
                ("confidence"@, Likelihood::encoded(v.confidence)),
            ],
        )
    }

    /// Read from an object that has every part; parts that may be absent
    /// may be missing or null, and fields of other names are passed over.
    open spec fn decoded(doc: JsonView) -> Option<SuspectedFileView> {
        match doc {
            JsonView::Object(fields) => if required::<String>(fields, "path"@) is Some
                    && required::<String>(fields, "reason"@) is Some
                    && optional::<String>(fields, "lines"@) is Some
                    && required::<Likelihood>(fields, "confidence"@) is Some {
                Some(
                    SuspectedFileView {
                        path: required::<String>(fields, "path"@)->0,
                        reason: required::<String>(fields, "reason"@)->0,
                        lines: optional::<String>(fields, "lines"@)->0,
                        confidence: required::<Likelihood>(fields, "confidence"@)->0,
                    },
                )
            } else {
                None
            },
            _ => None,
        }
    }

    open spec fn reads_back(v: SuspectedFileView) -> bool {
        true
    }

    fn encode(&self) -> (doc: Json) {
        let mut fields: Vec<(String, Json)> = Vec::new();
        fields.push(("path".to_owned(), self.path.encode()));
        fields.push(("reason".to_owned(), self.reason.encode()));
        fields.push(("lines".to_owned(), encode_optional(&self.lines)));
        fields.push(("confidence".to_owned(), self.confidence.encode()));
        proof {
            lemma_object_view(fields);
            assert(fields_view(fields@) =~= Self::encoded(self@)->Object_0);
        }
        Json::Object(fields)
    }

    fn decode(doc: &Json) -> (r: Option<Self>) {
        match doc {
            Json::Object(fields) => {
                proof {
                    lemma_object_view(*fields);
                }
                let path = match take_required::<String>(fields, "path") {
                    Some(x) => x,
                    None => {
                        return None;
                    },
                };
                let reason = match take_required::<String>(fields, "reason") {
                    Some(x) => x,
                    None => {
                        return None;
                    },
                };
                let lines = match take_optional::<String>(fields, "lines") {
                    Some(x) => x,
                    None => {
                        return None;
                    },
                };
                let confidence = match take_required::<Likelihood>(fields, "confidence") {
                    Some(x) => x,
                    None => {
                        return None;
                    },
                };
                Some(SuspectedFile { path, reason, lines, confidence })
            },
            _ => None,
        }
    }

    proof fn lemma_round_trip(v: SuspectedFileView) {
        let fields = Self::encoded(v)->Object_0;
        reveal_strlit("path");
        reveal_strlit("reason");
        reveal_strlit("lines");
        reveal_strlit("confidence");
        assert("path"@.len() == 4);
        assert("reason"@.len() == 6);
        assert("lines"@.len() == 5);
        assert("confidence"@.len() == 10);
        lemma_field_found(fields, 0);
        lemma_field_found(fields, 1);
        lemma_optional_round_trip::<String>(fields, 2, v.lines);
        lemma_field_found(fields, 3);
        Likelihood::lemma_round_trip(v.confidence);
    }
}

impl Codec for DebugContext {
    /// A debug context is written as an object with a field for each of
    /// its parts.
    open spec fn encoded(v: DebugContextView) -> JsonView {
        JsonView::Object(
            seq![
                ("problem_statement"@, String::encoded(v.problem_statement)),
                ("symptoms"@, encoded_list::<String>(v.symptoms)),
                ("hypotheses"@, encoded_list::<Hypothesis>(v.hypotheses)),
                ("attempted"@, encoded_list::<Attempt>(v.attempted)),
                ("evidence"@, encoded_list::<Evidence>(v.evidence)),
                ("suspected_files"@, encoded_list::<SuspectedFile>(v.suspected_files)),
                ("reproduction_steps"@, encoded_optional::<String>(v.reproduction_steps)),
                ("working_theory"@, encoded_optional::<String>(v.working_theory)),
                ("next_to_try"@, encoded_optional::<String>(v.next_to_try)),
            ],
        )
    }

    /// Read from an object that has every part; parts that may be absent
    /// may be missing or null, and fields of other names are passed over.
    open spec fn decoded(doc: JsonView) -> Option<DebugContextView> {
        match doc {
            JsonView::Object(fields) => if required::<String>(fields, "problem_statement"@) is Some
                    && listed::<String>(fields, "symptoms"@) is Some
                    && listed::<Hypothesis>(fields, "hypotheses"@) is Some
                    && listed::<Attempt>(fields, "attempted"@) is Some
                    && listed::<Evidence>(fields, "evidence"@) is Some
                    && listed::<SuspectedFile>(fields, "suspected_files"@) is Some
                    && optional::<String>(fields, "reproduction_steps"@) is Some
                    && optional::<String>(fields, "working_theory"@) is Some
                    && optional::<String>(fields, "next_to_try"@) is Some {
                Some(
                    DebugContextView {
                        problem_statement: required::<String>(fields, "problem_statement"@)->0,
                        symptoms: listed::<String>(fields, "symptoms"@)->0,
                        hypotheses: listed::<Hypothesis>(fields, "hypotheses"@)->0,
                        attempted: listed::<Attempt>(fields, "attempted"@)->0,
                        evidence: listed::<Evidence>(fields, "evidence"@)->0,
                        suspected_files: listed::<SuspectedFile>(fields, "suspected_files"@)->0,
                        reproduction_steps: optional::<String>(fields, "reproduction_steps"@)->0,
                        working_theory: optional::<String>(fields, "working_theory"@)->0,
                        next_to_try: optional::<String>(fields, "next_to_try"@)->0,
                    },
                )
            } else {
                None
            },
            _ => None,
        }
    }

    open spec fn reads_back(v: DebugContextView) -> bool {
        true
    }

    fn encode(&self) -> (doc: Json) {
        let mut fields: Vec<(String, Json)> = Vec::new();
        fields.push(("problem_statement".to_owned(), self.problem_statement.encode()));
        fields.push(("symptoms".to_owned(), encode_list(&self.symptoms)));
        fields.push(("hypotheses".to_owned(), encode_list(&self.hypotheses)));
        fields.push(("attempted".to_owned(), encode_list(&self.attempted)));
        fields.push(("evidence".to_owned(), encode_list(&self.evidence)));
        fields.push(("suspected_files".to_owned(), encode_list(&self.suspected_files)));
        fields.push(("reproduction_steps".to_owned(), encode_optional(&self.reproduction_steps)));
        fields.push(("working_theory".to_owned(), encode_optional(&self.working_theory)));
        fields.push(("next_to_try".to_owned(), encode_optional(&self.next_to_try)));
        proof {
            lemma_object_view(fields);
            assert(fields_view(fields@) =~= Self::encoded(self@)->Object_0);
        }
        Json::Object(fields)
    }

    fn decode(doc: &Json) -> (r: Option<Self>) {
        match doc {
            Json::Object(fields) => {
                proof {
                    lemma_object_view(*fields);
                }
                let problem_statement = match take_required::<String>(fields, "problem_statement") {
                    Some(x) => x,
                    None => {
                        return None;
                    },
                };
                let symptoms = match take_list::<String>(fields, "symptoms") {
                    Some(x) => x,
                    None => {
                        return None;
                    },
                };
                let hypotheses = match take_list::<Hypothesis>(fields, "hypotheses") {
                    Some(x) => x,
                    None => {
                        return None;
                    },
                };
                let attempted = match take_list::<Attempt>(fields, "attempted") {
                    Some(x) => x,
                    None => {
                        return None;
                    },
                };
                let evidence = match take_list::<Evidence>(fields, "evidence") {
                    Some(x) => x,
                    None => {
                        return None;
                    },
                };
                let suspected_files = match take_list::<SuspectedFile>(fields, "suspected_files") {
                    Some(x) => x,
                    None => {
                        return None;
                    },
                };
                let reproduction_steps = match take_optional::<String>(fields, "reproduction_steps") {
                    Some(x) => x,
                    None => {
                        return None;
                    },
                };
                let working_theory = match take_optional::<String>(fields, "working_theory") {
                    Some(x) => x,
                    None => {
                        return None;
                    },
                };
                let next_to_try = match take_optional::<String>(fields, "next_to_try") {
                    Some(x) => x,
                    None => {
                        return None;
                    },
                };
                Some(DebugContext { problem_statement, symptoms, hypotheses, attempted, evidence, suspected_files, reproduction_steps, working_theory, next_to_try })
            },
            _ => None,
        }
    }

    proof fn lemma_round_trip(v: DebugContextView) {
        let fields = Self::encoded(v)->Object_0;
        reveal_strlit("problem_statement");
        reveal_strlit("symptoms");
        reveal_strlit("hypotheses");
        reveal_strlit("attempted");
        reveal_strlit("evidence");
        reveal_strlit("suspected_files");
        reveal_strlit("reproduction_steps");
        reveal_strlit("working_theory");
        reveal_strlit("next_to_try");
        assert("problem_statement"@.len() == 17);
        assert("symptoms"@.len() == 8);
        assert("hypotheses"@.len() == 10);
        assert("attempted"@.len() == 9);
        assert("evidence"@.len() == 8);
        assert("suspected_files"@.len() == 15);
        assert("reproduction_steps"@.len() == 18);
        assert("working_theory"@.len() == 14);
        assert("next_to_try"@.len() == 11);
        assert("symptoms"@[0] != "evidence"@[0]);
        lemma_field_found(fields, 0);
        lemma_field_found(fields, 1);
        lemma_list_round_trip::<String>(v.symptoms);
        lemma_field_found(fields, 2);
        lemma_list_round_trip::<Hypothesis>(v.hypotheses);
        lemma_field_found(fields, 3);
        lemma_list_round_trip::<Attempt>(v.attempted);
        lemma_field_found(fields, 4);
        lemma_list_round_trip::<Evidence>(v.evidence);
        lemma_field_found(fields, 5);
        lemma_list_round_trip::<SuspectedFile>(v.suspected_files);
        lemma_optional_round_trip::<String>(fields, 6, v.reproduction_steps);
        lemma_optional_round_trip::<String>(fields, 7, v.working_theory);
        lemma_optional_round_trip::<String>(fields, 8, v.next_to_try);
    }
}

} // verus!
