//! The document form of the plan context.

use crate::codec::{
    encode_list, encode_optional, encoded_list, encoded_optional, lemma_field_found,
    lemma_list_round_trip, lemma_optional_round_trip, listed, optional, required, take_list,
    take_optional, take_required, Codec,
};
use crate::handoff::plan::{
    Constraint, ConstraintView, Decision, DecisionView, OpenQuestion, OpenQuestionView,
    PlanContext, PlanContextView, PlanPhase, Priority, RejectedOption, RejectedOptionView,
    Requirement, RequirementView,
};
use crate::json::{fields_view, lemma_object_view, Json, JsonView};
use crate::text::same_text;
use vstd::prelude::*;

verus! {

impl Codec for Priority {
    /// A priority is written as its name.
    open spec fn encoded(v: Priority) -> JsonView {
        JsonView::Text(
            match v {
                Priority::Must => "must"@,
                Priority::Should => "should"@,
                Priority::Could => "could"@,
                Priority::Wont => "wont"@,
            },
        )
    }

    open spec fn decoded(doc: JsonView) -> Option<Priority> {
        match doc {
            JsonView::Text(s) => if s == "must"@ {
                Some(Priority::Must)
            } else if s == "should"@ {
                Some(Priority::Should)
            } else if s == "could"@ {
                Some(Priority::Could)
            } else if s == "wont"@ {
                Some(Priority::Wont)
            } else {
                None
            },
            _ => None,
        }
    }

    open spec fn reads_back(v: Priority) -> bool {
        true
    }

    fn encode(&self) -> (doc: Json) {
        let name = match self {
            Priority::Must => "must",
            Priority::Should => "should",
            Priority::Could => "could",
            Priority::Wont => "wont",
        };
        Json::Text(name.to_owned())
    }

    fn decode(doc: &Json) -> (r: Option<Self>) {
        match doc {
            Json::Text(s) => if same_text(s.as_str(), "must") {
                Some(Priority::Must)
            } else if same_text(s.as_str(), "should") {
                Some(Priority::Should)
            } else if same_text(s.as_str(), "could") {
                Some(Priority::Could)
            } else if same_text(s.as_str(), "wont") {
                Some(Priority::Wont)
            } else {
                None
            },
            _ => None,
        }
    }

    proof fn lemma_round_trip(v: Priority) {
        reveal_strlit("must");
        reveal_strlit("should");
        reveal_strlit("could");
        reveal_strlit("wont");
        assert("must"@.len() == 4);
        assert("should"@.len() == 6);
        assert("could"@.len() == 5);
        assert("wont"@.len() == 4);
        assert("must"@[0] != "wont"@[0]);
    }
}

impl Codec for PlanPhase {
    /// A phase is written as its name.
    open spec fn encoded(v: PlanPhase) -> JsonView {
        JsonView::Text(
            match v {
                PlanPhase::Discovery => "discovery"@,
                PlanPhase::Requirements => "requirements"@,
                PlanPhase::Design => "design"@,
                PlanPhase::Review => "review"@,
                PlanPhase::Ready => "ready"@,
            },
        )
    }

    open spec fn decoded(doc: JsonView) -> Option<PlanPhase> {
        match doc {
            JsonView::Text(s) => if s == "discovery"@ {
                Some(PlanPhase::Discovery)
            } else if s == "requirements"@ {
                Some(PlanPhase::Requirements)
            } else if s == "design"@ {
                Some(PlanPhase::Design)
            } else if s == "review"@ {
                Some(PlanPhase::Review)
            } else if s == "ready"@ {
                Some(PlanPhase::Ready)
            } else {
                None
            },
            _ => None,
        }
    }

    open spec fn reads_back(v: PlanPhase) -> bool {
        true
    }

    fn encode(&self) -> (doc: Json) {
        let name = match self {
            PlanPhase::Discovery => "discovery",
            PlanPhase::Requirements => "requirements",
            PlanPhase::Design => "design",
            PlanPhase::Review => "review",
            PlanPhase::Ready => "ready",
        };
        Json::Text(name.to_owned())
    }

    fn decode(doc: &Json) -> (r: Option<Self>) {
        match doc {
            Json::Text(s) => if same_text(s.as_str(), "discovery") {
                Some(PlanPhase::Discovery)
            } else if same_text(s.as_str(), "requirements") {
                Some(PlanPhase::Requirements)
            } else if same_text(s.as_str(), "design") {
                Some(PlanPhase::Design)
            } else if same_text(s.as_str(), "review") {
                Some(PlanPhase::Review)
            } else if same_text(s.as_str(), "ready") {
                Some(PlanPhase::Ready)
            } else {
                None
            },
            _ => None,
        }
    }

    proof fn lemma_round_trip(v: PlanPhase) {
        reveal_strlit("discovery");
        reveal_strlit("requirements");
        reveal_strlit("design");
        reveal_strlit("review");
        reveal_strlit("ready");
        assert("discovery"@.len() == 9);
        assert("requirements"@.len() == 12);
        assert("design"@.len() == 6);
        assert("review"@.len() == 6);
        assert("ready"@.len() == 5);
        assert("design"@[0] != "review"@[0]);
    }
}

impl Codec for Requirement {
    /// A requirement is written as an object with a field for each of
    /// its parts.
    open spec fn encoded(v: RequirementView) -> JsonView {
        JsonView::Object(
            seq![
                ("description"@, String::encoded(v.description)),
                ("priority"@, Priority::encoded(v.priority)),
                ("source"@, encoded_optional::<String>(v.source)),
                ("confirmed"@, bool::encoded(v.confirmed)),
            ],
        )
    }

    /// Read from an object that has every part; parts that may be absent
    /// may be missing or null, and fields of other names are passed over.
    open spec fn decoded(doc: JsonView) -> Option<RequirementView> {
        match doc {
            JsonView::Object(fields) => if required::<String>(fields, "description"@) is Some
                    && required::<Priority>(fields, "priority"@) is Some
                    && optional::<String>(fields, "source"@) is Some
                    && required::<bool>(fields, "confirmed"@) is Some {
                Some(
                    RequirementView {
                        description: required::<String>(fields, "description"@)->0,
                        priority: required::<Priority>(fields, "priority"@)->0,
                        source: optional::<String>(fields, "source"@)->0,
                        confirmed: required::<bool>(fields, "confirmed"@)->0,
                    },
                )
            } else {
                None
            },
            _ => None,
        }
    }

    open spec fn reads_back(v: RequirementView) -> bool {
        true
    }

    fn encode(&self) -> (doc: Json) {
        let mut fields: Vec<(String, Json)> = Vec::new();
        fields.push(("description".to_owned(), self.description.encode()));
        fields.push(("priority".to_owned(), self.priority.encode()));
        fields.push(("source".to_owned(), encode_optional(&self.source)));
        fields.push(("confirmed".to_owned(), self.confirmed.encode()));
        proof {
            lemma_object_view(fields);
            assert(fields_view(fields@) =~= Self::encoded(self@)->Object_0);
        }
        Json::Object(fields)
    }

    fn decode(doc: &Json) -> (r: Option<Self>) {
        match doc {
            Json::Object(fields) => {
                proof {
                    lemma_object_view(*fields);
                }
                let description = match take_required::<String>(fields, "description") {
                    Some(x) => x,
                    None => {
                        return None;
                    },
                };
                let priority = match take_required::<Priority>(fields, "priority") {
                    Some(x) => x,
                    None => {
                        return None;
                    },
                };
                let source = match take_optional::<String>(fields, "source") {
                    Some(x) => x,
                    None => {
                        return None;
                    },
                };
                let confirmed = match take_required::<bool>(fields, "confirmed") {
                    Some(x) => x,
                    None => {
                        return None;
                    },
                };
                Some(Requirement { description, priority, source, confirmed })
            },
            _ => None,
        }
    }

    proof fn lemma_round_trip(v: RequirementView) {
        let fields = Self::encoded(v)->Object_0;
        reveal_strlit("description");
        reveal_strlit("priority");
        reveal_strlit("source");
        reveal_strlit("confirmed");
        assert("description"@.len() == 11);
        assert("priority"@.len() == 8);
        assert("source"@.len() == 6);
        assert("confirmed"@.len() == 9);
        lemma_field_found(fields, 0);
        lemma_field_found(fields, 1);
        Priority::lemma_round_trip(v.priority);
        lemma_optional_round_trip::<String>(fields, 2, v.source);
        lemma_field_found(fields, 3);
    }
}

impl Codec for Decision {
    /// A decision is written as an object with a field for each of
    /// its parts.
    open spec fn encoded(v: DecisionView) -> JsonView {
        JsonView::Object(
            seq![
                ("decision"@, String::encoded(v.decision)),
                ("rationale"@, String::encoded(v.rationale)),
                ("context"@, encoded_optional::<String>(v.context)),
                ("reversible"@, bool::encoded(v.reversible)),
            ],
        )
    }

    /// Read from an object that has every part; parts that may be absent
    /// may be missing or null, and fields of other names are passed over.
    open spec fn decoded(doc: JsonView) -> Option<DecisionView> {
        match doc {
            JsonView::Object(fields) => if required::<String>(fields, "decision"@) is Some
                    && required::<String>(fields, "rationale"@) is Some
                    && optional::<String>(fields, "context"@) is Some
                    && required::<bool>(fields, "reversible"@) is Some {
                Some(
                    DecisionView {
                        decision: required::<String>(fields, "decision"@)->0,
                        rationale: required::<String>(fields, "rationale"@)->0,
                        context: optional::<String>(fields, "context"@)->0,
                        reversible: required::<bool>(fields, "reversible"@)->0,
                    },
                )
            } else {
                None
            },
            _ => None,
        }
    }

    open spec fn reads_back(v: DecisionView) -> bool {
        true
    }

    fn encode(&self) -> (doc: Json) {
        let mut fields: Vec<(String, Json)> = Vec::new();
        fields.push(("decision".to_owned(), self.decision.encode()));
        fields.push(("rationale".to_owned(), self.rationale.encode()));
        fields.push(("context".to_owned(), encode_optional(&self.context)));
        fields.push(("reversible".to_owned(), self.reversible.encode()));
        proof {
            lemma_object_view(fields);
            assert(fields_view(fields@) =~= Self::encoded(self@)->Object_0);
        }
        Json::Object(fields)
    }

    fn decode(doc: &Json) -> (r: Option<Self>) {
        match doc {
            Json::Object(fields) => {
                proof {
                    lemma_object_view(*fields);
                }
                let decision = match take_required::<String>(fields, "decision") {
                    Some(x) => x,
                    None => {
                        return None;
                    },
                };
                let rationale = match take_required::<String>(fields, "rationale") {
                    Some(x) => x,
                    None => {
                        return None;
                    },
                };
                let context = match take_optional::<String>(fields, "context") {
                    Some(x) => x,
                    None => {
                        return None;
                    },
                };
                let reversible = match take_required::<bool>(fields, "reversible") {
                    Some(x) => x,
                    None => {
                        return None;
                    },
                };
                Some(Decision { decision, rationale, context, reversible })
            },
            _ => None,
        }
    }

    proof fn lemma_round_trip(v: DecisionView) {
        let fields = Self::encoded(v)->Object_0;
        reveal_strlit("decision");
        reveal_strlit("rationale");
        reveal_strlit("context");
        reveal_strlit("reversible");
        assert("decision"@.len() == 8);
        assert("rationale"@.len() == 9);
        assert("context"@.len() == 7);
        assert("reversible"@.len() == 10);
        lemma_field_found(fields, 0);
        lemma_field_found(fields, 1);
        lemma_optional_round_trip::<String>(fields, 2, v.context);
        lemma_field_found(fields, 3);
    }
}

impl Codec for RejectedOption {
    /// A rejected option is written as an object with a field for each of
    /// its parts.
    open spec fn encoded(v: RejectedOptionView) -> JsonView {
        JsonView::Object(
            seq![
                ("option"@, String::encoded(v.option)),
                ("reason"@, String::encoded(v.reason)),
                ("reconsiderable"@, bool::encoded(v.reconsiderable)),
            ],
        )
    }

    /// Read from an object that has every part; parts that may be absent
    /// may be missing or null, and fields of other names are passed over.
    open spec fn decoded(doc: JsonView) -> Option<RejectedOptionView> {
        match doc {
            JsonView::Object(fields) => if required::<String>(fields, "option"@) is Some
                    && required::<String>(fields, "reason"@) is Some
                    && required::<bool>(fields, "reconsiderable"@) is Some {
                Some(
                    RejectedOptionView {
                        option: required::<String>(fields, "option"@)->0,
                        reason: required::<String>(fields, "reason"@)->0,
                        reconsiderable: required::<bool>(fields, "reconsiderable"@)->0,
                    },
                )
            } else {
                None
            },
            _ => None,
        }
    }

    open spec fn reads_back(v: RejectedOptionView) -> bool {
        true
    }

    fn encode(&self) -> (doc: Json) {
        let mut fields: Vec<(String, Json)> = Vec::new();
        fields.push(("option".to_owned(), self.option.encode()));
        fields.push(("reason".to_owned(), self.reason.encode()));
        fields.push(("reconsiderable".to_owned(), self.reconsiderable.encode()));
        proof {
            lemma_object_view(fields);
            assert(fields_view(fields@) =~= Self::encoded(self@)->Object_0);
        }
        Json::Object(fields)
    }

    fn decode(doc: &Json) -> (r: Option<Self>) {
        match doc {
            Json::Object(fields) => {
                proof {
                    lemma_object_view(*fields);
                }
                let option = match take_required::<String>(fields, "option") {
                    Some(x) => x,
                    None => {
                        return None;
                    },
                };
                let reason = match take_required::<String>(fields, "reason") {
                    Some(x) => x,
                    None => {
                        return None;
                    },
                };
                let reconsiderable = match take_required::<bool>(fields, "reconsiderable") {
                    Some(x) => x,
                    None => {
                        return None;
                    },
                };
                Some(RejectedOption { option, reason, reconsiderable })
            },
            _ => None,
        }
    }

    proof fn lemma_round_trip(v: RejectedOptionView) {
        let fields = Self::encoded(v)->Object_0;
        reveal_strlit("option");
        reveal_strlit("reason");
        reveal_strlit("reconsiderable");
        assert("option"@.len() == 6);
        assert("reason"@.len() == 6);
        assert("reconsiderable"@.len() == 14);
        assert("option"@[0] != "reason"@[0]);
        lemma_field_found(fields, 0);
        lemma_field_found(fields, 1);
        lemma_field_found(fields, 2);
    }
}

impl Codec for OpenQuestion {
    /// An open question is written as an object with a field for each of
    /// its parts.
    open spec fn encoded(v: OpenQuestionView) -> JsonView {
        JsonView::Object(
            seq![
                ("question"@, String::encoded(v.question)),
                ("importance"@, String::encoded(v.importance)),
                ("ask_who"@, encoded_optional::<String>(v.ask_who)),
                ("blocking"@, bool::encoded(v.blocking)),
            ],
        )
    }

    /// Read from an object that has every part; parts that may be absent
    /// may be missing or null, and fields of other names are passed over.
    open spec fn decoded(doc: JsonView) -> Option<OpenQuestionView> {
        match doc {
            JsonView::Object(fields) => if required::<String>(fields, "question"@) is Some
                    && required::<String>(fields, "importance"@) is Some
                    && optional::<String>(fields, "ask_who"@) is Some
                    && required::<bool>(fields, "blocking"@) is Some {
                Some(
                    OpenQuestionView {
                        question: required::<String>(fields, "question"@)->0,
                        importance: required::<String>(fields, "importance"@)->0,
                        ask_who: optional::<String>(fields, "ask_who"@)->0,
                        blocking: required::<bool>(fields, "blocking"@)->0,
                    },
                )
            } else {
                None
            },
            _ => None,
        }
    }

    open spec fn reads_back(v: OpenQuestionView) -> bool {
        true
    }

    fn encode(&self) -> (doc: Json) {
        let mut fields: Vec<(String, Json)> = Vec::new();
        fields.push(("question".to_owned(), self.question.encode()));
        fields.push(("importance".to_owned(), self.importance.encode()));
        fields.push(("ask_who".to_owned(), encode_optional(&self.ask_who)));
        fields.push(("blocking".to_owned(), self.blocking.encode()));
        proof {
            lemma_object_view(fields);
            assert(fields_view(fields@) =~= Self::encoded(self@)->Object_0);
        }
        Json::Object(fields)
    }

    fn decode(doc: &Json) -> (r: Option<Self>) {
        match doc {
            Json::Object(fields) => {
                proof {
                    lemma_object_view(*fields);
                }
                let question = match take_required::<String>(fields, "question") {
                    Some(x) => x,
                    None => {
                        return None;
                    },
                };
                let importance = match take_required::<String>(fields, "importance") {
                    Some(x) => x,
                    None => {
                        return None;
                    },
                };
                let ask_who = match take_optional::<String>(fields, "ask_who") {
                    Some(x) => x,
                    None => {
                        return None;
                    },
                };
                let blocking = match take_required::<bool>(fields, "blocking") {
                    Some(x) => x,
                    None => {
                        return None;
                    },
                };
                Some(OpenQuestion { question, importance, ask_who, blocking })
            },
            _ => None,
        }
    }

    proof fn lemma_round_trip(v: OpenQuestionView) {
        let fields = Self::encoded(v)->Object_0;
        reveal_strlit("question");
        reveal_strlit("importance");
        reveal_strlit("ask_who");
        reveal_strlit("blocking");
        assert("question"@.len() == 8);
        assert("importance"@.len() == 10);
        assert("ask_who"@.len() == 7);
        assert("blocking"@.len() == 8);
        assert("question"@[0] != "blocking"@[0]);
        lemma_field_found(fields, 0);
        lemma_field_found(fields, 1);
        lemma_optional_round_trip::<String>(fields, 2, v.ask_who);
        lemma_field_found(fields, 3);
    }
}

impl Codec for Constraint {
    /// A constraint is written as an object with a field for each of
    /// its parts.
    open spec fn encoded(v: ConstraintView) -> JsonView {
        JsonView::Object(
            seq![
                ("constraint"@, String::encoded(v.constraint)),
                ("reason"@, encoded_optional::<String>(v.reason)),
                ("negotiable"@, bool::encoded(v.negotiable)),
            ],
        )
    }

    /// Read from an object that has every part; parts that may be absent
    /// may be missing or null, and fields of other names are passed over.
    open spec fn decoded(doc: JsonView) -> Option<ConstraintView> {
        match doc {
            JsonView::Object(fields) => if required::<String>(fields, "constraint"@) is Some
                    && optional::<String>(fields, "reason"@) is Some
                    && required::<bool>(fields, "negotiable"@) is Some {
                Some(
                    ConstraintView {
                        constraint: required::<String>(fields, "constraint"@)->0,
                        reason: optional::<String>(fields, "reason"@)->0,
                        negotiable: required::<bool>(fields, "negotiable"@)->0,
                    },
                )
            } else {
                None
            },
            _ => None,
        }
    }

    open spec fn reads_back(v: ConstraintView) -> bool {
        true
    }

    fn encode(&self) -> (doc: Json) {
        let mut fields: Vec<(String, Json)> = Vec::new();
        fields.push(("constraint".to_owned(), self.constraint.encode()));
        fields.push(("reason".to_owned(), encode_optional(&self.reason)));
        fields.push(("negotiable".to_owned(), self.negotiable.encode()));
        proof {
            lemma_object_view(fields);
            assert(fields_view(fields@) =~= Self::encoded(self@)->Object_0);
        }
        Json::Object(fields)
    }

    fn decode(doc: &Json) -> (r: Option<Self>) {
        match doc {
            Json::Object(fields) => {
                proof {
                    lemma_object_view(*fields);
                }
                let constraint = match take_required::<String>(fields, "constraint") {
                    Some(x) => x,
                    None => {
                        return None;
                    },
                };
                let reason = match take_optional::<String>(fields, "reason") {
                    Some(x) => x,
                    None => {
                        return None;
                    },
                };
                let negotiable = match take_required::<bool>(fields, "negotiable") {
                    Some(x) => x,
                    None => {
                        return None;
                    },
                };
                Some(Constraint { constraint, reason, negotiable })
            },
            _ => None,
        }
    }

    proof fn lemma_round_trip(v: ConstraintView) {
        let fields = Self::encoded(v)->Object_0;
        reveal_strlit("constraint");
        reveal_strlit("reason");
        reveal_strlit("negotiable");
        assert("constraint"@.len() == 10);
        assert("reason"@.len() == 6);
        assert("negotiable"@.len() == 10);
        assert("constraint"@[0] != "negotiable"@[0]);
        lemma_field_found(fields, 0);
        lemma_optional_round_trip::<String>(fields, 1, v.reason);
        lemma_field_found(fields, 2);
    }
}

impl Codec for PlanContext {
    /// A plan context is written as an object with a field for each of
    /// its parts.
    open spec fn encoded(v: PlanContextView) -> JsonView {
        JsonView::Object(
            seq![
                ("goal"@, String::encoded(v.goal)),
                ("requirements"@, encoded_list::<Requirement>(v.requirements)),
                ("decisions"@, encoded_list::<Decision>(v.decisions)),
                ("rejected_options"@, encoded_list::<RejectedOption>(v.rejected_options)),
                ("open_questions"@, encoded_list::<OpenQuestion>(v.open_questions)),
                ("next_steps"@, encoded_list::<String>(v.next_steps)),
                ("constraints"@, encoded_list::<Constraint>(v.constraints)),
                ("stakeholders"@, encoded_list::<String>(v.stakeholders)),
                ("phase"@, PlanPhase::encoded(v.phase)),
                ("progress_pct"@, encoded_optional::<u8>(v.progress_pct)),
            ],
        )
    }

    /// Read from an object that has every part; parts that may be absent
    /// may be missing or null, and fields of other names are passed over.
    open spec fn decoded(doc: JsonView) -> Option<PlanContextView> {
        match doc {
            JsonView::Object(fields) => if required::<String>(fields, "goal"@) is Some
                    && listed::<Requirement>(fields, "requirements"@) is Some
                    && listed::<Decision>(fields, "decisions"@) is Some
                    && listed::<RejectedOption>(fields, "rejected_options"@) is Some
                    && listed::<OpenQuestion>(fields, "open_questions"@) is Some
                    && listed::<String>(fields, "next_steps"@) is Some
                    && listed::<Constraint>(fields, "constraints"@) is Some
                    && listed::<String>(fields, "stakeholders"@) is Some
                    && required::<PlanPhase>(fields, "phase"@) is Some
                    && optional::<u8>(fields, "progress_pct"@) is Some {
                Some(
                    PlanContextView {
                        goal: required::<String>(fields, "goal"@)->0,
                        requirements: listed::<Requirement>(fields, "requirements"@)->0,
                        decisions: listed::<Decision>(fields, "decisions"@)->0,
                        rejected_options: listed::<RejectedOption>(fields, "rejected_options"@)->0,
                        open_questions: listed::<OpenQuestion>(fields, "open_questions"@)->0,
                        next_steps: listed::<String>(fields, "next_steps"@)->0,
                        constraints: listed::<Constraint>(fields, "constraints"@)->0,
                        stakeholders: listed::<String>(fields, "stakeholders"@)->0,
                        phase: required::<PlanPhase>(fields, "phase"@)->0,
                        progress_pct: optional::<u8>(fields, "progress_pct"@)->0,
                    },
                )
            } else {
                None
            },
            _ => None,
        }
    }

    open spec fn reads_back(v: PlanContextView) -> bool {
        true
    }

    fn encode(&self) -> (doc: Json) {
        let mut fields: Vec<(String, Json)> = Vec::new();
        fields.push(("goal".to_owned(), self.goal.encode()));
        fields.push(("requirements".to_owned(), encode_list(&self.requirements)));
        fields.push(("decisions".to_owned(), encode_list(&self.decisions)));
        fields.push(("rejected_options".to_owned(), encode_list(&self.rejected_options)));
        fields.push(("open_questions".to_owned(), encode_list(&self.open_questions)));
        fields.push(("next_steps".to_owned(), encode_list(&self.next_steps)));
        fields.push(("constraints".to_owned(), encode_list(&self.constraints)));
        fields.push(("stakeholders".to_owned(), encode_list(&self.stakeholders)));
        fields.push(("phase".to_owned(), self.phase.encode()));
        fields.push(("progress_pct".to_owned(), encode_optional(&self.progress_pct)));
        proof {
            lemma_object_view(fields);
            assert(fields_view(fields@) =~= Self::encoded(self@)->Object_0);
        }
        Json::Object(fields)
    }

    fn decode(doc: &Json) -> (r: Option<Self>) {
        match doc {
            Json::Object(fields) => {
                proof {
                    lemma_object_view(*fields);
                }
                let goal = match take_required::<String>(fields, "goal") {
                    Some(x) => x,
                    None => {
                        return None;
                    },
                };
                let requirements = match take_list::<Requirement>(fields, "requirements") {
                    Some(x) => x,
                    None => {
                        return None;
                    },
                };
                let decisions = match take_list::<Decision>(fields, "decisions") {
                    Some(x) => x,
                    None => {
                        return None;
                    },
                };
                let rejected_options = match take_list::<RejectedOption>(fields, "rejected_options") {
                    Some(x) => x,
                    None => {
                        return None;
                    },
                };
                let open_questions = match take_list::<OpenQuestion>(fields, "open_questions") {
                    Some(x) => x,
                    None => {
                        return None;
                    },
                };
                let next_steps = match take_list::<String>(fields, "next_steps") {
                    Some(x) => x,
                    None => {
                        return None;
                    },
                };
                let constraints = match take_list::<Constraint>(fields, "constraints") {
                    Some(x) => x,
                    None => {
                        return None;
                    },
                };
                let stakeholders = match take_list::<String>(fields, "stakeholders") {
                    Some(x) => x,
                    None => {
                        return None;
                    },
                };
                let phase = match take_required::<PlanPhase>(fields, "phase") {
                    Some(x) => x,
                    None => {
                        return None;
                    },
                };
                let progress_pct = match take_optional::<u8>(fields, "progress_pct") {
                    Some(x) => x,
                    None => {
                        return None;
                    },
                };
                Some(PlanContext { goal, requirements, decisions, rejected_options, open_questions, next_steps, constraints, stakeholders, phase, progress_pct })
            },
            _ => None,
        }
    }

    proof fn lemma_round_trip(v: PlanContextView) {
        let fields = Self::encoded(v)->Object_0;
        reveal_strlit("goal");
        reveal_strlit("requirements");
        reveal_strlit("decisions");
        reveal_strlit("rejected_options");
        reveal_strlit("open_questions");
        reveal_strlit("next_steps");
        reveal_strlit("constraints");
        reveal_strlit("stakeholders");
        reveal_strlit("phase");
        reveal_strlit("progress_pct");
        assert("goal"@.len() == 4);
        assert("requirements"@.len() == 12);
        assert("decisions"@.len() == 9);
        assert("rejected_options"@.len() == 16);
        assert("open_questions"@.len() == 14);
        assert("next_steps"@.len() == 10);
        assert("constraints"@.len() == 11);
        assert("stakeholders"@.len() == 12);
        assert("phase"@.len() == 5);
        assert("progress_pct"@.len() == 12);
        assert("requirements"@[0] != "stakeholders"@[0]);
        assert("requirements"@[0] != "progress_pct"@[0]);
        assert("stakeholders"@[0] != "progress_pct"@[0]);
        lemma_field_found(fields, 0);
        lemma_field_found(fields, 1);
        lemma_list_round_trip::<Requirement>(v.requirements);
        lemma_field_found(fields, 2);
        lemma_list_round_trip::<Decision>(v.decisions);
        lemma_field_found(fields, 3);
        lemma_list_round_trip::<RejectedOption>(v.rejected_options);
        lemma_field_found(fields, 4);
        lemma_list_round_trip::<OpenQuestion>(v.open_questions);
        lemma_field_found(fields, 5);
        lemma_list_round_trip::<String>(v.next_steps);
        lemma_field_found(fields, 6);
        lemma_list_round_trip::<Constraint>(v.constraints);
        lemma_field_found(fields, 7);
        lemma_list_round_trip::<String>(v.stakeholders);
        lemma_field_found(fields, 8);
        PlanPhase::lemma_round_trip(v.phase);
        lemma_optional_round_trip::<u8>(fields, 9, v.progress_pct);
    }
}

} // verus!
