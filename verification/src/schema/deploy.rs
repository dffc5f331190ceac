//! The document form of the deploy context.

use crate::codec::{
    encode_list, encode_optional, encoded_list, encoded_optional, lemma_field_found,
    lemma_list_round_trip, lemma_optional_round_trip, listed, optional, required, take_list,
    take_optional, take_required, Codec,
};
use crate::handoff::deploy::{
    BreakingChange, BreakingChangeView, ChecklistItem, ChecklistItemView, Confidence, Dependency,
    DependencyView, DeployContext, DeployContextView, EnvConcern, EnvConcernView, ShipItem,
    ShipItemView,
};
use crate::json::{fields_view, lemma_object_view, Json, JsonView};
use crate::text::same_text;
use vstd::prelude::*;

verus! {

impl Codec for Confidence {
    /// A confidence level is written as its name.
    open spec fn encoded(v: Confidence) -> JsonView {
        JsonView::Text(
            match v {
                Confidence::High => "high"@,
                Confidence::Medium => "medium"@,
                Confidence::Low => "low"@,
            },
        )
    }

    open spec fn decoded(doc: JsonView) -> Option<Confidence> {
        match doc {
            JsonView::Text(s) => if s == "high"@ {
                Some(Confidence::High)
            } else if s == "medium"@ {
                Some(Confidence::Medium)
            } else if s == "low"@ {
                Some(Confidence::Low)
            } else {
                None
            },
            _ => None,
        }
    }

    open spec fn reads_back(v: Confidence) -> bool {
        true
    }

    fn encode(&self) -> (doc: Json) {
        let name = match self {
            Confidence::High => "high",
            Confidence::Medium => "medium",
            Confidence::Low => "low",
        };
        Json::Text(name.to_owned())
    }

    fn decode(doc: &Json) -> (r: Option<Self>) {
        match doc {
            Json::Text(s) => if same_text(s.as_str(), "high") {
                Some(Confidence::High)
            } else if same_text(s.as_str(), "medium") {
                Some(Confidence::Medium)
            } else if same_text(s.as_str(), "low") {
                Some(Confidence::Low)
            } else {
                None
            },
            _ => None,
        }
    }

    proof fn lemma_round_trip(v: Confidence) {
        reveal_strlit("high");
        reveal_strlit("medium");
        reveal_strlit("low");
        assert("high"@.len() == 4);
        assert("medium"@.len() == 6);
        assert("low"@.len() == 3);
    }
}

impl Codec for ShipItem {
    /// A ship item is written as an object with a field for each of
    /// its parts.
    open spec fn encoded(v: ShipItemView) -> JsonView {
        JsonView::Object(
            seq![
                ("item"@, String::encoded(v.item)),
                ("description"@, String::encoded(v.description)),
                ("confidence"@, Confidence::encoded(v.confidence)),
            ],
        )
    }

    /// Read from an object that has every part; parts that may be absent
    /// may be missing or null, and fields of other names are passed over.
    open spec fn decoded(doc: JsonView) -> Option<ShipItemView> {
        match doc {
            JsonView::Object(fields) => if required::<String>(fields, "item"@) is Some
                    && required::<String>(fields, "description"@) is Some
                    && required::<Confidence>(fields, "confidence"@) is Some {
                Some(
                    ShipItemView {
                        item: required::<String>(fields, "item"@)->0,
                        description: required::<String>(fields, "description"@)->0,
                        confidence: required::<Confidence>(fields, "confidence"@)->0,
                    },
                )
            } else {
                None
            },
            _ => None,
        }
    }

    open spec fn reads_back(v: ShipItemView) -> bool {
        true
    }

    fn encode(&self) -> (doc: Json) {
        let mut fields: Vec<(String, Json)> = Vec::new();
        fields.push(("item".to_owned(), self.item.encode()));
        fields.push(("description".to_owned(), self.description.encode()));
        fields.push(("confidence".to_owned(), self.confidence.encode()));
        proof {
            lemma_object_view(fields);
            assert(fields_view(fields@) =~= Self::encoded(self@)->Object_0);
        }
        Json::Object(fields)
    }

    fn decode(doc: &Json) -> (r: Option<Self>) {
        match doc {
            Json::Object(fields) => {
                proof {
                    lemma_object_view(*fields);
                }
                let item = match take_required::<String>(fields, "item") {
                    Some(x) => x,
                    None => {
                        return None;
                    },
                };
                let description = match take_required::<String>(fields, "description") {
                    Some(x) => x,
                    None => {
                        return None;
                    },
                };
                let confidence = match take_required::<Confidence>(fields, "confidence") {
                    Some(x) => x,
                    None => {
                        return None;
                    },
                };
                Some(ShipItem { item, description, confidence })
            },
            _ => None,
        }
    }

    proof fn lemma_round_trip(v: ShipItemView) {
        let fields = Self::encoded(v)->Object_0;
        reveal_strlit("item");
        reveal_strlit("description");
        reveal_strlit("confidence");
        assert("item"@.len() == 4);
        assert("description"@.len() == 11);
        assert("confidence"@.len() == 10);
        lemma_field_found(fields, 0);
        lemma_field_found(fields, 1);
        lemma_field_found(fields, 2);
        Confidence::lemma_round_trip(v.confidence);
    }
}

impl Codec for EnvConcern {
    /// An environment concern is written as an object with a field for each of
    /// its parts.
    open spec fn encoded(v: EnvConcernView) -> JsonView {
        JsonView::Object(
            seq![
                ("environment"@, String::encoded(v.environment)),
                ("concern"@, String::encoded(v.concern)),
                ("mitigation"@, encoded_optional::<String>(v.mitigation)),
            ],
        )
    }

    /// Read from an object that has every part; parts that may be absent
    /// may be missing or null, and fields of other names are passed over.
    open spec fn decoded(doc: JsonView) -> Option<EnvConcernView> {
        match doc {
            JsonView::Object(fields) => if required::<String>(fields, "environment"@) is Some
                    && required::<String>(fields, "concern"@) is Some
                    && optional::<String>(fields, "mitigation"@) is Some {
                Some(
                    EnvConcernView {
                        environment: required::<String>(fields, "environment"@)->0,
                        concern: required::<String>(fields, "concern"@)->0,
                        mitigation: optional::<String>(fields, "mitigation"@)->0,
                    },
                )
            } else {
                None
            },
            _ => None,
        }
    }

    open spec fn reads_back(v: EnvConcernView) -> bool {
        true
    }

    fn encode(&self) -> (doc: Json) {
        let mut fields: Vec<(String, Json)> = Vec::new();
        fields.push(("environment".to_owned(), self.environment.encode()));
        fields.push(("concern".to_owned(), self.concern.encode()));
        fields.push(("mitigation".to_owned(), encode_optional(&self.mitigation)));
        proof {
            lemma_object_view(fields);
            assert(fields_view(fields@) =~= Self::encoded(self@)->Object_0);
        }
        Json::Object(fields)
    }

    fn decode(doc: &Json) -> (r: Option<Self>) {
        match doc {
            Json::Object(fields) => {
                proof {
                    lemma_object_view(*fields);
                }
                let environment = match take_required::<String>(fields, "environment") {
                    Some(x) => x,
                    None => {
                        return None;
                    },
                };
                let concern = match take_required::<String>(fields, "concern") {
                    Some(x) => x,
                    None => {
                        return None;
                    },
                };
                let mitigation = match take_optional::<String>(fields, "mitigation") {
                    Some(x) => x,
                    None => {
                        return None;
                    },
                };
                Some(EnvConcern { environment, concern, mitigation })
            },
            _ => None,
        }
    }

    proof fn lemma_round_trip(v: EnvConcernView) {
        let fields = Self::encoded(v)->Object_0;
        reveal_strlit("environment");
        reveal_strlit("concern");
        reveal_strlit("mitigation");
        assert("environment"@.len() == 11);
        assert("concern"@.len() == 7);
        assert("mitigation"@.len() == 10);
        lemma_field_found(fields, 0);
        lemma_field_found(fields, 1);
        lemma_optional_round_trip::<String>(fields, 2, v.mitigation);
    }
}

impl Codec for Dependency {
    /// A dependency is written as an object with a field for each of
    /// its parts.
    open spec fn encoded(v: DependencyView) -> JsonView {
        JsonView::Object(
            seq![
                ("name"@, String::encoded(v.name)),
                ("reason"@, String::encoded(v.reason)),
                ("in_place"@, bool::encoded(v.in_place)),
            ],
        )
    }

    /// Read from an object that has every part; parts that may be absent
    /// may be missing or null, and fields of other names are passed over.
    open spec fn decoded(doc: JsonView) -> Option<DependencyView> {
        match doc {
            JsonView::Object(fields) => if required::<String>(fields, "name"@) is Some
                    && required::<String>(fields, "reason"@) is Some
                    && required::<bool>(fields, "in_place"@) is Some {
                Some(
                    DependencyView {
                        name: required::<String>(fields, "name"@)->0,
                        reason: required::<String>(fields, "reason"@)->0,
                        in_place: required::<bool>(fields, "in_place"@)->0,
                    },
                )
            } else {
                None
            },
            _ => None,
        }
    }

    open spec fn reads_back(v: DependencyView) -> bool {
        true
    }

    fn encode(&self) -> (doc: Json) {
        let mut fields: Vec<(String, Json)> = Vec::new();
        fields.push(("name".to_owned(), self.name.encode()));
        fields.push(("reason".to_owned(), self.reason.encode()));
        fields.push(("in_place".to_owned(), self.in_place.encode()));
        proof {
            lemma_object_view(fields);
            assert(fields_view(fields@) =~= Self::encoded(self@)->Object_0);
        }
        Json::Object(fields)
    }

    fn decode(doc: &Json) -> (r: Option<Self>) {
        match doc {
            Json::Object(fields) => {
                proof {
                    lemma_object_view(*fields);
                }
                let name = match take_required::<String>(fields, "name") {
                    Some(x) => x,
                    None => {
                        return None;
                    },
                };
                let reason = match take_required::<String>(fields, "reason") {
                    Some(x) => x,
                    None => {
                        return None;
                    },
                };
                let in_place = match take_required::<bool>(fields, "in_place") {
                    Some(x) => x,
                    None => {
                        return None;
                    },
                };
                Some(Dependency { name, reason, in_place })
            },
            _ => None,
        }
    }

    proof fn lemma_round_trip(v: DependencyView) {
        let fields = Self::encoded(v)->Object_0;
        reveal_strlit("name");
        reveal_strlit("reason");
        reveal_strlit("in_place");
        assert("name"@.len() == 4);
        assert("reason"@.len() == 6);
        assert("in_place"@.len() == 8);
        lemma_field_found(fields, 0);
        lemma_field_found(fields, 1);
        lemma_field_found(fields, 2);
    }
}

impl Codec for BreakingChange {
    /// A breaking change is written as an object with a field for each of
    /// its parts.
    open spec fn encoded(v: BreakingChangeView) -> JsonView {
        JsonView::Object(
            seq![
                ("what"@, String::encoded(v.what)),
                ("affects"@, String::encoded(v.affects)),
                ("migration"@, encoded_optional::<String>(v.migration)),
            ],
        )
    }

    /// Read from an object that has every part; parts that may be absent
    /// may be missing or null, and fields of other names are passed over.
    open spec fn decoded(doc: JsonView) -> Option<BreakingChangeView> {
        match doc {
            JsonView::Object(fields) => if required::<String>(fields, "what"@) is Some
                    && required::<String>(fields, "affects"@) is Some
                    && optional::<String>(fields, "migration"@) is Some {
                Some(
                    BreakingChangeView {
                        what: required::<String>(fields, "what"@)->0,
                        affects: required::<String>(fields, "affects"@)->0,
                        migration: optional::<String>(fields, "migration"@)->0,
                    },
                )
            } else {
                None
            },
            _ => None,
        }
    }

    open spec fn reads_back(v: BreakingChangeView) -> bool {
        true
    }

    fn encode(&self) -> (doc: Json) {
        let mut fields: Vec<(String, Json)> = Vec::new();
        fields.push(("what".to_owned(), self.what.encode()));
        fields.push(("affects".to_owned(), self.affects.encode()));
        fields.push(("migration".to_owned(), encode_optional(&self.migration)));
        proof {
            lemma_object_view(fields);
            assert(fields_view(fields@) =~= Self::encoded(self@)->Object_0);
        }
        Json::Object(fields)
    }

    fn decode(doc: &Json) -> (r: Option<Self>) {
        match doc {
            Json::Object(fields) => {
                proof {
                    lemma_object_view(*fields);
                }
                let what = match take_required::<String>(fields, "what") {
                    Some(x) => x,
                    None => {
                        return None;
                    },
                };
                let affects = match take_required::<String>(fields, "affects") {
                    Some(x) => x,
                    None => {
                        return None;
                    },
                };
                let migration = match take_optional::<String>(fields, "migration") {
                    Some(x) => x,
                    None => {
                        return None;
                    },
                };
                Some(BreakingChange { what, affects, migration })
            },
            _ => None,
        }
    }

    proof fn lemma_round_trip(v: BreakingChangeView) {
        let fields = Self::encoded(v)->Object_0;
        reveal_strlit("what");
        reveal_strlit("affects");
        reveal_strlit("migration");
        assert("what"@.len() == 4);
        assert("affects"@.len() == 7);
        assert("migration"@.len() == 9);
        lemma_field_found(fields, 0);
        lemma_field_found(fields, 1);
        lemma_optional_round_trip::<String>(fields, 2, v.migration);
    }
}

impl Codec for ChecklistItem {
    /// A checklist item is written as an object with a field for each of
    /// its parts.
    open spec fn encoded(v: ChecklistItemView) -> JsonView {
        JsonView::Object(
            seq![
                ("item"@, String::encoded(v.item)),
                ("done"@, bool::encoded(v.done)),
            ],
        )
    }

    /// Read from an object that has every part; parts that may be absent
    /// may be missing or null, and fields of other names are passed over.
    open spec fn decoded(doc: JsonView) -> Option<ChecklistItemView> {
        match doc {
            JsonView::Object(fields) => if required::<String>(fields, "item"@) is Some
                    && required::<bool>(fields, "done"@) is Some {
                Some(
                    ChecklistItemView {
                        item: required::<String>(fields, "item"@)->0,
                        done: required::<bool>(fields, "done"@)->0,
                    },
                )
            } else {
                None
            },
            _ => None,
        }
    }

    open spec fn reads_back(v: ChecklistItemView) -> bool {
        true
    }

    fn encode(&self) -> (doc: Json) {
        let mut fields: Vec<(String, Json)> = Vec::new();
        fields.push(("item".to_owned(), self.item.encode()));
        fields.push(("done".to_owned(), self.done.encode()));
        proof {
            lemma_object_view(fields);
            assert(fields_view(fields@) =~= Self::encoded(self@)->Object_0);
        }
        Json::Object(fields)
    }

    fn decode(doc: &Json) -> (r: Option<Self>) {
        match doc {
            Json::Object(fields) => {
                proof {
                    lemma_object_view(*fields);
                }
                let item = match take_required::<String>(fields, "item") {
                    Some(x) => x,
                    None => {
                        return None;
                    },
                };
                let done = match take_required::<bool>(fields, "done") {
                    Some(x) => x,
                    None => {
                        return None;
                    },
                };
                Some(ChecklistItem { item, done })
            },
            _ => None,
        }
    }

    proof fn lemma_round_trip(v: ChecklistItemView) {
        let fields = Self::encoded(v)->Object_0;
        reveal_strlit("item");
        reveal_strlit("done");
        assert("item"@.len() == 4);
        assert("done"@.len() == 4);
        assert("item"@[0] != "done"@[0]);
        lemma_field_found(fields, 0);
        lemma_field_found(fields, 1);
    }
}

impl Codec for DeployContext {
    /// A deploy context is written as an object with a field for each of
    /// its parts.
    open spec fn encoded(v: DeployContextView) -> JsonView {
        JsonView::Object(
            seq![
                ("what_to_ship"@, encoded_list::<ShipItem>(v.what_to_ship)),
                ("verification_steps"@, encoded_list::<String>(v.verification_steps)),
                ("rollback_plan"@, encoded_optional::<String>(v.rollback_plan)),
                ("env_concerns"@, encoded_list::<EnvConcern>(v.env_concerns)),
                ("dependencies"@, encoded_list::<Dependency>(v.dependencies)),
                ("breaking_changes"@, encoded_list::<BreakingChange>(v.breaking_changes)),
                ("checklist"@, encoded_list::<ChecklistItem>(v.checklist)),
                ("monitoring_notes"@, encoded_optional::<String>(v.monitoring_notes)),
            ],
        )
    }

    /// Read from an object that has every part; parts that may be absent
    /// may be missing or null, and fields of other names are passed over.
    open spec fn decoded(doc: JsonView) -> Option<DeployContextView> {
        match doc {
            JsonView::Object(fields) => if listed::<ShipItem>(fields, "what_to_ship"@) is Some
                    && listed::<String>(fields, "verification_steps"@) is Some
                    && optional::<String>(fields, "rollback_plan"@) is Some
                    && listed::<EnvConcern>(fields, "env_concerns"@) is Some
                    && listed::<Dependency>(fields, "dependencies"@) is Some
                    && listed::<BreakingChange>(fields, "breaking_changes"@) is Some
                    && listed::<ChecklistItem>(fields, "checklist"@) is Some
                    && optional::<String>(fields, "monitoring_notes"@) is Some {
                Some(
                    DeployContextView {
                        what_to_ship: listed::<ShipItem>(fields, "what_to_ship"@)->0,
                        verification_steps: listed::<String>(fields, "verification_steps"@)->0,
                        rollback_plan: optional::<String>(fields, "rollback_plan"@)->0,
                        env_concerns: listed::<EnvConcern>(fields, "env_concerns"@)->0,
                        dependencies: listed::<Dependency>(fields, "dependencies"@)->0,
                        breaking_changes: listed::<BreakingChange>(fields, "breaking_changes"@)->0,
                        checklist: listed::<ChecklistItem>(fields, "checklist"@)->0,
                        monitoring_notes: optional::<String>(fields, "monitoring_notes"@)->0,
                    },
                )
            } else {
                None
            },
            _ => None,
        }
    }

    open spec fn reads_back(v: DeployContextView) -> bool {
        true
    }

    fn encode(&self) -> (doc: Json) {
        let mut fields: Vec<(String, Json)> = Vec::new();
        fields.push(("what_to_ship".to_owned(), encode_list(&self.what_to_ship)));
        fields.push(("verification_steps".to_owned(), encode_list(&self.verification_steps)));
        fields.push(("rollback_plan".to_owned(), encode_optional(&self.rollback_plan)));
        fields.push(("env_concerns".to_owned(), encode_list(&self.env_concerns)));
        fields.push(("dependencies".to_owned(), encode_list(&self.dependencies)));
        fields.push(("breaking_changes".to_owned(), encode_list(&self.breaking_changes)));
        fields.push(("checklist".to_owned(), encode_list(&self.checklist)));
        fields.push(("monitoring_notes".to_owned(), encode_optional(&self.monitoring_notes)));
        proof {
            lemma_object_view(fields);
            assert(fields_view(fields@) =~= Self::encoded(self@)->Object_0);
        }
        Json::Object(fields)
    }

    fn decode(doc: &Json) -> (r: Option<Self>) {
        match doc {
            Json::Object(fields) => {
                proof {
                    lemma_object_view(*fields);
                }
                let what_to_ship = match take_list::<ShipItem>(fields, "what_to_ship") {
                    Some(x) => x,
                    None => {
                        return None;
                    },
                };
                let verification_steps = match take_list::<String>(fields, "verification_steps") {
                    Some(x) => x,
                    None => {
                        return None;
                    },
                };
                let rollback_plan = match take_optional::<String>(fields, "rollback_plan") {
                    Some(x) => x,
                    None => {
                        return None;
                    },
                };
                let env_concerns = match take_list::<EnvConcern>(fields, "env_concerns") {
                    Some(x) => x,
                    None => {
                        return None;
                    },
                };
                let dependencies = match take_list::<Dependency>(fields, "dependencies") {
                    Some(x) => x,
                    None => {
                        return None;
                    },
                };
                let breaking_changes = match take_list::<BreakingChange>(fields, "breaking_changes") {
                    Some(x) => x,
                    None => {
                        return None;
                    },
                };
                let checklist = match take_list::<ChecklistItem>(fields, "checklist") {
                    Some(x) => x,
                    None => {
                        return None;
                    },
                };
                let monitoring_notes = match take_optional::<String>(fields, "monitoring_notes") {
                    Some(x) => x,
                    None => {
                        return None;
                    },
                };
                Some(DeployContext { what_to_ship, verification_steps, rollback_plan, env_concerns, dependencies, breaking_changes, checklist, monitoring_notes })
            },
            _ => None,
        }
    }

    proof fn lemma_round_trip(v: DeployContextView) {
        let fields = Self::encoded(v)->Object_0;
        reveal_strlit("what_to_ship");
        reveal_strlit("verification_steps");
        reveal_strlit("rollback_plan");
        reveal_strlit("env_concerns");
        reveal_strlit("dependencies");
        reveal_strlit("breaking_changes");
        reveal_strlit("checklist");
        reveal_strlit("monitoring_notes");
        assert("what_to_ship"@.len() == 12);
        assert("verification_steps"@.len() == 18);
        assert("rollback_plan"@.len() == 13);
        assert("env_concerns"@.len() == 12);
        assert("dependencies"@.len() == 12);
        assert("breaking_changes"@.len() == 16);
        assert("checklist"@.len() == 9);
        assert("monitoring_notes"@.len() == 16);
        assert("what_to_ship"@[0] != "env_concerns"@[0]);
        assert("what_to_ship"@[0] != "dependencies"@[0]);
        assert("env_concerns"@[0] != "dependencies"@[0]);
        assert("breaking_changes"@[0] != "monitoring_notes"@[0]);
        lemma_field_found(fields, 0);
        lemma_list_round_trip::<ShipItem>(v.what_to_ship);
        lemma_field_found(fields, 1);
        lemma_list_round_trip::<String>(v.verification_steps);
        lemma_optional_round_trip::<String>(fields, 2, v.rollback_plan);
        lemma_field_found(fields, 3);
        lemma_list_round_trip::<EnvConcern>(v.env_concerns);
        lemma_field_found(fields, 4);
        lemma_list_round_trip::<Dependency>(v.dependencies);
        lemma_field_found(fields, 5);
        lemma_list_round_trip::<BreakingChange>(v.breaking_changes);
        lemma_field_found(fields, 6);
        lemma_list_round_trip::<ChecklistItem>(v.checklist);
        lemma_optional_round_trip::<String>(fields, 7, v.monitoring_notes);
    }
}

} // verus!
