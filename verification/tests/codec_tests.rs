//! The JSON form of a handoff: what is written, what is read, and that
//! reading undoes writing.

use xagentsync::codec::Codec;
use xagentsync::context::{ObservationCategory, SessionState};
use xagentsync::handoff::debug::{AttemptOutcome, DebugContext, EvidenceKind, Likelihood};
use xagentsync::handoff::deploy::{Confidence, Dependency, DeployContext, ShipItem};
use xagentsync::handoff::plan::{PlanContext, PlanPhase, Priority};
use xagentsync::handoff::{GitRefType, PriorityFile};
use xagentsync::json::Json;
use xagentsync::time::Timestamp;
use xagentsync::{Error, GitRef, Handoff, HandoffMode, WarmUpSequence};

const ID: u128 = 0xa1a2a3a4b1b2c1c2d1d2d3d4d5d6d7d8;

fn at(secs: i64, nanos: u32) -> Timestamp {
    Timestamp::from_parts(secs, nanos).expect("a representable instant")
}

fn value(text: &str) -> serde_json::Value {
    serde_json::from_str(text).expect("valid JSON")
}

const BARE_DEBUG: &str = r#"{
  "id": "a1a2a3a4-b1b2-c1c2-d1d2-d3d4d5d6d7d8",
  "mode": {
    "kind": "Debug",
    "context": {
      "problem_statement": "X",
      "symptoms": ["Y"],
      "hypotheses": [],
      "attempted": [],
      "evidence": [],
      "suspected_files": [],
      "reproduction_steps": null,
      "working_theory": null,
      "next_to_try": null
    }
  },
  "created_by": "alice",
  "created_at": "2015-05-15T00:00:00Z",
  "summary": "S",
  "session": {
    "started_at": null,
    "ended_at": null,
    "files_read": [],
    "files_modified": [],
    "files_created": [],
    "commands_run": [],
    "observations": [],
    "decisions": [],
    "dead_ends": []
  },
  "warm_up": {
    "priority_files": [],
    "tldr": "",
    "must_know": [],
    "suggested_start": null,
    "estimated_tokens": null
  },
  "git_ref": null,
  "tags": []
}"#;

fn bare_debug() -> Handoff {
    Handoff::assemble(
        ID,
        at(1431648000, 0),
        HandoffMode::Debug(DebugContext::new("X").symptom("Y")),
        "S",
        "alice",
    )
}

fn rich() -> Handoff {
    let mut deploy = DeployContext::default()
        .ship("auth", "OAuth2")
        .verify("run tests")
        .rollback("git revert")
        .env_concern("prod", "cold cache")
        .breaking("API", "clients")
        .checklist("tag", true);
    deploy.what_to_ship.push(ShipItem {
        item: "docs".to_string(),
        description: "guide".to_string(),
        confidence: Confidence::Low,
    });
    deploy.dependencies.push(Dependency {
        name: "redis".to_string(),
        reason: "cache".to_string(),
        in_place: false,
    });
    deploy.monitoring_notes = Some("watch p99".to_string());
    let mut session = SessionState::started(at(1431640000, 123_000_000))
        .read_file("a.rs")
        .read_file_for("b.rs", "auth flow")
        .modified_file("c.rs", "settings")
        .created_file("d.rs")
        .ran_command("cargo test", true)
        .observed("odd", ObservationCategory::Risk, 9)
        .gotcha("lazy")
        .decided("pool", "load")
        .dead_end("sync client", "blocks")
        .ended(at(1431647000, 0));
    session.files_modified[0].lines_changed = Some(12);
    session.files_read[0].takeaways.push("entry point".to_string());
    let mut warm_up = WarmUpSequence::new("quick")
        .with_file("a.rs", "entry", 1)
        .must_know("async")
        .suggest_start("read a.rs");
    warm_up.estimated_tokens = Some(4000);
    warm_up.priority_files.push(PriorityFile {
        path: "b.rs".to_string(),
        reason: "types".to_string(),
        focus: Some("top".to_string()),
        rank: 255,
    });
    let mut git = GitRef::commit("abc123");
    git.remote = Some("origin".to_string());
    Handoff::assemble(ID, at(1431648000, 999_999_999), HandoffMode::Deploy(deploy), "Ship", "alice")
        .with_session(session)
        .with_warm_up(warm_up)
        .with_git_ref(git)
        .with_tag("auth")
        .with_tag("urgent")
        .with_tag("auth")
}

fn name_of(doc: Json) -> String {
    match doc {
        Json::Text(s) => s,
        other => panic!("{:?} is not a text", other),
    }
}

fn same(a: &Handoff, b: &Handoff) -> bool {
    format!("{:?}", a) == format!("{:?}", b)
}

#[test]
fn a_handoff_is_written_field_by_field() {
    let written = bare_debug().to_json().unwrap();
    assert_eq!(value(&written), value(BARE_DEBUG));
}

#[test]
fn a_handoff_is_read_field_by_field() {
    let read = Handoff::from_json(BARE_DEBUG).unwrap();
    assert!(same(&read, &bare_debug()));
    assert_eq!(read.id, ID);
    assert_eq!(read.created_at.secs(), 1431648000);
    assert_eq!(read.mode.kind(), "debug");
    assert_eq!(read.mode.as_debug().unwrap().symptoms, vec!["Y".to_string()]);
}

#[test]
fn reading_undoes_writing() {
    for h in [bare_debug(), rich()] {
        let text = h.to_json().unwrap();
        let back = Handoff::from_json(&text).unwrap();
        assert!(same(&back, &h));
        assert_eq!(back.to_json().unwrap(), text);
        let doc = h.to_document();
        let direct = Handoff::from_document(&doc).unwrap();
        assert!(same(&direct, &h));
    }
}

#[test]
fn every_mode_reads_back() {
    let plan = PlanContext::new("goal")
        .requirement("fast", Priority::Must)
        .decided("redis", "known")
        .rejected("memcached", "volatile")
        .question("ttl", "staleness")
        .blocking_question("cluster", "cost")
        .next_step("bench")
        .constraint("budget")
        .phase(PlanPhase::Review)
        .progress(60);
    let debug = DebugContext::new("broken")
        .symptom("500")
        .hypothesis("race", Likelihood::Eliminated)
        .tried("restart", "same", AttemptOutcome::MadeWorse)
        .evidence(EvidenceKind::UserReport, "ticket")
        .suspect_file("a.rs", "why")
        .repro("twice")
        .theory("skew")
        .try_next("bisect");
    for mode in [HandoffMode::Plan(plan), HandoffMode::Debug(debug), HandoffMode::deploy()] {
        let h = Handoff::assemble(1, at(5, 0), mode, "s", "w");
        let back = Handoff::from_json(&h.to_json().unwrap()).unwrap();
        assert!(same(&back, &h));
    }
}

#[test]
fn names_are_written_in_snake_case() {
    let text = rich().to_json().unwrap();
    let doc = value(&text);
    assert_eq!(doc["mode"]["kind"], "Deploy");
    assert_eq!(doc["mode"]["context"]["what_to_ship"][0]["confidence"], "medium");
    assert_eq!(doc["mode"]["context"]["what_to_ship"][1]["confidence"], "low");
    assert_eq!(doc["mode"]["context"]["dependencies"][0]["in_place"], false);
    assert_eq!(doc["session"]["observations"][0]["category"], "risk");
    assert_eq!(doc["session"]["observations"][0]["importance"], 5);
    assert_eq!(doc["session"]["observations"][1]["category"], "gotcha");
    assert_eq!(doc["session"]["observations"][1]["importance"], 4);
    assert_eq!(doc["session"]["files_read"][1]["read_order"], 2);
    assert_eq!(doc["session"]["files_modified"][0]["lines_changed"], 12);
    assert_eq!(doc["session"]["started_at"], "2015-05-14T21:46:40.123Z");
    assert_eq!(doc["created_at"], "2015-05-15T00:00:00.999999999Z");
    assert_eq!(doc["git_ref"]["ref_type"], "commit");
    assert_eq!(doc["git_ref"]["remote"], "origin");
    assert_eq!(doc["warm_up"]["estimated_tokens"], 4000);
    assert_eq!(doc["warm_up"]["priority_files"][1]["rank"], 255);
    assert_eq!(doc["tags"], value(r#"["auth", "urgent", "auth"]"#));
    assert_eq!(name_of(GitRefType::PullRequest.encode()), "pull_request");
    assert_eq!(name_of(AttemptOutcome::NoEffect.encode()), "no_effect");
    assert_eq!(name_of(EvidenceKind::ErrorMessage.encode()), "error_message");
    assert_eq!(name_of(EvidenceKind::LogEntry.encode()), "log_entry");
    assert_eq!(name_of(EvidenceKind::StackTrace.encode()), "stack_trace");
}

#[test]
fn parts_that_may_be_absent_may_be_missing() {
    let text = BARE_DEBUG
        .replace("\"git_ref\": null,", "")
        .replace("\"suggested_start\": null,", "")
        .replace("\"started_at\": null,", "");
    let read = Handoff::from_json(&text).unwrap();
    assert!(same(&read, &bare_debug()));
}

#[test]
fn fields_of_other_names_are_passed_over() {
    let text = BARE_DEBUG.replace("\"summary\": \"S\",", "\"summary\": \"S\", \"color\": [1, -2, 3.5],");
    let read = Handoff::from_json(&text).unwrap();
    assert!(same(&read, &bare_debug()));
}

#[test]
fn identifiers_are_read_in_other_forms() {
    let text = BARE_DEBUG.replace(
        "a1a2a3a4-b1b2-c1c2-d1d2-d3d4d5d6d7d8",
        "A1A2A3A4B1B2C1C2D1D2D3D4D5D6D7D8",
    );
    assert_eq!(Handoff::from_json(&text).unwrap().id, ID);
}

#[test]
fn instants_are_read_with_offsets() {
    let text = BARE_DEBUG.replace("2015-05-15T00:00:00Z", "2015-05-15T02:00:00.5+02:00");
    let read = Handoff::from_json(&text).unwrap();
    assert_eq!(read.created_at.secs(), 1431648000);
    assert_eq!(read.created_at.nanos(), 500_000_000);
}

#[test]
fn what_is_not_a_handoff_is_refused() {
    let broken = [
        "",
        "{",
        "[]",
        "\"text\"",
        "{\"id\": \"a1a2a3a4-b1b2-c1c2-d1d2-d3d4d5d6d7d8\"}",
        &BARE_DEBUG.replace("\"summary\": \"S\",", ""),
        &BARE_DEBUG.replace("\"tags\": []", "\"tags\": null"),
        &BARE_DEBUG.replace("\"kind\": \"Debug\"", "\"kind\": \"debug\""),
        &BARE_DEBUG.replace("\"kind\": \"Debug\"", "\"kind\": \"Plan\""),
        &BARE_DEBUG.replace("a1a2a3a4-", "a1a2a3a4"),
        &BARE_DEBUG.replace("2015-05-15T00:00:00Z", "yesterday"),
        &BARE_DEBUG.replace("\"symptoms\": [\"Y\"]", "\"symptoms\": [7]"),
        &BARE_DEBUG.replace("\"created_by\": \"alice\"", "\"created_by\": null"),
    ];
    for text in broken {
        match Handoff::from_json(text) {
            Err(Error::Serialization(_)) => {}
            other => panic!("{:?} was read as {:?}", text, other),
        }
    }
}

#[test]
fn numbers_are_read_within_their_range() {
    let in_range = BARE_DEBUG.replace("\"estimated_tokens\": null", "\"estimated_tokens\": 4294967295");
    assert_eq!(Handoff::from_json(&in_range).unwrap().warm_up.estimated_tokens, Some(4294967295));
    for bad in ["4294967296", "-1", "1.5", "\"7\"", "true"] {
        let text = BARE_DEBUG.replace(
            "\"estimated_tokens\": null",
            &format!("\"estimated_tokens\": {}", bad),
        );
        assert!(Handoff::from_json(&text).is_err(), "{} was read as a count", bad);
    }
    assert_eq!(u8::decode(&Json::Number(255)), Some(255));
    assert_eq!(u8::decode(&Json::Number(256)), None);
    assert_eq!(u32::decode(&Json::Number(0)), Some(0));
    assert_eq!(bool::decode(&Json::Bool(true)), Some(true));
    assert_eq!(bool::decode(&Json::Null), None);
    assert_eq!(String::decode(&Json::Text("a".to_string())), Some("a".to_string()));
    assert_eq!(String::decode(&Json::Number(1)), None);
}

#[test]
fn names_of_levels_are_read_exactly() {
    assert_eq!(Likelihood::decode(&Json::Text("high".to_string())), Some(Likelihood::High));
    assert_eq!(Likelihood::decode(&Json::Text("eliminated".to_string())), Some(Likelihood::Eliminated));
    assert_eq!(Likelihood::decode(&Json::Text("High".to_string())), None);
    assert_eq!(Likelihood::decode(&Json::Text("".to_string())), None);
    assert_eq!(Priority::decode(&Json::Text("wont".to_string())), Some(Priority::Wont));
    assert_eq!(PlanPhase::decode(&Json::Text("ready".to_string())), Some(PlanPhase::Ready));
    assert_eq!(PlanPhase::decode(&Json::Text("review".to_string())), Some(PlanPhase::Review));
    assert_eq!(
        ObservationCategory::decode(&Json::Text("insight".to_string())),
        Some(ObservationCategory::Insight)
    );
    assert_eq!(Confidence::decode(&Json::Null), None);
}

#[test]
fn instants_far_from_now_read_back() {
    let instants = [
        (0i64, 0u32),
        (-1, 999_999_999),
        (1431648000, 123_456_000),
        (59, 1_500_000_000),
        (-62_167_219_200, 0),
        (-62_198_755_200, 7),
        (253_402_300_800, 0),
        (8_210_266_876_799, 999_999_999),
        (-8_334_601_228_800, 0),
    ];
    for (secs, nanos) in instants {
        let created = at(secs, nanos);
        let h = Handoff::assemble(ID, created, HandoffMode::deploy(), "s", "w");
        let back = Handoff::from_json(&h.to_json().unwrap()).unwrap();
        assert_eq!(back.created_at, created, "{} {}", secs, nanos);
        let doc = created.encode();
        assert_eq!(Timestamp::decode(&doc), Some(created));
    }
}

#[test]
fn identifiers_read_back() {
    for id in [0u128, 1, ID, u128::MAX, 0x0123456789abcdef0123456789abcdef] {
        assert_eq!(u128::decode(&id.encode()), Some(id));
        assert_eq!(name_of(id.encode()), uuid::Uuid::from_u128(id).to_string());
    }
    assert_eq!(name_of(ID.encode()), "a1a2a3a4-b1b2-c1c2-d1d2-d3d4d5d6d7d8");
    assert_eq!(u128::decode(&Json::Text("not an identifier".to_string())), None);
    assert_eq!(u128::decode(&Json::Number(7)), None);
}
