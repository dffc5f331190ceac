//! The session log, identifiers, text primitives and error messages.

use xagentsync::context::{FileRead, Observation, ObservationCategory, SessionState};
use xagentsync::ident::short_id;
use xagentsync::text::{
    contains_text, decimal, ends_with_text, leading, same_text, split_at_char,
};
use xagentsync::time::Timestamp;
use xagentsync::Error;

#[test]
fn a_default_log_is_empty() {
    let s = SessionState::default();
    assert!(s.started_at.is_none());
    assert!(s.ended_at.is_none());
    assert!(s.files_read.is_empty());
    assert!(s.files_modified.is_empty());
    assert!(s.files_created.is_empty());
    assert!(s.commands_run.is_empty());
    assert!(s.observations.is_empty());
    assert!(s.decisions.is_empty());
    assert!(s.dead_ends.is_empty());
}

#[test]
fn a_new_log_starts_now_and_ends_when_told() {
    let s = SessionState::new();
    let started = s.started_at.expect("a start");
    assert!(started.secs() > 1_600_000_000);
    assert!(s.ended_at.is_none());
    let s = s.read_file("a").end();
    let ended = s.ended_at.expect("an end");
    assert!(!started.is_after(&ended));
    assert_eq!(s.started_at, Some(started));
    assert_eq!(s.files_read.len(), 1);
    let at = Timestamp::from_parts(10, 0).unwrap();
    let fixed = SessionState::started(at).ended(Timestamp::from_parts(20, 0).unwrap());
    assert_eq!(fixed.started_at.unwrap().secs(), 10);
    assert_eq!(fixed.ended_at.unwrap().secs(), 20);
}

#[test]
fn reads_are_numbered_from_one() {
    let s = SessionState::default()
        .read_file("a")
        .read_file_for("b", "why")
        .read_file("c");
    let orders: Vec<Option<u32>> = s.files_read.iter().map(|f| f.read_order).collect();
    assert_eq!(orders, vec![Some(1), Some(2), Some(3)]);
    assert_eq!(s.files_read[0].purpose, None);
    assert_eq!(s.files_read[1].purpose, Some("why".to_string()));
    assert!(s.files_read[2].takeaways.is_empty());
}

#[test]
fn files_come_by_read_order() {
    let mut s = SessionState::default().read_file("first").read_file("second");
    s.files_read.insert(
        0,
        FileRead { path: "unnumbered".to_string(), purpose: None, takeaways: vec![], read_order: None },
    );
    s.files_read.insert(
        0,
        FileRead { path: "late".to_string(), purpose: None, takeaways: vec![], read_order: Some(1000) },
    );
    s.files_read.push(FileRead {
        path: "also second".to_string(),
        purpose: None,
        takeaways: vec![],
        read_order: Some(2),
    });
    s.files_read.push(FileRead {
        path: "also unnumbered".to_string(),
        purpose: None,
        takeaways: vec![],
        read_order: Some(999),
    });
    let paths: Vec<&str> = s.files_by_read_order().iter().map(|f| f.path.as_str()).collect();
    assert_eq!(
        paths,
        vec!["first", "second", "also second", "unnumbered", "also unnumbered", "late"]
    );
    assert!(SessionState::default().files_by_read_order().is_empty());
}

#[test]
fn importance_is_held_within_one_to_five() {
    let s = SessionState::default()
        .observed("a", ObservationCategory::General, 0)
        .observed("b", ObservationCategory::Pattern, 1)
        .observed("c", ObservationCategory::Insight, 5)
        .observed("d", ObservationCategory::Question, 6)
        .observed("e", ObservationCategory::Risk, 255)
        .gotcha("f");
    let levels: Vec<u8> = s.observations.iter().map(|o| o.importance).collect();
    assert_eq!(levels, vec![1, 1, 5, 5, 5, 4]);
    assert_eq!(s.observations[5].category, ObservationCategory::Gotcha);
    assert_eq!(s.observations[3].category, ObservationCategory::Question);
}

#[test]
fn important_observations_are_three_and_up() {
    let mut s = SessionState::default()
        .observed("two", ObservationCategory::General, 2)
        .observed("three", ObservationCategory::General, 3)
        .gotcha("four")
        .observed("one", ObservationCategory::General, 1);
    s.observations.push(Observation {
        note: "nine".to_string(),
        category: ObservationCategory::Risk,
        importance: 9,
    });
    let notes: Vec<&str> = s.important_observations().iter().map(|o| o.note.as_str()).collect();
    assert_eq!(notes, vec!["three", "four", "nine"]);
    assert!(SessionState::default().important_observations().is_empty());
}

#[test]
fn a_session_is_summarized_in_a_line() {
    assert_eq!(SessionState::default().summarize(), "Exploratory session.");
    assert_eq!(SessionState::default().read_file("a").ran_command("ls", true).summarize(), "Exploratory session.");
    assert_eq!(SessionState::default().modified_file("a", "b").summarize(), "Modified 1 files.");
    let s = SessionState::default()
        .modified_file("a", "b")
        .modified_file("c", "d")
        .created_file("e")
        .decided("f", "g")
        .dead_end("h", "i")
        .dead_end("j", "k")
        .dead_end("l", "m");
    assert_eq!(
        s.summarize(),
        "Modified 2 files. Created 1 files. Made 1 decisions. 3 dead ends noted."
    );
    assert_eq!(SessionState::default().dead_end("h", "i").summarize(), "1 dead ends noted.");
    assert_eq!(
        SessionState::default().created_file("e").decided("f", "g").summarize(),
        "Created 1 files. Made 1 decisions."
    );
}

#[test]
fn builders_record_what_they_are_given() {
    let s = SessionState::default()
        .modified_file("src/config.rs", "Added Redis settings")
        .ran_command("cargo test", false)
        .decided("pool", "load")
        .dead_end("sync client", "blocks");
    assert_eq!(s.files_modified[0].path, "src/config.rs");
    assert_eq!(s.files_modified[0].change_summary, Some("Added Redis settings".to_string()));
    assert_eq!(s.files_modified[0].lines_changed, None);
    assert_eq!(s.commands_run[0].command, "cargo test");
    assert!(!s.commands_run[0].success);
    assert_eq!(s.commands_run[0].purpose, None);
    assert_eq!(s.decisions[0].why, "load");
    assert!(s.decisions[0].alternatives.is_empty());
    assert_eq!(s.dead_ends[0].reason, "blocks");
    assert!(!s.dead_ends[0].revisit);
}

#[test]
fn short_identifiers_are_the_leading_digits() {
    assert_eq!(short_id(0xa1a2a3a4b1b2c1c2d1d2d3d4d5d6d7d8), "a1a2a3a4");
    assert_eq!(short_id(0), "00000000");
    assert_eq!(short_id(u128::MAX), "ffffffff");
    assert_eq!(short_id(0x0123456789abcdef0000000000000000), "01234567");
    assert_eq!(short_id(0xfedcba98), "00000000");
}

#[test]
fn texts_are_compared_searched_and_split() {
    assert!(same_text("abc", "abc"));
    assert!(!same_text("abc", "abd"));
    assert!(!same_text("abc", "ab"));
    assert!(contains_text("20150515_a1b2.json", "a1b2"));
    assert!(contains_text("abc", ""));
    assert!(contains_text("", ""));
    assert!(contains_text("abc", "abc"));
    assert!(contains_text("abc", "c"));
    assert!(!contains_text("abc", "abcd"));
    assert!(!contains_text("abc", "ca"));
    assert!(!contains_text("", "a"));
    assert!(contains_text("na\u{ef}ve caf\u{e9}", "caf\u{e9}"));
    assert!(ends_with_text("a.json", ".json"));
    assert!(ends_with_text("a.json", ""));
    assert!(!ends_with_text("a.json", "a.jso"));
    assert!(!ends_with_text("on", "json"));
    assert_eq!(split_at_char("a,b,c", ','), vec!["a", "b", "c"]);
    assert_eq!(split_at_char("", ','), vec![""]);
    assert_eq!(split_at_char(",", ','), vec!["", ""]);
    assert_eq!(split_at_char("a,,b,", ','), vec!["a", "", "b", ""]);
    assert_eq!(split_at_char("abc", ','), vec!["abc"]);
    assert_eq!(leading("0123456789", 8), "01234567");
    assert_eq!(leading("0123", 8), "0123");
    assert_eq!(leading("01234567", 8), "01234567");
    assert_eq!(leading("abc", 0), "");
    assert_eq!(decimal(1000), "1000");
}

#[test]
fn every_condition_has_its_message() {
    let cases = [
        (Error::Io("disk full".to_string()), "IO error: disk full"),
        (Error::Serialization("EOF".to_string()), "Serialization error: EOF"),
        (Error::Git("no remote".to_string()), "Git error: no remote"),
        (Error::HandoffNotFound("a1b2".to_string()), "Handoff not found: a1b2"),
        (
            Error::NoActiveHandoff,
            "No active handoff in progress. Start one with 'deploy new', 'debug new', or 'plan new'",
        ),
        (Error::AgentNotRegistered("who".to_string()), "Agent not registered: who"),
        (Error::InvalidMode("build".to_string()), "Invalid mode: build"),
        (Error::Validation("bad".to_string()), "Validation error: bad"),
    ];
    for (error, message) in cases {
        assert_eq!(error.message(), message);
    }
}
