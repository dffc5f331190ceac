//! The sync store: what each operation asks for, and what a store holds
//! once that is performed.

use xagentsync::handoff::debug::DebugContext;
use xagentsync::store::MemoryStore;
use xagentsync::sync::{
    file_name_for, is_handoff_file, join_path, PendingFile, StoreAction, SyncConfig, SyncManager,
};
use xagentsync::time::Timestamp;
use xagentsync::{Error, Handoff, HandoffMode};

const ID: u128 = 0xa1a2a3a4b1b2c1c2d1d2d3d4d5d6d7d8;

fn at(secs: i64) -> Timestamp {
    Timestamp::from_parts(secs, 0).expect("a representable instant")
}

fn unbacked() -> SyncManager {
    SyncManager::new(SyncConfig::with_sync_dir("/work"), false)
}

fn backed() -> SyncManager {
    SyncManager::new(SyncConfig::with_sync_dir("/work"), true)
}

fn names(files: &[PendingFile]) -> Vec<String> {
    files.iter().map(|f| f.name.clone()).collect()
}

fn handoff(id: u128, secs: i64, summary: &str) -> Handoff {
    Handoff::assemble(id, at(secs), HandoffMode::deploy(), summary, "alice")
}

fn send(store: &mut MemoryStore, manager: &SyncManager, h: &Handoff) -> String {
    let plan = manager.send_handoff(h).expect("the handoff serializes");
    store.perform_all(plan.actions);
    plan.name
}

#[test]
fn standard_layout() {
    let config = SyncConfig::default();
    assert_eq!(config.sync_dir, ".");
    assert_eq!(config.pending, "pending");
    assert_eq!(config.state, ".xas");
    assert_eq!(config.archive, "archive");
    assert!(config.auto_commit);
    assert!(!config.auto_push);
}

#[test]
fn layout_under_a_root() {
    let config = SyncConfig::with_sync_dir("/work");
    assert_eq!(config.sync_dir, "/work");
    assert_eq!(config.pending, "/work/pending");
    assert_eq!(config.state, "/work/.xas");
    assert_eq!(config.archive, "/work/archive");
    assert!(config.auto_commit);
    assert!(!config.auto_push);
    assert_eq!(config.wip_file(), "/work/.xas/wip.json");
    assert_eq!(config.ignore_file(), "/work/.xas/.gitignore");
    assert_eq!(config.state_file("current_agent"), "/work/.xas/current_agent.json");
    assert_eq!(config.pending_file("a.json"), "/work/pending/a.json");
    assert_eq!(config.archive_file("a.json"), "/work/archive/a.json");
}

#[test]
fn paths_join_with_one_separator() {
    assert_eq!(join_path(".", "pending"), "./pending");
    assert_eq!(join_path("/work/", "pending"), "/work/pending");
    assert_eq!(join_path("", "pending"), "pending");
    assert_eq!(join_path("/", "pending"), "/pending");
}

#[test]
fn init_creates_regions_and_marker_once() {
    let manager = unbacked();
    let mut store = MemoryStore::new();
    assert!(!store.has_regions());
    let first = manager.init(store.has_ignore_marker());
    assert_eq!(first.len(), 2);
    assert!(matches!(first[0], StoreAction::CreateRegions));
    match &first[1] {
        StoreAction::WriteIgnoreMarker { content } => {
            assert_eq!(content, "wip.json\ncurrent_agent.json\n")
        }
        other => panic!("unexpected action {:?}", other),
    }
    store.perform_all(first);
    assert!(store.has_regions());
    assert!(store.has_ignore_marker());
    let second = manager.init(store.has_ignore_marker());
    assert_eq!(second.len(), 1);
    assert!(matches!(second[0], StoreAction::CreateRegions));
    store.perform_all(second);
    assert!(store.has_regions());
    assert!(store.has_ignore_marker());
    assert!(store.pending_files().is_empty());
}

#[test]
fn handoff_files_are_named_by_time_and_identity() {
    assert_eq!(file_name_for("20150515_000000", ID), "20150515_000000_a1a2a3a4.json");
    let manager = unbacked();
    let plan = manager.send_handoff(&handoff(ID, 1431648000, "s")).unwrap();
    assert_eq!(plan.name, "20150515_000000_a1a2a3a4.json");
    assert_eq!(plan.path, "/work/pending/20150515_000000_a1a2a3a4.json");
    let later = manager.send_handoff(&handoff(0x0f, 1431648000 + 86400 + 3661, "s")).unwrap();
    assert_eq!(later.name, "20150516_010101_00000000.json");
}

#[test]
fn sending_writes_and_commits_where_backed() {
    let h = handoff(ID, 1431648000, "Ship auth");
    let plain = unbacked().send_handoff(&h).unwrap();
    assert_eq!(plain.actions.len(), 1);
    match &plain.actions[0] {
        StoreAction::WritePending { name, content } => {
            assert_eq!(name, "20150515_000000_a1a2a3a4.json");
            assert_eq!(content, &h.to_json().unwrap());
        }
        other => panic!("unexpected action {:?}", other),
    }
    let committed = backed().send_handoff(&h).unwrap();
    assert_eq!(committed.actions.len(), 2);
    match &committed.actions[1] {
        StoreAction::Commit { message } => assert_eq!(message, "XAS handoff [deploy]: Ship auth"),
        other => panic!("unexpected action {:?}", other),
    }
    let mut config = SyncConfig::with_sync_dir("/work");
    config.auto_commit = false;
    let quiet = SyncManager::new(config, true).send_handoff(&h).unwrap();
    assert_eq!(quiet.actions.len(), 1);
}

#[test]
fn handoff_file_names_end_in_json() {
    assert!(is_handoff_file("a.json"));
    assert!(is_handoff_file("20150515_000000_a1a2a3a4.json"));
    assert!(is_handoff_file("..json"));
    assert!(!is_handoff_file(".json"));
    assert!(!is_handoff_file("json"));
    assert!(!is_handoff_file("a.json.bak"));
    assert!(!is_handoff_file("a.JSON"));
    assert!(!is_handoff_file(""));
}

#[test]
fn received_handoffs_come_newest_first() {
    let manager = unbacked();
    let mut store = MemoryStore::new();
    store.perform_all(manager.init(false));
    for (id, secs, summary) in [(2u128, 2000, "middle"), (3, 3000, "newest"), (1, 1000, "oldest")] {
        send(&mut store, &manager, &handoff(id, secs, summary));
    }
    let first = manager.receive_handoffs(&store.pending_files());
    let summaries: Vec<&str> = first.iter().map(|h| h.summary.as_str()).collect();
    assert_eq!(summaries, vec!["newest", "middle", "oldest"]);
    let again = manager.receive_handoffs(&store.pending_files());
    let ids: Vec<u128> = again.iter().map(|h| h.id).collect();
    assert_eq!(ids, vec![3, 2, 1]);
    let mut listing = store.pending_files();
    listing.reverse();
    let reversed = manager.receive_handoffs(&listing);
    let ids: Vec<u128> = reversed.iter().map(|h| h.id).collect();
    assert_eq!(ids, vec![3, 2, 1]);
}

#[test]
fn handoffs_of_one_instant_keep_the_order_of_the_listing() {
    let manager = unbacked();
    let a = handoff(1, 1000, "a").to_json().unwrap();
    let b = handoff(2, 1000, "b").to_json().unwrap();
    let c = handoff(3, 2000, "c").to_json().unwrap();
    let files = vec![
        PendingFile { name: "x.json".to_string(), content: a },
        PendingFile { name: "y.json".to_string(), content: c },
        PendingFile { name: "z.json".to_string(), content: b },
    ];
    let ids: Vec<u128> = manager.receive_handoffs(&files).iter().map(|h| h.id).collect();
    assert_eq!(ids, vec![3, 1, 2]);
}

#[test]
fn subsecond_times_order_handoffs() {
    let manager = unbacked();
    let early = Handoff::assemble(
        1,
        Timestamp::from_parts(1000, 1).unwrap(),
        HandoffMode::deploy(),
        "early",
        "a",
    );
    let late = Handoff::assemble(
        2,
        Timestamp::from_parts(1000, 2).unwrap(),
        HandoffMode::deploy(),
        "late",
        "a",
    );
    let files = vec![
        PendingFile { name: "a.json".to_string(), content: early.to_json().unwrap() },
        PendingFile { name: "b.json".to_string(), content: late.to_json().unwrap() },
    ];
    let ids: Vec<u128> = manager.receive_handoffs(&files).iter().map(|h| h.id).collect();
    assert_eq!(ids, vec![2, 1]);
}

#[test]
fn debris_in_the_pending_region_is_passed_over() {
    let manager = unbacked();
    let good = handoff(1, 1000, "good").to_json().unwrap();
    let files = vec![
        PendingFile { name: "notes.txt".to_string(), content: good.clone() },
        PendingFile { name: "half.json".to_string(), content: "{ \"id\": ".to_string() },
        PendingFile { name: "other.json".to_string(), content: "{\"a\": 1}".to_string() },
        PendingFile { name: "good.json".to_string(), content: good },
        PendingFile { name: ".json".to_string(), content: "[]".to_string() },
    ];
    let received = manager.receive_handoffs(&files);
    assert_eq!(received.len(), 1);
    assert_eq!(received[0].summary, "good");
    assert!(manager.receive_handoffs(&Vec::new()).is_empty());
}

#[test]
fn pending_handoffs_are_noticed() {
    let manager = unbacked();
    assert!(!manager.has_pending_handoffs(&Vec::new()));
    assert!(!manager.has_pending_handoffs(&vec!["README.md".to_string(), ".json".to_string()]));
    assert!(manager.has_pending_handoffs(&vec!["README.md".to_string(), "a.json".to_string()]));
}

#[test]
fn clearing_the_slot_twice_is_harmless() {
    let manager = unbacked();
    let mut store = MemoryStore::new();
    store.perform_opt(manager.clear_wip(store.wip().is_some()));
    assert!(manager.load_wip(store.wip().as_deref()).unwrap().is_none());
    store.perform(manager.save_wip(&handoff(1, 1000, "wip")).unwrap());
    assert!(manager.load_wip(store.wip().as_deref()).unwrap().is_some());
    let first = manager.clear_wip(store.wip().is_some());
    assert!(matches!(first, Some(StoreAction::RemoveWip)));
    store.perform_opt(first);
    let second = manager.clear_wip(store.wip().is_some());
    assert!(second.is_none());
    store.perform_opt(second);
    assert!(manager.load_wip(store.wip().as_deref()).unwrap().is_none());
}

#[test]
fn saving_overwrites_the_slot() {
    let manager = unbacked();
    let mut store = MemoryStore::new();
    store.perform(manager.save_wip(&handoff(1, 1000, "first")).unwrap());
    store.perform(manager.save_wip(&handoff(2, 2000, "second")).unwrap());
    let loaded = manager.load_wip(store.wip().as_deref()).unwrap().unwrap();
    assert_eq!(loaded.id, 2);
    assert_eq!(loaded.summary, "second");
}

#[test]
fn a_malformed_slot_fails_the_load() {
    let manager = unbacked();
    let result = manager.load_wip(Some("{ not json"));
    assert!(matches!(result, Err(Error::Serialization(_))));
    let result = manager.load_wip(Some("{\"id\": 7}"));
    assert!(matches!(result, Err(Error::Serialization(_))));
}

#[test]
fn finalizing_moves_the_handoff_from_slot_to_pending() {
    let manager = unbacked();
    let mut store = MemoryStore::new();
    store.perform_all(manager.init(false));
    let h = handoff(ID, 1431648000, "done");
    store.perform(manager.save_wip(&h).unwrap());
    let staged = manager.load_wip(store.wip().as_deref()).unwrap().unwrap();
    send(&mut store, &manager, &staged);
    store.perform_opt(manager.clear_wip(store.wip().is_some()));
    assert!(manager.load_wip(store.wip().as_deref()).unwrap().is_none());
    let received = manager.receive_handoffs(&store.pending_files());
    assert_eq!(received.iter().filter(|r| r.id == ID).count(), 1);
    assert_eq!(received.len(), 1);
    send(&mut store, &manager, &staged);
    assert_eq!(manager.receive_handoffs(&store.pending_files()).len(), 1);
}

#[test]
fn archiving_moves_the_file_unchanged() {
    let manager = unbacked();
    let mut store = MemoryStore::new();
    let keep = send(&mut store, &manager, &handoff(1, 1000, "keep"));
    let gone = send(&mut store, &manager, &handoff(ID, 2000, "gone"));
    let before = store.pending_files().into_iter().find(|f| f.name == gone).unwrap().content;
    let action = manager.archive_handoff(&names(&store.pending_files()), "a1a2a3a4").unwrap();
    match &action {
        StoreAction::ArchivePending { name } => assert_eq!(name, &gone),
        other => panic!("unexpected action {:?}", other),
    }
    store.perform(action);
    assert_eq!(names(&store.pending_files()), vec![keep]);
    let received = manager.receive_handoffs(&store.pending_files());
    assert!(received.iter().all(|h| h.id != ID));
    let archive = store.archive_files();
    assert_eq!(archive.len(), 1);
    assert_eq!(archive[0].name, gone);
    assert_eq!(archive[0].content, before);
}

#[test]
fn archiving_what_is_not_pending_fails() {
    let manager = unbacked();
    let listing = vec!["20150515_000000_a1a2a3a4.json".to_string()];
    match manager.archive_handoff(&listing, "deadbeef") {
        Err(Error::HandoffNotFound(id)) => assert_eq!(id, "deadbeef"),
        other => panic!("unexpected result {:?}", other),
    }
    let error = manager.archive_handoff(&Vec::new(), "deadbeef").unwrap_err();
    assert_eq!(error.message(), "Handoff not found: deadbeef");
}

#[test]
fn archiving_takes_the_first_match_of_the_listing() {
    let manager = unbacked();
    let listing = vec!["x_00aa.json".to_string(), "y_aa00.json".to_string(), "z_bb.json".to_string()];
    match manager.archive_handoff(&listing, "aa").unwrap() {
        StoreAction::ArchivePending { name } => assert_eq!(name, "x_00aa.json"),
        other => panic!("unexpected action {:?}", other),
    }
    let mut turned = listing.clone();
    turned.reverse();
    match manager.archive_handoff(&turned, "aa").unwrap() {
        StoreAction::ArchivePending { name } => assert_eq!(name, "y_aa00.json"),
        other => panic!("unexpected action {:?}", other),
    }
    match manager.archive_handoff(&listing, "bb").unwrap() {
        StoreAction::ArchivePending { name } => assert_eq!(name, "z_bb.json"),
        other => panic!("unexpected action {:?}", other),
    }
}

#[test]
fn scenario_debug_handoff_from_slot_to_inbox() {
    let manager = unbacked();
    let mut store = MemoryStore::new();
    store.perform_all(manager.init(store.has_ignore_marker()));
    let started = Handoff::new(HandoffMode::Debug(DebugContext::new("X")), "X", "alice");
    store.perform(manager.save_wip(&started).unwrap());
    let mut staged = manager.load_wip(store.wip().as_deref()).unwrap().unwrap();
    staged.mode.as_debug_mut().unwrap().symptoms.push("Y".to_string());
    store.perform(manager.save_wip(&staged).unwrap());
    let done = manager.load_wip(store.wip().as_deref()).unwrap().unwrap();
    let plan = manager.send_handoff(&done).unwrap();
    store.perform_all(plan.actions);
    store.perform_opt(manager.clear_wip(store.wip().is_some()));
    let received = manager.receive_handoffs(&store.pending_files());
    assert_eq!(received.len(), 1);
    let prompt = received[0].compile_prompt();
    assert!(prompt.contains("X"));
    assert!(prompt.contains("Y"));
    assert_eq!(received[0].mode.kind(), "debug");
    assert_eq!(received[0].id, started.id);
    assert!(store.wip().is_none());
}

#[test]
fn scenario_identity_reads_back() {
    let manager = unbacked();
    let mut store = MemoryStore::new();
    store.perform_all(manager.init(false));
    let fresh = manager.read_state(store.state_entry("current_agent").as_deref()).unwrap();
    assert_eq!(fresh, None);
    let write = manager.write_state("current_agent", "alice").unwrap();
    match &write {
        StoreAction::WriteState { key, content } => {
            assert_eq!(key, "current_agent");
            assert_eq!(content, "\"alice\"");
        }
        other => panic!("unexpected action {:?}", other),
    }
    store.perform(write);
    let read = manager.read_state(store.state_entry("current_agent").as_deref()).unwrap();
    assert_eq!(read, Some("alice".to_string()));
    assert_eq!(manager.read_state(store.state_entry("other").as_deref()).unwrap(), None);
    store.perform(manager.write_state("current_agent", "a \"quoted\" name").unwrap());
    let read = manager.read_state(store.state_entry("current_agent").as_deref()).unwrap();
    assert_eq!(read, Some("a \"quoted\" name".to_string()));
}

#[test]
fn a_malformed_state_entry_fails_the_read() {
    let manager = unbacked();
    assert!(matches!(manager.read_state(Some("alice")), Err(Error::Serialization(_))));
    assert!(matches!(manager.read_state(Some("42")), Err(Error::Serialization(_))));
    assert!(matches!(manager.read_state(Some("")), Err(Error::Serialization(_))));
}

#[test]
fn scenario_unbacked_store_has_no_version_control() {
    let manager = unbacked();
    assert!(!manager.is_backed());
    assert_eq!(manager.current_commit(Some("0123456789abcdef".to_string())), None);
    assert_eq!(manager.current_branch(Some("main".to_string())), None);
    assert!(manager.commit_changes("message").is_none());
    assert!(manager.pull().is_none());
    let mut store = MemoryStore::new();
    store.perform_opt(manager.commit_changes("message"));
    store.perform_opt(manager.pull());
    assert_eq!(store.commit_count(), 0);
}

#[test]
fn a_backed_store_commits_and_fetches() {
    let manager = backed();
    assert!(manager.is_backed());
    assert_eq!(manager.current_commit(Some("0123".to_string())), Some("0123".to_string()));
    assert_eq!(manager.current_commit(None), None);
    assert_eq!(manager.current_branch(Some("main".to_string())), Some("main".to_string()));
    match manager.commit_changes("message") {
        Some(StoreAction::Commit { message }) => assert_eq!(message, "message"),
        other => panic!("unexpected action {:?}", other),
    }
    match manager.pull() {
        Some(StoreAction::Fetch { remote, branch }) => {
            assert_eq!(remote, "origin");
            assert_eq!(branch, "main");
        }
        other => panic!("unexpected action {:?}", other),
    }
    let mut store = MemoryStore::new();
    store.perform_opt(manager.commit_changes("message"));
    assert_eq!(store.commit_count(), 1);
}

#[test]
fn instants_outside_the_calendar_are_refused() {
    assert!(Timestamp::from_parts(0, 0).is_some());
    assert!(Timestamp::from_parts(-1, 999_999_999).is_some());
    assert!(Timestamp::from_parts(i64::MAX, 0).is_none());
    assert!(Timestamp::from_parts(i64::MIN, 0).is_none());
    assert!(Timestamp::from_parts(0, 2_000_000_000).is_none());
    assert!(Timestamp::from_parts(0, 1_000_000_000).is_none());
    assert!(Timestamp::from_parts(59, 1_000_000_000).is_some());
    let t = Timestamp::from_parts(1431648000, 5).unwrap();
    assert_eq!(t.secs(), 1431648000);
    assert_eq!(t.nanos(), 5);
    assert_eq!(t.format_minute(), "2015-05-15 00:00 UTC");
    assert_eq!(t.format_listing(), "2015-05-15 00:00");
    assert_eq!(t.format_stamp(), "20150515_000000");
    assert_eq!(t.to_rfc3339(), "2015-05-15T00:00:00.000000005Z");
    assert!(t.is_after(&Timestamp::from_parts(1431648000, 4).unwrap()));
    assert!(!t.is_after(&t));
    assert!(!t.is_after(&Timestamp::from_parts(1431648001, 0).unwrap()));
}
