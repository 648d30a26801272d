use lan_sync::auth::AuthGate;
use lan_sync::manifest::{build_manifest, ManifestEntry, RecordKind};
use lan_sync::messages::{PullRequest, PushRequest};
use lan_sync::records::{KnownItem, SyncRecord};
use lan_sync::service::{handle_manifest, handle_pull, handle_push, handle_status, SyncError};
use lan_sync::store::SyncData;

fn record(id: &str, updated_at: &str, message_count: usize) -> SyncRecord {
    SyncRecord {
        id: id.to_string(),
        updated_at: updated_at.to_string(),
        message_count,
        body: format!("{{\"id\":\"{}\",\"updatedAt\":\"{}\"}}", id, updated_at),
    }
}

fn known(id: &str, updated_at: &str) -> KnownItem {
    KnownItem { id: id.to_string(), updated_at: updated_at.to_string() }
}

fn store_one_conversation() -> SyncData {
    let mut store = SyncData::new();
    store.replace(vec![record("a", "2024-01-01T00:00:00Z", 2)], Vec::new());
    store
}

fn open_gate() -> AuthGate {
    AuthGate::new()
}

#[test]
fn pull_returns_newer_record() {
    // Scenario A: the client's ledger is older, so the record comes back.
    let store = store_one_conversation();
    let request = PullRequest { known_items: vec![known("a", "2023-01-01T00:00:00Z")] };
    let response = handle_pull(&store, &open_gate(), None, &request).unwrap();
    assert_eq!(response.conversations.len(), 1);
    assert_eq!(response.conversations[0].id, "a");
    assert_eq!(response.conversations[0].updated_at, "2024-01-01T00:00:00Z");
    assert_eq!(response.projects.len(), 0);
}

#[test]
fn pull_omits_record_client_already_has_newer() {
    // Scenario B: the client's ledger is newer, so nothing comes back.
    let store = store_one_conversation();
    let request = PullRequest { known_items: vec![known("a", "2025-01-01T00:00:00Z")] };
    let response = handle_pull(&store, &open_gate(), None, &request).unwrap();
    assert_eq!(response.conversations.len(), 0);
    assert_eq!(response.projects.len(), 0);
}

#[test]
fn pull_omits_record_with_equal_timestamp() {
    // Only strictly greater timestamps are pulled.
    let store = store_one_conversation();
    let request = PullRequest { known_items: vec![known("a", "2024-01-01T00:00:00Z")] };
    let response = handle_pull(&store, &open_gate(), None, &request).unwrap();
    assert_eq!(response.conversations.len(), 0);
}

#[test]
fn pull_returns_record_absent_from_ledger() {
    let mut store = SyncData::new();
    store.replace(
        vec![record("a", "2024-01-01T00:00:00Z", 0), record("b", "2020-05-05T00:00:00Z", 1)],
        vec![record("p", "2019-01-01T00:00:00Z", 0)],
    );
    let request = PullRequest { known_items: vec![known("a", "2024-01-01T00:00:00Z")] };
    let response = handle_pull(&store, &open_gate(), None, &request).unwrap();
    assert_eq!(response.conversations.len(), 1);
    assert_eq!(response.conversations[0].id, "b");
    assert_eq!(response.projects.len(), 1);
    assert_eq!(response.projects[0].id, "p");
}

#[test]
fn pull_with_empty_ledger_returns_everything_in_store_order() {
    let mut store = SyncData::new();
    store.replace(
        vec![record("c1", "2024-01-01T00:00:00Z", 0), record("c2", "2024-02-01T00:00:00Z", 3)],
        vec![record("p1", "2024-03-01T00:00:00Z", 0)],
    );
    let request = PullRequest { known_items: Vec::new() };
    let response = handle_pull(&store, &open_gate(), None, &request).unwrap();
    let conversation_ids: Vec<&str> =
        response.conversations.iter().map(|r| r.id.as_str()).collect();
    assert_eq!(conversation_ids, vec!["c1", "c2"]);
    assert_eq!(response.projects.len(), 1);
    assert_eq!(response.projects[0].id, "p1");
}

#[test]
fn pull_full_payload_comes_back() {
    // Pull returns full record payloads, not manifest summaries.
    let store = store_one_conversation();
    let request = PullRequest { known_items: Vec::new() };
    let response = handle_pull(&store, &open_gate(), None, &request).unwrap();
    assert_eq!(
        response.conversations[0].body,
        "{\"id\":\"a\",\"updatedAt\":\"2024-01-01T00:00:00Z\"}"
    );
}

#[test]
fn pull_later_duplicate_ledger_entry_wins() {
    // The ledger is a mapping built in order: a later entry for the same id
    // replaces an earlier one.
    let store = store_one_conversation();
    let newer_last = PullRequest {
        known_items: vec![known("a", "2023-01-01T00:00:00Z"), known("a", "2025-01-01T00:00:00Z")],
    };
    let response = handle_pull(&store, &open_gate(), None, &newer_last).unwrap();
    assert_eq!(response.conversations.len(), 0);

    let older_last = PullRequest {
        known_items: vec![known("a", "2025-01-01T00:00:00Z"), known("a", "2023-01-01T00:00:00Z")],
    };
    let response = handle_pull(&store, &open_gate(), None, &older_last).unwrap();
    assert_eq!(response.conversations.len(), 1);
}

#[test]
fn pull_twice_against_unchanged_store_is_identical() {
    let mut store = SyncData::new();
    store.replace(
        vec![record("a", "2024-01-01T00:00:00Z", 1), record("b", "2022-01-01T00:00:00Z", 0)],
        vec![record("p", "2023-06-01T00:00:00Z", 0)],
    );
    let request = PullRequest { known_items: vec![known("b", "2022-01-01T00:00:00Z")] };
    let first = handle_pull(&store, &open_gate(), None, &request).unwrap();
    let second = handle_pull(&store, &open_gate(), None, &request).unwrap();
    assert_eq!(first.conversations.len(), second.conversations.len());
    for (x, y) in first.conversations.iter().zip(second.conversations.iter()) {
        assert_eq!(x.id, y.id);
        assert_eq!(x.updated_at, y.updated_at);
        assert_eq!(x.message_count, y.message_count);
        assert_eq!(x.body, y.body);
    }
    assert_eq!(first.projects.len(), second.projects.len());
    for (x, y) in first.projects.iter().zip(second.projects.iter()) {
        assert_eq!(x.id, y.id);
        assert_eq!(x.body, y.body);
    }
}

#[test]
fn pull_treats_timestamp_extension_as_newer() {
    // Lexicographic order on the raw strings: a longer string with the
    // ledger's value as a proper prefix counts as strictly newer.
    let store = store_one_conversation();
    let request = PullRequest { known_items: vec![known("a", "2024-01-01")] };
    let response = handle_pull(&store, &open_gate(), None, &request).unwrap();
    assert_eq!(response.conversations.len(), 1);
}

#[test]
fn push_counts_equal_payload_lengths() {
    let payload = PushRequest {
        conversations: vec![record("a", "2024-01-01T00:00:00Z", 0), record("b", "2024-01-02T00:00:00Z", 0)],
        projects: vec![record("p", "2024-01-03T00:00:00Z", 0)],
    };
    let (response, forwarded) = handle_push(&open_gate(), None, payload).unwrap();
    assert_eq!(response.merged_conversations, 2);
    assert_eq!(response.merged_projects, 1);
    // The payload is handed back for the owning application to merge.
    assert_eq!(forwarded.conversations.len(), 2);
    assert_eq!(forwarded.conversations[0].id, "a");
    assert_eq!(forwarded.projects[0].id, "p");
}

#[test]
fn push_counts_are_zero_for_empty_payload() {
    let payload = PushRequest { conversations: Vec::new(), projects: Vec::new() };
    let (response, _) = handle_push(&open_gate(), None, payload).unwrap();
    assert_eq!(response.merged_conversations, 0);
    assert_eq!(response.merged_projects, 0);
}

#[test]
fn push_does_not_touch_the_store() {
    let store = store_one_conversation();
    let payload = PushRequest {
        conversations: vec![record("x", "2030-01-01T00:00:00Z", 0)],
        projects: Vec::new(),
    };
    let _ = handle_push(&open_gate(), None, payload).unwrap();
    // The handler never sees the store; a subsequent pull still serves the
    // old snapshot.
    let request = PullRequest { known_items: Vec::new() };
    let response = handle_pull(&store, &open_gate(), None, &request).unwrap();
    assert_eq!(response.conversations.len(), 1);
    assert_eq!(response.conversations[0].id, "a");
}

#[test]
fn manifest_projects_conversations_then_projects() {
    // Scenario C: one conversation with three messages, one project.
    let mut store = SyncData::new();
    store.replace(
        vec![record("c", "2024-01-01T00:00:00Z", 3)],
        vec![record("p", "2024-02-01T00:00:00Z", 7)],
    );
    let entries: Vec<ManifestEntry> = build_manifest(&store);
    assert_eq!(entries.len(), 2);
    assert_eq!(entries[0].id, "c");
    assert_eq!(entries[0].message_count, 3);
    assert_eq!(entries[0].kind, RecordKind::Conversation);
    assert_eq!(entries[0].kind.label(), "conversation");
    assert_eq!(entries[1].id, "p");
    // A project's message count is always reported as zero.
    assert_eq!(entries[1].message_count, 0);
    assert_eq!(entries[1].kind, RecordKind::Project);
    assert_eq!(entries[1].kind.label(), "project");
}

#[test]
fn manifest_is_empty_for_empty_store() {
    let store = SyncData::new();
    assert_eq!(build_manifest(&store).len(), 0);
}

#[test]
fn auth_without_pin_accepts_any_header() {
    let gate = AuthGate::new();
    assert!(gate.check(None));
    assert!(gate.check(Some(&"anything".to_string())));
}

#[test]
fn auth_with_pin_requires_exact_match() {
    let mut gate = AuthGate::new();
    gate.configure(Some("1234".to_string()));
    assert!(gate.check(Some(&"1234".to_string())));
    assert!(!gate.check(Some(&"999".to_string())));
    assert!(!gate.check(Some(&"12345".to_string())));
    assert!(!gate.check(None));
}

#[test]
fn auth_reconfigure_replaces_the_pin() {
    let mut gate = AuthGate::new();
    gate.configure(Some("1234".to_string()));
    gate.configure(Some("abcd".to_string()));
    assert!(!gate.check(Some(&"1234".to_string())));
    assert!(gate.check(Some(&"abcd".to_string())));
    gate.configure(None);
    assert!(gate.check(None));
    assert!(gate.check(Some(&"abcd".to_string())));
}

#[test]
fn handlers_refuse_bad_pin() {
    let mut gate = AuthGate::new();
    gate.configure(Some("1234".to_string()));
    let store = store_one_conversation();

    let manifest = handle_manifest(&store, &gate, None);
    assert!(matches!(manifest, Err(SyncError::Unauthorized)));

    let request = PullRequest { known_items: Vec::new() };
    let pull = handle_pull(&store, &gate, Some(&"999".to_string()), &request);
    assert!(matches!(pull, Err(SyncError::Unauthorized)));

    let payload = PushRequest { conversations: Vec::new(), projects: Vec::new() };
    let push = handle_push(&gate, None, payload);
    assert!(matches!(push, Err(SyncError::Unauthorized)));
}

#[test]
fn handlers_accept_matching_pin() {
    let mut gate = AuthGate::new();
    gate.configure(Some("1234".to_string()));
    let store = store_one_conversation();
    let header = "1234".to_string();

    assert!(handle_manifest(&store, &gate, Some(&header)).is_ok());
    let request = PullRequest { known_items: Vec::new() };
    assert!(handle_pull(&store, &gate, Some(&header), &request).is_ok());
    let payload = PushRequest { conversations: Vec::new(), projects: Vec::new() };
    assert!(handle_push(&gate, Some(&header), payload).is_ok());
}

#[test]
fn status_reports_counts_and_pin_presence() {
    let mut store = SyncData::new();
    store.replace(
        vec![record("c1", "2024-01-01T00:00:00Z", 0), record("c2", "2024-01-02T00:00:00Z", 0)],
        vec![record("p1", "2024-01-03T00:00:00Z", 0)],
    );
    let gate = AuthGate::new();
    let status = handle_status(&store, &gate);
    assert_eq!(status.version, 1);
    assert_eq!(status.server_name, "Private Chat Hub Desktop");
    assert_eq!(status.conversation_count, 2);
    assert_eq!(status.project_count, 1);
    assert!(!status.has_pin);

    let mut gate = AuthGate::new();
    gate.configure(Some("1234".to_string()));
    let status = handle_status(&store, &gate);
    assert!(status.has_pin);
}

#[test]
fn status_needs_no_authentication() {
    let mut gate = AuthGate::new();
    gate.configure(Some("1234".to_string()));
    let store = SyncData::new();
    // No header is involved at all: the status handler takes none.
    let status = handle_status(&store, &gate);
    assert_eq!(status.conversation_count, 0);
}

#[test]
fn replace_swaps_both_collections_wholesale() {
    let mut store = SyncData::new();
    store.replace(vec![record("a", "2024-01-01T00:00:00Z", 0)], Vec::new());
    store.replace(Vec::new(), vec![record("p", "2024-01-01T00:00:00Z", 0)]);
    assert_eq!(store.conversations.len(), 0);
    assert_eq!(store.projects.len(), 1);
    assert_eq!(store.projects[0].id, "p");
}

#[test]
fn snapshot_is_an_independent_copy() {
    let mut store = store_one_conversation();
    let snapshot = store.snapshot();
    store.replace(Vec::new(), Vec::new());
    assert_eq!(snapshot.conversations.len(), 1);
    assert_eq!(snapshot.conversations[0].id, "a");
    assert_eq!(store.conversations.len(), 0);
}
