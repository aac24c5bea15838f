use todo_live::sessions::ClientSessions;

#[test]
fn counts_connects_then_disconnects() {
    let mut s = ClientSessions::new();
    let ids = ["ws_client_1", "ws_client_2", "ws_client_3", "ws_client_4", "ws_client_5"];
    for (k, id) in ids.iter().enumerate() {
        assert_eq!(s.add_client(id), k + 1);
    }
    assert_eq!(s.remove_client("ws_client_2"), 4);
    assert_eq!(s.remove_client("ws_client_5"), 3);
    assert_eq!(s.count(), 3);
}

#[test]
fn duplicate_add_is_idempotent() {
    let mut s = ClientSessions::new();
    assert_eq!(s.add_client("ws_client_9"), 1);
    assert_eq!(s.add_client("ws_client_9"), 1);
    assert_eq!(s.count(), 1);
}

#[test]
fn removing_absent_id_keeps_count() {
    let mut s = ClientSessions::new();
    assert_eq!(s.remove_client("ws_client_1"), 0);
    s.add_client("ws_client_1");
    assert_eq!(s.remove_client("ws_client_2"), 1);
    assert_eq!(s.remove_client("ws_client_1"), 0);
    assert_eq!(s.remove_client("ws_client_1"), 0);
}

#[test]
fn clear_resets_to_zero() {
    let mut s = ClientSessions::new();
    s.add_client("a");
    s.add_client("b");
    assert_eq!(s.debug_clear(), 0);
    assert_eq!(s.count(), 0);
    assert!(s.snapshot().is_empty());
}

#[test]
fn snapshot_lists_each_id_once() {
    let mut s = ClientSessions::new();
    s.add_client("a");
    s.add_client("b");
    s.add_client("a");
    let mut snap = s.snapshot();
    snap.sort();
    assert_eq!(snap, vec!["a".to_string(), "b".to_string()]);
}

#[test]
fn contains_tracks_membership() {
    let mut s = ClientSessions::default();
    assert!(!s.contains("ws_client_1"));
    s.add_client("ws_client_1");
    assert!(s.contains("ws_client_1"));
    assert!(!s.contains("ws_client_10"));
    s.remove_client("ws_client_1");
    assert!(!s.contains("ws_client_1"));
}
