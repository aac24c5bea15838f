use todo_live::connection::{
    client_id, connection_id, get_client_id, new_connection_id, Action, Connection, Event, Frame,
    HubEvent, Phase,
};
use todo_live::protocol::{Item, TodoUpdate, UpdateKind};
use todo_live::routes::{todo_added, todo_changed, FrameHeaders};
use todo_live::sessions::ClientSessions;
use todo_live::store::{StoreError, TodoStore};

fn opened(id: &str, count: usize) -> Connection {
    let mut c = Connection::new(id.to_string());
    c.step(Event::Opened { connected_users: count, items: None });
    c
}

fn texts(actions: &[Action]) -> Vec<String> {
    actions
        .iter()
        .map(|a| match a {
            Action::Publish(u) => format!("publish {}", u.to_json()),
            Action::Forward(t) => format!("forward {}", t),
            Action::Reply(t) => format!("reply {}", t),
            Action::Store { todo_id, content } => format!("store {} {}", todo_id, content),
            Action::Deregister => "deregister".to_string(),
        })
        .collect()
}

#[test]
fn ids_have_their_prefixes() {
    assert_eq!(connection_id(42), "ws_client_42");
    assert_eq!(client_id(0), "client_0");
    assert!(new_connection_id().starts_with("ws_client_"));
    assert_eq!(get_client_id(Some("client_9".to_string())), ("client_9".to_string(), false));
    let (fresh, is_new) = get_client_id(None);
    assert!(is_new);
    assert!(fresh.starts_with("client_"));
    assert!(fresh["client_".len()..].parse::<u64>().is_ok());
}

#[test]
fn opening_announces_and_sends_snapshot() {
    let mut c = Connection::new("ws_client_1".to_string());
    assert_eq!(c.phase(), Phase::Connecting);
    let items = vec![Item { id: 4, title: "tea".to_string() }];
    let acts = c.step(Event::Opened { connected_users: 2, items: Some(items) });
    assert_eq!(c.phase(), Phase::Active);
    assert_eq!(
        texts(&acts),
        vec![
            r#"publish {"event":"user_count","todo_id":null,"source_id":null,"content":null,"connected_users":2}"#.to_string(),
            r#"reply {"connected_users":2,"event":"init","todos":[{"id":4,"title":"tea"}]}"#.to_string(),
        ]
    );
}

#[test]
fn opening_without_snapshot_only_announces() {
    let mut c = Connection::new("ws_client_1".to_string());
    let acts = c.step(Event::Opened { connected_users: 1, items: None });
    assert_eq!(acts.len(), 1);
    assert!(matches!(&acts[0], Action::Publish(u) if u.connected_users == Some(1)));
}

#[test]
fn hub_messages_forwarded_in_order_once_each() {
    let mut c = opened("ws_client_1", 1);
    let msgs: Vec<TodoUpdate> = (0..5).map(|i| TodoUpdate::user_count(i)).collect();
    let mut out = Vec::new();
    for m in &msgs {
        out.extend(c.step(Event::Hub(HubEvent::Message(m.clone()))));
    }
    let expected: Vec<String> = msgs.iter().map(|m| format!("forward {}", m.to_json())).collect();
    assert_eq!(texts(&out), expected);
    assert_eq!(c.phase(), Phase::Active);
}

#[test]
fn lag_skips_then_resumes() {
    let mut c = opened("ws_client_1", 1);
    assert!(c.step(Event::Hub(HubEvent::Lagged(1030))).is_empty());
    assert_eq!(c.phase(), Phase::Active);
    let acts = c.step(Event::Hub(HubEvent::Message(TodoUpdate::user_count(3))));
    assert_eq!(acts.len(), 1);
    assert!(matches!(&acts[0], Action::Forward(_)));
}

#[test]
fn forward_failure_closes_and_deregisters() {
    let mut c = opened("ws_client_1", 1);
    let acts = c.step(Event::ForwardFailed);
    assert_eq!(texts(&acts), vec!["deregister".to_string()]);
    assert_eq!(c.phase(), Phase::Closing);
    assert!(c.step(Event::Hub(HubEvent::Message(TodoUpdate::user_count(3)))).is_empty());
    let acts = c.step(Event::Deregistered(0));
    assert_eq!(c.phase(), Phase::Closed);
    assert!(matches!(&acts[0], Action::Publish(u) if u.connected_users == Some(0)));
}

#[test]
fn bus_shutdown_and_stream_end_close() {
    let mut c = opened("ws_client_1", 1);
    assert_eq!(texts(&c.step(Event::Hub(HubEvent::Closed))), vec!["deregister".to_string()]);
    let mut d = opened("ws_client_2", 1);
    assert_eq!(texts(&d.step(Event::Client(Frame::Ended))), vec!["deregister".to_string()]);
    let mut e = opened("ws_client_3", 1);
    assert!(e.step(Event::Client(Frame::Other)).is_empty());
    assert_eq!(texts(&e.step(Event::Client(Frame::Close))), vec!["deregister".to_string()]);
}

#[test]
fn save_edit_stores_acknowledges_and_publishes() {
    let mut store = TodoStore::new();
    let id = store.create_item("bread".to_string()).unwrap();
    let mut c = opened("ws_client_1", 1);
    let text = format!(r#"{{"event":"save_edit","todo_id":{},"content":"milk","client_id":"client_8"}}"#, id);
    let acts = c.step(Event::Client(Frame::Text(text)));
    assert_eq!(acts.len(), 1);
    let ok = match &acts[0] {
        Action::Store { todo_id, content } => store.update_item(*todo_id, content.clone()).is_ok(),
        _ => panic!("expected a store write"),
    };
    assert!(ok);
    assert_eq!(store.get_item(id).unwrap().title, "milk");
    let acts = c.step(Event::Stored(ok));
    assert_eq!(
        texts(&acts),
        vec![
            format!(r#"reply {{"event":"edit_saved","success":true,"todo_id":{}}}"#, id),
            format!(
                r#"publish {{"event":"update","todo_id":{},"source_id":"client_8","content":"milk","connected_users":null}}"#,
                id
            ),
        ]
    );
}

#[test]
fn save_edit_of_unknown_item_changes_nothing() {
    let mut store = TodoStore::new();
    store.create_item("bread".to_string()).unwrap();
    let before: Vec<(i64, String)> = store.list_items().into_iter().map(|i| (i.id, i.title)).collect();
    let mut c = opened("ws_client_1", 1);
    let acts = c.step(Event::Client(Frame::Text(r#"{"event":"save_edit","todo_id":99,"content":"x"}"#.to_string())));
    let ok = match &acts[0] {
        Action::Store { todo_id, content } => store.update_item(*todo_id, content.clone()).is_ok(),
        _ => panic!("expected a store write"),
    };
    assert!(!ok);
    assert!(c.step(Event::Stored(ok)).is_empty());
    let after: Vec<(i64, String)> = store.list_items().into_iter().map(|i| (i.id, i.title)).collect();
    assert_eq!(before, after);
}

#[test]
fn edit_updates_are_published_never_stored() {
    let mut c = opened("ws_client_1", 1);
    for k in 0..3 {
        let acts = c.step(Event::Client(Frame::Text(format!(
            r#"{{"event":"edit_update","todo_id":5,"content":"draft {}"}}"#,
            k
        ))));
        assert_eq!(
            texts(&acts),
            vec![format!(
                r#"publish {{"event":"edit_update","todo_id":5,"source_id":"ws_client_1","content":"draft {}","connected_users":null}}"#,
                k
            )]
        );
    }
    assert!(c.step(Event::Stored(true)).is_empty());
}

#[test]
fn two_clients_scenario() {
    let mut registry = ClientSessions::new();
    let mut store = TodoStore::new();
    for _ in 0..6 {
        store.create_item("x".to_string()).unwrap();
    }
    assert_eq!(store.create_item("eggs".to_string()), Ok(7));
    let mut bus: Vec<TodoUpdate> = Vec::new();
    let mut a = Connection::new("ws_client_a".to_string());
    let mut b = Connection::new("ws_client_b".to_string());

    let n = registry.add_client(a.id());
    assert_eq!(n, 1);
    for act in a.step(Event::Opened { connected_users: n, items: Some(store.list_items()) }) {
        if let Action::Publish(u) = act {
            bus.push(u);
        }
    }
    bus.clear();

    let n = registry.add_client(b.id());
    assert_eq!(n, 2);
    for act in b.step(Event::Opened { connected_users: n, items: None }) {
        if let Action::Publish(u) = act {
            bus.push(u);
        }
    }
    let to_a = a.step(Event::Hub(HubEvent::Message(bus.remove(0))));
    assert_eq!(
        texts(&to_a),
        vec![r#"forward {"event":"user_count","todo_id":null,"source_id":null,"content":null,"connected_users":2}"#.to_string()]
    );

    let acts = a.step(Event::Client(Frame::Text(
        r#"{"event":"save_edit","todo_id":7,"content":"milk","client_id":"client_A"}"#.to_string(),
    )));
    let ok = match &acts[0] {
        Action::Store { todo_id, content } => store.update_item(*todo_id, content.clone()).is_ok(),
        _ => panic!("expected a store write"),
    };
    for act in a.step(Event::Stored(ok)) {
        if let Action::Publish(u) = act {
            bus.push(u);
        }
    }
    assert_eq!(bus.len(), 1);
    let to_b = b.step(Event::Hub(HubEvent::Message(bus.remove(0))));
    assert_eq!(
        texts(&to_b),
        vec![r#"forward {"event":"update","todo_id":7,"source_id":"client_A","content":"milk","connected_users":null}"#.to_string()]
    );

    assert_eq!(texts(&a.step(Event::Client(Frame::Close))), vec!["deregister".to_string()]);
    let n = registry.remove_client(a.id());
    assert_eq!(n, 1);
    for act in a.step(Event::Deregistered(n)) {
        if let Action::Publish(u) = act {
            bus.push(u);
        }
    }
    assert_eq!(a.phase(), Phase::Closed);
    let to_b = b.step(Event::Hub(HubEvent::Message(bus.remove(0))));
    assert_eq!(
        texts(&to_b),
        vec![r#"forward {"event":"user_count","todo_id":null,"source_id":null,"content":null,"connected_users":1}"#.to_string()]
    );
}

#[test]
fn store_operations() {
    let mut s = TodoStore::new();
    assert_eq!(s.create_item("a".to_string()), Ok(1));
    assert_eq!(s.create_item("b".to_string()), Ok(2));
    assert_eq!(s.get_item(3).map(|i| i.title), Err(StoreError::NotFound));
    assert_eq!(s.update_item(3, "c".to_string()), Err(StoreError::NotFound));
    assert_eq!(s.delete_item(1), Ok(()));
    assert_eq!(s.delete_item(1), Err(StoreError::NotFound));
    assert_eq!(s.create_item("c".to_string()), Ok(3));
    let all: Vec<(i64, String)> = s.list_items().into_iter().map(|i| (i.id, i.title)).collect();
    assert_eq!(all, vec![(2, "b".to_string()), (3, "c".to_string())]);
}

#[test]
fn route_outcomes() {
    let (text, u) = todo_added(Ok(12), "client_1".to_string());
    assert_eq!(text, "12");
    assert_eq!(
        u.unwrap().to_json(),
        r#"{"event":"add","todo_id":12,"source_id":"client_1","content":null,"connected_users":null}"#
    );
    let (text, u) = todo_added(Err(StoreError::Exhausted), "client_1".to_string());
    assert_eq!(text, "Error adding todo");
    assert!(u.is_none());
    let u = todo_changed(Ok(()), UpdateKind::Delete, 4, "client_2".to_string()).unwrap();
    assert_eq!(u.event, UpdateKind::Delete);
    assert_eq!(u.todo_id, Some(4));
    assert!(todo_changed(Err(StoreError::NotFound), UpdateKind::Update, 4, "c".to_string()).is_none());
}

#[test]
fn frame_headers() {
    let h = FrameHeaders;
    assert_eq!(h.removed_header(), "X-Frame-Options");
    let (name, value) = h.policy_header();
    assert_eq!(name, "Content-Security-Policy");
    assert!(value.starts_with("frame-ancestors 'self'"));
}

#[test]
fn create_hands_out_consecutive_ids() {
    let mut s = TodoStore::new();
    for k in 1..=4 {
        assert_eq!(s.create_item(format!("item {}", k)), Ok(k));
    }
    assert_eq!(s.get_item(3).map(|i| i.title), Ok("item 3".to_string()));
}
