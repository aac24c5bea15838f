//! The per-connection state machine. The task that owns a live connection
//! feeds it events (the connection opened, a bus message, a browser frame,
//! the outcome of a store write) and carries out the actions it returns.
use vstd::prelude::*;
use vstd::string::StringExecFns;
use crate::json::{append_nat, nat_text};
use crate::protocol::{
    decode_client_message, decoded, edit_saved_json, edit_saved_message, init_json,
    init_message, update_json, ClientMessage, Item, MessageView, TodoUpdate, UpdateKind,
    UpdateView,
};

verus! {

/// The text of the connection identifier drawn as `n`.
pub open spec fn connection_id_text(n: u64) -> Seq<char> {
    "ws_client_"@ + nat_text(n as nat)
}

/// The text of the browser identity drawn as `n`.
pub open spec fn client_id_text(n: u64) -> Seq<char> {
    "client_"@ + nat_text(n as nat)
}

/// Relies on rand::random for a `u64`; nothing is known of the value.
#[verifier::external_body]
fn random_u64() -> u64 {
    rand::random::<u64>()
}

/// The connection identifier for the number `n`.
pub fn connection_id(n: u64) -> (r: String)
    ensures
        r@ == connection_id_text(n),
{
    let mut out = String::from_str("ws_client_");
    append_nat(&mut out, n);
    out
}

/// The browser identity for the number `n`.
pub fn client_id(n: u64) -> (r: String)
    ensures
        r@ == client_id_text(n),
{
    let mut out = String::from_str("client_");
    append_nat(&mut out, n);
    out
}

/// A fresh connection identifier, drawn at random.
pub fn new_connection_id() -> (r: String)
    ensures
        exists|n: u64| r@ == connection_id_text(n),
{
    connection_id(random_u64())
}

/// The browser identity to use: the one it already holds, or a fresh one.
/// The flag is true when the identity is fresh and must be handed out.
pub fn get_client_id(existing: Option<String>) -> (r: (String, bool))
    ensures
        match existing {
            Some(v) => r.0@ == v@ && !r.1,
            None => r.1 && exists|n: u64| r.0@ == client_id_text(n),
        },
{
    match existing {
        Some(v) => (v, false),
        None => (client_id(random_u64()), true),
    }
}

/// Where a connection stands in its life.
#[derive(Clone, Copy, PartialEq, Eq, Debug, Structural)]
pub enum Phase {
    Connecting,
    Active,
    Closing,
    Closed,
}

/// A save that was handed to the store and awaits its outcome.
#[derive(Clone, Debug)]
pub struct PendingEdit {
    pub todo_id: i64,
    pub content: String,
    pub source_id: String,
}

/// One live connection's state.
pub struct Connection {
    id: String,
    phase: Phase,
    pending: Option<PendingEdit>,
}

/// The mathematical value of a [`Connection`]; a pending save is
/// (item, text, source).
pub struct ConnView {
    pub id: Seq<char>,
    pub phase: Phase,
    pub pending: Option<(i64, Seq<char>, Seq<char>)>,
}

impl View for Connection {
    type V = ConnView;

    closed spec fn view(&self) -> ConnView {
        ConnView {
            id: self.id@,
            phase: self.phase,
            pending: match self.pending {
                Some(p) => Some((p.todo_id, p.content@, p.source_id@)),
                None => None,
            },
        }
    }
}

/// What the broadcast bus hands a subscriber.
#[derive(Clone, Debug)]
pub enum HubEvent {
    /// The next update, in publication order.
    Message(TodoUpdate),
    /// The subscriber fell behind; this many of the oldest unread updates
    /// were dropped for it.
    Lagged(u64),
    /// The bus has shut down.
    Closed,
}

/// What the browser's transport yields.
#[derive(Clone, Debug)]
pub enum Frame {
    Text(String),
    Close,
    /// The stream ended or failed.
    Ended,
    /// Any other frame (binary, ping, pong).
    Other,
}

/// An input to the state machine.
#[derive(Clone, Debug)]
pub enum Event {
    /// The connection was registered, leaving `connected_users` open
    /// connections, and the store's items were read (`None`: the read failed).
    Opened { connected_users: usize, items: Option<Vec<Item>> },
    Hub(HubEvent),
    Client(Frame),
    /// Forwarding a bus message to the browser failed.
    ForwardFailed,
    /// The outcome of the pending store write.
    Stored(bool),
    /// The connection was deregistered, leaving `connected_users` open.
    Deregistered(usize),
}

/// An output of the state machine, for the owning task to carry out.
#[derive(Clone, Debug)]
pub enum Action {
    /// Publish on the broadcast bus.
    Publish(TodoUpdate),
    /// Send bus traffic to the browser; report `ForwardFailed` if that fails.
    Forward(String),
    /// Send a direct reply to the browser; a failure is ignored.
    Reply(String),
    /// Write the item's new text to the store; report the outcome as `Stored`.
    Store { todo_id: i64, content: String },
    /// Remove the connection from the registry; report the count as
    /// `Deregistered`.
    Deregister,
}

/// The mathematical value of a [`HubEvent`].
pub enum HubView {
    Message(UpdateView),
    Lagged(u64),
    Closed,
}

/// The mathematical value of a [`Frame`].
pub enum FrameView {
    Text(Seq<char>),
    Close,
    Ended,
    Other,
}

/// The mathematical value of an [`Event`].
pub enum EventView {
    Opened { connected_users: usize, items: Option<Seq<Item>> },
    Hub(HubView),
    Client(FrameView),
    ForwardFailed,
    Stored(bool),
    Deregistered(usize),
}

/// The mathematical value of an [`Action`].
pub enum ActionView {
    Publish(UpdateView),
    Forward(Seq<char>),
    Reply(Seq<char>),
    Store { todo_id: i64, content: Seq<char> },
    Deregister,
}

impl View for Event {
    type V = EventView;

    open spec fn view(&self) -> EventView {
        match self {
            Event::Opened { connected_users, items } => EventView::Opened {
                connected_users: *connected_users,
                items: match items {
                    Some(v) => Some(v@),
                    None => None,
                },
            },
            Event::Hub(h) => EventView::Hub(
                match h {
                    HubEvent::Message(u) => HubView::Message(u@),
                    HubEvent::Lagged(n) => HubView::Lagged(*n),
                    HubEvent::Closed => HubView::Closed,
                },
            ),
            Event::Client(f) => EventView::Client(
                match f {
                    Frame::Text(t) => FrameView::Text(t@),
                    Frame::Close => FrameView::Close,
                    Frame::Ended => FrameView::Ended,
                    Frame::Other => FrameView::Other,
                },
            ),
            Event::ForwardFailed => EventView::ForwardFailed,
            Event::Stored(ok) => EventView::Stored(*ok),
            Event::Deregistered(n) => EventView::Deregistered(*n),
        }
    }
}

impl View for Action {
    type V = ActionView;

    open spec fn view(&self) -> ActionView {
        match self {
            Action::Publish(u) => ActionView::Publish(u@),
            Action::Forward(t) => ActionView::Forward(t@),
            Action::Reply(t) => ActionView::Reply(t@),
            Action::Store { todo_id, content } => ActionView::Store { todo_id: *todo_id, content: content@ },
            Action::Deregister => ActionView::Deregister,
        }
    }
}

/// The views of a list of actions.
pub open spec fn actions_view(a: Seq<Action>) -> Seq<ActionView> {
    a.map_values(|x: Action| x@)
}

/// The presence announcement for `n` open connections.
pub open spec fn user_count_view(n: usize) -> UpdateView {
    UpdateView {
        event: UpdateKind::UserCount,
        todo_id: None,
        source_id: None,
        content: None,
        connected_users: Some(n),
    }
}

/// An item update of `kind` by `source`.
pub open spec fn change_view(kind: UpdateKind, todo_id: i64, source: Seq<char>, content: Seq<char>) -> UpdateView {
    UpdateView {
        event: kind,
        todo_id: Some(todo_id),
        source_id: Some(source),
        content: Some(content),
        connected_users: None,
    }
}

/// The identity an edit is attributed to: the one the browser named, else
/// the connection's own.
pub open spec fn source_of(client_id: Option<Seq<char>>, own: Seq<char>) -> Seq<char> {
    match client_id {
        Some(s) => s,
        None => own,
    }
}

/// The connection `c` moved to phase `p`.
pub open spec fn with_phase(c: ConnView, p: Phase) -> ConnView {
    ConnView { phase: p, ..c }
}

/// The connection `c` with pending save `p`.
pub open spec fn with_pending(c: ConnView, p: Option<(i64, Seq<char>, Seq<char>)>) -> ConnView {
    ConnView { pending: p, ..c }
}

/// One transition: the next state and the actions, in order.
pub open spec fn step_spec(c: ConnView, e: EventView) -> (ConnView, Seq<ActionView>) {
    match c.phase {
        Phase::Connecting => match e {
            EventView::Opened { connected_users, items } => (
                with_phase(c, Phase::Active),
                match items {
                    Some(s) => seq![
                        ActionView::Publish(user_count_view(connected_users)),
                        ActionView::Reply(init_json(s, connected_users)),
                    ],
                    None => seq![ActionView::Publish(user_count_view(connected_users))],
                },
            ),
            _ => (c, Seq::empty()),
        },
        Phase::Active => match e {
            EventView::Hub(HubView::Message(u)) => (c, seq![ActionView::Forward(update_json(u))]),
            EventView::Hub(HubView::Lagged(_)) => (c, Seq::empty()),
            EventView::Hub(HubView::Closed) => (with_phase(c, Phase::Closing), seq![ActionView::Deregister]),
            EventView::Client(FrameView::Text(t)) => match decoded(t) {
                MessageView::EditUpdate { todo_id, content, client_id } => (
                    c,
                    seq![ActionView::Publish(change_view(UpdateKind::EditUpdate, todo_id, source_of(client_id, c.id), content))],
                ),
                MessageView::SaveEdit { todo_id, content, client_id } => (
                    with_pending(c, Some((todo_id, content, source_of(client_id, c.id)))),
                    seq![ActionView::Store { todo_id, content }],
                ),
                MessageView::Ignored => (c, Seq::empty()),
            },
            EventView::Client(FrameView::Close) => (with_phase(c, Phase::Closing), seq![ActionView::Deregister]),
            EventView::Client(FrameView::Ended) => (with_phase(c, Phase::Closing), seq![ActionView::Deregister]),
            EventView::Client(FrameView::Other) => (c, Seq::empty()),
            EventView::ForwardFailed => (with_phase(c, Phase::Closing), seq![ActionView::Deregister]),
            EventView::Stored(ok) => match c.pending {
                Some(p) => (
                    with_pending(c, None),
                    if ok {
                        seq![
                            ActionView::Reply(edit_saved_json(p.0)),
                            ActionView::Publish(change_view(UpdateKind::Update, p.0, p.2, p.1)),
                        ]
                    } else {
                        Seq::empty()
                    },
                ),
                None => (c, Seq::empty()),
            },
            _ => (c, Seq::empty()),
        },
        Phase::Closing => match e {
            EventView::Deregistered(n) => (
                with_phase(c, Phase::Closed),
                seq![ActionView::Publish(user_count_view(n))],
            ),
            _ => (c, Seq::empty()),
        },
        Phase::Closed => (c, Seq::empty()),
    }
}

/// The state and the actions, in order, after the events `evs` from `c`.
pub open spec fn run(c: ConnView, evs: Seq<EventView>) -> (ConnView, Seq<ActionView>)
    decreases evs.len(),
{
    if evs.len() == 0 {
        (c, Seq::empty())
    } else {
        let prev = run(c, evs.drop_last());
        let next = step_spec(prev.0, evs.last());
        (next.0, prev.1 + next.1)
    }
}

/// The bus delivering each of `msgs`, in order.
pub open spec fn deliveries(msgs: Seq<UpdateView>) -> Seq<EventView> {
    msgs.map_values(|m: UpdateView| EventView::Hub(HubView::Message(m)))
}

/// Each of `msgs`, in order, forwarded to the browser.
pub open spec fn forwards(msgs: Seq<UpdateView>) -> Seq<ActionView> {
    msgs.map_values(|m: UpdateView| ActionView::Forward(update_json(m)))
}

/// The browser sending each of `texts`, in order.
pub open spec fn text_frames(texts: Seq<Seq<char>>) -> Seq<EventView> {
    texts.map_values(|t: Seq<char>| EventView::Client(FrameView::Text(t)))
}

/// Running two batches of events one after the other is running them joined.
pub proof fn lemma_run_append(c: ConnView, a: Seq<EventView>, b: Seq<EventView>)
    ensures
        run(c, a + b) == (run(run(c, a).0, b).0, run(c, a).1 + run(run(c, a).0, b).1),
    decreases b.len(),
{
    if b.len() == 0 {
        assert(a + b =~= a);
        assert(run(c, a).1 + Seq::<ActionView>::empty() =~= run(c, a).1);
    } else {
        assert((a + b).drop_last() =~= a + b.drop_last());
        assert((a + b).last() == b.last());
        lemma_run_append(c, a, b.drop_last());
        let mid = run(run(c, a).0, b.drop_last());
        let next = step_spec(mid.0, b.last());
        assert(run(c, a).1 + mid.1 + next.1 =~= run(c, a).1 + (mid.1 + next.1));
    }
}

/// Running a single event is taking one step.
proof fn lemma_run_one(c: ConnView, e: EventView)
    ensures
        run(c, seq![e]) == step_spec(c, e),
{
    let evs = seq![e];
    assert(evs.drop_last() =~= Seq::<EventView>::empty());
    assert(run(c, evs.drop_last()) == (c, Seq::<ActionView>::empty()));
    assert(Seq::<ActionView>::empty() + step_spec(c, e).1 =~= step_spec(c, e).1);
}

/// Running two events is taking two steps.
proof fn lemma_run_two(c: ConnView, e1: EventView, e2: EventView)
    ensures
        run(c, seq![e1, e2]) == (
            step_spec(step_spec(c, e1).0, e2).0,
            step_spec(c, e1).1 + step_spec(step_spec(c, e1).0, e2).1,
        ),
{
    let evs = seq![e1, e2];
    assert(evs.drop_last() =~= seq![e1]);
    lemma_run_one(c, e1);
}

/// Relay: while the connection is active, every update the bus delivers is
/// forwarded to the browser exactly once, in the order delivered, and the
/// connection stays as it was.
pub proof fn lemma_relay_in_order(c: ConnView, msgs: Seq<UpdateView>)
    requires
        c.phase == Phase::Active,
    ensures
        run(c, deliveries(msgs)) == (c, forwards(msgs)),
    decreases msgs.len(),
{
    if msgs.len() == 0 {
        assert(forwards(msgs) =~= Seq::<ActionView>::empty());
    } else {
        assert(deliveries(msgs).drop_last() =~= deliveries(msgs.drop_last()));
        lemma_relay_in_order(c, msgs.drop_last());
        assert(forwards(msgs) =~= forwards(msgs.drop_last()) + seq![ActionView::Forward(update_json(msgs.last()))]);
    }
}

/// Lag: when the bus reports that updates were dropped for a lagging
/// subscriber, the connection stays active and goes on forwarding every
/// later update; the only updates missing are the dropped ones.
pub proof fn lemma_lag_then_resume(c: ConnView, before: Seq<UpdateView>, dropped: u64, after: Seq<UpdateView>)
    requires
        c.phase == Phase::Active,
    ensures
        run(c, deliveries(before) + seq![EventView::Hub(HubView::Lagged(dropped))] + deliveries(after))
            == (c, forwards(before) + forwards(after)),
{
    let lag = seq![EventView::Hub(HubView::Lagged(dropped))];
    lemma_relay_in_order(c, before);
    lemma_relay_in_order(c, after);
    lemma_run_append(c, deliveries(before), lag);
    lemma_run_one(c, EventView::Hub(HubView::Lagged(dropped)));
    assert(forwards(before) + Seq::<ActionView>::empty() =~= forwards(before));
    lemma_run_append(c, deliveries(before) + lag, deliveries(after));
}

/// A successful save: an active connection with no save outstanding that
/// receives a `save_edit` hands exactly that write to the store, and once the
/// store confirms it sends one acknowledgment to its own browser and
/// publishes one `update` with the new text; nothing else happens.
pub proof fn lemma_save_edit_confirmed(
    c: ConnView,
    text: Seq<char>,
    todo_id: i64,
    content: Seq<char>,
    client_id: Option<Seq<char>>,
)
    requires
        c.phase == Phase::Active,
        c.pending is None,
        decoded(text) == (MessageView::SaveEdit { todo_id, content, client_id }),
    ensures
        run(c, seq![EventView::Client(FrameView::Text(text)), EventView::Stored(true)]) == (
            c,
            seq![
                ActionView::Store { todo_id, content },
                ActionView::Reply(edit_saved_json(todo_id)),
                ActionView::Publish(change_view(UpdateKind::Update, todo_id, source_of(client_id, c.id), content)),
            ],
        ),
{
    let e1 = EventView::Client(FrameView::Text(text));
    let e2 = EventView::Stored(true);
    lemma_run_two(c, e1, e2);
    assert(step_spec(c, e1).1 + step_spec(step_spec(c, e1).0, e2).1 =~= seq![
        ActionView::Store { todo_id, content },
        ActionView::Reply(edit_saved_json(todo_id)),
        ActionView::Publish(change_view(UpdateKind::Update, todo_id, source_of(client_id, c.id), content)),
    ]);
}

/// A refused save: when the store refuses the write (an unknown item), the
/// connection sends no acknowledgment and publishes nothing.
pub proof fn lemma_save_edit_refused(
    c: ConnView,
    text: Seq<char>,
    todo_id: i64,
    content: Seq<char>,
    client_id: Option<Seq<char>>,
)
    requires
        c.phase == Phase::Active,
        c.pending is None,
        decoded(text) == (MessageView::SaveEdit { todo_id, content, client_id }),
    ensures
        run(c, seq![EventView::Client(FrameView::Text(text)), EventView::Stored(false)])
            == (c, seq![ActionView::Store { todo_id, content }]),
{
    let e1 = EventView::Client(FrameView::Text(text));
    let e2 = EventView::Stored(false);
    lemma_run_two(c, e1, e2);
    assert(step_spec(c, e1).1 + step_spec(step_spec(c, e1).0, e2).1 =~= seq![
        ActionView::Store { todo_id, content },
    ]);
}

/// Live edits are never stored: however many `edit_update` messages an
/// active connection receives, it asks the store for nothing and its state
/// does not change; each is published once.
pub proof fn lemma_live_edits_not_stored(c: ConnView, texts: Seq<Seq<char>>)
    requires
        c.phase == Phase::Active,
        forall|i: int| 0 <= i < texts.len() ==> decoded(#[trigger] texts[i]) is EditUpdate,
    ensures
        run(c, text_frames(texts)).0 == c,
        run(c, text_frames(texts)).1.len() == texts.len(),
        forall|i: int| 0 <= i < texts.len() ==> #[trigger] run(c, text_frames(texts)).1[i] is Publish,
    decreases texts.len(),
{
    if texts.len() > 0 {
        let init = texts.drop_last();
        assert forall|i: int| 0 <= i < init.len() implies decoded(#[trigger] init[i]) is EditUpdate by {
            assert(init[i] == texts[i]);
        }
        assert(text_frames(texts).drop_last() =~= text_frames(init));
        lemma_live_edits_not_stored(c, init);
        assert(decoded(texts[texts.len() - 1]) is EditUpdate);
        let prev = run(c, text_frames(init));
        let r = run(c, text_frames(texts));
        assert forall|i: int| 0 <= i < texts.len() implies #[trigger] r.1[i] is Publish by {
            if i < init.len() {
                assert(r.1[i] == prev.1[i]);
            }
        }
    }
}

impl Connection {
    /// A connection that has not yet been registered.
    pub fn new(id: String) -> (r: Connection)
        ensures
            r@ == (ConnView { id: id@, phase: Phase::Connecting, pending: None }),
    {
        Connection { id, phase: Phase::Connecting, pending: None }
    }

    /// The connection's identifier.
    pub fn id(&self) -> (r: &str)
        ensures
            r@ == self@.id,
    {
        self.id.as_str()
    }

    /// The connection's phase.
    pub fn phase(&self) -> (r: Phase)
        ensures
            r == self@.phase,
    {
        self.phase
    }

    fn close(&mut self) -> (r: Vec<Action>)
        ensures
            final(self)@ == with_phase(old(self)@, Phase::Closing),
            actions_view(r@) == seq![ActionView::Deregister],
    {
        self.phase = Phase::Closing;
        let r = vec![Action::Deregister];
        assert(actions_view(r@) =~= seq![ActionView::Deregister]);
        r
    }

    fn on_client_text(&mut self, text: &str) -> (r: Vec<Action>)
        requires
            old(self)@.phase == Phase::Active,
        ensures
            (final(self)@, actions_view(r@)) == step_spec(old(self)@, EventView::Client(FrameView::Text(text@))),
    {
        match decode_client_message(text) {
            ClientMessage::EditUpdate(e) => {
                let source = match e.client_id {
                    Some(s) => s,
                    None => self.id.clone(),
                };
                let u = TodoUpdate::item_change(UpdateKind::EditUpdate, e.todo_id, source, Some(e.content));
                let r = vec![Action::Publish(u)];
                assert(actions_view(r@) =~= step_spec(old(self)@, EventView::Client(FrameView::Text(text@))).1);
                r
            },
            ClientMessage::SaveEdit(e) => {
                let source = match e.client_id {
                    Some(s) => s,
                    None => self.id.clone(),
                };
                let content = e.content.clone();
                self.pending = Some(PendingEdit { todo_id: e.todo_id, content: e.content, source_id: source });
                let r = vec![Action::Store { todo_id: e.todo_id, content }];
                assert(actions_view(r@) =~= step_spec(old(self)@, EventView::Client(FrameView::Text(text@))).1);
                r
            },
            ClientMessage::Ignored => {
                let r: Vec<Action> = Vec::new();
                assert(actions_view(r@) =~= Seq::<ActionView>::empty());
                r
            },
        }
    }

    fn on_stored(&mut self, ok: bool) -> (r: Vec<Action>)
        requires
            old(self)@.phase == Phase::Active,
        ensures
            (final(self)@, actions_view(r@)) == step_spec(old(self)@, EventView::Stored(ok)),
    {
        let pending = self.pending.take();
        match pending {
            Some(p) => {
                if ok {
                    let ack = edit_saved_message(p.todo_id);
                    let u = TodoUpdate::item_change(UpdateKind::Update, p.todo_id, p.source_id, Some(p.content));
                    let r = vec![Action::Reply(ack), Action::Publish(u)];
                    assert(actions_view(r@) =~= step_spec(old(self)@, EventView::Stored(ok)).1);
                    r
                } else {
                    let r: Vec<Action> = Vec::new();
                    assert(actions_view(r@) =~= Seq::<ActionView>::empty());
                    r
                }
            },
            None => {
                let r: Vec<Action> = Vec::new();
                assert(actions_view(r@) =~= Seq::<ActionView>::empty());
                r
            },
        }
    }

    /// Takes one event and returns the actions to carry out, in order.
    pub fn step(&mut self, event: Event) -> (r: Vec<Action>)
        ensures
            (final(self)@, actions_view(r@)) == step_spec(old(self)@, event@),
    {
        let ghost e = event@;
        let none: Vec<Action> = Vec::new();
        assert(actions_view(none@) =~= Seq::<ActionView>::empty());
        match self.phase {
            Phase::Connecting => match event {
                Event::Opened { connected_users, items } => {
                    self.phase = Phase::Active;
                    let mut r = vec![Action::Publish(TodoUpdate::user_count(connected_users))];
                    match items {
                        Some(v) => {
                            r.push(Action::Reply(init_message(&v, connected_users)));
                        },
                        None => {},
                    }
                    assert(actions_view(r@) =~= step_spec(old(self)@, e).1);
                    r
                },
                _ => none,
            },
            Phase::Active => match event {
                Event::Hub(HubEvent::Message(u)) => {
                    let r = vec![Action::Forward(u.to_json())];
                    assert(actions_view(r@) =~= step_spec(old(self)@, e).1);
                    r
                },
                Event::Hub(HubEvent::Lagged(_)) => none,
                Event::Hub(HubEvent::Closed) => self.close(),
                Event::Client(Frame::Text(t)) => self.on_client_text(t.as_str()),
                Event::Client(Frame::Close) => self.close(),
                Event::Client(Frame::Ended) => self.close(),
                Event::Client(Frame::Other) => none,
                Event::ForwardFailed => self.close(),
                Event::Stored(ok) => self.on_stored(ok),
                _ => none,
            },
            Phase::Closing => match event {
                Event::Deregistered(n) => {
                    self.phase = Phase::Closed;
                    let r = vec![Action::Publish(TodoUpdate::user_count(n))];
                    assert(actions_view(r@) =~= step_spec(old(self)@, e).1);
                    r
                },
                _ => none,
            },
            Phase::Closed => none,
        }
    }
}

} // verus!
