//! The message vocabulary: updates carried by the broadcast bus, the messages
//! sent to one browser, and the messages a browser sends.
use vstd::prelude::*;
use vstd::string::StringExecFns;
use crate::json::{
    append_count, append_int, int_member, int_text, json_int_member, json_quoted,
    json_text_member, nat_text, opt_text, quote, text_member,
};

verus! {

/// The kinds of update that travel over the broadcast bus.
#[derive(Clone, Copy, PartialEq, Eq, Debug, Structural)]
pub enum UpdateKind {
    Add,
    Update,
    Delete,
    EditUpdate,
    UserCount,
}

/// The wire name of a kind, as a quoted JSON string.
pub open spec fn kind_json(k: UpdateKind) -> Seq<char> {
    match k {
        UpdateKind::Add => "\"add\""@,
        UpdateKind::Update => "\"update\""@,
        UpdateKind::Delete => "\"delete\""@,
        UpdateKind::EditUpdate => "\"edit_update\""@,
        UpdateKind::UserCount => "\"user_count\""@,
    }
}

impl UpdateKind {
    /// The wire name of the kind, as a quoted JSON string.
    pub fn json_name(&self) -> (r: &'static str)
        ensures
            r@ == kind_json(*self),
    {
        match self {
            UpdateKind::Add => "\"add\"",
            UpdateKind::Update => "\"update\"",
            UpdateKind::Delete => "\"delete\"",
            UpdateKind::EditUpdate => "\"edit_update\"",
            UpdateKind::UserCount => "\"user_count\"",
        }
    }
}

/// One broadcast update. Fields that do not belong to the kind are `None`.
#[derive(Clone, Debug)]
pub struct TodoUpdate {
    pub event: UpdateKind,
    pub todo_id: Option<i64>,
    pub source_id: Option<String>,
    pub content: Option<String>,
    pub connected_users: Option<usize>,
}

/// The mathematical value of a [`TodoUpdate`].
pub struct UpdateView {
    pub event: UpdateKind,
    pub todo_id: Option<i64>,
    pub source_id: Option<Seq<char>>,
    pub content: Option<Seq<char>>,
    pub connected_users: Option<usize>,
}

impl View for TodoUpdate {
    type V = UpdateView;

    open spec fn view(&self) -> UpdateView {
        UpdateView {
            event: self.event,
            todo_id: self.todo_id,
            source_id: opt_text(self.source_id),
            content: opt_text(self.content),
            connected_users: self.connected_users,
        }
    }
}

/// An optional integer as JSON: its decimal notation, or `null`.
pub open spec fn opt_int_json(o: Option<int>) -> Seq<char> {
    match o {
        Some(n) => int_text(n),
        None => "null"@,
    }
}

/// An optional text as JSON: a string literal, or `null`.
pub open spec fn opt_text_json(o: Option<Seq<char>>) -> Seq<char> {
    match o {
        Some(s) => json_quoted(s),
        None => "null"@,
    }
}

/// The JSON object for an update: every field, in declaration order, with
/// `null` for the absent ones.
pub open spec fn update_json(u: UpdateView) -> Seq<char> {
    "{\"event\":"@ + kind_json(u.event)
        + ",\"todo_id\":"@ + opt_int_json(
        match u.todo_id {
            Some(n) => Some(n as int),
            None => None,
        },
    ) + ",\"source_id\":"@ + opt_text_json(u.source_id)
        + ",\"content\":"@ + opt_text_json(u.content)
        + ",\"connected_users\":"@ + opt_int_json(
        match u.connected_users {
            Some(n) => Some(n as int),
            None => None,
        },
    ) + "}"@
}

fn append_opt_text(out: &mut String, o: &Option<String>)
    ensures
        final(out)@ == old(out)@ + opt_text_json(opt_text(*o)),
{
    match o {
        Some(s) => {
            let q = quote(s.as_str());
            out.append(q.as_str());
        },
        None => {
            out.append("null");
        },
    }
}

impl TodoUpdate {
    /// The presence announcement: `connected_users` open connections.
    pub fn user_count(connected_users: usize) -> (r: TodoUpdate)
        ensures
            r@ == (UpdateView {
                event: UpdateKind::UserCount,
                todo_id: None,
                source_id: None,
                content: None,
                connected_users: Some(connected_users),
            }),
    {
        TodoUpdate {
            event: UpdateKind::UserCount,
            todo_id: None,
            source_id: None,
            content: None,
            connected_users: Some(connected_users),
        }
    }

    /// An item change of kind `event` (add, update or delete) made by
    /// `source_id`, with the new text where the kind carries one.
    pub fn item_change(event: UpdateKind, todo_id: i64, source_id: String, content: Option<String>) -> (r: TodoUpdate)
        ensures
            r@ == (UpdateView {
                event,
                todo_id: Some(todo_id),
                source_id: Some(source_id@),
                content: opt_text(content),
                connected_users: None,
            }),
    {
        TodoUpdate { event, todo_id: Some(todo_id), source_id: Some(source_id), content, connected_users: None }
    }

    /// The JSON text of the update.
    pub fn to_json(&self) -> (r: String)
        ensures
            r@ == update_json(self@),
    {
        let mut out = String::from_str("{\"event\":");
        out.append(self.event.json_name());
        out.append(",\"todo_id\":");
        match self.todo_id {
            Some(n) => append_int(&mut out, n),
            None => out.append("null"),
        }
        out.append(",\"source_id\":");
        append_opt_text(&mut out, &self.source_id);
        out.append(",\"content\":");
        append_opt_text(&mut out, &self.content);
        out.append(",\"connected_users\":");
        match self.connected_users {
            Some(n) => append_count(&mut out, n),
            None => out.append("null"),
        }
        out.append("}");
        assert(out@ =~= update_json(self@));
        out
    }
}

/// A transient copy of a stored item, as sent in a snapshot.
#[derive(Clone, Debug)]
pub struct Item {
    pub id: i64,
    pub title: String,
}

/// The JSON object for one item.
pub open spec fn item_json(id: i64, title: Seq<char>) -> Seq<char> {
    "{\"id\":"@ + int_text(id as int) + ",\"title\":"@ + json_quoted(title) + "}"@
}

/// The items' JSON objects, separated by commas.
pub open spec fn items_json(items: Seq<Item>) -> Seq<char>
    decreases items.len(),
{
    if items.len() == 0 {
        Seq::empty()
    } else if items.len() == 1 {
        item_json(items[0].id, items[0].title@)
    } else {
        items_json(items.drop_last()) + ","@ + item_json(items.last().id, items.last().title@)
    }
}

/// The snapshot sent to a browser when it connects: the items and the
/// presence count, keys in alphabetical order.
pub open spec fn init_json(items: Seq<Item>, connected_users: usize) -> Seq<char> {
    "{\"connected_users\":"@ + nat_text(connected_users as nat) + ",\"event\":\"init\",\"todos\":["@
        + items_json(items) + "]}"@
}

/// The acknowledgment of a saved edit, keys in alphabetical order.
pub open spec fn edit_saved_json(todo_id: i64) -> Seq<char> {
    "{\"event\":\"edit_saved\",\"success\":true,\"todo_id\":"@ + int_text(todo_id as int) + "}"@
}

/// The snapshot message for `items` and `connected_users` open connections.
pub fn init_message(items: &Vec<Item>, connected_users: usize) -> (r: String)
    ensures
        r@ == init_json(items@, connected_users),
{
    let mut out = String::from_str("{\"connected_users\":");
    append_count(&mut out, connected_users);
    out.append(",\"event\":\"init\",\"todos\":[");
    let ghost start = out@;
    let mut i: usize = 0;
    while i < items.len()
        invariant
            i <= items@.len(),
            out@ == start + items_json(items@.subrange(0, i as int)),
        decreases items@.len() - i,
    {
        let ghost before = out@;
        if i > 0 {
            out.append(",");
        }
        out.append("{\"id\":");
        append_int(&mut out, items[i].id);
        out.append(",\"title\":");
        let q = quote(items[i].title.as_str());
        out.append(q.as_str());
        out.append("}");
        proof {
            let next = items@.subrange(0, i + 1);
            assert(next.drop_last() =~= items@.subrange(0, i as int));
            assert(next.last() == items@[i as int]);
            if i == 0 {
                assert(next.len() == 1);
                assert(next[0] == items@[0]);
            }
            assert(out@ =~= start + items_json(next));
        }
        i = i + 1;
    }
    out.append("]}");
    assert(items@.subrange(0, items@.len() as int) =~= items@);
    assert(out@ =~= init_json(items@, connected_users));
    out
}

/// The acknowledgment sent to the browser whose edit of `todo_id` was saved.
pub fn edit_saved_message(todo_id: i64) -> (r: String)
    ensures
        r@ == edit_saved_json(todo_id),
{
    let mut out = String::from_str("{\"event\":\"edit_saved\",\"success\":true,\"todo_id\":");
    append_int(&mut out, todo_id);
    out.append("}");
    assert(out@ =~= edit_saved_json(todo_id));
    out
}

/// An item edit sent by a browser: the item, its new text, and the sender's
/// identity if it named one.
#[derive(Clone, Debug)]
pub struct Edit {
    pub todo_id: i64,
    pub content: String,
    pub client_id: Option<String>,
}

/// A message from a browser, decoded. Anything not recognised is `Ignored`.
#[derive(Clone, Debug)]
pub enum ClientMessage {
    /// A keystroke-level edit in progress: relayed, never stored.
    EditUpdate(Edit),
    /// A finished edit: stored, then acknowledged and relayed.
    SaveEdit(Edit),
    Ignored,
}

/// The mathematical value of a decoded browser message.
pub enum MessageView {
    EditUpdate { todo_id: i64, content: Seq<char>, client_id: Option<Seq<char>> },
    SaveEdit { todo_id: i64, content: Seq<char>, client_id: Option<Seq<char>> },
    Ignored,
}

impl View for ClientMessage {
    type V = MessageView;

    open spec fn view(&self) -> MessageView {
        match self {
            ClientMessage::EditUpdate(e) => MessageView::EditUpdate {
                todo_id: e.todo_id,
                content: e.content@,
                client_id: opt_text(e.client_id),
            },
            ClientMessage::SaveEdit(e) => MessageView::SaveEdit {
                todo_id: e.todo_id,
                content: e.content@,
                client_id: opt_text(e.client_id),
            },
            ClientMessage::Ignored => MessageView::Ignored,
        }
    }
}

/// The message that the members `event`, `todo_id`, `content` and
/// `client_id` make: an edit kind needs its name and both the item and the
/// text; anything else is ignored.
pub open spec fn classify(
    event: Option<Seq<char>>,
    todo_id: Option<i64>,
    content: Option<Seq<char>>,
    client_id: Option<Seq<char>>,
) -> MessageView {
    if todo_id is Some && content is Some && event == Some("edit_update"@) {
        MessageView::EditUpdate { todo_id: todo_id->0, content: content->0, client_id }
    } else if todo_id is Some && content is Some && event == Some("save_edit"@) {
        MessageView::SaveEdit { todo_id: todo_id->0, content: content->0, client_id }
    } else {
        MessageView::Ignored
    }
}

/// What the browser message `text` decodes to.
pub open spec fn decoded(text: Seq<char>) -> MessageView {
    classify(
        json_text_member(text, "event"@),
        json_int_member(text, "todo_id"@),
        json_text_member(text, "content"@),
        json_text_member(text, "client_id"@),
    )
}

/// Builds the message from the members read out of a browser's JSON text.
pub fn classify_fields(
    event: Option<String>,
    todo_id: Option<i64>,
    content: Option<String>,
    client_id: Option<String>,
) -> (r: ClientMessage)
    ensures
        r@ == classify(opt_text(event), todo_id, opt_text(content), opt_text(client_id)),
{
    match (event, todo_id, content) {
        (Some(e), Some(id), Some(c)) => {
            let edit = Edit { todo_id: id, content: c, client_id };
            if e.eq(&String::from_str("edit_update")) {
                ClientMessage::EditUpdate(edit)
            } else if e.eq(&String::from_str("save_edit")) {
                ClientMessage::SaveEdit(edit)
            } else {
                ClientMessage::Ignored
            }
        },
        _ => ClientMessage::Ignored,
    }
}

/// Decodes the text frame a browser sent.
pub fn decode_client_message(text: &str) -> (r: ClientMessage)
    ensures
        r@ == decoded(text@),
{
    let event = text_member(text, "event");
    let todo_id = int_member(text, "todo_id");
    let content = text_member(text, "content");
    let client_id = text_member(text, "client_id");
    classify_fields(event, todo_id, content, client_id)
}

} // verus!
