//! Decisions of the HTTP side: what a request answers and what it publishes
//! once the store has done its part, and the headers every response gets.
use vstd::prelude::*;
use vstd::string::StringExecFns;
use crate::json::{append_int, int_text};
use crate::protocol::{TodoUpdate, UpdateKind, UpdateView};
use crate::store::StoreError;

verus! {

/// The update published after an item change of `kind` by `source`.
pub open spec fn change_notice(kind: UpdateKind, todo_id: i64, source: Seq<char>) -> UpdateView {
    UpdateView {
        event: kind,
        todo_id: Some(todo_id),
        source_id: Some(source),
        content: None,
        connected_users: None,
    }
}

/// The answer to an item creation, and the update to publish: the new
/// identifier and an `add` update on success, an error text and nothing on
/// failure.
pub fn todo_added(result: Result<i64, StoreError>, client_id: String) -> (r: (String, Option<TodoUpdate>))
    ensures
        match result {
            Ok(id) => r.0@ == int_text(id as int) && (r.1 matches Some(u) && u@ == change_notice(
                UpdateKind::Add,
                id,
                client_id@,
            )),
            Err(_) => r.0@ == "Error adding todo"@ && r.1 is None,
        },
{
    match result {
        Ok(id) => {
            let mut text = String::new();
            append_int(&mut text, id);
            assert(text@ =~= int_text(id as int));
            (text, Some(TodoUpdate::item_change(UpdateKind::Add, id, client_id, None)))
        },
        Err(_) => (String::from_str("Error adding todo"), None),
    }
}

/// The update to publish after an item change of `kind` (update or delete):
/// one on success, none on failure.
pub fn todo_changed(result: Result<(), StoreError>, kind: UpdateKind, todo_id: i64, client_id: String) -> (r: Option<TodoUpdate>)
    ensures
        match result {
            Ok(()) => r matches Some(u) && u@ == change_notice(kind, todo_id, client_id@),
            Err(_) => r is None,
        },
{
    match result {
        Ok(()) => Some(TodoUpdate::item_change(kind, todo_id, client_id, None)),
        Err(_) => None,
    }
}

/// The response rewrite that lets pages be embedded in frames.
pub struct FrameHeaders;

impl FrameHeaders {
    /// The header removed from every response.
    pub fn removed_header(&self) -> (r: &'static str)
        ensures
            r@ == "X-Frame-Options"@,
    {
        "X-Frame-Options"
    }

    /// The header set on every response: its name and value.
    pub fn policy_header(&self) -> (r: (&'static str, &'static str))
        ensures
            r.0@ == "Content-Security-Policy"@,
            r.1@ == "frame-ancestors 'self' https://*.warpcast.com https://*.farcaster.xyz https://*.fcast.me https://*.farcaster.network https://*.neynar.com *;"@,
    {
        (
            "Content-Security-Policy",
            "frame-ancestors 'self' https://*.warpcast.com https://*.farcaster.xyz https://*.fcast.me https://*.farcaster.network https://*.neynar.com *;",
        )
    }
}

} // verus!
