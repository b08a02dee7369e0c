//! The work that a database's serving task does for each queued action.

use vstd::prelude::*;
use crate::db::{Database, Value, ValueView, lookup, opt_view};

verus! {

/// What a queued action asks of the database.
pub enum ActionType {
    Get,
    Insert(Value),
    Delete,
    Update(Value),
}

/// An action on the value of one key.
pub struct Action {
    pub key: Vec<u8>,
    pub action_type: ActionType,
}

/// The contents after an action and the reply it owes, if any: reads,
/// deletions and updates reply with the value the key had; insertions do
/// not reply.
pub open spec fn action_step(
    contents: Map<Seq<u8>, ValueView>,
    key: Seq<u8>,
    action_type: ActionType,
) -> (Map<Seq<u8>, ValueView>, Option<Option<ValueView>>) {
    match action_type {
        ActionType::Get => (contents, Some(lookup(contents, key))),
        ActionType::Insert(v) => (contents.insert(key, v@), None),
        ActionType::Delete => (contents.remove(key), Some(lookup(contents, key))),
        ActionType::Update(v) => (contents.insert(key, v@), Some(lookup(contents, key))),
    }
}

/// The view of a reply.
pub open spec fn reply_view(r: Option<Option<Value>>) -> Option<Option<ValueView>> {
    match r {
        Some(o) => Some(opt_view(o)),
        None => None,
    }
}

impl Action {
    /// Performs the action on `database` and gives the reply it owes, if any.
    pub fn apply<D: Database>(self, database: &mut D) -> (r: Option<Option<Value>>)
        ensures
            final(database).contents() == action_step(old(database).contents(), self.key@, self.action_type).0,
            reply_view(r) == action_step(old(database).contents(), self.key@, self.action_type).1,
    {
        let Action { key, action_type } = self;
        match action_type {
            ActionType::Get => Some(database.get(key.as_slice())),
            ActionType::Insert(value) => {
                database.insert(key, value);
                None
            },
            ActionType::Delete => Some(database.delete(key.as_slice())),
            ActionType::Update(value) => Some(database.update(key, value)),
        }
    }
}

} // verus!

verus! {

/// A `Get` leaves the contents as they are and replies with the key's value.
pub proof fn law_get_action(contents: Map<Seq<u8>, ValueView>, key: Seq<u8>)
    ensures
        action_step(contents, key, ActionType::Get).0 == contents,
        action_step(contents, key, ActionType::Get).1 == Some(lookup(contents, key)),
{
}

/// An `Insert` maps the key to the value, whether or not the key was
/// there, leaves every other key alone, and does not reply.
pub proof fn law_insert_action(contents: Map<Seq<u8>, ValueView>, key: Seq<u8>, v: Value)
    ensures
        action_step(contents, key, ActionType::Insert(v)).0.contains_key(key),
        action_step(contents, key, ActionType::Insert(v)).0[key] == v@,
        action_step(contents, key, ActionType::Insert(v)).0.remove(key) == contents.remove(key),
        action_step(contents, key, ActionType::Insert(v)).1 is None,
{
    assert(action_step(contents, key, ActionType::Insert(v)).0.remove(key) =~= contents.remove(key));
}

/// An `Update` maps the key to the value, leaves every other key alone,
/// and replies with the value the key had.
pub proof fn law_update_action(contents: Map<Seq<u8>, ValueView>, key: Seq<u8>, v: Value)
    ensures
        action_step(contents, key, ActionType::Update(v)).0.contains_key(key),
        action_step(contents, key, ActionType::Update(v)).0[key] == v@,
        action_step(contents, key, ActionType::Update(v)).0.remove(key) == contents.remove(key),
        action_step(contents, key, ActionType::Update(v)).1 == Some(lookup(contents, key)),
{
    assert(action_step(contents, key, ActionType::Update(v)).0.remove(key) =~= contents.remove(key));
}

/// A `Delete` removes the key, leaves every other key alone, and replies
/// with the value the key had.
pub proof fn law_delete_action(contents: Map<Seq<u8>, ValueView>, key: Seq<u8>)
    ensures
        !action_step(contents, key, ActionType::Delete).0.contains_key(key),
        action_step(contents, key, ActionType::Delete).0.remove(key) == contents.remove(key),
        action_step(contents, key, ActionType::Delete).1 == Some(lookup(contents, key)),
{
    assert(action_step(contents, key, ActionType::Delete).0.remove(key) =~= contents.remove(key));
}

/// A `Get` after an `Insert` replies with the inserted value.
pub proof fn law_get_after_insert_action(contents: Map<Seq<u8>, ValueView>, key: Seq<u8>, v: Value)
    ensures
        action_step(action_step(contents, key, ActionType::Insert(v)).0, key, ActionType::Get).1 == Some(Some(v@)),
{
}

} // verus!
