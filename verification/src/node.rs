//! What the launch reads in the companion node's answers.

use vstd::prelude::*;

verus! {

/// `serde_json::Value`, in which the node's client hands over an answer,
/// carried through as an opaque value.
#[verifier::external_type_specification]
#[verifier::external_body]
pub struct ExValue(corepc_node::serde_json::Value);

/// The members of a JSON object that hold a boolean, by name. A value that
/// is no object has none.
pub uninterp spec fn bool_members(value: corepc_node::serde_json::Value) -> Map<Seq<char>, bool>;

/// The member by which the node says that it is still in its initial sync.
pub open spec fn sync_flag(info: corepc_node::serde_json::Value) -> Option<bool> {
    if bool_members(info).contains_key("initialblockdownload"@) {
        Some(bool_members(info)["initialblockdownload"@])
    } else {
        None
    }
}

/// The node says that it is still in its initial sync. A daemon stays idle
/// in front of such a node, and the node stays so until it sees a new block.
pub open spec fn in_initial_sync(info: corepc_node::serde_json::Value) -> bool {
    sync_flag(info) == Some(true)
}

/// `Value::get` with a member's name, then `Value::as_bool`: the boolean
/// that the object holds under `name`, and `None` where `value` is no
/// object, has no such member, or holds something else there.
#[verifier::external_body]
fn bool_member(value: &corepc_node::serde_json::Value, name: &str) -> (member: Option<bool>)
    ensures
        member == (if bool_members(*value).contains_key(name@) {
            Some(bool_members(*value)[name@])
        } else {
            None
        }),
{
    value.get(name).and_then(corepc_node::serde_json::Value::as_bool)
}

/// Tells whether a node that gave this sync flag has to be woken with a
/// block before the daemon is started: it has to when it said that it is in
/// its initial sync, and not when it said otherwise or nothing.
pub fn needs_block(flag: Option<bool>) -> (needed: bool)
    ensures
        needed == (flag == Some(true)),
{
    match flag {
        Some(syncing) => syncing,
        None => false,
    }
}

/// Tells whether the node that answered with `info` has to be woken with a
/// block before the daemon is started.
pub fn node_needs_block(info: &corepc_node::serde_json::Value) -> (needed: bool)
    ensures
        needed == in_initial_sync(*info),
{
    needs_block(bool_member(info, "initialblockdownload"))
}

} // verus!
