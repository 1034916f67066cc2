//! Tool allowlists for the agent proxies.

use crate::text::str_eq;
use vstd::prelude::*;
use vstd::string::*;

verus! {

/// JSON-RPC error code for role/policy denials (`tools/call` exists; params invalid).
/// Do **not** use `-32601` (Method not found) — strict clients may disable all tools.
pub const ACL_DENY_JSONRPC_CODE: i64 = -32602;

/// Tools only the Storyteller proxy may call.
pub open spec fn host_only(name: Seq<char>) -> bool {
    name == "create_game"@ || name == "start_game"@ || name == "get_host_state"@ || name
        == "host_decide"@ || name == "host_queue_lie"@ || name == "skip_night_action"@ || name
        == "open_nominations"@ || name == "close_vote"@ || name == "end_nominations"@ || name
        == "st_announce"@
}

/// Tools nobody should call through an agent proxy (the table is already there).
pub open spec fn denied_to_all(name: Seq<char>) -> bool {
    name == "create_game"@
}

/// The tool is available to a proxy of this role.
pub open spec fn allowed(name: Seq<char>, is_host: bool) -> bool {
    !denied_to_all(name) && (is_host || !host_only(name))
}

/// Whether only the Storyteller proxy may call the tool.
pub fn is_host_only(name: &str) -> (b: bool)
    ensures
        b == host_only(name@),
{
    str_eq(name, "create_game") || str_eq(name, "start_game") || str_eq(name, "get_host_state")
        || str_eq(name, "host_decide") || str_eq(name, "host_queue_lie") || str_eq(
        name,
        "skip_night_action",
    ) || str_eq(name, "open_nominations") || str_eq(name, "close_vote") || str_eq(
        name,
        "end_nominations",
    ) || str_eq(name, "st_announce")
}

/// Whether `name` is available to a host (`is_host`) or player proxy.
pub fn tool_allowed(name: &str, is_host: bool) -> (b: bool)
    ensures
        b == allowed(name@, is_host),
{
    if str_eq(name, "create_game") {
        return false;
    }
    if !is_host && is_host_only(name) {
        return false;
    }
    true
}

/// A player may call nothing that the host may not.
pub proof fn players_have_fewer_tools(name: Seq<char>)
    requires
        allowed(name, false),
    ensures
        allowed(name, true),
{
}

} // verus!
