//! Token-scoped MCP proxy: binds a single host/player token and forwards tools to the shared
//! engine.

use crate::harness::proxy_acl::{allowed, tool_allowed, ACL_DENY_JSONRPC_CODE};
use crate::json::{
    fields_view, first_of_longer, first_under, items_view, json_text, meaning, object_view, parse, parse_outcome,
    print, Fields, Json, JsonView,
};
use crate::mcp_server::args::{RpcError, RpcErrorView};
use crate::mcp_server::{
    descriptor, field_or, is_known_tool, list_tool_names, method_of, names_a_tool, outcome_of,
    parse_error_reply, reply_of, response, response_json, tool_descriptor, tool_names, Reply,
    SERVER_VERSION,
};
use crate::text::str_eq;
use vstd::prelude::*;
use vstd::string::*;

verus! {

// ---------------------------------------------------------------------------
// Credentials
// ---------------------------------------------------------------------------

/// Fields under any other key.
pub open spec fn fields_but(fields: Seq<(Seq<char>, JsonView)>, key: Seq<char>) -> Seq<
    (Seq<char>, JsonView),
>
    decreases fields.len(),
{
    if fields.len() == 0 {
        seq![]
    } else {
        let front = fields_but(fields.drop_last(), key);
        if fields.last().0 == key { front } else { front.push(fields.last()) }
    }
}

/// The fields with this value under the key.
pub open spec fn with_field(
    fields: Seq<(Seq<char>, JsonView)>,
    key: Seq<char>,
    value: JsonView,
) -> Seq<(Seq<char>, JsonView)> {
    fields_but(fields, key).push((key, value))
}

/// The fields of the arguments; anything but an object has none.
pub open spec fn fields_in(args: JsonView) -> Seq<(Seq<char>, JsonView)> {
    match args {
        JsonView::Obj(fields) => fields,
        _ => seq![],
    }
}

/// The arguments with the credentials of the proxy in place of whatever the agent sent.
pub open spec fn authorized(
    args: JsonView,
    token: Seq<char>,
    game_id: Option<u64>,
    is_host: bool,
) -> JsonView {
    let own = if is_host { "host_token"@ } else { "player_token"@ };
    let others = if is_host { "player_token"@ } else { "host_token"@ };
    let signed = with_field(
        with_field(fields_in(args), "token"@, JsonView::Str(token)),
        own,
        JsonView::Str(token),
    );
    let scoped = fields_but(signed, others);
    JsonView::Obj(
        match game_id {
            Some(id) => with_field(scoped, "game_id"@, JsonView::Int(id as int)),
            None => scoped,
        },
    )
}

/// Drop the fields under a key.
#[verifier::loop_isolation(false)]
fn drop_field(fields: Vec<(String, Json)>, key: &str) -> (out: Vec<(String, Json)>)
    ensures
        fields_view(out@) == fields_but(fields_view(fields@), key@),
{
    let ghost all = fields_view(fields@);
    let mut out: Vec<(String, Json)> = Vec::new();
    let mut i: usize = 0;
    assert(fields_view(out@) =~= fields_but(all.take(0), key@));
    while i < fields.len()
        invariant
            i <= fields@.len(),
            fields_view(out@) == fields_but(all.take(i as int), key@),
        decreases fields@.len() - i,
    {
        let ghost before = out@;
        assert(all.take(i + 1).drop_last() =~= all.take(i as int));
        assert(all[i as int] == (fields@[i as int].0@, meaning(fields@[i as int].1)));
        if !str_eq(fields[i].0.as_str(), key) {
            out.push((fields[i].0.clone(), fields[i].1.clone()));
            assert(fields_view(out@) =~= fields_view(before).push(all[i as int]));
        }
        i += 1;
    }
    assert(all.take(i as int) =~= all);
    out
}

fn set_field(fields: Vec<(String, Json)>, key: &str, value: Json) -> (out: Vec<(String, Json)>)
    ensures
        fields_view(out@) == with_field(fields_view(fields@), key@, value@),
{
    let mut out = drop_field(fields, key);
    let ghost before = out@;
    out.push((key.to_owned(), value));
    assert(fields_view(out@) =~= fields_view(before).push((key@, value@)));
    out
}

/// Put the credentials of the proxy in place of whatever the agent sent.
pub fn inject_auth(args: &Json, token: &str, game_id: Option<u64>, is_host: bool) -> (j: Json)
    ensures
        j@ == authorized(args@, token@, game_id, is_host),
{
    let fields: Vec<(String, Json)> = match args.clone() {
        Json::Obj(fields) => {
            proof {
                object_view(fields);
            }
            fields
        },
        _ => Vec::new(),
    };
    assert(fields_view(fields@) =~= fields_in(args@));
    let own = if is_host { "host_token" } else { "player_token" };
    let others = if is_host { "player_token" } else { "host_token" };
    let fields = set_field(fields, "token", Json::text(token));
    let fields = set_field(fields, own, Json::text(token));
    let fields = drop_field(fields, others);
    let fields = match game_id {
        Some(id) => set_field(fields, "game_id", Json::Uint(id)),
        None => fields,
    };
    proof {
        object_view(fields);
    }
    Json::Obj(fields)
}

// ---------------------------------------------------------------------------
// Requests
// ---------------------------------------------------------------------------

/// Protocol version for a client that names none.
pub const FALLBACK_PROTOCOL: &'static str = "2024-11-05";

/// The answer to `initialize`: the protocol version is the client's own, because newer clients
/// reject a server that unilaterally downgrades.
pub open spec fn greeting(params: JsonView) -> JsonView {
    JsonView::object().with(
        "protocolVersion"@,
        JsonView::Str(
            match params.text_at("protocolVersion"@) {
                Some(v) => v,
                None => FALLBACK_PROTOCOL@,
            },
        ),
    ).with("capabilities"@, JsonView::object().with("tools"@, JsonView::object())).with(
        "serverInfo"@,
        JsonView::object().with("name"@, JsonView::Str("botc-agent-mcp"@)).with(
            "version"@,
            JsonView::Str(SERVER_VERSION@),
        ),
    )
}

fn greeting_json(params: &Json) -> (j: Json)
    ensures
        j@ == greeting(params@),
{
    let version = match params.str_at("protocolVersion") {
        Some(v) => v,
        None => FALLBACK_PROTOCOL,
    };
    Fields::new().put("protocolVersion", Json::text(version)).put(
        "capabilities",
        Fields::new().put("tools", Fields::new().done()).done(),
    ).put(
        "serverInfo",
        Fields::new().put("name", Json::text("botc-agent-mcp")).put(
            "version",
            Json::text(SERVER_VERSION),
        ).done(),
    ).done()
}

/// Listing entries of the tools that a role may call.
pub open spec fn role_listing(names: Seq<&'static str>, is_host: bool) -> Seq<JsonView>
    decreases names.len(),
{
    if names.len() == 0 {
        seq![]
    } else {
        let front = role_listing(names.drop_last(), is_host);
        if allowed(names.last()@, is_host) {
            front.push(descriptor(names.last()@))
        } else {
            front
        }
    }
}

#[verifier::loop_isolation(false)]
fn list_for_role(is_host: bool) -> (v: Vec<Json>)
    ensures
        items_view(v@) == role_listing(tool_names(), is_host),
{
    let names = list_tool_names();
    let mut v: Vec<Json> = Vec::new();
    let mut i: usize = 0;
    assert(items_view(v@) =~= role_listing(names@.take(0), is_host));
    while i < names.len()
        invariant
            i <= names@.len(),
            items_view(v@) == role_listing(names@.take(i as int), is_host),
        decreases names@.len() - i,
    {
        let ghost before = v@;
        assert(names@.take(i + 1).drop_last() =~= names@.take(i as int));
        if tool_allowed(names[i], is_host) {
            v.push(tool_descriptor(names[i]));
            assert(items_view(v@) =~= items_view(before).push(descriptor(names@[i as int]@)));
        }
        i += 1;
    }
    assert(names@.take(i as int) =~= names@);
    v
}

/// The refusal of a tool that the role may not call. It is `Invalid params`, not `Method not
/// found`, which would let a strict client conclude that `tools/call` itself is unsupported.
pub open spec fn denial(name: Seq<char>) -> RpcErrorView {
    RpcErrorView {
        code: ACL_DENY_JSONRPC_CODE,
        message: "tool not available for this agent role: "@ + name,
    }
}

fn deny(name: &str) -> (e: RpcError)
    ensures
        e@ == denial(name@),
{
    let mut message = "tool not available for this agent role: ".to_owned();
    message.append(name);
    RpcError { code: ACL_DENY_JSONRPC_CODE, message }
}

/// What the proxy does with a method.
pub enum ProxyCallView {
    /// Answer by itself.
    Answer(Reply),
    /// Call the tool on the shared engine.
    Forward { name: Seq<char>, arguments: JsonView },
}

/// What the proxy does with a method: it answers the protocol itself, and forwards exactly the
/// tools that its role may call, under its own credentials. Namespaced methods and unknown names
/// are answered locally, never forwarded.
pub open spec fn proxied(
    token: Seq<char>,
    game_id: Option<u64>,
    is_host: bool,
    method: Seq<char>,
    params: JsonView,
) -> ProxyCallView {
    if method == "initialize"@ {
        ProxyCallView::Answer(Ok(greeting(params)))
    } else if method == "notifications/initialized"@ || method == "initialized"@ {
        ProxyCallView::Answer(Ok(JsonView::Null))
    } else if method == "ping"@ {
        ProxyCallView::Answer(Ok(JsonView::object()))
    } else if method == "tools/list"@ {
        ProxyCallView::Answer(
            Ok(
                JsonView::object().with(
                    "tools"@,
                    JsonView::Arr(role_listing(tool_names(), is_host)),
                ),
            ),
        )
    } else if method == "tools/call"@ {
        match params.text_at("name"@) {
            None => ProxyCallView::Answer(
                Err(RpcErrorView { code: -32602i64, message: "tools/call requires name"@ }),
            ),
            Some(name) => if !allowed(name, is_host) {
                ProxyCallView::Answer(Err(denial(name)))
            } else {
                ProxyCallView::Forward {
                    name,
                    arguments: authorized(
                        field_or(params, "arguments"@, JsonView::object()),
                        token,
                        game_id,
                        is_host,
                    ),
                }
            },
        }
    } else if !names_a_tool(method) {
        ProxyCallView::Answer(
            Err(RpcErrorView { code: -32601i64, message: "method not found: "@ + method }),
        )
    } else if !allowed(method, is_host) {
        ProxyCallView::Answer(Err(denial(method)))
    } else {
        ProxyCallView::Forward {
            name: method,
            arguments: authorized(params, token, game_id, is_host),
        }
    }
}

/// What the proxy does with a line.
pub enum ProxyStep {
    /// Nothing: the line asks for no answer.
    Silent,
    /// Send this line back.
    Answer(String),
    /// Call the tool on the shared engine and answer with [`forwarded`].
    Forward { id: Json, name: String, arguments: Json },
}

/// What the proxy does with a line.
pub enum ProxyStepView {
    Silent,
    Answer(Seq<char>),
    Forward { id: JsonView, name: Seq<char>, arguments: JsonView },
}

impl View for ProxyStep {
    type V = ProxyStepView;

    open spec fn view(&self) -> ProxyStepView {
        match *self {
            ProxyStep::Silent => ProxyStepView::Silent,
            ProxyStep::Answer(s) => ProxyStepView::Answer(s@),
            ProxyStep::Forward { id, name, arguments } => ProxyStepView::Forward {
                id: id@,
                name: name@,
                arguments: arguments@,
            },
        }
    }
}

/// What the proxy does with a request.
pub open spec fn request_step(
    token: Seq<char>,
    game_id: Option<u64>,
    is_host: bool,
    req: JsonView,
) -> ProxyStepView {
    match req.field("id"@) {
        None => ProxyStepView::Silent,
        Some(id) => {
            let params = field_or(req, "params"@, JsonView::Null);
            match proxied(token, game_id, is_host, method_of(req), params) {
                ProxyCallView::Answer(reply) => ProxyStepView::Answer(
                    json_text(response(id, reply)),
                ),
                ProxyCallView::Forward { name, arguments } => ProxyStepView::Forward {
                    id,
                    name,
                    arguments,
                },
            }
        },
    }
}

fn answer(id: Json, reply: Result<Json, RpcError>) -> (s: ProxyStep)
    ensures
        s@ == ProxyStepView::Answer(json_text(response(id@, reply_of(reply)))),
{
    ProxyStep::Answer(print(&response_json(id, reply)))
}

fn tools_reply(is_host: bool) -> (j: Json)
    ensures
        j@ == JsonView::object().with(
            "tools"@,
            JsonView::Arr(role_listing(tool_names(), is_host)),
        ),
{
    Fields::new().put("tools", Json::array(list_for_role(is_host))).done()
}

/// Decide what to do with a request.
pub fn handle_request(token: &str, fixed_game_id: Option<u64>, is_host: bool, req: &Json) -> (s:
    ProxyStep)
    ensures
        s@ == request_step(token@, fixed_game_id, is_host, req@),
{
    let id = match req.get("id") {
        Some(id) => id.clone(),
        None => return ProxyStep::Silent,
    };
    let nothing = Json::Null;
    let empty = Fields::new().done();
    let method = match req.str_at("method") {
        Some(m) => m,
        None => "",
    };
    let params = match req.get("params") {
        Some(p) => p,
        None => &nothing,
    };
    if str_eq(method, "initialize") {
        answer(id, Ok(greeting_json(params)))
    } else if str_eq(method, "notifications/initialized") || str_eq(method, "initialized") {
        answer(id, Ok(Json::Null))
    } else if str_eq(method, "ping") {
        answer(id, Ok(Fields::new().done()))
    } else if str_eq(method, "tools/list") {
        answer(id, Ok(tools_reply(is_host)))
    } else if str_eq(method, "tools/call") {
        let name = match params.str_at("name") {
            Some(n) => n,
            None => {
                let message = "tools/call requires name".to_owned();
                return answer(id, Err(RpcError { code: -32602, message }));
            },
        };
        if !tool_allowed(name, is_host) {
            return answer(id, Err(deny(name)));
        }
        let given = match params.get("arguments") {
            Some(a) => a,
            None => &empty,
        };
        let arguments = inject_auth(given, token, fixed_game_id, is_host);
        ProxyStep::Forward { id, name: name.to_owned(), arguments }
    } else if !is_known_tool(method) {
        let mut message = "method not found: ".to_owned();
        message.append(method);
        answer(id, Err(RpcError { code: -32601, message }))
    } else if !tool_allowed(method, is_host) {
        answer(id, Err(deny(method)))
    } else {
        let arguments = inject_auth(params, token, fixed_game_id, is_host);
        ProxyStep::Forward { id, name: method.to_owned(), arguments }
    }
}

/// Decide what to do with a line.
pub fn handle_line(
    token: &str,
    fixed_game_id: Option<u64>,
    is_host: bool,
    line: &str,
) -> (s: ProxyStep)
    ensures
        s@ == (match parse_outcome(line@) {
            Ok(req) => request_step(token@, fixed_game_id, is_host, req),
            Err(complaint) => ProxyStepView::Answer(json_text(parse_error_reply(complaint))),
        }),
{
    match parse(line) {
        Ok(req) => handle_request(token, fixed_game_id, is_host, &req),
        Err(complaint) => {
            let mut message = "parse error: ".to_owned();
            message.append(complaint.as_str());
            answer(Json::Null, Err(RpcError { code: -32700, message }))
        },
    }
}

/// What a forwarded call answers.
pub open spec fn forwarded_reply(outcome: Result<JsonView, Seq<char>>) -> Reply {
    match outcome {
        Ok(v) => Ok(v),
        Err(e) => Err(RpcErrorView { code: -32000i64, message: e }),
    }
}

/// The line that answers a forwarded call.
pub fn forwarded(id: Json, outcome: Result<Json, String>) -> (s: String)
    ensures
        s@ == json_text(response(id@, forwarded_reply(outcome_of(outcome)))),
{
    let reply = match outcome {
        Ok(v) => Ok(v),
        Err(message) => Err(RpcError { code: -32000, message }),
    };
    print(&response_json(id, reply))
}

// ---------------------------------------------------------------------------
// Laws
// ---------------------------------------------------------------------------

proof fn other_fields_stay(fields: Seq<(Seq<char>, JsonView)>, key: Seq<char>, other: Seq<char>)
    ensures
        first_under(fields_but(fields, key), key) is None,
        other != key ==> first_under(fields_but(fields, key), other) == first_under(fields, other),
    decreases fields.len(),
{
    if fields.len() > 0 {
        let front = fields_but(fields.drop_last(), key);
        other_fields_stay(fields.drop_last(), key, other);
        first_of_longer(fields.drop_last(), fields.last(), other);
        assert(fields.drop_last().push(fields.last()) =~= fields);
        first_of_longer(front, fields.last(), other);
        first_of_longer(front, fields.last(), key);
    }
}

proof fn set_field_is_found(
    fields: Seq<(Seq<char>, JsonView)>,
    key: Seq<char>,
    value: JsonView,
    other: Seq<char>,
)
    ensures
        first_under(with_field(fields, key, value), key) == Some(value),
        other != key ==> first_under(with_field(fields, key, value), other) == first_under(
            fields,
            other,
        ),
{
    other_fields_stay(fields, key, other);
    first_of_longer(fields_but(fields, key), (key, value), key);
    first_of_longer(fields_but(fields, key), (key, value), other);
}

/// An agent acts under its own token only: whatever it sends, the call carries the token of the
/// proxy, no token of the other role, and the fixed game. Everything else goes through as sent.
pub proof fn agents_cannot_impersonate(
    args: JsonView,
    token: Seq<char>,
    game_id: Option<u64>,
    is_host: bool,
    other: Seq<char>,
)
    ensures
        ({
            let sent = authorized(args, token, game_id, is_host);
            let own = if is_host { "host_token"@ } else { "player_token"@ };
            let others = if is_host { "player_token"@ } else { "host_token"@ };
            &&& sent.text_at("token"@) == Some(token)
            &&& sent.text_at(own) == Some(token)
            &&& sent.field(others) is None
            &&& game_id is Some ==> sent.uint_at("game_id"@) == game_id
            &&& other != "token"@ && other != "host_token"@ && other != "player_token"@ && other
                != "game_id"@ ==> sent.field(other) == first_under(fields_in(args), other)
        }),
{
    let own = if is_host { "host_token"@ } else { "player_token"@ };
    let others = if is_host { "player_token"@ } else { "host_token"@ };
    reveal_strlit("token");
    reveal_strlit("host_token");
    reveal_strlit("player_token");
    reveal_strlit("game_id");
    assert("token"@.len() == 5 && "host_token"@.len() == 10 && "player_token"@.len() == 12
        && "game_id"@.len() == 7);
    let a = fields_in(args);
    let b = with_field(a, "token"@, JsonView::Str(token));
    let c = with_field(b, own, JsonView::Str(token));
    let d = fields_but(c, others);
    set_field_is_found(a, "token"@, JsonView::Str(token), other);
    set_field_is_found(b, own, JsonView::Str(token), other);
    set_field_is_found(b, own, JsonView::Str(token), "token"@);
    other_fields_stay(c, others, other);
    other_fields_stay(c, others, own);
    other_fields_stay(c, others, "token"@);
    if let Some(id) = game_id {
        let v = JsonView::Int(id as int);
        set_field_is_found(d, "game_id"@, v, other);
        set_field_is_found(d, "game_id"@, v, own);
        set_field_is_found(d, "game_id"@, v, others);
        set_field_is_found(d, "game_id"@, v, "token"@);
    }
}

/// Only allowed tools reach the engine, and a player proxy never forwards a Storyteller tool.
pub proof fn only_allowed_tools_are_forwarded(
    token: Seq<char>,
    game_id: Option<u64>,
    is_host: bool,
    method: Seq<char>,
    params: JsonView,
)
    ensures
        proxied(token, game_id, is_host, method, params) matches ProxyCallView::Forward {
            name,
            ..
        } ==> allowed(name, is_host),
{
}

/// A refused tool is answered as invalid parameters, so no client gives up on calling tools.
pub proof fn denials_are_invalid_params(
    token: Seq<char>,
    game_id: Option<u64>,
    is_host: bool,
    params: JsonView,
    name: Seq<char>,
)
    requires
        params.text_at("name"@) == Some(name),
        !allowed(name, is_host),
    ensures
        proxied(token, game_id, is_host, "tools/call"@, params) == ProxyCallView::Answer(
            Err(denial(name)),
        ),
        denial(name).code == -32602,
{
    reveal_strlit("tools/call");
    reveal_strlit("initialize");
    reveal_strlit("notifications/initialized");
    reveal_strlit("initialized");
    reveal_strlit("ping");
    reveal_strlit("tools/list");
    assert("tools/call"@[0] == 't' && "tools/call"@.len() == 10);
    assert("tools/call"@[6] == 'c');
    assert("initialize"@[0] == 'i');
    assert("tools/list"@[6] == 'l');
    assert("initialized"@.len() == 11 && "notifications/initialized"@.len() == 25);
    assert("ping"@.len() == 4);
}

} // verus!
