//! One engine shared by many agent proxies: requests in, responses out.
//!
//! Connections, lines and locks are the caller's; this module decides what each request does.

use crate::auth::{Actor, Token};
use crate::comms::opt_text;
use crate::game::ids::GameId;
use crate::game::seat::{find_seat, seat_of};
use crate::game::state::{Game, GameView};
use crate::harness::action_log::{ActionLog, ActionLogView};
use crate::harness::wake::{
    completes, is_directed_reply, WakeActor, WakeCoordinator, WakeView, AWAIT_SERVER_BUDGET_SECS,
};
use crate::json::{json_text, print, Fields, Json, JsonView};
use crate::mcp_server::{
    self, enveloped, invoke_named_tool, outcome_of, runs, Reply,
};
use crate::store::{GameStore, GameStoreView};
use crate::text::{dec, numbered, push_dec, str_eq};
use vstd::prelude::*;
use vstd::string::*;

verus! {

/// A request of a proxy.
#[derive(Debug)]
pub struct RpcRequest {
    pub id: u64,
    pub op: String,
    pub name: Option<String>,
    pub arguments: Json,
}

/// What a request asks.
pub struct RpcRequestView {
    pub id: u64,
    pub op: Seq<char>,
    pub name: Option<Seq<char>>,
    pub arguments: JsonView,
}

impl View for RpcRequest {
    type V = RpcRequestView;

    open spec fn view(&self) -> RpcRequestView {
        RpcRequestView {
            id: self.id,
            op: self.op@,
            name: opt_text(self.name),
            arguments: self.arguments@,
        }
    }
}

/// The response to a request.
#[derive(Debug)]
pub struct RpcResponse {
    pub id: u64,
    pub ok: bool,
    pub result: Option<Json>,
    pub error: Option<String>,
}

/// What a response says.
pub struct RpcResponseView {
    pub id: u64,
    pub ok: bool,
    pub result: Option<JsonView>,
    pub error: Option<Seq<char>>,
}

impl View for RpcResponse {
    type V = RpcResponseView;

    open spec fn view(&self) -> RpcResponseView {
        RpcResponseView {
            id: self.id,
            ok: self.ok,
            result: match self.result {
                Some(j) => Some(j@),
                None => None,
            },
            error: opt_text(self.error),
        }
    }
}

/// The response that carries an outcome.
pub open spec fn responded(id: u64, outcome: Result<JsonView, Seq<char>>) -> RpcResponseView {
    match outcome {
        Ok(v) => RpcResponseView { id, ok: true, result: Some(v), error: None },
        Err(e) => RpcResponseView { id, ok: false, result: None, error: Some(e) },
    }
}

/// The response that carries an outcome.
pub fn response_to(id: u64, outcome: Result<Json, String>) -> (r: RpcResponse)
    ensures
        r@ == responded(id, outcome_of(outcome)),
{
    match outcome {
        Ok(v) => RpcResponse { id, ok: true, result: Some(v), error: None },
        Err(e) => RpcResponse { id, ok: false, result: None, error: Some(e) },
    }
}

/// The response to a line that is no request.
pub fn bad_request(complaint: &str) -> (r: RpcResponse)
    ensures
        r@ == responded(0, Err("bad request: "@ + complaint@)),
{
    let mut e = "bad request: ".to_owned();
    e.append(complaint);
    response_to(0, Err(e))
}

// ---------------------------------------------------------------------------
// Waiting for a turn
// ---------------------------------------------------------------------------

/// An accepted `await_turn`: who waits, under which name, and for how long at most.
#[derive(Debug)]
pub struct AwaitTicket {
    pub actor: WakeActor,
    pub display_name: String,
    pub budget_secs: u64,
}

/// What an accepted `await_turn` says.
pub struct AwaitTicketView {
    pub actor: WakeActor,
    pub display_name: Seq<char>,
    pub budget_secs: u64,
}

impl View for AwaitTicket {
    type V = AwaitTicketView;

    open spec fn view(&self) -> AwaitTicketView {
        AwaitTicketView {
            actor: self.actor,
            display_name: self.display_name@,
            budget_secs: self.budget_secs,
        }
    }
}

/// The name that an actor goes by at the table.
pub open spec fn table_name(g: GameView, actor: Actor) -> Seq<char> {
    match actor {
        Actor::Host => "Host"@,
        Actor::Player { seat } => match seat_of(g.seats, seat) {
            Some(s) => s.display_name@,
            None => "P"@ + dec(seat.0 as nat),
        },
    }
}

fn name_at_table(game: &Game, actor: Actor) -> (s: String)
    ensures
        s@ == table_name(game@, actor),
{
    match actor {
        Actor::Host => "Host".to_owned(),
        Actor::Player { seat } => match find_seat(&game.seats, seat) {
            Some(i) => game.seats[i].display_name.clone(),
            None => numbered("P", seat.0 as u64),
        },
    }
}

/// How long a call may wait: what it asks for, at least a second, at most the server's budget.
pub open spec fn budget_of(args: JsonView) -> u64 {
    match args.uint_at("budget_secs"@) {
        Some(n) => if n < 1 {
            1
        } else if n > AWAIT_SERVER_BUDGET_SECS {
            AWAIT_SERVER_BUDGET_SECS
        } else {
            n
        },
        None => AWAIT_SERVER_BUDGET_SECS,
    }
}

/// Whether a call may wait, while the coordinator is bound to `bound`.
pub open spec fn await_checked(store: GameStoreView, bound: Option<u64>, args: JsonView) -> Result<
    AwaitTicketView,
    Seq<char>,
> {
    match (args.uint_at("game_id"@), args.text_at("token"@)) {
        (None, _) => Err("await_turn requires game_id"@),
        (Some(_), None) => Err("await_turn requires token"@),
        (Some(id), Some(token)) => match store.game(GameId(id)) {
            None => Err("unknown game_id "@ + dec(id as nat)),
            Some(g) => match g.tokens.actor(token) {
                None => Err("unauthorized"@),
                Some(actor) => if bound is Some && bound != Some(id) {
                    Err(
                        "await_turn game_id="@ + dec(id as nat)
                            + " does not match bound game_id="@ + dec(bound->0 as nat),
                    )
                } else {
                    Ok(
                        AwaitTicketView {
                            actor: WakeActor::of_actor(actor),
                            display_name: table_name(g, actor),
                            budget_secs: budget_of(args),
                        },
                    )
                },
            },
        },
    }
}

/// The coordinator after a call was accepted: bound to its game if it was not yet.
pub open spec fn bound_by(wake: WakeView, args: JsonView) -> WakeView {
    match wake.game_id {
        Some(_) => wake,
        None => WakeView {
            game_id: args.uint_at("game_id"@),
            next_seq: wake.next_seq,
            waiters: wake.waiters,
            ..WakeView::fresh()
        },
    }
}

/// An accepted call as it reads.
pub open spec fn ticket_of(r: Result<AwaitTicket, String>) -> Result<AwaitTicketView, Seq<char>> {
    match r {
        Ok(t) => Ok(t@),
        Err(e) => Err(e@),
    }
}

/// Check an `await_turn` and bind the coordinator to its game. A mismatched id against an
/// already-bound game must not wipe rotation/outstanding for the live table
/// (stale/hallucinated game_id).
pub fn begin_await(store: &GameStore, wake: &mut WakeCoordinator, args: &Json) -> (r: Result<
    AwaitTicket,
    String,
>)
    ensures
        ticket_of(r) == await_checked(store@, old(wake)@.game_id, args@),
        final(wake)@ == (if r is Ok {
            bound_by(old(wake)@, args@)
        } else {
            old(wake)@
        }),
{
    let game_id = match args.u64_at("game_id") {
        Some(id) => id,
        None => return Err("await_turn requires game_id".to_owned()),
    };
    let token = match args.str_at("token") {
        Some(t) => t,
        None => return Err("await_turn requires token".to_owned()),
    };
    let budget_secs = match args.u64_at("budget_secs") {
        Some(n) => if n < 1 {
            1
        } else if n > AWAIT_SERVER_BUDGET_SECS {
            AWAIT_SERVER_BUDGET_SECS
        } else {
            n
        },
        None => AWAIT_SERVER_BUDGET_SECS,
    };
    let game = match store.get(GameId(game_id)) {
        Some(g) => g,
        None => return Err(numbered("unknown game_id ", game_id)),
    };
    let actor = match game.tokens.resolve(&Token::from_shared(token)) {
        Some(a) => a,
        None => return Err("unauthorized".to_owned()),
    };
    let display_name = name_at_table(game, actor);
    match wake.game_id() {
        None => wake.set_game_id(game_id),
        Some(bound) => {
            if bound != game_id {
                let mut e = numbered("await_turn game_id=", game_id);
                e.append(" does not match bound game_id=");
                push_dec(&mut e, bound);
                return Err(e);
            }
        },
    }
    Ok(AwaitTicket { actor: WakeActor::from_auth(actor), display_name, budget_secs })
}

// ---------------------------------------------------------------------------
// Dispatch
// ---------------------------------------------------------------------------

/// What a request comes to.
pub enum Dispatch {
    /// Answer it.
    Reply(RpcResponse),
    /// Let the caller wait, then answer with [`finish_await`].
    Await(AwaitTicket),
}

/// What a request comes to.
pub enum DispatchView {
    Reply(RpcResponseView),
    Await(AwaitTicketView),
}

impl View for Dispatch {
    type V = DispatchView;

    open spec fn view(&self) -> DispatchView {
        match *self {
            Dispatch::Reply(r) => DispatchView::Reply(r@),
            Dispatch::Await(t) => DispatchView::Await(t@),
        }
    }
}

/// Who makes a call, by the token and the game it names.
pub open spec fn caller(store: GameStoreView, args: JsonView) -> Option<WakeActor> {
    match (args.text_at("token"@), args.uint_at("game_id"@)) {
        (Some(token), Some(id)) => match store.game(GameId(id)) {
            Some(g) => match g.tokens.actor(token) {
                Some(actor) => Some(WakeActor::of_actor(actor)),
                None => None,
            },
            None => None,
        },
        _ => None,
    }
}

/// The log after a call with this outcome.
pub open spec fn logged(
    log: ActionLogView,
    secs: u64,
    name: Seq<char>,
    args: JsonView,
    outcome: Result<JsonView, Seq<char>>,
) -> ActionLogView {
    log.recorded(
        secs,
        args.text_at("token"@),
        name,
        args,
        outcome is Ok,
        match outcome {
            Ok(_) => None,
            Err(e) => Some(e),
        },
        match outcome {
            Ok(v) => Some(json_text(v)),
            Err(_) => None,
        },
    )
}

/// Somebody's reply to a directed message is what the call completes.
pub open spec fn answers_directed(wake: WakeView, who: Option<WakeActor>, tool: Seq<char>) -> bool {
    who matches Some(actor) && (wake.owed(actor) matches Some(env) && completes(tool, env.target)
        && is_directed_reply(env.target))
}

/// The coordinator after a call with this outcome: only success counts.
pub open spec fn wake_after(
    wake: WakeView,
    who: Option<WakeActor>,
    tool: Seq<char>,
    outcome: Result<JsonView, Seq<char>>,
) -> WakeView {
    match who {
        Some(actor) => if outcome is Ok { wake.tool_noted(actor, tool) } else { wake },
        None => wake,
    }
}

/// The store after a call: a completed reply to a directed message no longer waits.
pub open spec fn store_after(
    store: GameStoreView,
    wake: WakeView,
    who: Option<WakeActor>,
    tool: Seq<char>,
    args: JsonView,
    outcome: Result<JsonView, Seq<char>>,
) -> GameStoreView {
    if outcome is Ok && answers_directed(wake, who, tool) {
        let id = GameId(args.uint_at("game_id"@)->0);
        store.with_game(id, GameView { pending_directed_wake: None, ..store.game(id)->0 })
    } else {
        store
    }
}

/// What the shared engine is made of.
pub struct Table {
    pub store: GameStoreView,
    pub wake: WakeView,
    pub log: ActionLogView,
}

/// The table after a game tool left the store at `ran` and came to `outcome`.
pub open spec fn table_after(
    before: Table,
    secs: u64,
    name: Seq<char>,
    args: JsonView,
    ran: GameStoreView,
    outcome: Result<JsonView, Seq<char>>,
) -> Table {
    let who = caller(ran, args);
    Table {
        store: store_after(ran, before.wake, who, name, args, outcome),
        wake: wake_after(before.wake, who, name, outcome),
        log: logged(before.log, secs, name, args, outcome),
    }
}

/// What a game tool does to the table and comes to.
pub open spec fn tool_runs(
    before: Table,
    secs: u64,
    id: u64,
    name: Seq<char>,
    args: JsonView,
    sheet: Option<Seq<char>>,
    after: Table,
    d: DispatchView,
) -> bool {
    exists|ran: GameStoreView, outcome: Result<JsonView, Seq<char>>| #[trigger]
        runs(before.store, name, args, sheet, ran, outcome) && after == table_after(
            before,
            secs,
            name,
            args,
            ran,
            outcome,
        ) && d == DispatchView::Reply(responded(id, outcome))
}

/// What a request does to the table and comes to.
pub open spec fn request_runs(
    before: Table,
    secs: u64,
    req: RpcRequestView,
    sheet: Option<Seq<char>>,
    after: Table,
    d: DispatchView,
) -> bool {
    if req.op == "ping"@ {
        after == before && d == DispatchView::Reply(
            responded(req.id, Ok(JsonView::object().with("pong"@, JsonView::Bool(true)))),
        )
    } else if req.op == "tool"@ {
        match req.name {
            None => after == before && d == DispatchView::Reply(
                responded(req.id, Err("tool requires name"@)),
            ),
            Some(name) => if name == "await_turn"@ {
                match await_checked(before.store, before.wake.game_id, req.arguments) {
                    Ok(ticket) => after == (Table {
                        wake: bound_by(before.wake, req.arguments),
                        ..before
                    }) && d == DispatchView::Await(ticket),
                    Err(e) => after == (Table {
                        log: logged(before.log, secs, name, req.arguments, Err(e)),
                        ..before
                    }) && d == DispatchView::Reply(responded(req.id, Err(e))),
                }
            } else {
                tool_runs(before, secs, req.id, name, req.arguments, sheet, after, d)
            },
        }
    } else {
        after == before && d == DispatchView::Reply(
            responded(req.id, Err("unknown op: "@ + req.op)),
        )
    }
}

/// Record a call with this outcome.
fn record(log: &mut ActionLog, secs: u64, name: &str, args: &Json, outcome: &Result<Json, String>)
    ensures
        final(log)@ == logged(old(log)@, secs, name@, args@, outcome_of(*outcome)),
{
    let token = args.str_at("token");
    match outcome {
        Ok(v) => log.record_rpc(secs, token, name, args, true, None, Some(print(v))),
        Err(e) => log.record_rpc(secs, token, name, args, false, Some(e.clone()), None),
    }
}

fn resolve_wake_actor(store: &GameStore, args: &Json) -> (r: Option<WakeActor>)
    ensures
        r == caller(store@, args@),
{
    let token = match args.str_at("token") {
        Some(t) => t,
        None => return None,
    };
    let game_id = match args.u64_at("game_id") {
        Some(id) => id,
        None => return None,
    };
    match store.get(GameId(game_id)) {
        Some(game) => match game.tokens.resolve(&Token::from_shared(token)) {
            Some(actor) => Some(WakeActor::from_auth(actor)),
            None => None,
        },
        None => None,
    }
}

/// A successful call completes the caller's wake where it fits.
fn note_success(store: &mut GameStore, wake: &mut WakeCoordinator, name: &str, args: &Json)
    ensures
        ({
            let who = caller(old(store)@, args@);
            let done = Ok::<JsonView, Seq<char>>(JsonView::Null);
            &&& final(store)@ == store_after(old(store)@, old(wake)@, who, name@, args@, done)
            &&& final(wake)@ == wake_after(old(wake)@, who, name@, done)
        }),
{
    if let Some(actor) = resolve_wake_actor(store, args) {
        let replied = wake.note_tool_success(actor, name);
        if replied {
            if let Some(id) = args.u64_at("game_id") {
                if let Some(game) = store.get_mut(GameId(id)) {
                    game.clear_directed_wake();
                }
            }
        }
    }
}

/// Run a game tool for a proxy.
fn dispatch_tool(
    store: &mut GameStore,
    wake: &mut WakeCoordinator,
    log: &mut ActionLog,
    secs: u64,
    id: u64,
    name: &str,
    args: &Json,
    sheet: Option<String>,
) -> (r: RpcResponse)
    ensures
        tool_runs(
            Table { store: old(store)@, wake: old(wake)@, log: old(log)@ },
            secs,
            id,
            name@,
            args@,
            opt_text(sheet),
            Table { store: final(store)@, wake: final(wake)@, log: final(log)@ },
            DispatchView::Reply(r@),
        ),
{
    let outcome = invoke_named_tool(store, name, args, sheet);
    let ghost ran = store@;
    let ghost came = outcome_of(outcome);
    if outcome.is_ok() {
        note_success(store, wake, name, args);
    }
    record(log, secs, name, args, &outcome);
    let r = response_to(id, outcome);
    proof {
        let before = Table { store: old(store)@, wake: old(wake)@, log: old(log)@ };
        assert(runs(before.store, name@, args@, opt_text(sheet), ran, came));
        assert((Table { store: store@, wake: wake@, log: log@ }) == table_after(
            before,
            secs,
            name@,
            args@,
            ran,
            came,
        ));
    }
    r
}

/// Serve one request, `secs` seconds after the log started. `sheet` is what the rules file that
/// the call needs holds.
pub fn dispatch(
    store: &mut GameStore,
    wake: &mut WakeCoordinator,
    log: &mut ActionLog,
    secs: u64,
    req: &RpcRequest,
    sheet: Option<String>,
) -> (d: Dispatch)
    ensures
        request_runs(
            Table { store: old(store)@, wake: old(wake)@, log: old(log)@ },
            secs,
            req@,
            opt_text(sheet),
            Table { store: final(store)@, wake: final(wake)@, log: final(log)@ },
            d@,
        ),
{
    if str_eq(req.op.as_str(), "ping") {
        let pong = Fields::new().put("pong", Json::Bool(true)).done();
        Dispatch::Reply(response_to(req.id, Ok(pong)))
    } else if str_eq(req.op.as_str(), "tool") {
        let name = match &req.name {
            Some(n) => n.as_str(),
            None => {
                return Dispatch::Reply(response_to(req.id, Err("tool requires name".to_owned())));
            },
        };
        if str_eq(name, "await_turn") {
            match begin_await(store, wake, &req.arguments) {
                Ok(ticket) => Dispatch::Await(ticket),
                Err(e) => {
                    let outcome: Result<Json, String> = Err(e);
                    record(log, secs, name, &req.arguments, &outcome);
                    Dispatch::Reply(response_to(req.id, outcome))
                },
            }
        } else {
            Dispatch::Reply(
                dispatch_tool(store, wake, log, secs, req.id, name, &req.arguments, sheet),
            )
        }
    } else {
        let mut e = "unknown op: ".to_owned();
        e.append(req.op.as_str());
        Dispatch::Reply(response_to(req.id, Err(e)))
    }
}

/// Answer an `await_turn` that has waited, in the MCP envelope of the other tools.
pub fn finish_await(
    log: &mut ActionLog,
    secs: u64,
    req: &RpcRequest,
    structured: Json,
) -> (r: RpcResponse)
    ensures
        ({
            let envelope = enveloped(Ok(structured@))->Ok_0;
            &&& r@ == responded(req.id, Ok(envelope))
            &&& final(log)@ == logged(
                old(log)@,
                secs,
                "await_turn"@,
                req.arguments@,
                Ok(envelope),
            )
        }),
{
    let outcome: Result<Json, String> = match mcp_server::envelope(Ok(structured)) {
        Ok(j) => Ok(j),
        Err(e) => Err(e.message),
    };
    record(log, secs, "await_turn", &req.arguments, &outcome);
    response_to(req.id, outcome)
}

// ---------------------------------------------------------------------------
// The calling side
// ---------------------------------------------------------------------------

/// Longest wait for the response to an ordinary call, in seconds.
pub const CALL_TIMEOUT_SECS: u64 = 120;

/// How long a caller waits for the response: for `await_turn` longer than the server's budget, so
/// a soft `idle` returns before the connection times out.
pub fn read_timeout_secs(name: &str) -> (n: u64)
    ensures
        n == (if name@ == "await_turn"@ { AWAIT_SERVER_BUDGET_SECS + 60 } else {
            CALL_TIMEOUT_SECS as int
        }),
{
    if str_eq(name, "await_turn") {
        AWAIT_SERVER_BUDGET_SECS + 60
    } else {
        CALL_TIMEOUT_SECS
    }
}

/// The request for a tool call.
pub fn tool_request(id: u64, name: &str, arguments: Json) -> (r: RpcRequest)
    ensures
        r@ == (RpcRequestView { id, op: "tool"@, name: Some(name@), arguments: arguments@ }),
{
    RpcRequest { id, op: "tool".to_owned(), name: Some(name.to_owned()), arguments }
}

/// What a response means to the caller that sent the request `id`.
pub open spec fn response_means(id: u64, resp: RpcResponseView) -> Result<JsonView, Seq<char>> {
    if resp.id != id {
        Err("id mismatch: expected "@ + dec(id as nat) + ", got "@ + dec(resp.id as nat))
    } else if resp.ok {
        Ok(
            match resp.result {
                Some(v) => v,
                None => JsonView::Null,
            },
        )
    } else {
        Err(
            match resp.error {
                Some(e) => e,
                None => "unknown error"@,
            },
        )
    }
}

/// Read a response to the request `id`.
pub fn read_response(id: u64, resp: RpcResponse) -> (r: Result<Json, String>)
    ensures
        outcome_of(r) == response_means(id, resp@),
{
    if resp.id != id {
        let mut e = numbered("id mismatch: expected ", id);
        e.append(", got ");
        push_dec(&mut e, resp.id);
        return Err(e);
    }
    if resp.ok {
        match resp.result {
            Some(v) => Ok(v),
            None => Ok(Json::Null),
        }
    } else {
        match resp.error {
            Some(e) => Err(e),
            None => Err("unknown error".to_owned()),
        }
    }
}

// ---------------------------------------------------------------------------
// Laws
// ---------------------------------------------------------------------------

/// What was answered arrives: the caller gets back exactly the outcome that was sent.
pub proof fn responses_carry_outcomes(id: u64, outcome: Result<JsonView, Seq<char>>)
    ensures
        response_means(id, responded(id, outcome)) == outcome,
{
}

/// A failed call completes nobody's wake, and no call for another game does either.
pub proof fn only_success_completes_a_wake(
    wake: WakeView,
    who: Option<WakeActor>,
    tool: Seq<char>,
    e: Seq<char>,
)
    ensures
        wake_after(wake, who, tool, Err(e)) == wake,
        wake_after(wake, None, tool, Ok(JsonView::Null)) == wake,
{
}

/// A wait for a game other than the bound one is refused and leaves the live table alone.
pub proof fn stale_waits_are_refused(store: GameStoreView, bound: u64, args: JsonView)
    requires
        args.uint_at("game_id"@) != Some(bound),
    ensures
        await_checked(store, Some(bound), args) is Err,
{
}

/// A wait never outlasts the connection: its budget is between one second and the server's
/// budget, below the caller's timeout.
pub proof fn waits_are_bounded(store: GameStoreView, bound: Option<u64>, args: JsonView)
    ensures
        await_checked(store, bound, args) matches Ok(t) ==> 1 <= t.budget_secs
            <= AWAIT_SERVER_BUDGET_SECS,
{
}

} // verus!
