//! What a turn is, from waking an agent to the call that settles it.

use crate::auth::Actor;
use crate::game::ids::{GameId, SeatId};
use crate::game::state::GameView;
use crate::harness::proxy_acl::allowed;
use crate::harness::scheduler::{HostTaskView, PlayerTaskView, SchedTargetView};
use crate::harness::socket::{
    await_checked, caller, request_runs, response_means, store_after, wake_after, DispatchView,
    RpcRequestView, RpcResponseView, Table,
};
use crate::harness::wake::{
    completes, of_others, target_actor, target_kind, waits, PollStepView, WakeActor,
    WakeEnvelopeView, WakeView,
};
use crate::json::JsonView;
use crate::store::GameStoreView;
use vstd::prelude::*;

verus! {

proof fn tool_names_differ()
    ensures
        ({
            let names = seq![
                "night_action"@,
                "say"@,
                "nominate"@,
                "vote"@,
                "pass_vote"@,
                "start_game"@,
                "host_decide"@,
                "skip_night_action"@,
                "open_nominations"@,
                "end_nominations"@,
                "close_vote"@,
            ];
            forall|i: int, j: int| 0 <= i < j < 11 ==> names[i] != names[j]
        }),
{
    reveal_strlit("night_action");
    reveal_strlit("say");
    reveal_strlit("nominate");
    reveal_strlit("vote");
    reveal_strlit("pass_vote");
    reveal_strlit("start_game");
    reveal_strlit("host_decide");
    reveal_strlit("skip_night_action");
    reveal_strlit("open_nominations");
    reveal_strlit("end_nominations");
    reveal_strlit("close_vote");
    assert("night_action"@.len() == 12 && "say"@.len() == 3 && "nominate"@.len() == 8
        && "vote"@.len() == 4 && "pass_vote"@.len() == 9 && "start_game"@.len() == 10
        && "host_decide"@.len() == 11 && "skip_night_action"@.len() == 17
        && "open_nominations"@.len() == 16 && "end_nominations"@.len() == 15
        && "close_vote"@.len() == 10);
    assert("start_game"@[0] == 's' && "close_vote"@[0] == 'c');
}

/// The player is asked to speak.
pub open spec fn to_speak(t: SchedTargetView) -> bool {
    t matches SchedTargetView::Player { task: PlayerTaskView::Discuss { .. }, .. }
}

/// The player is asked to nominate.
pub open spec fn to_nominate(t: SchedTargetView) -> bool {
    t matches SchedTargetView::Player { task: PlayerTaskView::Nominate, .. }
}

/// The player is asked to vote.
pub open spec fn to_vote(t: SchedTargetView) -> bool {
    t matches SchedTargetView::Player { task: PlayerTaskView::Vote { .. }, .. }
}

/// The player is asked for a night choice.
pub open spec fn to_choose(t: SchedTargetView) -> bool {
    t matches SchedTargetView::Player { task: PlayerTaskView::NightWake { .. }, .. }
}

/// What each call settles: a night choice its wake, speech and a nomination a turn of the day, a
/// vote or a pass the vote, and every call of the Storyteller what it does at the table.
pub proof fn calls_settle_what_they_do(t: SchedTargetView)
    ensures
        completes("night_action"@, t) <==> to_choose(t),
        completes("say"@, t) <==> to_speak(t) || to_nominate(t),
        completes("nominate"@, t) <==> to_speak(t) || to_nominate(t),
        completes("vote"@, t) <==> to_vote(t),
        completes("pass_vote"@, t) <==> to_vote(t),
        completes("start_game"@, t) <==> t == SchedTargetView::Host(HostTaskView::StartGame),
        completes("host_decide"@, t) <==> (t matches SchedTargetView::Host(
            HostTaskView::ResolveDecision { .. },
        )),
        completes("skip_night_action"@, t) <==> (t matches SchedTargetView::Host(task) && (task
            is ResolveDecision || task is AdvanceNight || task is SkipStuckWake)),
        completes("open_nominations"@, t) <==> (t matches SchedTargetView::Host(task) && (task
            is PaceDiscussion || task == HostTaskView::EndDay { in_discussion: true })),
        completes("end_nominations"@, t) <==> (t matches SchedTargetView::Host(task) && (task
            is ManageNominations || task is EndDay)),
        completes("close_vote"@, t) <==> t == SchedTargetView::Host(HostTaskView::CloseVoting),
{
    tool_names_differ();
    let names = seq![
        "night_action"@,
        "say"@,
        "nominate"@,
        "vote"@,
        "pass_vote"@,
        "start_game"@,
        "host_decide"@,
        "skip_night_action"@,
        "open_nominations"@,
        "end_nominations"@,
        "close_vote"@,
    ];
    assert forall|i: int, j: int| 0 <= i < j < 11 implies names[i] != names[j] by {}
    assert(names[0] == "night_action"@ && names[1] == "say"@ && names[2] == "nominate"@ && names[3]
        == "vote"@ && names[4] == "pass_vote"@ && names[5] == "start_game"@ && names[6]
        == "host_decide"@ && names[7] == "skip_night_action"@ && names[8] == "open_nominations"@
        && names[9] == "end_nominations"@ && names[10] == "close_vote"@);
}

/// Whoever is woken may make the call that settles the wake, and what settles a wake of the
/// Storyteller no player may call.
pub proof fn wakes_can_be_settled_by_the_woken(tool: Seq<char>, t: SchedTargetView)
    requires
        completes(tool, t),
    ensures
        allowed(tool, t is Host),
        t is Host ==> !allowed(tool, false),
{
    reveal_strlit("create_game");
    reveal_strlit("get_host_state");
    reveal_strlit("host_queue_lie");
    reveal_strlit("st_announce");
    reveal_strlit("night_action");
    reveal_strlit("say");
    reveal_strlit("nominate");
    reveal_strlit("vote");
    reveal_strlit("pass_vote");
    reveal_strlit("start_game");
    reveal_strlit("host_decide");
    reveal_strlit("skip_night_action");
    reveal_strlit("open_nominations");
    reveal_strlit("end_nominations");
    reveal_strlit("close_vote");
    assert("create_game"@.len() == 11 && "create_game"@[0] == 'c');
    assert("host_decide"@[0] == 'h');
    assert("night_action"@.len() == 12 && "say"@.len() == 3 && "nominate"@.len() == 8
        && "vote"@.len() == 4 && "pass_vote"@.len() == 9);
    assert("start_game"@.len() == 10 && "get_host_state"@.len() == 14 && "host_decide"@.len() == 11
        && "host_queue_lie"@.len() == 14 && "skip_night_action"@.len() == 17
        && "open_nominations"@.len() == 16 && "close_vote"@.len() == 10 && "end_nominations"@.len()
        == 15 && "st_announce"@.len() == 11);
}

/// The calls that run the game are the Storyteller's alone; the table is opened by neither; and
/// every other call is everybody's.
pub proof fn running_the_game_is_the_storytellers(name: Seq<char>)
    ensures
        allowed(name, true) <==> name != "create_game"@,
        allowed(name, false) <==> !(name == "create_game"@ || name == "start_game"@ || name
            == "get_host_state"@ || name == "host_decide"@ || name == "host_queue_lie"@ || name
            == "skip_night_action"@ || name == "open_nominations"@ || name == "close_vote"@ || name
            == "end_nominations"@ || name == "st_announce"@),
{
}

/// A turn of speech or nomination moves the table on by one once it is settled, unless it was an
/// answer to somebody; a vote, a night choice and the Storyteller's work leave the turn where it
/// is.
pub proof fn turns_pass_by_one(w: WakeView, actor: WakeActor, tool: Seq<char>)
    requires
        w.rotation < usize::MAX,
        w.owed(actor) matches Some(env) && completes(tool, env.target),
    ensures
        ({
            let t = w.owed(actor)->0.target;
            let answer = t matches SchedTargetView::Player {
                task: PlayerTaskView::Discuss { directed_reply, .. },
                ..
            } && directed_reply;
            w.tool_noted(actor, tool).rotation == w.rotation + if (to_speak(t) || to_nominate(t))
                && !answer { 1int } else { 0 }
        }),
{
}

/// The same wait counts up once for every forty-five seconds that it lasts; another wait starts
/// again at nothing, and so does none.
pub proof fn waits_are_timed(w: WakeView, g: GameView, now: u64)
    requires
        w.stall < usize::MAX,
    ensures
        ({
            let after = w.stalled(g, now);
            let same = g.wait_sign() is Some && w.wait_sig == g.wait_sign();
            &&& !same ==> after.stall == 0 && after.wait_sig == g.wait_sign()
                && after.last_stall_bump == Some(now)
            &&& same ==> (w.last_stall_bump matches Some(since) ==> {
                &&& now >= since + 45_000 ==> after.stall == w.stall + 1 && after.last_stall_bump
                    == Some(now)
                &&& now < since + 45_000 ==> after == w
            })
            &&& after.rotation == w.rotation && after.outstanding == w.outstanding
        }),
{
}

/// In a new stage the turn starts with the first player and nobody owes anything from before; in
/// the same stage nothing is forgotten.
pub proof fn stages_start_over(w: WakeView, g: GameView)
    ensures
        crate::harness::wake::stage_key(g) != w.stage_key ==> {
            let after = w.staged(g);
            &&& after.rotation == 0
            &&& after.stall == 0
            &&& after.outstanding.len() == 0
            &&& after.stage_key == crate::harness::wake::stage_key(g)
            &&& after.game_id == w.game_id && after.next_seq == w.next_seq
        },
        crate::harness::wake::stage_key(g) == w.stage_key ==> w.staged(g) == w,
{
}

/// A wake names what it is for, and its actor is the one it is planned for.
pub proof fn wakes_name_their_kind(t: SchedTargetView, seat: SeatId)
    ensures
        to_choose(t) ==> target_kind(t) == "night_action"@,
        to_speak(t) ==> target_kind(t) == "discuss"@,
        to_nominate(t) ==> target_kind(t) == "nominate"@,
        to_vote(t) ==> target_kind(t) == "vote"@,
        (t matches SchedTargetView::Host(task) ==> {
            &&& task is StartGame ==> target_kind(t) == "host_start_game"@
            &&& task is ResolveDecision ==> target_kind(t) == "host_decide"@
            &&& task is AdvanceNight ==> target_kind(t) == "host_advance_night"@
            &&& task is SkipStuckWake ==> target_kind(t) == "host_skip_stuck"@
            &&& task is PaceDiscussion ==> target_kind(t) == "host_pace_discussion"@
            &&& task is ManageNominations ==> target_kind(t) == "host_manage_nominations"@
            &&& task is CloseVoting ==> target_kind(t) == "host_close_vote"@
            &&& task is EndDay ==> target_kind(t) == "host_end_day"@
        }),
        target_actor(t) == WakeActor::Host <==> t is Host,
        target_actor(t) == WakeActor::Player(seat) <==> (t matches SchedTargetView::Player {
            seat: asked,
            ..
        } && asked == seat),
{
}

/// An agent that asks about a game that is over is told so, one that asks about no game or an
/// unknown one is told nothing, and neither look changes anything.
pub proof fn finished_games_wake_nobody(
    w: WakeView,
    store: GameStoreView,
    actor: WakeActor,
    name: Seq<char>,
    now: u64,
)
    ensures
        ({
            let (after, got) = w.delivered(store, actor, name, now);
            &&& w.game_id is None ==> after == w && got is Idle
            &&& w.game_id matches Some(id) ==> match store.game(GameId(id)) {
                None => after == w && got is Idle,
                Some(g) => (g.phase is Ended ==> after == w && got is GameOver) && (!(
                g.phase is Ended) ==> !(got is GameOver)),
            }
        }),
{
}

/// Whom a call comes from is told by its token alone.
pub proof fn callers_are_who_their_token_says(
    store: GameStoreView,
    args: JsonView,
    id: u64,
    token: Seq<char>,
    g: GameView,
)
    requires
        args.uint_at("game_id"@) == Some(id),
        args.text_at("token"@) == Some(token),
        store.game(GameId(id)) == Some(g),
    ensures
        caller(store, args) == match g.tokens.actor(token) {
            Some(Actor::Host) => Some(WakeActor::Host),
            Some(Actor::Player { seat }) => Some(WakeActor::Player(seat)),
            None => None,
        },
        g.tokens.actor(token) is None ==> await_checked(store, Some(id), args) is Err,
        g.tokens.actor(token) == Some(Actor::Host) ==> (await_checked(
            store,
            Some(id),
            args,
        ) matches Ok(t) && t.actor == WakeActor::Host && t.display_name == "Host"@),
        g.tokens.actor(token) matches Some(Actor::Player { seat }) ==> (await_checked(
            store,
            Some(id),
            args,
        ) matches Ok(t) && t.actor == WakeActor::Player(seat)),
{
}

/// A successful call settles what its caller owes, where the call does what was asked; and an
/// answer to somebody, once given, is no longer waited for.
pub proof fn successful_calls_count(
    store: GameStoreView,
    wake: WakeView,
    actor: WakeActor,
    tool: Seq<char>,
    args: JsonView,
    id: u64,
    g: GameView,
    said: JsonView,
    env: WakeEnvelopeView,
)
    requires
        args.uint_at("game_id"@) == Some(id),
        store.game(GameId(id)) == Some(g),
        wake.owed(actor) == Some(env),
        completes(tool, env.target),
    ensures
        wake_after(wake, Some(actor), tool, Ok(said)).owed(actor) is None,
        ({
            let after = store_after(store, wake, Some(actor), tool, args, Ok(said)).game(GameId(id));
            let answer = env.target matches SchedTargetView::Player {
                task: PlayerTaskView::Discuss { directed_reply, .. },
                ..
            } && directed_reply;
            &&& answer ==> after == Some(GameView { pending_directed_wake: None, ..g })
            &&& !answer ==> after == Some(g)
        }),
{
    let other = match actor {
        WakeActor::Host => WakeActor::Player(SeatId(0)),
        _ => WakeActor::Host,
    };
    crate::harness::wake::completing_tools_settle_one_wake(wake, actor, other, tool);
    crate::store::changed_game_is_found(
        store,
        GameId(id),
        GameView { pending_directed_wake: None, ..g },
        GameId(id),
    );
}

/// A response to another request is never taken for the answer.
pub proof fn answers_are_matched_by_number(id: u64, resp: RpcResponseView)
    ensures
        resp.id != id ==> response_means(id, resp) is Err,
        resp.id == id && resp.ok ==> response_means(id, resp) is Ok,
        resp.id == id && !resp.ok ==> response_means(id, resp) is Err,
        resp.id == id && resp.ok ==> (resp.result matches Some(v) ==> response_means(id, resp)
            == Ok::<JsonView, Seq<char>>(v)),
{
}

/// A ping is answered without touching the table; what is neither a ping nor a tool call is
/// refused, and so is a call that names no tool.
pub proof fn other_requests_change_nothing(
    before: Table,
    secs: u64,
    req: RpcRequestView,
    sheet: Option<Seq<char>>,
    after: Table,
    d: DispatchView,
)
    requires
        request_runs(before, secs, req, sheet, after, d),
        req.op != "tool"@ || req.name is None,
    ensures
        after == before,
        d matches DispatchView::Reply(reply) && reply.id == req.id && (reply.ok <==> req.op
            == "ping"@),
{
    reveal_strlit("ping");
    reveal_strlit("tool");
    assert("ping"@[0] == 'p' && "tool"@[0] == 't');
}

/// With nothing to deliver a call waits half a second, or what is left until its deadline; at the
/// deadline it is answered that nothing has come.
pub proof fn quiet_calls_wait_their_time(w: WakeView, actor: WakeActor, now: u64, deadline: u64)
    ensures
        now >= deadline <==> w.idled(actor, now, deadline) is Done,
        now < deadline ==> (w.idled(actor, now, deadline) matches PollStepView::Wait { millis }
            && 0 < millis <= 500 && now + millis <= deadline && (millis == 500 || now + millis
            == deadline)),
{
}

/// Those whose wait ended wait no longer, those who began one do, and of the others nothing
/// changes.
pub proof fn waiting_is_remembered(
    waiters: Seq<(WakeActor, u64)>,
    actor: WakeActor,
    other: WakeActor,
    now: u64,
)
    ensures
        !waits(of_others(waiters, actor), actor),
        waits(of_others(waiters, actor).push((actor, now)), actor),
        other != actor ==> waits(of_others(waiters, actor), other) == waits(waiters, other),
    decreases waiters.len(),
{
    let kept = of_others(waiters, actor);
    assert(kept.push((actor, now))[kept.len() as int].0 == actor);
    if waiters.len() > 0 {
        let front = waiters.drop_last();
        let fewer = of_others(front, actor);
        waiting_is_remembered(front, actor, other, now);
        let last = waiters.last();
        assert(waiters[waiters.len() - 1] == last);
        if waits(waiters, other) && last.0 != other {
            let k = choose|k: int| 0 <= k < waiters.len() && (#[trigger] waiters[k]).0 == other;
            assert(front[k].0 == other);
        }
        if waits(front, other) {
            let k = choose|k: int| 0 <= k < front.len() && (#[trigger] front[k]).0 == other;
            assert(waiters[k].0 == other);
        }
        if last.0 != actor {
            assert(kept == fewer.push(last));
            assert(kept[fewer.len() as int] == last);
            if waits(fewer, other) {
                let k = choose|k: int| 0 <= k < fewer.len() && (#[trigger] fewer[k]).0 == other;
                assert(kept[k].0 == other);
            }
            if waits(kept, other) && last.0 != other {
                let k = choose|k: int| 0 <= k < kept.len() && (#[trigger] kept[k]).0 == other;
                assert(fewer[k].0 == other);
            }
            if waits(kept, actor) {
                let k = choose|k: int| 0 <= k < kept.len() && (#[trigger] kept[k]).0 == actor;
                assert(fewer[k].0 == actor);
            }
        }
    }
}

/// The holder of the host token is woken as the host, and that of a seat's as its player.
pub proof fn holders_are_woken_as_themselves(seat: SeatId)
    ensures
        WakeActor::of_actor(Actor::Host) == WakeActor::Host,
        WakeActor::of_actor(Actor::Player { seat }) == WakeActor::Player(seat),
{
}

} // verus!
