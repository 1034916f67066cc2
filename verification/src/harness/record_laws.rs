//! What the records of a game say: who played what with which model, who died how, who won, and
//! what it took.

use crate::comms::{EventId, PublicEventView};
use crate::game::ability::info_laws::is_evil;
use crate::game::ids::SeatId;
use crate::game::phase::{DayStage, EndReason, Phase, Winner};
use crate::game::seat::{seat_of, Seat};
use crate::game::state::GameView;
use crate::harness::action_log::last_of;
use crate::harness::agents::{short_count, AgentConfigView, AgentRole, TickUsage};
use crate::harness::results_log::{
    death_record, death_records, drained, end_record, model_in_role, nomination_record, phase_record,
    scored_roster, seat_record, stamped, usage_record,
};
use crate::harness::stream::{
    chunked, event_spend, shows_session, spend, AgentUsage, LineKind, LogLineView,
};
use crate::json::JsonView;
use crate::mcp_server::view_laws::{number, says};
use crate::roles::data::name_of;
use crate::text::split;
use vstd::prelude::*;

verus! {

/// The agent who plays a role is the first that is configured for it.
pub proof fn models_are_found_by_role(agents: Seq<AgentConfigView>, role: AgentRole, i: int)
    requires
        0 <= i < agents.len(),
        agents[i].role == role,
        forall|k: int| 0 <= k < i ==> (#[trigger] agents[k]).role != role,
    ensures
        model_in_role(agents, role) == agents[i].model,
    decreases agents.len(),
{
    if i > 0 {
        assert(agents[0].role != role);
        let rest = agents.drop_first();
        assert(rest[i - 1] == agents[i]);
        assert forall|k: int| 0 <= k < i - 1 implies (#[trigger] rest[k]).role != role by {
            assert(rest[k] == agents[k + 1]);
        }
        models_are_found_by_role(rest, role, i - 1);
    }
}

/// The team of a character in words.
pub open spec fn side(c: Option<crate::roles::Character>) -> JsonView {
    match c {
        Some(x) => JsonView::Str(if is_evil(Some(x)) { "Evil"@ } else { "Good"@ }),
        None => JsonView::Null,
    }
}

/// The row of a seat tells its player's model, what they truly were and believed, their side, and
/// whether they live.
pub proof fn rows_tell_who_played_what(s: Seat, agents: Seq<AgentConfigView>)
    ensures
        ({
            let r = seat_record(s, agents);
            &&& says(r, "seat"@, number(s.id.0 as int))
            &&& says(r, "name"@, JsonView::Str(s.display_name@))
            &&& says(
                r,
                "model"@,
                JsonView::Str(model_in_role(agents, AgentRole::Player { seat: s.id })),
            )
            &&& s.true_character matches Some(c) ==> says(
                r,
                "true_character"@,
                JsonView::Str(name_of(c)),
            )
            &&& s.believed_character matches Some(c) ==> says(
                r,
                "believed_character"@,
                JsonView::Str(name_of(c)),
            )
            &&& s.believed_character is None ==> (s.true_character matches Some(c) ==> says(
                r,
                "believed_character"@,
                JsonView::Str(name_of(c)),
            ))
            &&& says(r, "team"@, side(s.true_character))
            &&& says(r, "alive"@, JsonView::Bool(s.alive))
        }),
{
    let f = seat_record(s, agents)->Obj_0;
    assert(f[0] == ("seat"@, number(s.id.0 as int)));
    assert(f[1] == ("name"@, JsonView::Str(s.display_name@)));
    assert(f[2] == (
        "model"@,
        JsonView::Str(model_in_role(agents, AgentRole::Player { seat: s.id })),
    ));
    assert(f[4].0 == "true_character"@ && f[4] == f[4]);
    assert(f[5].0 == "believed_character"@ && f[5] == f[5]);
    assert(f[6] == ("team"@, side(s.true_character)));
    assert(f[8] == ("alive"@, JsonView::Bool(s.alive)));
}

/// Every seat is marked as having won exactly if it was on the winning side.
pub proof fn winners_are_marked(
    g: GameView,
    agents: Seq<AgentConfigView>,
    winner: Winner,
    i: int,
)
    requires
        0 <= i < g.seats.len(),
        g.seats[i].true_character is Some,
    ensures
        scored_roster(g, agents, winner).len() == g.seats.len(),
        says(
            scored_roster(g, agents, winner)[i],
            "won"@,
            JsonView::Bool(is_evil(g.seats[i].true_character) == (winner == Winner::Evil)),
        ),
{
    let c = g.seats[i].true_character->0;
    crate::harness::results_log::winners_are_one_team(c, c, winner);
    let f = scored_roster(g, agents, winner)[i]->Obj_0;
    assert(f[10] == (
        "won"@,
        JsonView::Bool(is_evil(g.seats[i].true_character) == (winner == Winner::Evil)),
    ));
}

/// The end of a game is recorded with the side that won and why.
pub proof fn ends_tell_who_won(
    run_id: Seq<char>,
    game_id: u64,
    g: GameView,
    agents: Seq<AgentConfigView>,
    usage: Seq<(String, AgentUsage)>,
    winner: Winner,
    reason: EndReason,
)
    ensures
        ({
            let r = end_record(run_id, game_id, g, agents, usage, winner, reason);
            &&& says(r, "event"@, JsonView::Str("game_end"@))
            &&& says(r, "run_id"@, JsonView::Str(run_id))
            &&& says(r, "game_id"@, number(game_id as int))
            &&& says(
                r,
                "winner"@,
                JsonView::Str(
                    match winner {
                        Winner::Good => "Good"@,
                        Winner::Evil => "Evil"@,
                    },
                ),
            )
            &&& says(r, "seats"@, JsonView::Arr(scored_roster(g, agents, winner)))
        }),
{
    let f = end_record(run_id, game_id, g, agents, usage, winner, reason)->Obj_0;
    assert(f[0] == ("event"@, JsonView::Str("game_end"@)));
    assert(f[1] == ("run_id"@, JsonView::Str(run_id)));
    assert(f[2] == ("game_id"@, number(game_id as int)));
    assert(f[3] == (
        "winner"@,
        JsonView::Str(
            match winner {
                Winner::Good => "Good"@,
                Winner::Evil => "Evil"@,
            },
        ),
    ));
    assert(f[6] == ("seats"@, JsonView::Arr(scored_roster(g, agents, winner))));
}

/// A record of the death of this seat by this cause.
pub open spec fn tells_death(r: JsonView, seat: SeatId, cause: Seq<char>) -> bool {
    &&& says(r, "event"@, JsonView::Str("death"@))
    &&& says(r, "seat"@, number(seat.0 as int))
    &&& says(r, "cause"@, JsonView::Str(cause))
}

proof fn death_records_tell(
    run_id: Seq<char>,
    game_id: u64,
    g: GameView,
    agents: Seq<AgentConfigView>,
    seat: SeatId,
    cause: Seq<char>,
)
    ensures
        tells_death(death_record(run_id, game_id, g, agents, seat, cause), seat, cause),
        says(
            death_record(run_id, game_id, g, agents, seat, cause),
            "team"@,
            side(
                match seat_of(g.seats, seat) {
                    Some(s) => s.true_character,
                    None => None,
                },
            ),
        ),
{
    let f = death_record(run_id, game_id, g, agents, seat, cause)->Obj_0;
    assert(f[0] == ("event"@, JsonView::Str("death"@)));
    assert(f[3] == ("seat"@, number(seat.0 as int)));
    assert(f[4] == ("cause"@, JsonView::Str(cause)));
    assert(f[7] == (
        "team"@,
        side(
            match seat_of(g.seats, seat) {
                Some(s) => s.true_character,
                None => None,
            },
        ),
    ));
}

/// Every death is recorded with its cause, one record for each of the dead, and nothing else is
/// recorded as a death.
pub proof fn deaths_are_recorded(
    run_id: Seq<char>,
    game_id: u64,
    g: GameView,
    agents: Seq<AgentConfigView>,
    ev: PublicEventView,
)
    ensures
        ({
            let r = death_records(run_id, game_id, g, agents, ev);
            match ev {
                PublicEventView::Executed { seat } => r.len() == 1 && tells_death(
                    r[0],
                    seat,
                    "executed"@,
                ),
                PublicEventView::PlayerDied { seat } => r.len() == 1 && tells_death(
                    r[0],
                    seat,
                    "day"@,
                ),
                PublicEventView::DiedInNight { seats } => r.len() == seats.len() && forall|k: int|
                    0 <= k < r.len() ==> tells_death(#[trigger] r[k], seats[k], "night"@),
                _ => r.len() == 0,
            }
        }),
{
    let r = death_records(run_id, game_id, g, agents, ev);
    match ev {
        PublicEventView::Executed { seat } => {
            death_records_tell(run_id, game_id, g, agents, seat, "executed"@);
        },
        PublicEventView::PlayerDied { seat } => {
            death_records_tell(run_id, game_id, g, agents, seat, "day"@);
        },
        PublicEventView::DiedInNight { seats } => {
            assert forall|k: int| 0 <= k < r.len() implies tells_death(
                #[trigger] r[k],
                seats[k],
                "night"@,
            ) by {
                death_records_tell(run_id, game_id, g, agents, seats[k], "night"@);
            }
        },
        _ => {},
    }
}

/// A nomination is recorded with who put up whom, and on which sides they are.
pub proof fn nominations_are_recorded(
    run_id: Seq<char>,
    game_id: u64,
    g: GameView,
    agents: Seq<AgentConfigView>,
    by: SeatId,
    target: SeatId,
)
    ensures
        ({
            let r = nomination_record(run_id, game_id, g, agents, by, target);
            let truth = |seat: SeatId|
                match seat_of(g.seats, seat) {
                    Some(s) => s.true_character,
                    None => None,
                };
            &&& says(r, "by_seat"@, number(by.0 as int))
            &&& says(r, "target_seat"@, number(target.0 as int))
            &&& says(
                r,
                "by_model"@,
                JsonView::Str(model_in_role(agents, AgentRole::Player { seat: by })),
            )
            &&& says(
                r,
                "target_model"@,
                JsonView::Str(model_in_role(agents, AgentRole::Player { seat: target })),
            )
            &&& says(r, "by_team"@, side(truth(by)))
            &&& says(r, "target_team"@, side(truth(target)))
        }),
{
    let truth = |seat: SeatId|
        match seat_of(g.seats, seat) {
            Some(s) => s.true_character,
            None => None,
        };
    let f = nomination_record(run_id, game_id, g, agents, by, target)->Obj_0;
    assert(f[3] == ("by_seat"@, number(by.0 as int)));
    assert(f[4] == ("target_seat"@, number(target.0 as int)));
    assert(f[5] == (
        "by_model"@,
        JsonView::Str(model_in_role(agents, AgentRole::Player { seat: by })),
    ));
    assert(f[6] == (
        "target_model"@,
        JsonView::Str(model_in_role(agents, AgentRole::Player { seat: target })),
    ));
    assert(f[7] == ("by_team"@, side(truth(by))));
    assert(f[8] == ("target_team"@, side(truth(target))));
}

/// Records are drained in the order of the events, each event's after those of the events before
/// it; only the death that repeats an execution adds none, and talk and votes never do.
pub proof fn events_are_drained_in_order(
    run_id: Seq<char>,
    game_id: u64,
    g: GameView,
    agents: Seq<AgentConfigView>,
    events: Seq<(EventId, PublicEventView)>,
    cursor: u64,
    id: u64,
    ev: PublicEventView,
)
    ensures
        ({
            let before = drained(run_id, game_id, g, agents, events, cursor);
            let after = drained(run_id, game_id, g, agents, events.push((id, ev)), cursor);
            &&& after.cursor == id
            &&& match ev {
                PublicEventView::Nominated { by, target } => after.records == before.records.push(
                    nomination_record(run_id, game_id, g, agents, by, target),
                ),
                PublicEventView::Executed { .. } | PublicEventView::DiedInNight { .. } =>
                    after.records == before.records + death_records(
                    run_id,
                    game_id,
                    g,
                    agents,
                    ev,
                ),
                PublicEventView::PlayerDied { seat } => !(events.len() > 0 && events.last().1 == (
                PublicEventView::Executed { seat })) ==> after.records == before.records
                    + death_records(run_id, game_id, g, agents, ev),
                _ => after.records == before.records,
            }
        }),
{
    assert(events.push((id, ev)).drop_last() =~= events);
}

/// Every line carries the version of its form and the time it was written, unless it has them.
pub proof fn lines_are_stamped(record: JsonView, now: u64)
    requires
        record is Obj,
        record.field("v"@) is None,
        record.field("ts_unix_ms"@) is None,
    ensures
        says(stamped(record, now), "v"@, number(1)),
        says(stamped(record, now), "ts_unix_ms"@, number(now as int)),
        forall|k: Seq<char>, v: JsonView| #[trigger] says(record, k, v) ==> says(
            stamped(record, now),
            k,
            v,
        ),
{
    crate::json::reading_a_longer_object(record, "v"@, number(1));
    reveal_strlit("v");
    reveal_strlit("ts_unix_ms");
    assert("v"@.len() == 1 && "ts_unix_ms"@.len() == 10);
    let before = record->Obj_0;
    let f = stamped(record, now)->Obj_0;
    let n = before.len() as int;
    assert(f[n] == ("v"@, number(1)));
    assert(f[n + 1] == ("ts_unix_ms"@, number(now as int)));
    assert forall|k: Seq<char>, v: JsonView| #[trigger] says(record, k, v) implies says(
        stamped(record, now),
        k,
        v,
    ) by {
        let i = before.index_of((k, v));
        assert(f[i] == (k, v));
    }
}

/// The spend of a run is recorded number by number.
pub proof fn spend_is_recorded(t: TickUsage)
    ensures
        says(usage_record(t), "input_tokens"@, number(t.input_tokens as int)),
        says(usage_record(t), "cache_read_input_tokens"@, number(t.cache_read_input_tokens as int)),
        says(usage_record(t), "output_tokens"@, number(t.output_tokens as int)),
        says(usage_record(t), "reasoning_tokens"@, number(t.reasoning_tokens as int)),
        says(usage_record(t), "total_tokens"@, number(t.total_tokens as int)),
{
    let f = usage_record(t)->Obj_0;
    assert(f[0] == ("input_tokens"@, number(t.input_tokens as int)));
    assert(f[1] == ("cache_read_input_tokens"@, number(t.cache_read_input_tokens as int)));
    assert(f[2] == ("output_tokens"@, number(t.output_tokens as int)));
    assert(f[3] == ("reasoning_tokens"@, number(t.reasoning_tokens as int)));
    assert(f[4] == ("total_tokens"@, number(t.total_tokens as int)));
}

/// The number under a key of a report.
pub open spec fn counts(usage: JsonView, key: Seq<char>, n: u64) -> bool {
    usage.field(key) == Some(number(n as int))
}

/// The spend of a run is read as it is reported; a total that is left out is the sum of what went
/// in, fresh and from the cache, and what came out.
pub proof fn spend_is_read_as_reported(
    v: JsonView,
    usage: JsonView,
    input: u64,
    cache: u64,
    output: u64,
    total: u64,
)
    requires
        v.field("usage"@) == Some(usage),
        counts(usage, "input_tokens"@, input),
        counts(usage, "cache_read_input_tokens"@, cache),
        counts(usage, "output_tokens"@, output),
        input > 0 || output > 0,
        input + cache + output <= u64::MAX,
    ensures
        spend(v) matches Some(u) && {
            &&& u.input_tokens == input && u.cache_read_input_tokens == cache && u.output_tokens
                == output
            &&& counts(usage, "total_tokens"@, total) && total > 0 ==> u.total_tokens == total
            &&& usage.field("total_tokens"@) is None ==> u.total_tokens == input + cache + output
        },
        v.text_at("type"@) == Some("end"@) ==> event_spend(v) == spend(v),
{
}

/// A run that reports no use has spent nothing, and a session is known from the end of a turn or
/// of its turns alone.
pub proof fn silence_proves_nothing(v: JsonView)
    ensures
        v.field("usage"@) is None ==> spend(v) is None,
        v.text_at("type"@) == Some("end"@) || v.text_at("type"@) == Some("max_turns_reached"@)
            <==> shows_session(v),
{
}

/// One more run is counted once, and every part of its spend is added to the game's.
pub proof fn runs_add_up(u: AgentUsage, t: TickUsage)
    requires
        u.ticks_with_usage < u32::MAX,
        u.game_total.input_tokens + t.input_tokens <= u64::MAX,
        u.game_total.output_tokens + t.output_tokens <= u64::MAX,
        u.game_total.total_tokens + t.total_tokens <= u64::MAX,
    ensures
        ({
            let after = u.after_tick(t);
            &&& after.last_tick == Some(t)
            &&& after.ticks_with_usage == u.ticks_with_usage + 1
            &&& after.game_total.input_tokens == u.game_total.input_tokens + t.input_tokens
            &&& after.game_total.output_tokens == u.game_total.output_tokens + t.output_tokens
            &&& after.game_total.total_tokens == u.game_total.total_tokens + t.total_tokens
            &&& after.context == u.context
        }),
{
}

proof fn unbroken_text_is_one_part(data: Seq<char>)
    requires
        !data.contains('\n'),
    ensures
        split(data, '\n') == seq![data],
    decreases data.len(),
{
    if data.len() > 0 {
        let front = data.drop_last();
        assert forall|i: int| 0 <= i < front.len() implies front[i] != '\n' by {
            assert(data[i] == front[i]);
        }
        unbroken_text_is_one_part(front);
        assert(data[data.len() - 1] == data.last());
        assert(front.push(data.last()) =~= data);
        assert(split(data, '\n') =~= seq![data]);
    } else {
        assert(data =~= seq![]);
    }
}

/// Text that arrives runs on in the open line of its own kind, and begins a line of its own behind
/// any other.
pub proof fn text_runs_on(log: Seq<LogLineView>, kind: LineKind, data: Seq<char>)
    requires
        log.len() < 800,
        data.len() > 0,
        !data.contains('\n'),
    ensures
        ({
            let after = chunked(log, kind, data);
            let runs_on = log.len() > 0 && log.last().kind == kind && !log.last().closed;
            &&& runs_on ==> after == log.drop_last().push(
                LogLineView { kind, text: log.last().text + data, closed: false },
            )
            &&& !runs_on ==> after == log.push(LogLineView { kind, text: data, closed: false })
        }),
{
    unbroken_text_is_one_part(data);
    let after = chunked(log, kind, data);
    let runs_on = log.len() > 0 && log.last().kind == kind && !log.last().closed;
    if runs_on {
        assert(after =~= log.drop_last().push(
            LogLineView { kind, text: log.last().text + data, closed: false },
        ));
    } else {
        assert(Seq::<char>::empty() + data =~= data);
        assert(after =~= log.push(LogLineView { kind, text: data, closed: false }));
    }
}

/// What two runs used together is what each used, kind by kind.
pub proof fn usages_add_up(a: TickUsage, b: TickUsage)
    requires
        a.cache_read_input_tokens + b.cache_read_input_tokens <= u64::MAX,
        a.reasoning_tokens + b.reasoning_tokens <= u64::MAX,
    ensures
        a.plus(b).cache_read_input_tokens == a.cache_read_input_tokens + b.cache_read_input_tokens,
        a.plus(b).reasoning_tokens == a.reasoning_tokens + b.reasoning_tokens,
        a.num_turns is None ==> a.plus(b).num_turns == b.num_turns,
        b.num_turns is None ==> a.plus(b).num_turns == a.num_turns,
        a.num_turns is Some && b.num_turns is Some && a.num_turns->0 + b.num_turns->0 <= u32::MAX
            ==> a.plus(b).num_turns == Some((a.num_turns->0 + b.num_turns->0) as u32),
        a.plus(b) == b.plus(a),
{
}

/// The recent entries are the last ones, in the order in which they came.
pub proof fn recent_entries_are_the_last<T>(all: Seq<T>, n: usize, i: int)
    requires
        0 <= i < n,
        n <= all.len(),
    ensures
        last_of(all, n).len() == n,
        last_of(all, n)[i] == all[all.len() - n + i],
        last_of(all.take(i), n) == all.take(i),
{
}

/// The line under an agent names its total, its last run and its context, each if there is
/// something to name.
pub proof fn usage_lines_name_what_was_used(u: AgentUsage, t: TickUsage)
    requires
        u.last_tick == Some(t),
        u.context is None,
    ensures
        u.game_total.total_tokens > 0 && t.total_tokens > 0 ==> u.board_parts() == seq![
            "Σ"@ + short_count(u.game_total.total_tokens),
            "last "@ + short_count(t.total_tokens),
        ],
        u.game_total.total_tokens == 0 && t.total_tokens == 0 ==> u.board_line() == "—"@,
{
    assert(u.game_total.total_tokens > 0 && t.total_tokens > 0 ==> u.board_parts() =~= seq![
        "Σ"@ + short_count(u.game_total.total_tokens),
        "last "@ + short_count(t.total_tokens),
    ]);
}

/// A record tells the phase it was made in: which night, which day and its stage, or who won.
pub proof fn records_tell_the_phase(n: u32, cursor: usize, reason: EndReason)
    ensures
        ({
            let first = phase_record(Phase::FirstNight { cursor });
            let night = phase_record(Phase::Night { night: n, cursor });
            let talk = phase_record(Phase::Day { day: n, stage: DayStage::Discussion });
            let votes = phase_record(Phase::Day { day: n, stage: DayStage::Nominations });
            let good = phase_record(Phase::Ended { winner: Winner::Good, reason });
            let evil = phase_record(Phase::Ended { winner: Winner::Evil, reason });
            &&& says(first, "kind"@, JsonView::Str("night"@)) && says(first, "night"@, number(1))
            &&& says(night, "kind"@, JsonView::Str("night"@)) && says(
                night,
                "night"@,
                number(n as int),
            )
            &&& says(talk, "kind"@, JsonView::Str("day"@)) && says(talk, "day"@, number(n as int))
                && says(talk, "stage"@, JsonView::Str("Discussion"@))
            &&& says(votes, "day"@, number(n as int)) && says(
                votes,
                "stage"@,
                JsonView::Str("Nominations"@),
            )
            &&& says(good, "winner"@, JsonView::Str("Good"@)) && says(
                evil,
                "winner"@,
                JsonView::Str("Evil"@),
            )
        }),
{
    let first = phase_record(Phase::FirstNight { cursor })->Obj_0;
    let night = phase_record(Phase::Night { night: n, cursor })->Obj_0;
    let talk = phase_record(Phase::Day { day: n, stage: DayStage::Discussion })->Obj_0;
    let votes = phase_record(Phase::Day { day: n, stage: DayStage::Nominations })->Obj_0;
    let good = phase_record(Phase::Ended { winner: Winner::Good, reason })->Obj_0;
    let evil = phase_record(Phase::Ended { winner: Winner::Evil, reason })->Obj_0;
    assert(first[0] == ("kind"@, JsonView::Str("night"@)) && first[1] == ("night"@, number(1)));
    assert(night[0] == ("kind"@, JsonView::Str("night"@)) && night[1] == (
        "night"@,
        number(n as int),
    ));
    assert(talk[0] == ("kind"@, JsonView::Str("day"@)) && talk[1] == ("day"@, number(n as int)));
    assert(talk[2] == ("stage"@, JsonView::Str("Discussion"@)));
    assert(votes[1] == ("day"@, number(n as int)));
    assert(votes[2] == ("stage"@, JsonView::Str("Nominations"@)));
    assert(good[1] == ("winner"@, JsonView::Str("Good"@)));
    assert(evil[1] == ("winner"@, JsonView::Str("Evil"@)));
}

} // verus!
