//! What the results log tells the balancer: which records count, and for what.

use crate::game::phase::{EndReason, Winner};
use crate::game::seat::Seat;
use crate::game::state::GameView;
use crate::harness::agents::{AgentConfigView, AgentRole};
use crate::harness::balance::{
    bumped, cancels, contrast, count_in, entry_of, evil_shares, good_shares, key_of, part_of,
    record_read, seat_read, seats_read, total_count, total_of, with_part, HistoryView, PartView,
    TableView, Tally,
};
use crate::harness::results_log::{
    abort_record, backend_in_role, end_record, head_record, model_in_role, scored_roster,
    seat_record, stamped, start_record, with_missing, won,
};
use crate::harness::stream::AgentUsage;
use crate::json::{reading_a_longer_object, JsonView};
use crate::roles::{team_of, Team};
use vstd::prelude::*;

verus! {

/// Under which key the model at a seat is ranked.
pub open spec fn seat_key(s: Seat, agents: Seq<AgentConfigView>) -> Seq<char> {
    let role = AgentRole::Player { seat: s.id };
    key_of(backend_in_role(agents, role), model_in_role(agents, role))
}

/// What a seat has played.
pub open spec fn part_at(s: Seat) -> PartView {
    match s.true_character {
        Some(c) => part_of(c),
        None => PartView { team: None, role_type: None, role: None },
    }
}

/// The seat plays for the team.
pub open spec fn plays_for(s: Seat, team: Team) -> bool {
    s.true_character matches Some(c) && team_of(c) == team
}

/// One more seat counted, under its model's key. A seat without a model is not counted.
pub open spec fn seat_counted(t: TableView, s: Seat, agents: Seq<AgentConfigView>) -> TableView {
    let key = seat_key(s, agents);
    if key.len() == 0 {
        t
    } else {
        TableView {
            models: with_part(t.models, key, part_at(s)),
            good: if plays_for(s, Team::Good) { bumped(t.good, key) } else { t.good },
            evil: if plays_for(s, Team::Evil) { bumped(t.evil, key) } else { t.evil },
        }
    }
}

/// The table counted seat by seat.
pub open spec fn table_counted(
    h: HistoryView,
    seats: Seq<Seat>,
    agents: Seq<AgentConfigView>,
) -> TableView
    decreases seats.len(),
{
    if seats.len() == 0 {
        TableView { models: h.models, good: seq![], evil: seq![] }
    } else {
        seat_counted(table_counted(h, seats.drop_last(), agents), seats.last(), agents)
    }
}

proof fn heads_name_their_event(event: Seq<char>, run_id: Seq<char>, game_id: u64)
    ensures
        head_record(event, run_id, game_id) is Obj,
        head_record(event, run_id, game_id).text_at("event"@) == Some(event),
        head_record(event, run_id, game_id).field("seats"@) is None,
{
    reveal_strlit("event");
    reveal_strlit("run_id");
    reveal_strlit("game_id");
    reveal_strlit("seats");
    let empty = JsonView::object();
    let one = empty.with("event"@, JsonView::Str(event));
    let two = one.with("run_id"@, JsonView::Str(run_id));
    assert(empty.field("event"@) is None);
    assert(empty.field("seats"@) is None);
    assert("event"@[0] != "seats"@[0]);
    reading_a_longer_object(empty, "event"@, JsonView::Str(event));
    reading_a_longer_object(one, "run_id"@, JsonView::Str(run_id));
    reading_a_longer_object(two, "game_id"@, JsonView::Int(game_id as int));
}

proof fn seats_are_recorded(s: Seat, agents: Seq<AgentConfigView>, winner: Winner)
    ensures
        ({
            let role = AgentRole::Player { seat: s.id };
            let r = seat_record(s, agents).with(
                "won"@,
                JsonView::Bool(won(s.true_character, winner)),
            );
            &&& r.text_at("model"@) == Some(model_in_role(agents, role))
            &&& r.text_at("backend"@) == Some(backend_in_role(agents, role))
            &&& r.text_at("team"@) == part_at(s).team
            &&& r.text_at("character_type"@) == part_at(s).role_type
            &&& r.text_at("true_character"@) == part_at(s).role
        }),
{
    reveal_strlit("seat");
    reveal_strlit("name");
    reveal_strlit("model");
    reveal_strlit("backend");
    reveal_strlit("true_character");
    reveal_strlit("believed_character");
    reveal_strlit("team");
    reveal_strlit("character_type");
    assert("seat"@.len() == 4 && "name"@.len() == 4);
    assert("model"@.len() == 5 && "backend"@.len() == 7);
    assert("true_character"@.len() == 14 && "believed_character"@.len() == 18 && "team"@.len() == 4
        && "character_type"@.len() == 14);
    assert("team"@[0] != "seat"@[0] && "team"@[0] != "name"@[0]);
    assert("true_character"@[0] != "character_type"@[0]);
    let role = AgentRole::Player { seat: s.id };
    let believed = match s.believed_character {
        Some(c) => Some(c),
        None => s.true_character,
    };
    let o0 = JsonView::object();
    let v0 = JsonView::Int(s.id.0 as int);
    let o1 = o0.with("seat"@, v0);
    let v1 = JsonView::Str(s.display_name@);
    let o2 = o1.with("name"@, v1);
    let v2 = JsonView::Str(model_in_role(agents, role));
    let o3 = o2.with("model"@, v2);
    let v3 = JsonView::Str(backend_in_role(agents, role));
    let o4 = o3.with("backend"@, v3);
    let v4 = crate::harness::results_log::character_record(s.true_character);
    let o5 = o4.with("true_character"@, v4);
    let v5 = crate::harness::results_log::character_record(believed);
    let o6 = o5.with("believed_character"@, v5);
    let v6 = crate::harness::results_log::team_record(s.true_character);
    let o7 = o6.with("team"@, v6);
    let v7 = crate::harness::results_log::type_record(s.true_character);
    let o8 = o7.with("character_type"@, v7);
    let v8 = JsonView::Bool(s.alive);
    let o9 = o8.with("alive"@, v8);
    let v9 = JsonView::Bool(s.is_drunk_outsider);
    let o10 = o9.with("is_drunk_outsider"@, v9);
    assert(o10 == seat_record(s, agents));
    reading_a_longer_object(o0, "seat"@, v0);
    reading_a_longer_object(o1, "name"@, v1);
    reading_a_longer_object(o2, "model"@, v2);
    reading_a_longer_object(o3, "backend"@, v3);
    reading_a_longer_object(o4, "true_character"@, v4);
    reading_a_longer_object(o5, "believed_character"@, v5);
    reading_a_longer_object(o6, "team"@, v6);
    reading_a_longer_object(o7, "character_type"@, v7);
    reading_a_longer_object(o8, "alive"@, v8);
    reading_a_longer_object(o9, "is_drunk_outsider"@, v9);
    reading_a_longer_object(o10, "won"@, JsonView::Bool(won(s.true_character, winner)));
    assert(o3.field("model"@) == Some(v2));
    assert(o4.field("backend"@) == Some(v3));
    assert(o5.field("true_character"@) == Some(v4));
    assert(o7.field("team"@) == Some(v6));
    assert(o8.field("character_type"@) == Some(v7));
}

proof fn rosters_are_counted(
    h: HistoryView,
    seats: Seq<Seat>,
    agents: Seq<AgentConfigView>,
    winner: Winner,
)
    ensures
        seats_read(
            h.models,
            seats.map_values(
                |s: Seat|
                    seat_record(s, agents).with(
                        "won"@,
                        JsonView::Bool(won(s.true_character, winner)),
                    ),
            ),
        ) == table_counted(h, seats, agents),
    decreases seats.len(),
{
    let scored = |s: Seat|
        seat_record(s, agents).with("won"@, JsonView::Bool(won(s.true_character, winner)));
    let records = seats.map_values(scored);
    if seats.len() > 0 {
        let front = seats.drop_last();
        rosters_are_counted(h, front, agents, winner);
        assert(records.drop_last() =~= front.map_values(scored));
        assert(records.last() == scored(seats.last()));
        seats_are_recorded(seats.last(), agents, winner);
        reveal_strlit("Good");
        reveal_strlit("Evil");
        assert("Good"@[0] != "Evil"@[0]);
        assert(seat_read(seats_read(h.models, records.drop_last()), records.last())
            == seat_counted(table_counted(h, front, agents), seats.last(), agents));
    }
}

/// What is written of a finished game is what the balancer reads: each seat with a model counts
/// once for its model, with its team, its kind of character and its character, and the game counts
/// as one contest if it has a contrast.
pub proof fn finished_games_are_counted(
    h: HistoryView,
    run_id: Seq<char>,
    game_id: u64,
    g: GameView,
    agents: Seq<AgentConfigView>,
    usage: Seq<(String, AgentUsage)>,
    winner: Winner,
    reason: EndReason,
)
    ensures
        ({
            let t = table_counted(h, g.seats, agents);
            record_read(h, end_record(run_id, game_id, g, agents, usage, winner, reason)) == (
            HistoryView {
                models: t.models,
                contests: match contrast(t.good, t.evil) {
                    Some(c) => h.contests.push(c),
                    None => h.contests,
                },
            })
        }),
{
    reveal_strlit("winner");
    reveal_strlit("reason");
    reveal_strlit("host");
    reveal_strlit("seats");
    assert("winner"@.len() == 6 && "reason"@.len() == 6);
    assert("host"@.len() == 4 && "seats"@.len() == 5);
    let o0 = head_record("game_end"@, run_id, game_id);
    heads_name_their_event("game_end"@, run_id, game_id);
    let v0 = JsonView::Str(crate::game::phase::winner_word(winner));
    let o1 = o0.with("winner"@, v0);
    let v1 = JsonView::Str(crate::game::phase::reason_word(reason));
    let o2 = o1.with("reason"@, v1);
    let v2 = crate::harness::results_log::host_record(agents);
    let o3 = o2.with("host"@, v2);
    let v3 = JsonView::Arr(scored_roster(g, agents, winner));
    let o4 = o3.with("seats"@, v3);
    let v4 = JsonView::Arr(crate::harness::results_log::usage_records(usage));
    let o5 = o4.with("usage"@, v4);
    let v5 = crate::harness::results_log::phase_record(g.phase);
    reading_a_longer_object(o0, "winner"@, v0);
    reading_a_longer_object(o1, "reason"@, v1);
    reading_a_longer_object(o2, "host"@, v2);
    reading_a_longer_object(o3, "seats"@, v3);
    reading_a_longer_object(o4, "usage"@, v4);
    reading_a_longer_object(o5, "phase"@, v5);
    let record = end_record(run_id, game_id, g, agents, usage, winner, reason);
    assert(record == o5.with("phase"@, v5));
    assert(o4.field("seats"@) == Some(v3));
    assert(record.text_at("event"@) == Some("game_end"@));
    assert(record.items_at("seats"@) == Some(scored_roster(g, agents, winner)));
    rosters_are_counted(h, g.seats, agents, winner);
}

/// Games that were only started, or given up, teach the balancer nothing.
pub proof fn unfinished_games_teach_nothing(
    h: HistoryView,
    run_id: Seq<char>,
    game_id: u64,
    g: Option<GameView>,
    begun: GameView,
    agents: Seq<AgentConfigView>,
    text: Seq<char>,
    seed: u64,
    usage: Seq<(String, AgentUsage)>,
)
    ensures
        record_read(h, start_record(run_id, game_id, begun, agents, seed, text)) == h,
        record_read(h, abort_record(run_id, game_id, g, agents, text, usage)) == h,
{
    reveal_strlit("game_start");
    reveal_strlit("game_abort");
    reveal_strlit("game_end");
    assert("game_start"@.len() == 10 && "game_abort"@.len() == 10 && "game_end"@.len() == 8);
    heads_name_their_event("game_start"@, run_id, game_id);
    heads_name_their_event("game_abort"@, run_id, game_id);
    assert forall|o: JsonView, key: Seq<char>, v: JsonView|
        o.text_at("event"@) is Some implies (#[trigger] o.with(key, v)).text_at("event"@)
        == o.text_at("event"@) by {
        reading_a_longer_object(o, key, v);
    }
    assert(start_record(run_id, game_id, begun, agents, seed, text).text_at("event"@) == Some(
        "game_start"@,
    ));
    assert(abort_record(run_id, game_id, g, agents, text, usage).text_at("event"@) == Some(
        "game_abort"@,
    ));
}

/// The stamp of a line changes nothing in what is read from it.
pub proof fn stamps_change_no_reading(h: HistoryView, record: JsonView, now_unix_ms: u64)
    ensures
        record_read(h, stamped(record, now_unix_ms)) == record_read(h, record),
{
    reveal_strlit("v");
    reveal_strlit("ts_unix_ms");
    reveal_strlit("event");
    reveal_strlit("seats");
    assert("v"@.len() == 1 && "ts_unix_ms"@.len() == 10);
    assert("event"@.len() == 5 && "seats"@.len() == 5);
    let version = JsonView::Int(crate::harness::results_log::SCHEMA_VERSION as int);
    let once = with_missing(record, "v"@, version);
    reading_a_longer_object(record, "v"@, version);
    reading_a_longer_object(once, "ts_unix_ms"@, JsonView::Int(now_unix_ms as int));
    assert(once.field("event"@) == record.field("event"@));
    assert(once.field("seats"@) == record.field("seats"@));
}

/// Counts that are all under one name.
pub open spec fn all_under(t: Tally, key: Seq<char>) -> bool {
    t.len() <= 1 && (t.len() == 1 ==> t[0].0 == key)
}

proof fn bumping_one_name(t: Tally, key: Seq<char>)
    requires
        all_under(t, key),
    ensures
        all_under(bumped(t, key), key),
{
    if t.len() == 1 {
        assert(t.drop_last().len() == 0);
        assert(entry_of(t.drop_last(), key) is None);
        assert(t.last() == t[0]);
    }
}

proof fn one_model_fills_one_name(
    h: HistoryView,
    seats: Seq<Seat>,
    agents: Seq<AgentConfigView>,
    model: Seq<char>,
)
    requires
        forall|i: int|
            0 <= i < seats.len() ==> seat_key(#[trigger] seats[i], agents) == model || seat_key(
                seats[i],
                agents,
            ).len() == 0,
    ensures
        all_under(table_counted(h, seats, agents).good, model),
        all_under(table_counted(h, seats, agents).evil, model),
    decreases seats.len(),
{
    if seats.len() > 0 {
        let front = seats.drop_last();
        assert forall|i: int| 0 <= i < front.len() implies seat_key(#[trigger] front[i], agents)
            == model || seat_key(front[i], agents).len() == 0 by {
            assert(front[i] == seats[i]);
        }
        one_model_fills_one_name(h, front, agents, model);
        assert(seats[seats.len() - 1] == seats.last());
        let t = table_counted(h, front, agents);
        bumping_one_name(t.good, model);
        bumping_one_name(t.evil, model);
    }
}

proof fn one_name_has_no_contrast(good: Tally, evil: Tally, key: Seq<char>)
    requires
        all_under(good, key),
        all_under(evil, key),
    ensures
        contrast(good, evil) is None,
{
    let gt = total_count(good);
    let et = total_count(evil);
    if good.len() == 1 && evil.len() == 1 {
        let g = good[0].1;
        let e = evil[0].1;
        assert(good.drop_last().len() == 0 && evil.drop_last().len() == 0);
        assert(good.last() == good[0] && evil.last() == evil[0]);
        assert(total_of(good.drop_last()) == 0 && total_of(evil.drop_last()) == 0);
        assert(gt == g && et == e);
        assert(entry_of(good.drop_last(), key) is None);
        assert(entry_of(evil.drop_last(), key) is None);
        assert(count_in(evil, key) == e);
        assert(cancels(g, e, gt, et)) by (nonlinear_arith)
            requires
                gt == g,
                et == e,
        ;
        assert(good_shares(good.drop_last(), evil, gt, et).len() == 0);
        assert(evil_shares(good, evil.drop_last(), gt, et).len() == 0);
        assert(good_shares(good, evil, gt, et).len() == 0);
        assert(evil_shares(good, evil, gt, et).len() == 0);
    } else if good.len() == 0 {
        assert(total_of(good) == 0);
    } else {
        assert(total_of(evil) == 0);
    }
}

/// A table where every seat is the same model has no contrast: it adds no contest.
pub proof fn self_play_teaches_no_contrast(
    h: HistoryView,
    run_id: Seq<char>,
    game_id: u64,
    g: GameView,
    agents: Seq<AgentConfigView>,
    usage: Seq<(String, AgentUsage)>,
    winner: Winner,
    reason: EndReason,
    model: Seq<char>,
)
    requires
        forall|i: int|
            0 <= i < g.seats.len() ==> seat_key(#[trigger] g.seats[i], agents) == model || seat_key(
                g.seats[i],
                agents,
            ).len() == 0,
    ensures
        record_read(h, end_record(run_id, game_id, g, agents, usage, winner, reason)).contests
            == h.contests,
{
    finished_games_are_counted(h, run_id, game_id, g, agents, usage, winner, reason);
    one_model_fills_one_name(h, g.seats, agents, model);
    let t = table_counted(h, g.seats, agents);
    one_name_has_no_contrast(t.good, t.evil, model);
}

proof fn good_shares_do_not_cancel(good: Tally, evil: Tally, gt: u64, et: u64)
    ensures
        forall|i: int|
            0 <= i < good_shares(good, evil, gt, et).len() ==> !cancels(
                (#[trigger] good_shares(good, evil, gt, et)[i]).1,
                good_shares(good, evil, gt, et)[i].2,
                gt,
                et,
            ),
    decreases good.len(),
{
    if good.len() > 0 {
        good_shares_do_not_cancel(good.drop_last(), evil, gt, et);
        let front = good_shares(good.drop_last(), evil, gt, et);
        let all = good_shares(good, evil, gt, et);
        assert forall|i: int| 0 <= i < all.len() implies !cancels(
            (#[trigger] all[i]).1,
            all[i].2,
            gt,
            et,
        ) by {
            if i < front.len() {
                assert(all[i] == front[i]);
            }
        }
    }
}

proof fn evil_shares_do_not_cancel(good: Tally, evil: Tally, gt: u64, et: u64)
    ensures
        forall|i: int|
            0 <= i < evil_shares(good, evil, gt, et).len() ==> !cancels(
                (#[trigger] evil_shares(good, evil, gt, et)[i]).1,
                evil_shares(good, evil, gt, et)[i].2,
                gt,
                et,
            ),
    decreases evil.len(),
{
    if evil.len() > 0 {
        evil_shares_do_not_cancel(good, evil.drop_last(), gt, et);
        let front = evil_shares(good, evil.drop_last(), gt, et);
        let all = evil_shares(good, evil, gt, et);
        assert forall|i: int| 0 <= i < all.len() implies !cancels(
            (#[trigger] all[i]).1,
            all[i].2,
            gt,
            et,
        ) by {
            if i < front.len() {
                assert(all[i] == front[i]);
            }
        }
    }
}

/// A contest has two sides, and a model is in it only if its shares of the two sides differ.
pub proof fn contests_have_contrast(good: Tally, evil: Tally)
    ensures
        contrast(good, evil) matches Some(c) ==> {
            &&& c.good_total > 0 && c.evil_total > 0
            &&& c.shares.len() > 0
            &&& forall|i: int|
                0 <= i < c.shares.len() ==> !cancels(
                    (#[trigger] c.shares[i]).1,
                    c.shares[i].2,
                    c.good_total,
                    c.evil_total,
                )
        },
{
    if let Some(c) = contrast(good, evil) {
        let ours = good_shares(good, evil, c.good_total, c.evil_total);
        let theirs = evil_shares(good, evil, c.good_total, c.evil_total);
        good_shares_do_not_cancel(good, evil, c.good_total, c.evil_total);
        evil_shares_do_not_cancel(good, evil, c.good_total, c.evil_total);
        assert(c.shares == ours + theirs);
        assert forall|i: int| 0 <= i < c.shares.len() implies !cancels(
            (#[trigger] c.shares[i]).1,
            c.shares[i].2,
            c.good_total,
            c.evil_total,
        ) by {
            if i < ours.len() {
                assert(c.shares[i] == ours[i]);
            } else {
                assert(c.shares[i] == theirs[i - ours.len()]);
            }
        }
    }
}

} // verus!
