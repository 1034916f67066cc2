//! What agents and the board are told of a game.

use crate::comms::{EventId, PublicEventView, PublicLogView};
use crate::game::ability::kill_laws::{alive_count, the_living_are_counted};
use crate::game::ids::SeatId;
use crate::game::seat::Seat;
use crate::game::st_policy::PendingHostDecision;
use crate::game::state::GameView;
use crate::harness::action_log::{ActionEntryView, ActionKind};
use crate::harness::prompts::{
    host_action_text, player_actions_text, player_why_text, ACT_VIA_TOOLS, DECIDE_1, DECIDE_2,
    END_DISCUSSION, END_NOMINATIONS, GHOST_ACT_1, GHOST_ACT_2, GHOST_ACT_3, HOST_TASK_1,
    HOST_TASK_2, HOST_TASK_3, HOST_TASK_4, HOST_TASK_5, HOST_TASK_6, HOST_TASK_7, LIVE_ACT_1,
    LIVE_ACT_2, PLAYER_TASK_1, PLAYER_TASK_2, PLAYER_TASK_3, PLAYER_TASK_4, PLAYER_TASK_5,
    PLAYER_TASK_6, PLAYER_TASK_7, PLAYER_TASK_8, PLAYER_TASK_9, SKIP_WAKE_1, SKIP_WAKE_2,
    SKIP_WAKE_3, VOTE_WHY_1, VOTE_WHY_2, VOTE_WHY_3, VOTE_WHY_4,
};
use crate::harness::scheduler::{HostTaskView, PlayerTaskView, SchedTargetView};
use crate::harness::summary::{event_line, recent_lines};
use crate::harness::tui::board::board_of;
use crate::harness::tui::feed::{shows, window, FeedFilter};
use crate::harness::wake::prompt_for;
use crate::roles::Team;
use crate::tools::views::decision_detail;
use crate::text::dec;
use vstd::prelude::*;

verus! {

/// How a seat is called.
pub open spec fn called(seat: SeatId) -> Seq<char> {
    "P"@ + dec(seat.0 as nat)
}

/// What happened is put in the words for it: who voted how on whom, who was nominated, executed or
/// died, and who won.
pub proof fn events_are_put_in_words(seat: SeatId, other: SeatId)
    ensures
        event_line(PublicEventView::VoteCast { seat, nominee: other, support: true }) == called(
            seat,
        ) + " voted "@ + "YES"@ + " on P"@ + dec(other.0 as nat),
        event_line(PublicEventView::VoteCast { seat, nominee: other, support: false }) == called(
            seat,
        ) + " voted "@ + "no"@ + " on P"@ + dec(other.0 as nat),
        event_line(PublicEventView::Nominated { by: seat, target: other }) == called(seat)
            + " nominated P"@ + dec(other.0 as nat),
        event_line(PublicEventView::Executed { seat }) == called(seat) + " was executed"@,
        event_line(PublicEventView::PlayerDied { seat }) == called(seat) + " died"@,
        event_line(PublicEventView::NoExecution) == "No one was executed today"@,
        event_line(PublicEventView::SlayerMiss { slayer: seat, target: other }) == called(seat)
            + " tried to slay P"@ + dec(other.0 as nat) + " — nothing happened"@,
        event_line(PublicEventView::GameEnded { winner: Team::Good }) == "Game over — "@ + "Good"@
            + " wins"@,
        event_line(PublicEventView::GameEnded { winner: Team::Evil }) == "Game over — "@ + "Evil"@
            + " wins"@,
{
}

/// Everybody publicly alive is listed among the living, and everybody else among the dead.
pub proof fn snapshots_list_everybody(g: GameView, i: int)
    requires
        0 <= i < g.seats.len(),
    ensures
        ({
            let s = g.seats[i];
            let night = g.phase is FirstNight || g.phase is Night;
            let known_dead = !s.alive && !(night && g.deaths_tonight.contains(s.id));
            &&& !known_dead ==> g.roster_tags(g.seats, true).contains(called(s.id))
            &&& known_dead ==> g.roster_tags(g.seats, false).contains(called(s.id))
        }),
{
    seats_are_listed(g, g.seats, i, g.publicly_alive(g.seats[i]));
}

proof fn seats_are_listed(g: GameView, seats: Seq<Seat>, i: int, alive: bool)
    requires
        0 <= i < seats.len(),
        g.publicly_alive(seats[i]) == alive,
    ensures
        g.roster_tags(seats, alive).contains(called(seats[i].id)),
    decreases seats.len(),
{
    let front = seats.drop_last();
    let short = g.roster_tags(front, alive);
    let all = g.roster_tags(seats, alive);
    if i < front.len() {
        assert(front[i] == seats[i]);
        seats_are_listed(g, front, i, alive);
        let k = short.index_of(called(seats[i].id));
        assert(all[k] == called(seats[i].id));
    } else {
        assert(all[short.len() as int] == called(seats[i].id));
    }
}

/// The latest sixteen events are listed, in their order and ending with the last.
pub proof fn snapshots_end_with_the_latest(log: PublicLogView)
    ensures
        ({
            let all = log.since(0);
            let lines = recent_lines(log);
            &&& lines.len() == if all.len() <= 16 { all.len() } else { 16 }
            &&& forall|k: int|
                0 <= k < lines.len() ==> (#[trigger] lines[k]) == event_line(
                    all[all.len() - lines.len() + k].1,
                )
        }),
{
    let all: Seq<(EventId, PublicEventView)> = log.since(0);
    let lines = recent_lines(log);
    assert forall|k: int| 0 <= k < lines.len() implies (#[trigger] lines[k]) == event_line(
        all[all.len() - lines.len() + k].1,
    ) by {}
}

/// The board shows every seat as it truly is, every ballot as it was cast, and which nominations
/// have at least half of the living behind them.
pub proof fn boards_show_the_table(g: GameView, i: int, k: int)
    requires
        alive_count(g.seats) < u32::MAX,
    ensures
        ({
            let b = board_of(g);
            let living = alive_count(g.seats);
            &&& b.seats.len() == g.seats.len()
            &&& 0 <= i < g.seats.len() ==> ({
                let s = g.seats[i];
                let shown = b.seats[i];
                &&& shown.seat == s.id.0 && shown.alive == s.alive && shown.true_char
                    == s.true_character && shown.believed == s.believed_character
                &&& shown.poisoned == s.poisoned && shown.is_drunk_outsider == s.is_drunk_outsider
                &&& shown.ghost_vote_available == s.ghost_vote_available
            })
            &&& b.closed_noms.len() == g.closed_nominations.len()
            &&& 0 <= k < g.closed_nominations.len() ==> ({
                let c = g.closed_nominations[k];
                let shown = b.closed_noms[k];
                &&& shown.by == c.by.0 && shown.target == c.target.0 && shown.yes == c.yes_votes
                &&& living > 0 ==> shown.meets_threshold == (2 * c.yes_votes >= living)
            })
            &&& b.open_nom is Some <==> g.current_nomination is Some
            &&& b.open_nom matches Some(o) ==> ({
                let open = g.current_nomination->0;
                &&& o.by == open.by.0 && o.target == open.target.0
                &&& o.votes.len() == open.votes.len()
                &&& 0 <= k < open.votes.len() ==> o.votes[k] == (open.votes[k].0.0, open.votes[k].1)
            })
        }),
{
    the_living_are_counted(g.seats);
}

/// The narrow feed leaves out looks that went well, and nothing else.
pub proof fn the_narrow_feed_shows_play_and_trouble(e: ActionEntryView)
    ensures
        shows(FeedFilter::All, e),
        shows(FeedFilter::GameOnly, e) <==> e.kind == ActionKind::Game || !e.ok,
{
}

/// At the tail the window ends with the newest row, and scrolling up by one moves it by one.
pub proof fn windows_follow_the_tail<T>(rows: Seq<T>, height: nat, scroll: nat)
    requires
        height > 0,
        scroll + height < rows.len(),
    ensures
        window(rows, height, scroll).len() == height,
        window(rows, height, scroll).last() == rows[rows.len() - 1 - scroll],
        window(rows, height, scroll + 1).last() == rows[rows.len() - 2 - scroll],
{
}

/// The text has this passage in it.
pub open spec fn has(text: Seq<char>, passage: Seq<char>) -> bool {
    exists|i: int|
        0 <= i && i + passage.len() <= text.len() && #[trigger] text.subrange(
            i,
            i + passage.len() as int,
        ) == passage
}

proof fn passages_stay(a: Seq<char>, passage: Seq<char>, b: Seq<char>)
    ensures
        has(a + passage + b, passage),
{
    let text = a + passage + b;
    let i = a.len() as int;
    assert(text.subrange(i, i + passage.len() as int) =~= passage);
}

proof fn more_text(text: Seq<char>, more: Seq<char>)
    ensures
        has(text + more, more),
        forall|p: Seq<char>| #[trigger] has(text, p) ==> has(text + more, p),
{
    let n = text.len() as int;
    let longer = text + more;
    assert(longer.subrange(n, n + more.len() as int) =~= more);
    assert forall|p: Seq<char>| #[trigger] has(text, p) implies has(longer, p) by {
        let i = choose|i: int|
            0 <= i && i + p.len() <= text.len() && #[trigger] text.subrange(i, i + p.len() as int)
                == p;
        assert(longer.subrange(i, i + p.len() as int) =~= text.subrange(i, i + p.len() as int));
    }
}

proof fn three_passages(text: Seq<char>, a: Seq<char>, b: Seq<char>, c: Seq<char>)
    ensures
        has(text + a + b + c, a + b + c),
{
    let n = text.len() as int;
    let passage = a + b + c;
    let longer = text + a + b + c;
    assert(longer.subrange(n, n + passage.len() as int) =~= passage);
}

/// The prompt of a player names the player, the seat and the game, says what they are woken for and
/// shows what is public.
pub proof fn players_are_told_why(
    name: Seq<char>,
    g: GameView,
    seat: SeatId,
    task: PlayerTaskView,
)
    ensures
        ({
            let text = prompt_for(name, g, SchedTargetView::Player { seat, task });
            &&& has(text, name)
            &&& has(text, PLAYER_TASK_2@ + dec(seat.0 as nat) + PLAYER_TASK_3@)
            &&& has(text, PLAYER_TASK_3@ + dec(g.id.0 as nat) + PLAYER_TASK_4@)
            &&& has(text, player_why_text(task))
            &&& has(text, player_actions_text(task, g.id.0))
            &&& has(text, g.public_snapshot())
        }),
{
    let number = dec(seat.0 as nat);
    let game = dec(g.id.0 as nat);
    let why = player_why_text(task);
    let how = player_actions_text(task, g.id.0);
    let shown = g.public_snapshot();
    let t0 = PLAYER_TASK_1@;
    more_text(t0, name);
    let t1 = t0 + name;
    more_text(t1, PLAYER_TASK_2@);
    let t2 = t1 + PLAYER_TASK_2@;
    more_text(t2, number);
    let t3 = t2 + number;
    more_text(t3, PLAYER_TASK_3@);
    let t4 = t3 + PLAYER_TASK_3@;
    three_passages(t1, PLAYER_TASK_2@, number, PLAYER_TASK_3@);
    more_text(t4, game);
    let t5 = t4 + game;
    more_text(t5, PLAYER_TASK_4@);
    let t6 = t5 + PLAYER_TASK_4@;
    three_passages(t3, PLAYER_TASK_3@, game, PLAYER_TASK_4@);
    more_text(t6, why);
    let t7 = t6 + why;
    more_text(t7, PLAYER_TASK_5@);
    let t8 = t7 + PLAYER_TASK_5@;
    more_text(t8, how);
    let t9 = t8 + how;
    more_text(t9, PLAYER_TASK_6@);
    let t10 = t9 + PLAYER_TASK_6@;
    more_text(t10, shown);
    let t11 = t10 + shown;
    more_text(t11, PLAYER_TASK_7@);
    let t12 = t11 + PLAYER_TASK_7@;
    more_text(t12, game);
    let t13 = t12 + game;
    more_text(t13, PLAYER_TASK_8@);
    let t14 = t13 + PLAYER_TASK_8@;
    more_text(t14, ACT_VIA_TOOLS@);
    more_text(t14 + ACT_VIA_TOOLS@, PLAYER_TASK_9@);
}

/// A voter is told who is on trial and the votes so far, and whether the nominator's yes is among
/// them.
pub proof fn voters_are_told_the_tally(
    nomination: Seq<char>,
    tally: Seq<char>,
    can_pass: bool,
    nominator_yes: bool,
)
    ensures
        ({
            let text = player_why_text(
                PlayerTaskView::Vote { nomination, tally, can_pass, nominator_yes },
            );
            &&& has(text, nomination)
            &&& has(text, tally)
            &&& nominator_yes ==> has(text, "The nominator's yes is already in the tally. "@)
            &&& !nominator_yes ==> has(
                text,
                "The nominator has not (yet) recorded a yes — count only what is in the tally. "@,
            )
        }),
{
    let text = player_why_text(PlayerTaskView::Vote { nomination, tally, can_pass, nominator_yes });
    let yes = if nominator_yes {
        "The nominator's yes is already in the tally. "@
    } else {
        "The nominator has not (yet) recorded a yes — count only what is in the tally. "@
    };
    let end = VOTE_WHY_3@ + tally + VOTE_WHY_4@;
    let start = VOTE_WHY_1@ + nomination + VOTE_WHY_2@;
    passages_stay(VOTE_WHY_1@, nomination, VOTE_WHY_2@ + yes + end);
    assert(text =~= VOTE_WHY_1@ + nomination + (VOTE_WHY_2@ + yes + end));
    passages_stay(start, yes, end);
    assert(text =~= start + yes + end);
    passages_stay(start + yes + VOTE_WHY_3@, tally, VOTE_WHY_4@);
    assert(text =~= (start + yes + VOTE_WHY_3@) + tally + VOTE_WHY_4@);
}

/// The prompt of the host names the game, says what to do, and shows what is public and what is
/// waited for.
pub proof fn hosts_are_told_what_to_do(name: Seq<char>, g: GameView, task: HostTaskView)
    ensures
        ({
            let text = prompt_for(name, g, SchedTargetView::Host(task));
            &&& has(text, HOST_TASK_1@ + dec(g.id.0 as nat) + HOST_TASK_2@)
            &&& has(text, host_action_text(task))
            &&& has(text, HOST_TASK_3@ + g.public_snapshot() + HOST_TASK_4@)
            &&& has(text, HOST_TASK_4@ + g.host_hint() + HOST_TASK_5@)
        }),
{
    let game = dec(g.id.0 as nat);
    let what = host_action_text(task);
    let shown = g.public_snapshot();
    let hint = g.host_hint();
    let t1 = HOST_TASK_1@ + game;
    let t2 = t1 + HOST_TASK_2@;
    more_text(seq![], t2);
    assert(Seq::<char>::empty() + t2 =~= t2);
    more_text(t2, what);
    let t3 = t2 + what;
    more_text(t3, HOST_TASK_3@);
    let t4 = t3 + HOST_TASK_3@;
    more_text(t4, shown);
    let t5 = t4 + shown;
    more_text(t5, HOST_TASK_4@);
    let t6 = t5 + HOST_TASK_4@;
    three_passages(t3, HOST_TASK_3@, shown, HOST_TASK_4@);
    more_text(t6, hint);
    let t7 = t6 + hint;
    more_text(t7, HOST_TASK_5@);
    let t8 = t7 + HOST_TASK_5@;
    three_passages(t5, HOST_TASK_4@, hint, HOST_TASK_5@);
    more_text(t8, game);
    let t9 = t8 + game;
    more_text(t9, HOST_TASK_6@);
    let t10 = t9 + HOST_TASK_6@;
    more_text(t10, ACT_VIA_TOOLS@);
    more_text(t10 + ACT_VIA_TOOLS@, HOST_TASK_7@);
}

/// The host is told first of a decision that is waited for, then of the player who is, and else that
/// nothing is.
pub proof fn hints_name_what_is_waited_for(g: GameView)
    ensures
        g.pending_host is Some ==> g.host_hint()
            == "pending_host set — resolve with host_decide or skip_night_action"@,
        g.pending_host is None && g.pending_night is Some ==> g.host_hint()
            == "pending night wake seat "@ + dec(g.pending_night->0.seat.0 as nat),
        g.pending_host is None && g.pending_night is None ==> g.host_hint()
            == "no pending host/night wait"@,
{
}

/// Only the dead are told how to pass, the stage decides how a day is closed, and a decision and a
/// stuck player are named.
pub proof fn tasks_are_put_in_their_own_words(
    task: PlayerTaskView,
    game: u64,
    kind: Seq<char>,
    detail: Seq<char>,
    seat: SeatId,
)
    requires
        task is Vote,
    ensures
        task->Vote_can_pass ==> player_actions_text(task, game) == GHOST_ACT_1@ + dec(game as nat)
            + GHOST_ACT_2@ + dec(game as nat) + GHOST_ACT_3@,
        !task->Vote_can_pass ==> player_actions_text(task, game) == LIVE_ACT_1@ + dec(game as nat)
            + LIVE_ACT_2@,
        host_action_text(HostTaskView::EndDay { in_discussion: true }) == END_DISCUSSION@,
        host_action_text(HostTaskView::EndDay { in_discussion: false }) == END_NOMINATIONS@,
        has(host_action_text(HostTaskView::ResolveDecision { kind, detail }), detail),
        has(host_action_text(HostTaskView::SkipStuckWake { seat }), dec(seat.0 as nat)),
{
    passages_stay(DECIDE_1@, detail, DECIDE_2@);
    let number = dec(seat.0 as nat);
    more_text(SKIP_WAKE_1@, number);
    more_text(SKIP_WAKE_1@ + number, SKIP_WAKE_2@);
    more_text(SKIP_WAKE_1@ + number + SKIP_WAKE_2@, number);
    more_text(SKIP_WAKE_1@ + number + SKIP_WAKE_2@ + number, SKIP_WAKE_3@);
}

/// A decision is described by the seats it is about.
pub proof fn decisions_name_their_seats(p: PendingHostDecision)
    ensures
        p matches PendingHostDecision::MayorRedirect { mayor, .. } ==> decision_detail(p)
            == "mayor seat "@ + dec(mayor.0 as nat),
        p matches PendingHostDecision::StarpassPick { dead_imp, .. } ==> decision_detail(p)
            == "dead_imp seat "@ + dec(dead_imp.0 as nat),
        p matches PendingHostDecision::NightInfo { seat, ability, reason, .. } ==> decision_detail(
            p,
        ) == ability@ + " for seat "@ + dec(seat.0 as nat) + " ("@ + reason@ + ")"@,
        p matches PendingHostDecision::VirginSpyReg { nominator, virgin } ==> decision_detail(p)
            == "nominator seat "@ + dec(nominator.0 as nat) + " virgin seat "@ + dec(
            virgin.0 as nat,
        ),
        p matches PendingHostDecision::SlayerRecluseReg { slayer, target } ==> decision_detail(p)
            == "slayer seat "@ + dec(slayer.0 as nat) + " target seat "@ + dec(target.0 as nat),
{
}

} // verus!
