//! Whom the scheduler asks: everybody the game waits for, and nobody else.

use crate::game::ability::info_laws::{distinct_ids, found_where_it_stands, is_kept, kept_ids_stand};
use crate::game::day::{voted_by, OpenNominationView};
use crate::game::day_laws::has_voted;
use crate::game::ids::SeatId;
use crate::game::phase::{DayStage, Phase};
use crate::game::seat::{ids_where, Seat};
use crate::game::state::GameView;
use crate::harness::scheduler::{
    has_answered, HostTaskView, PlayerTaskView, SchedTargetView,
};
use crate::text::dec;
use vstd::prelude::*;

verus! {

/// The seat still owes the open nomination an answer: alive, or dead with the ghost vote left, and
/// neither voted nor passed.
pub open spec fn owes_an_answer(nom: OpenNominationView, s: Seat) -> bool {
    &&& s.alive || s.ghost_vote_available
    &&& !has_voted(nom.votes, s.id)
    &&& !nom.passes.contains(s.id)
}

/// The plan asks the seat for a vote.
pub open spec fn asks_for_a_vote(plan: Seq<SchedTargetView>, seat: SeatId) -> bool {
    exists|k: int|
        0 <= k < plan.len() && ((#[trigger] plan[k]) matches SchedTargetView::Player {
            seat: asked,
            task: PlayerTaskView::Vote { .. },
        } && asked == seat)
}

/// The plan tells the host to close the vote.
pub open spec fn closes_the_vote(plan: Seq<SchedTargetView>) -> bool {
    plan.contains(SchedTargetView::Host(HostTaskView::CloseVoting))
}

proof fn answers_are_answers(nom: OpenNominationView, id: SeatId)
    ensures
        has_answered(nom, id) == (has_voted(nom.votes, id) || nom.passes.contains(id)),
{
    if voted_by(nom.votes, id) {
        let i = choose|i: int| 0 <= i < nom.votes.len() && (#[trigger] nom.votes[i]).0 == id;
        assert(nom.votes[i] == (id, true) || nom.votes[i] == (id, false));
    }
    if nom.votes.contains((id, true)) {
        let i = nom.votes.index_of((id, true));
        assert(nom.votes[i].0 == id);
    }
    if nom.votes.contains((id, false)) {
        let i = nom.votes.index_of((id, false));
        assert(nom.votes[i].0 == id);
    }
}

/// With a vote open, exactly those who owe it an answer are asked, the living and the dead with a
/// ghost vote alike; each is told who nominated whom, and only the dead that they may pass. The host
/// is told to close the vote exactly once nobody owes an answer, or when the wait has stalled for
/// three cycles.
pub proof fn everyone_owing_a_vote_is_asked(
    g: GameView,
    rotation: usize,
    stall: usize,
    i: int,
)
    requires
        distinct_ids(g.seats),
        g.phase matches Phase::Day { stage: DayStage::Nominations, .. },
        g.current_nomination is Some,
        0 <= i < g.seats.len(),
    ensures
        ({
            let nom = g.current_nomination->0;
            let plan = g.plan(rotation, stall);
            let someone_owes = exists|k: int|
                0 <= k < g.seats.len() && owes_an_answer(nom, #[trigger] g.seats[k]);
            &&& asks_for_a_vote(plan, g.seats[i].id) <==> owes_an_answer(nom, g.seats[i])
            &&& closes_the_vote(plan) <==> !someone_owes || stall >= 3
            &&& forall|k: int|
                0 <= k < plan.len() ==> ((#[trigger] plan[k]) matches SchedTargetView::Player {
                    seat,
                    task,
                } ==> (task matches PlayerTaskView::Vote {
                    nomination,
                    can_pass,
                    nominator_yes,
                    ..
                } && nomination == "seat "@ + dec(nom.by.0 as nat) + " nominated seat "@ + dec(
                    nom.target.0 as nat,
                ) && nominator_yes == nom.votes.contains((nom.by, true)) && (seat == g.seats[i].id
                    ==> can_pass == !g.seats[i].alive)))
        }),
{
    let nom = g.current_nomination->0;
    let plan = g.plan(rotation, stall);
    let keep = |s: Seat| crate::harness::scheduler::eligible(s) && !has_answered(nom, s.id);
    let voters = g.voters_left(nom);
    assert(voters == ids_where(g.seats, keep));
    kept_ids_stand(g.seats, keep);
    let turns = voters.map_values(|seat: SeatId| g.vote_turn(nom, seat));
    assert forall|k: int| 0 <= k < g.seats.len() implies keep(#[trigger] g.seats[k])
        == owes_an_answer(nom, g.seats[k]) by {
        answers_are_answers(nom, g.seats[k].id);
    }
    assert forall|k: int| 0 <= k < voters.len() implies plan[k] == g.vote_turn(
        nom,
        #[trigger] voters[k],
    ) by {
        assert(turns[k] == g.vote_turn(nom, voters[k]));
    }
    found_where_it_stands(g.seats, i);
    let id = g.seats[i].id;
    if owes_an_answer(nom, g.seats[i]) {
        assert(keep(g.seats[i]));
        let k = voters.index_of(id);
        assert(plan[k] == g.vote_turn(nom, voters[k]));
        assert(asks_for_a_vote(plan, id));
    }
    if asks_for_a_vote(plan, id) {
        let k = choose|k: int|
            0 <= k < plan.len() && ((#[trigger] plan[k]) matches SchedTargetView::Player {
            seat: asked,
            task: PlayerTaskView::Vote { .. },
        } && asked == id);
        assert(k < voters.len());
        assert(plan[k] == g.vote_turn(nom, voters[k]));
        assert(is_kept(g.seats, keep, voters[k]));
        let s = choose|s: int|
            0 <= s < g.seats.len() && (#[trigger] g.seats[s]).id == voters[k] && keep(g.seats[s]);
        if s < i {
            assert(g.seats[s].id != g.seats[i].id);
        } else if i < s {
            assert(g.seats[i].id != g.seats[s].id);
        }
    }
    let someone_owes = exists|k: int|
        0 <= k < g.seats.len() && owes_an_answer(nom, #[trigger] g.seats[k]);
    if someone_owes {
        let s = choose|k: int|
            0 <= k < g.seats.len() && owes_an_answer(nom, #[trigger] g.seats[k]);
        assert(keep(g.seats[s]));
        assert(voters.contains(g.seats[s].id));
        assert(voters.len() > 0);
    } else {
        if voters.len() > 0 {
            assert(is_kept(g.seats, keep, voters[0]));
        }
    }
    let close = SchedTargetView::Host(HostTaskView::CloseVoting);
    if !someone_owes || stall >= 3 {
        assert(plan == turns.push(close));
        assert(plan[turns.len() as int] == close);
    } else if closes_the_vote(plan) {
        let k = plan.index_of(close);
        assert(plan[k] == g.vote_turn(nom, voters[k]));
    }
    assert forall|k: int| 0 <= k < plan.len() implies ((
    #[trigger] plan[k]) matches SchedTargetView::Player { seat, task } ==> (
    task matches PlayerTaskView::Vote { nomination, can_pass, nominator_yes, .. } && nomination
        == "seat "@ + dec(nom.by.0 as nat) + " nominated seat "@ + dec(nom.target.0 as nat)
        && nominator_yes == nom.votes.contains((nom.by, true)) && (seat == g.seats[i].id
        ==> can_pass == !g.seats[i].alive))) by {
        if k < voters.len() {
            assert(plan[k] == g.vote_turn(nom, voters[k]));
        }
    }
}

/// By night the game waits for one: the host while a Storyteller decision is open, else the player
/// whose wake is pending, with its prompt, else the host to move on. A wake that has stalled for
/// three cycles brings the host to skip it, and not before.
pub proof fn nights_wait_for_one(g: GameView, rotation: usize, stall: usize)
    requires
        g.phase is FirstNight || g.phase is Night,
    ensures
        ({
            let plan = g.plan(rotation, stall);
            &&& plan.len() >= 1
            &&& g.pending_host is Some ==> plan.len() == 1 && (
            plan[0] matches SchedTargetView::Host(HostTaskView::ResolveDecision { .. }))
            &&& g.pending_host is None && g.pending_night is None ==> plan == seq![
                SchedTargetView::Host(HostTaskView::AdvanceNight),
            ]
            &&& g.pending_host is None ==> (g.pending_night matches Some(w) ==> {
                &&& plan[0] == (SchedTargetView::Player {
                    seat: w.seat,
                    task: PlayerTaskView::NightWake { prompt: w.prompt },
                })
                &&& stall < 3 ==> plan.len() == 1
                &&& stall >= 3 ==> plan.len() == 2 && plan[1] == SchedTargetView::Host(
                    HostTaskView::SkipStuckWake { seat: w.seat },
                )
            })
        }),
{
}

/// The living seat whose turn a rotation is: with `k` living players before the seat at `i`, and
/// `n` living in all, it speaks whenever the rotation leaves `k` on division by `n`.
pub proof fn turns_go_round_the_living(g: GameView, rotation: usize, i: int)
    requires
        0 <= i < g.seats.len(),
        g.seats[i].alive,
        rotation as int % living_among(g.seats, g.seats.len() as int) as int == living_among(
            g.seats,
            i,
        ),
    ensures
        ({
            let speaks = |task: PlayerTaskView|
                SchedTargetView::Player { seat: g.seats[i].id, task };
            &&& (g.phase matches Phase::Day { stage: DayStage::Discussion, .. })
                && g.pending_directed_wake is None ==> {
                let plan = g.plan(rotation, 0);
                &&& plan.len() == 2
                &&& plan[0] == SchedTargetView::Host(HostTaskView::PaceDiscussion)
                &&& (plan[1] matches SchedTargetView::Player {
                    seat,
                    task: PlayerTaskView::Discuss { round, directed_reply, .. },
                } && seat == g.seats[i].id && !directed_reply && round as int == rotation as int
                    / living_among(g.seats, g.seats.len() as int) as int)
            }
            &&& (g.phase matches Phase::Day { stage: DayStage::Nominations, .. })
                && g.current_nomination is None ==> g.plan(rotation, 0) == seq![
                SchedTargetView::Host(HostTaskView::ManageNominations),
                speaks(PlayerTaskView::Nominate),
            ]
        }),
{
    let keep = |s: Seat| s.alive;
    living_stand_in_order(g.seats, i);
    let living = g.living_ids();
    assert(living == ids_where(g.seats, keep));
    let n = living.len() as int;
    assert(g.speaker(rotation) == Some(g.seats[i].id));
    let round = rotation as int / n;
    assert(0 <= round <= rotation) by (nonlinear_arith)
        requires
            n >= 1,
            rotation >= 0,
            round == rotation as int / n,
    ;
    if let Phase::Day { stage: DayStage::Nominations, .. } = g.phase {
        if g.current_nomination is None {
            assert(g.plan(rotation, 0) =~= seq![
                SchedTargetView::Host(HostTaskView::ManageNominations),
                SchedTargetView::Player { seat: g.seats[i].id, task: PlayerTaskView::Nominate },
            ]);
        }
    }
}

/// How many of the first `k` seats are alive.
pub open spec fn living_among(seats: Seq<Seat>, k: int) -> nat
    decreases k,
{
    if k <= 0 {
        0
    } else {
        living_among(seats, k - 1) + if seats[k - 1].alive { 1nat } else { 0nat }
    }
}

proof fn living_ids_up_to(seats: Seq<Seat>, k: int)
    requires
        0 <= k <= seats.len(),
    ensures
        ids_where(seats.take(k), |s: Seat| s.alive).len() == living_among(seats, k),
    decreases k,
{
    if k > 0 {
        living_ids_up_to(seats, k - 1);
        assert(seats.take(k).drop_last() =~= seats.take(k - 1));
    } else {
        assert(seats.take(0).len() == 0);
    }
}

proof fn living_stand_in_order(seats: Seq<Seat>, i: int)
    requires
        0 <= i < seats.len(),
        seats[i].alive,
    ensures
        ({
            let ids = ids_where(seats, |s: Seat| s.alive);
            &&& ids.len() == living_among(seats, seats.len() as int)
            &&& living_among(seats, i) < ids.len()
            &&& ids[living_among(seats, i) as int] == seats[i].id
        }),
    decreases seats.len(),
{
    let keep = |s: Seat| s.alive;
    living_ids_up_to(seats, seats.len() as int);
    assert(seats.take(seats.len() as int) =~= seats);
    let front = seats.drop_last();
    if i < front.len() {
        living_stand_in_order(front, i);
        living_among_prefix(seats, front, i);
        living_among_prefix(seats, front, front.len() as int);
    } else {
        living_ids_up_to(seats, i);
        assert(seats.take(i) =~= front);
    }
}

proof fn living_among_prefix(a: Seq<Seat>, b: Seq<Seat>, k: int)
    requires
        0 <= k <= a.len(),
        k <= b.len(),
        forall|i: int| 0 <= i < k ==> a[i] == b[i],
    ensures
        living_among(a, k) == living_among(b, k),
    decreases k,
{
    if k > 0 {
        living_among_prefix(a, b, k - 1);
    }
}

/// In discussion a player who was addressed goes first, before the turn of the round.
pub proof fn addressed_players_go_first(g: GameView, rotation: usize, stall: usize, seat: SeatId)
    requires
        g.phase matches Phase::Day { stage: DayStage::Discussion, .. },
        g.pending_directed_wake == Some(seat),
    ensures
        ({
            let plan = g.plan(rotation, stall);
            &&& plan.len() == 2
            &&& plan[0] == SchedTargetView::Host(HostTaskView::PaceDiscussion)
            &&& (plan[1] matches SchedTargetView::Player {
                seat: asked,
                task: PlayerTaskView::Discuss { directed_reply, .. },
            } && asked == seat && directed_reply)
        }),
{
}

/// A lobby waits for the host to start; a game that is over waits for nobody.
pub proof fn lobbies_wait_for_the_start(g: GameView, rotation: usize, stall: usize)
    ensures
        g.phase is Lobby ==> g.plan(rotation, stall) == seq![
            SchedTargetView::Host(HostTaskView::StartGame),
        ],
        g.phase is Ended ==> g.plan(rotation, stall).len() == 0,
{
}

/// A wait that can stall has a sign, and the sign of a night wake tells the seats apart; talk, a
/// lobby and a game that is over never stall.
pub proof fn only_waits_have_signs(g: GameView, h: GameView)
    ensures
        g.phase is Lobby || g.phase is Ended || (g.phase matches Phase::Day {
            stage: DayStage::Discussion,
            ..
        }) ==> g.wait_sign() is None,
        (g.phase is FirstNight || g.phase is Night) ==> (g.wait_sign() is Some <==> g.pending_host
            is Some || g.pending_night is Some),
        (g.phase matches Phase::Day { stage: DayStage::Nominations, .. }) ==> (g.wait_sign() is Some
            <==> g.current_nomination is Some),
        g.phase == h.phase && g.pending_host == h.pending_host && (match (
            g.pending_night,
            h.pending_night,
        ) {
            (Some(a), Some(b)) => a.seat == b.seat,
            (None, None) => true,
            _ => false,
        }) && (match (g.current_nomination, h.current_nomination) {
            (Some(a), Some(b)) => a.by == b.by && a.target == b.target,
            (None, None) => true,
            _ => false,
        }) ==> g.wait_sign() == h.wait_sign(),
{
}

} // verus!
