//! Durable wake mailbox behind the long-poll `await_turn` of continuous agent sessions.
//!
//! Agents stay in one headless process and call `await_turn` when idle. The coordinator plans
//! from engine state and either returns a wake payload, a soft `idle` before the client tool
//! timeout, or `game_over`. Wakes stay outstanding until a completing tool succeeds, so a
//! client timeout mid-delivery cannot lose the turn (redelivered on re-await).
//!
//! Time comes in as milliseconds on the caller's clock; blocking and locking are the caller's.

use crate::auth::{last_under, Actor};
use crate::comms::opt_text;
use crate::game::ids::{GameId, SeatId};
use crate::game::phase::{phase_notation, phase_string, stage_name, stage_word, Phase, Winner};
use crate::game::seat::{count_living, head_count};
use crate::game::state::{Game, GameView};
use crate::harness::prompts;
use crate::harness::scheduler::{
    plan_ticks, plan_view, wait_signature, HostTask, HostTaskView, PlayerTask, PlayerTaskView,
    SchedTarget, SchedTargetView,
};
use crate::harness::summary::{host_hint, public_summary};
use crate::json::{Fields, Json, JsonView};
use crate::store::{GameStore, GameStoreView};
use crate::text::{dec, numbered, push_dec, str_eq, texts};
use vstd::prelude::*;
use vstd::string::*;

verus! {

/// Default server-side long-poll budget (seconds). Must stay well under the client's
/// per-tool timeout for `await_turn`.
pub const AWAIT_SERVER_BUDGET_SECS: u64 = 300;

/// Client timeout for `await_turn` written into per-agent MCP config.
pub const AWAIT_CLIENT_TIMEOUT_SECS: u64 = 3600;

/// How often an unchanged wait signature increments the stall counter while
/// agents are long-polling (wall-clock, not process ticks).
pub const STALL_BUMP_SECS: u64 = 45;

/// [`STALL_BUMP_SECS`] in milliseconds.
pub const STALL_BUMP_MS: u64 = 45_000;

/// Longest slice of a wait between two looks at the game, in milliseconds.
pub const POLL_SLICE_MS: u64 = 500;

/// Who is waiting for a wake (host or a seat).
#[derive(Debug, Clone, Copy, PartialEq, Eq, Hash, Structural)]
pub enum WakeActor {
    Host,
    Player(SeatId),
}

impl WakeActor {
    /// `Host`, or `P` and the seat number.
    pub open spec fn name(self) -> Seq<char> {
        match self {
            WakeActor::Host => "Host"@,
            WakeActor::Player(s) => "P"@ + dec(s.0 as nat),
        }
    }

    /// The waiting side of an authenticated actor.
    pub open spec fn of_actor(actor: Actor) -> WakeActor {
        match actor {
            Actor::Host => WakeActor::Host,
            Actor::Player { seat } => WakeActor::Player(seat),
        }
    }

    pub fn from_auth(actor: Actor) -> (w: WakeActor)
        ensures
            w == WakeActor::of_actor(actor),
    {
        match actor {
            Actor::Host => WakeActor::Host,
            Actor::Player { seat } => WakeActor::Player(seat),
        }
    }

    pub fn label(self) -> (s: String)
        ensures
            s@ == self.name(),
    {
        match self {
            WakeActor::Host => "Host".to_owned(),
            WakeActor::Player(s) => numbered("P", s.0 as u64),
        }
    }
}

/// What std's `Debug` prints for a string: quoted, with escapes.
pub uninterp spec fn quoted(s: Seq<char>) -> Seq<char>;

/// Formats a string by std's `Debug`. Claimed: the text depends on the string alone.
#[verifier::external_body]
pub(crate) fn quote(s: &str) -> (r: String)
    ensures
        r@ == quoted(s@),
{
    format!("{s:?}")
}

// ---------------------------------------------------------------------------
// Keys and kinds of targets
// ---------------------------------------------------------------------------

/// `true` / `false`.
pub open spec fn flag(b: bool) -> Seq<char> {
    if b { "true"@ } else { "false"@ }
}

fn flag_str(b: bool) -> (s: &'static str)
    ensures
        s@ == flag(b),
{
    if b { "true" } else { "false" }
}

/// A host task with its fields.
pub open spec fn host_task_notation(task: HostTaskView) -> Seq<char> {
    match task {
        HostTaskView::StartGame => "StartGame"@,
        HostTaskView::ResolveDecision { kind, detail } => "ResolveDecision { kind: "@ + quoted(kind)
            + ", detail: "@ + quoted(detail) + " }"@,
        HostTaskView::AdvanceNight => "AdvanceNight"@,
        HostTaskView::SkipStuckWake { seat } => "SkipStuckWake { seat: SeatId("@ + dec(
            seat.0 as nat,
        ) + ") }"@,
        HostTaskView::PaceDiscussion => "PaceDiscussion"@,
        HostTaskView::ManageNominations => "ManageNominations"@,
        HostTaskView::CloseVoting => "CloseVoting"@,
        HostTaskView::EndDay { in_discussion } => "EndDay { in_discussion: "@ + flag(in_discussion)
            + " }"@,
    }
}

/// A player task with its fields.
pub open spec fn player_task_notation(task: PlayerTaskView) -> Seq<char> {
    match task {
        PlayerTaskView::NightWake { prompt } => "NightWake { prompt: "@ + quoted(prompt) + " }"@,
        PlayerTaskView::Discuss { round, last_round, directed_reply } => "Discuss { round: "@ + dec(
            round as nat,
        ) + ", last_round: "@ + flag(last_round) + ", directed_reply: "@ + flag(directed_reply)
            + " }"@,
        PlayerTaskView::Nominate => "Nominate"@,
        PlayerTaskView::Vote { nomination, tally, can_pass, nominator_yes } =>
            "Vote { nomination: "@ + quoted(nomination) + ", tally: "@ + quoted(tally)
                + ", can_pass: "@ + flag(can_pass) + ", nominator_yes: "@ + flag(nominator_yes)
                + " }"@,
    }
}

/// Fingerprint of a scheduled target.
pub open spec fn plan_key(t: SchedTargetView) -> Seq<char> {
    match t {
        SchedTargetView::Host(h) => "host:"@ + host_task_notation(h),
        SchedTargetView::Player { seat, task } => "p"@ + dec(seat.0 as nat) + ":"@
            + player_task_notation(task),
    }
}

/// Whom a target wakes.
pub open spec fn target_actor(t: SchedTargetView) -> WakeActor {
    match t {
        SchedTargetView::Host(_) => WakeActor::Host,
        SchedTargetView::Player { seat, .. } => WakeActor::Player(seat),
    }
}

/// The kind of a wake.
pub open spec fn target_kind(t: SchedTargetView) -> Seq<char> {
    match t {
        SchedTargetView::Host(HostTaskView::StartGame) => "host_start_game"@,
        SchedTargetView::Host(HostTaskView::ResolveDecision { .. }) => "host_decide"@,
        SchedTargetView::Host(HostTaskView::AdvanceNight) => "host_advance_night"@,
        SchedTargetView::Host(HostTaskView::SkipStuckWake { .. }) => "host_skip_stuck"@,
        SchedTargetView::Host(HostTaskView::PaceDiscussion) => "host_pace_discussion"@,
        SchedTargetView::Host(HostTaskView::ManageNominations) => "host_manage_nominations"@,
        SchedTargetView::Host(HostTaskView::CloseVoting) => "host_close_vote"@,
        SchedTargetView::Host(HostTaskView::EndDay { .. }) => "host_end_day"@,
        SchedTargetView::Player { task: PlayerTaskView::NightWake { .. }, .. } => "night_action"@,
        SchedTargetView::Player { task: PlayerTaskView::Discuss { .. }, .. } => "discuss"@,
        SchedTargetView::Player { task: PlayerTaskView::Nominate, .. } => "nominate"@,
        SchedTargetView::Player { task: PlayerTaskView::Vote { .. }, .. } => "vote"@,
    }
}

/// A successful call of `tool` completes the wake.
pub open spec fn completes(tool: Seq<char>, t: SchedTargetView) -> bool {
    match t {
        SchedTargetView::Player { task: PlayerTaskView::NightWake { .. }, .. } => tool
            == "night_action"@,
        SchedTargetView::Player { task: PlayerTaskView::Discuss { .. }, .. } => tool == "say"@
            || tool == "nominate"@,
        SchedTargetView::Player { task: PlayerTaskView::Nominate, .. } => tool == "nominate"@
            || tool == "say"@,
        SchedTargetView::Player { task: PlayerTaskView::Vote { .. }, .. } => tool == "vote"@
            || tool == "pass_vote"@,
        SchedTargetView::Host(HostTaskView::StartGame) => tool == "start_game"@,
        SchedTargetView::Host(HostTaskView::ResolveDecision { .. }) => tool == "host_decide"@
            || tool == "skip_night_action"@,
        SchedTargetView::Host(HostTaskView::AdvanceNight) => tool == "skip_night_action"@,
        SchedTargetView::Host(HostTaskView::SkipStuckWake { .. }) => tool == "skip_night_action"@,
        SchedTargetView::Host(HostTaskView::PaceDiscussion) => tool == "open_nominations"@,
        SchedTargetView::Host(HostTaskView::ManageNominations) => tool == "end_nominations"@,
        SchedTargetView::Host(HostTaskView::CloseVoting) => tool == "close_vote"@,
        SchedTargetView::Host(HostTaskView::EndDay { in_discussion }) => if in_discussion {
            tool == "open_nominations"@ || tool == "end_nominations"@
        } else {
            tool == "end_nominations"@
        },
    }
}

fn host_task_debug(task: &HostTask) -> (s: String)
    ensures
        s@ == host_task_notation(task@),
{
    match task {
        HostTask::StartGame => "StartGame".to_owned(),
        HostTask::ResolveDecision { kind, detail } => {
            let mut s = "ResolveDecision { kind: ".to_owned();
            s.append(quote(kind.as_str()).as_str());
            s.append(", detail: ");
            s.append(quote(detail.as_str()).as_str());
            s.append(" }");
            s
        },
        HostTask::AdvanceNight => "AdvanceNight".to_owned(),
        HostTask::SkipStuckWake { seat } => {
            let mut s = numbered("SkipStuckWake { seat: SeatId(", seat.0 as u64);
            s.append(") }");
            s
        },
        HostTask::PaceDiscussion => "PaceDiscussion".to_owned(),
        HostTask::ManageNominations => "ManageNominations".to_owned(),
        HostTask::CloseVoting => "CloseVoting".to_owned(),
        HostTask::EndDay { in_discussion } => {
            let mut s = "EndDay { in_discussion: ".to_owned();
            s.append(flag_str(*in_discussion));
            s.append(" }");
            s
        },
    }
}

fn player_task_debug(task: &PlayerTask) -> (s: String)
    ensures
        s@ == player_task_notation(task@),
{
    match task {
        PlayerTask::NightWake { prompt } => {
            let mut s = "NightWake { prompt: ".to_owned();
            s.append(quote(prompt.as_str()).as_str());
            s.append(" }");
            s
        },
        PlayerTask::Discuss { round, last_round, directed_reply } => {
            let mut s = numbered("Discuss { round: ", *round as u64);
            s.append(", last_round: ");
            s.append(flag_str(*last_round));
            s.append(", directed_reply: ");
            s.append(flag_str(*directed_reply));
            s.append(" }");
            s
        },
        PlayerTask::Nominate => "Nominate".to_owned(),
        PlayerTask::Vote { nomination, tally, can_pass, nominator_yes } => {
            let mut s = "Vote { nomination: ".to_owned();
            s.append(quote(nomination.as_str()).as_str());
            s.append(", tally: ");
            s.append(quote(tally.as_str()).as_str());
            s.append(", can_pass: ");
            s.append(flag_str(*can_pass));
            s.append(", nominator_yes: ");
            s.append(flag_str(*nominator_yes));
            s.append(" }");
            s
        },
    }
}

/// Fingerprint of a scheduled target.
pub fn plan_key_of(t: &SchedTarget) -> (s: String)
    ensures
        s@ == plan_key(t@),
{
    match t {
        SchedTarget::Host(h) => {
            let mut s = "host:".to_owned();
            s.append(host_task_debug(h).as_str());
            s
        },
        SchedTarget::Player { seat, task } => {
            let mut s = numbered("p", seat.0 as u64);
            s.append(":");
            s.append(player_task_debug(task).as_str());
            s
        },
    }
}

/// Whom a target wakes.
pub fn actor_of(t: &SchedTarget) -> (w: WakeActor)
    ensures
        w == target_actor(t@),
{
    match t {
        SchedTarget::Host(_) => WakeActor::Host,
        SchedTarget::Player { seat, .. } => WakeActor::Player(*seat),
    }
}

/// The kind of a wake.
pub fn kind_of(t: &SchedTarget) -> (s: String)
    ensures
        s@ == target_kind(t@),
{
    let kind = match t {
        SchedTarget::Host(HostTask::StartGame) => "host_start_game",
        SchedTarget::Host(HostTask::ResolveDecision { .. }) => "host_decide",
        SchedTarget::Host(HostTask::AdvanceNight) => "host_advance_night",
        SchedTarget::Host(HostTask::SkipStuckWake { .. }) => "host_skip_stuck",
        SchedTarget::Host(HostTask::PaceDiscussion) => "host_pace_discussion",
        SchedTarget::Host(HostTask::ManageNominations) => "host_manage_nominations",
        SchedTarget::Host(HostTask::CloseVoting) => "host_close_vote",
        SchedTarget::Host(HostTask::EndDay { .. }) => "host_end_day",
        SchedTarget::Player { task: PlayerTask::NightWake { .. }, .. } => "night_action",
        SchedTarget::Player { task: PlayerTask::Discuss { .. }, .. } => "discuss",
        SchedTarget::Player { task: PlayerTask::Nominate, .. } => "nominate",
        SchedTarget::Player { task: PlayerTask::Vote { .. }, .. } => "vote",
    };
    kind.to_owned()
}

/// Whether a successful call of `tool` completes the wake.
pub fn tool_completes_wake(tool: &str, target: &SchedTarget) -> (b: bool)
    ensures
        b == completes(tool@, target@),
{
    match target {
        SchedTarget::Player { task: PlayerTask::NightWake { .. }, .. } => str_eq(
            tool,
            "night_action",
        ),
        SchedTarget::Player { task: PlayerTask::Discuss { .. }, .. } => str_eq(tool, "say")
            || str_eq(tool, "nominate"),
        SchedTarget::Player { task: PlayerTask::Nominate, .. } => str_eq(tool, "nominate")
            || str_eq(tool, "say"),
        SchedTarget::Player { task: PlayerTask::Vote { .. }, .. } => str_eq(tool, "vote")
            || str_eq(tool, "pass_vote"),
        SchedTarget::Host(HostTask::StartGame) => str_eq(tool, "start_game"),
        SchedTarget::Host(HostTask::ResolveDecision { .. }) => str_eq(tool, "host_decide")
            || str_eq(tool, "skip_night_action"),
        SchedTarget::Host(HostTask::AdvanceNight) => str_eq(tool, "skip_night_action"),
        SchedTarget::Host(HostTask::SkipStuckWake { .. }) => str_eq(tool, "skip_night_action"),
        SchedTarget::Host(HostTask::PaceDiscussion) => str_eq(tool, "open_nominations"),
        SchedTarget::Host(HostTask::ManageNominations) => str_eq(tool, "end_nominations"),
        SchedTarget::Host(HostTask::CloseVoting) => str_eq(tool, "close_vote"),
        SchedTarget::Host(HostTask::EndDay { in_discussion }) => {
            if *in_discussion {
                str_eq(tool, "open_nominations") || str_eq(tool, "end_nominations")
            } else {
                str_eq(tool, "end_nominations")
            }
        },
    }
}

/// Stage fingerprint for rotation reset.
pub open spec fn stage_key(g: GameView) -> Seq<char> {
    match g.phase {
        Phase::Lobby => "lobby"@,
        Phase::FirstNight { .. } => "n1"@,
        Phase::Night { night, .. } => "n"@ + dec(night as nat),
        Phase::Day { day, stage } => "d"@ + dec(day as nat) + "-"@ + stage_word(stage) + "-"@ + dec(
            head_count(g.seats) as nat,
        ),
        Phase::Ended { .. } => "ended"@,
    }
}

/// Stage fingerprint for rotation reset. Day keys include **living count** so a
/// mid-discussion death (e.g. Slayer) restarts the round against the new roster
/// instead of mis-indexing speakers and rounds.
pub fn stage_key_of(game: &Game) -> (s: String)
    ensures
        s@ == stage_key(game@),
{
    match &game.phase {
        Phase::Lobby => "lobby".to_owned(),
        Phase::FirstNight { .. } => "n1".to_owned(),
        Phase::Night { night, .. } => numbered("n", *night as u64),
        Phase::Day { day, stage } => {
            let mut s = numbered("d", *day as u64);
            s.append("-");
            s.append(stage_name(*stage));
            s.append("-");
            push_dec(&mut s, count_living(&game.seats) as u64);
            s
        },
        Phase::Ended { .. } => "ended".to_owned(),
    }
}

// ---------------------------------------------------------------------------
// The mailbox
// ---------------------------------------------------------------------------

/// A delivered wake that no tool has completed yet.
#[derive(Debug)]
pub struct WakeEnvelope {
    pub seq: u64,
    pub wake_id: String,
    /// Fingerprint of the scheduled target (for still-valid checks).
    pub plan_key: String,
    pub target: SchedTarget,
    /// Full wake text.
    pub prompt_text: String,
    pub kind: String,
}

/// What a wake says.
pub struct WakeEnvelopeView {
    pub seq: u64,
    pub wake_id: Seq<char>,
    pub plan_key: Seq<char>,
    pub target: SchedTargetView,
    pub prompt_text: Seq<char>,
    pub kind: Seq<char>,
}

impl View for WakeEnvelope {
    type V = WakeEnvelopeView;

    open spec fn view(&self) -> WakeEnvelopeView {
        WakeEnvelopeView {
            seq: self.seq,
            wake_id: self.wake_id@,
            plan_key: self.plan_key@,
            target: self.target@,
            prompt_text: self.prompt_text@,
            kind: self.kind@,
        }
    }
}

/// Scheduler state and mailbox for harness long-poll wakes.
pub struct WakeCoordinator {
    pub game_id: Option<u64>,
    pub rotation: usize,
    pub stall: usize,
    pub wait_sig: Option<String>,
    pub stage_key: String,
    /// When the stall counter last moved, in milliseconds.
    pub last_stall_bump: Option<u64>,
    pub next_seq: u64,
    /// Delivered wakes not yet completed by a resolving tool.
    pub outstanding: Vec<(WakeActor, WakeEnvelope)>,
    /// Actors currently waiting in `await_turn`, since when.
    pub waiters: Vec<(WakeActor, u64)>,
    /// Shut down all waiters.
    pub stopped: bool,
}

/// The coordinator's state as plain values.
pub struct WakeView {
    pub game_id: Option<u64>,
    pub rotation: usize,
    pub stall: usize,
    pub wait_sig: Option<Seq<char>>,
    pub stage_key: Seq<char>,
    pub last_stall_bump: Option<u64>,
    pub next_seq: u64,
    pub outstanding: Seq<(WakeActor, WakeEnvelopeView)>,
    pub waiters: Seq<(WakeActor, u64)>,
    pub stopped: bool,
}

/// What a list of outstanding wakes says.
pub open spec fn mail(v: Seq<(WakeActor, WakeEnvelope)>) -> Seq<(WakeActor, WakeEnvelopeView)> {
    v.map_values(|e: (WakeActor, WakeEnvelope)| (e.0, e.1@))
}

impl View for WakeCoordinator {
    type V = WakeView;

    open spec fn view(&self) -> WakeView {
        WakeView {
            game_id: self.game_id,
            rotation: self.rotation,
            stall: self.stall,
            wait_sig: opt_text(self.wait_sig),
            stage_key: self.stage_key@,
            last_stall_bump: self.last_stall_bump,
            next_seq: self.next_seq,
            outstanding: mail(self.outstanding@),
            waiters: self.waiters@,
            stopped: self.stopped,
        }
    }
}

/// Entries of anyone but `actor`.
pub open spec fn of_others<T>(entries: Seq<(WakeActor, T)>, actor: WakeActor) -> Seq<(WakeActor, T)>
    decreases entries.len(),
{
    if entries.len() == 0 {
        seq![]
    } else {
        let front = of_others(entries.drop_last(), actor);
        if entries.last().0 == actor { front } else { front.push(entries.last()) }
    }
}

/// What long-polling comes to after one look.
pub enum DeliverView {
    GameOver(JsonView),
    Wake(JsonView),
    Idle,
}

/// The wake as the agent receives it.
pub open spec fn wake_reply(env: WakeEnvelopeView, summary: Seq<char>) -> JsonView {
    JsonView::object().with("status"@, JsonView::Str("wake"@)).with(
        "wake_id"@,
        JsonView::Str(env.wake_id),
    ).with("seq"@, JsonView::Int(env.seq as int)).with(
        "next_since_seq"@,
        JsonView::Int(env.seq as int),
    ).with("kind"@, JsonView::Str(env.kind)).with("prompt"@, JsonView::Str(env.prompt_text)).with(
        "public_summary"@,
        JsonView::Str(summary),
    ).with("retry"@, JsonView::Bool(false)).with("hint"@, JsonView::Str(WAKE_HINT@))
}

/// What comes with every wake.
pub const WAKE_HINT: &'static str =
    "Take the legal action(s) described in prompt, then call await_turn again. If you see the same wake_id twice, finish the action (redelivery after timeout is normal).";

/// What comes with a soft idle.
pub const IDLE_HINT: &'static str =
    "No wake yet (server poll budget). Call await_turn again immediately. If the tool times out instead, also re-call await_turn — wakes are durable.";

/// An optional winner as the reply prints it.
pub open spec fn winner_notation(w: Option<Winner>) -> Seq<char> {
    match w {
        Some(Winner::Good) => "Some(Good)"@,
        Some(Winner::Evil) => "Some(Evil)"@,
        None => "None"@,
    }
}

/// The reply once the game is over.
pub open spec fn game_over_reply(g: GameView) -> JsonView {
    JsonView::object().with("status"@, JsonView::Str("game_over"@)).with(
        "retry"@,
        JsonView::Bool(false),
    ).with("winner"@, JsonView::Str(winner_notation(g.winner))).with(
        "phase"@,
        JsonView::Str(phase_notation(g.phase)),
    )
}

/// The prompt for a target.
pub open spec fn prompt_for(name: Seq<char>, g: GameView, t: SchedTargetView) -> Seq<char> {
    match t {
        SchedTargetView::Host(task) => prompts::host_task_tick_text(
            g.id.0,
            task,
            g.public_snapshot(),
            g.host_hint(),
        ),
        SchedTargetView::Player { seat, task } => prompts::player_task_tick_text(
            name,
            seat,
            g.id.0,
            task,
            g.public_snapshot(),
        ),
    }
}

/// Position of the first target for this actor.
pub open spec fn first_for(plan: Seq<SchedTargetView>, actor: WakeActor) -> Option<int>
    decreases plan.len(),
{
    if plan.len() == 0 {
        None
    } else {
        match first_for(plan.drop_last(), actor) {
            Some(i) => Some(i),
            None => if target_actor(plan.last()) == actor { Some(plan.len() - 1) } else { None },
        }
    }
}

/// The plan still holds the target of an outstanding wake.
pub open spec fn still_planned(plan: Seq<SchedTargetView>, env: WakeEnvelopeView) -> bool {
    exists|i: int|
        0 <= i < plan.len() && plan_key(#[trigger] plan[i]) == env.plan_key && target_actor(plan[i])
            == target_actor(env.target)
}

impl WakeView {
    /// A coordinator bound to no game.
    pub open spec fn fresh() -> WakeView {
        WakeView {
            game_id: None,
            rotation: 0,
            stall: 0,
            wait_sig: None,
            stage_key: ""@,
            last_stall_bump: None,
            next_seq: 1,
            outstanding: seq![],
            waiters: seq![],
            stopped: false,
        }
    }

    /// The outstanding wake of an actor.
    pub open spec fn owed(self, actor: WakeActor) -> Option<WakeEnvelopeView> {
        last_under(self.outstanding, actor)
    }

    /// A new phase or stage starts the rotation over and drops what was outstanding.
    pub open spec fn staged(self, g: GameView) -> WakeView {
        if stage_key(g) == self.stage_key {
            self
        } else {
            WakeView {
                stage_key: stage_key(g),
                rotation: 0,
                stall: 0,
                wait_sig: None,
                last_stall_bump: None,
                outstanding: seq![],
                ..self
            }
        }
    }

    /// An unchanged wait stalls, at most once per bump interval; a new one does not.
    pub open spec fn stalled(self, g: GameView, now: u64) -> WakeView {
        let sign = g.wait_sign();
        if sign is Some && sign == self.wait_sig {
            let due = match self.last_stall_bump {
                Some(t) => now - t >= STALL_BUMP_MS,
                None => true,
            };
            if due {
                WakeView {
                    stall: if self.stall < usize::MAX { (self.stall + 1) as usize } else {
                        self.stall
                    },
                    last_stall_bump: Some(now),
                    ..self
                }
            } else {
                self
            }
        } else {
            WakeView { wait_sig: sign, stall: 0, last_stall_bump: Some(now), ..self }
        }
    }

    /// The wake for a target that is due.
    pub open spec fn envelope(
        self,
        g: GameView,
        name: Seq<char>,
        t: SchedTargetView,
    ) -> WakeEnvelopeView {
        WakeEnvelopeView {
            seq: self.next_seq,
            wake_id: "w-"@ + dec(self.next_seq as nat) + "-"@ + plan_key(t),
            plan_key: plan_key(t),
            target: t,
            prompt_text: prompt_for(name, g, t),
            kind: target_kind(t),
        }
    }

    /// One look for an actor, with the stage and the stall brought up to date: an outstanding
    /// wake that is still planned is delivered again, else a planned target is delivered afresh
    /// and stays outstanding, else there is nothing.
    pub open spec fn looked(self, g: GameView, actor: WakeActor, name: Seq<char>) -> (
        WakeView,
        DeliverView,
    ) {
        let plan = g.plan(self.rotation, self.stall);
        let again = self.owed(actor) matches Some(env) && still_planned(plan, env);
        if again {
            (self, DeliverView::Wake(wake_reply(self.owed(actor)->0, g.public_snapshot())))
        } else {
            let clear = WakeView { outstanding: of_others(self.outstanding, actor), ..self };
            match first_for(plan, actor) {
                None => (clear, DeliverView::Idle),
                Some(i) => {
                    let env = clear.envelope(g, name, plan[i]);
                    (
                        WakeView {
                            next_seq: if self.next_seq < u64::MAX {
                                (self.next_seq + 1) as u64
                            } else {
                                self.next_seq
                            },
                            outstanding: clear.outstanding.push((actor, env)),
                            ..clear
                        },
                        DeliverView::Wake(wake_reply(env, g.public_snapshot())),
                    )
                },
            }
        }
    }

    /// One look for an actor at the bound game.
    pub open spec fn delivered(
        self,
        store: GameStoreView,
        actor: WakeActor,
        name: Seq<char>,
        now: u64,
    ) -> (
        WakeView,
        DeliverView,
    ) {
        match self.game_id {
            None => (self, DeliverView::Idle),
            Some(id) => match store.game(GameId(id)) {
                None => (self, DeliverView::Idle),
                Some(g) => if g.phase is Ended {
                    (self, DeliverView::GameOver(game_over_reply(g)))
                } else {
                    self.staged(g).stalled(g, now).looked(g, actor, name)
                },
            },
        }
    }

    /// A successful tool call: it completes the actor's wake where it fits, and a completed
    /// speaking or nominating turn passes the turn on, except for an extra reply.
    pub open spec fn tool_noted(self, actor: WakeActor, tool: Seq<char>) -> WakeView {
        match self.owed(actor) {
            None => self,
            Some(env) => if completes(tool, env.target) {
                WakeView {
                    rotation: if passes_the_turn(env.target) {
                        next_turn(self.rotation)
                    } else {
                        self.rotation
                    },
                    outstanding: of_others(self.outstanding, actor),
                    ..self
                }
            } else {
                self
            },
        }
    }
}

/// The turn after `rotation`; the count wraps.
pub open spec fn next_turn(rotation: usize) -> usize {
    if rotation < usize::MAX { (rotation + 1) as usize } else { 0 }
}

/// Completing this target passes the turn on.
pub open spec fn passes_the_turn(t: SchedTargetView) -> bool {
    match t {
        SchedTargetView::Player { task: PlayerTaskView::Discuss { directed_reply, .. }, .. } =>
            !directed_reply,
        SchedTargetView::Player { task: PlayerTaskView::Nominate, .. } => true,
        _ => false,
    }
}

/// What one look comes to.
pub enum Deliver {
    GameOver(Json),
    Wake(Json),
    Idle,
}

impl View for Deliver {
    type V = DeliverView;

    open spec fn view(&self) -> DeliverView {
        match *self {
            Deliver::GameOver(j) => DeliverView::GameOver(j@),
            Deliver::Wake(j) => DeliverView::Wake(j@),
            Deliver::Idle => DeliverView::Idle,
        }
    }
}

/// What a waiting call does next.
pub enum PollStep {
    /// Answer the call.
    Done(Json),
    /// Wait for this many milliseconds (or a notification), then look again.
    Wait { millis: u64 },
}

/// What a waiting call does next.
pub enum PollStepView {
    Done(JsonView),
    Wait { millis: u64 },
}

impl View for PollStep {
    type V = PollStepView;

    open spec fn view(&self) -> PollStepView {
        match *self {
            PollStep::Done(j) => PollStepView::Done(j@),
            PollStep::Wait { millis } => PollStepView::Wait { millis },
        }
    }
}

/// The reply at shutdown.
pub open spec fn stopped_reply() -> JsonView {
    JsonView::object().with("status"@, JsonView::Str("stopped"@)).with(
        "retry"@,
        JsonView::Bool(false),
    ).with("hint"@, JsonView::Str("Harness is shutting down."@))
}

/// The reply when the budget is used up.
pub open spec fn idle_reply(since: u64) -> JsonView {
    JsonView::object().with("status"@, JsonView::Str("idle"@)).with(
        "next_since_seq"@,
        JsonView::Int(since as int),
    ).with("retry"@, JsonView::Bool(true)).with("hint"@, JsonView::Str(IDLE_HINT@))
}

impl WakeView {
    /// What a call with nothing to deliver does: answer at its deadline, else wait a slice.
    pub open spec fn idled(self, actor: WakeActor, now: u64, deadline: u64) -> PollStepView {
        if now >= deadline {
            PollStepView::Done(
                idle_reply(
                    match self.owed(actor) {
                        Some(env) => env.seq,
                        None => 0,
                    },
                ),
            )
        } else {
            PollStepView::Wait {
                millis: if deadline - now < POLL_SLICE_MS {
                    (deadline - now) as u64
                } else {
                    POLL_SLICE_MS
                },
            }
        }
    }

    /// One step of a waiting call.
    pub open spec fn polled(
        self,
        store: GameStoreView,
        actor: WakeActor,
        name: Seq<char>,
        now: u64,
        deadline: u64,
    ) -> (WakeView, PollStepView) {
        if self.stopped {
            (self, PollStepView::Done(stopped_reply()))
        } else {
            let (after, got) = self.delivered(store, actor, name, now);
            match got {
                DeliverView::GameOver(j) => (after, PollStepView::Done(j)),
                DeliverView::Wake(j) => (after, PollStepView::Done(j)),
                DeliverView::Idle => (after, after.idled(actor, now, deadline)),
            }
        }
    }
}

fn wake_json(env: &WakeEnvelope, public_summary: &str) -> (j: Json)
    ensures
        j@ == wake_reply(env@, public_summary@),
{
    Fields::new().put("status", Json::text("wake")).put(
        "wake_id",
        Json::text(env.wake_id.as_str()),
    ).put("seq", Json::Uint(env.seq)).put("next_since_seq", Json::Uint(env.seq)).put(
        "kind",
        Json::text(env.kind.as_str()),
    ).put("prompt", Json::text(env.prompt_text.as_str())).put(
        "public_summary",
        Json::text(public_summary),
    ).put("retry", Json::Bool(false)).put("hint", Json::text(WAKE_HINT)).done()
}

fn game_over_json(game: &Game) -> (j: Json)
    ensures
        j@ == game_over_reply(game@),
{
    let winner = match game.winner {
        Some(Winner::Good) => "Some(Good)",
        Some(Winner::Evil) => "Some(Evil)",
        None => "None",
    };
    Fields::new().put("status", Json::text("game_over")).put("retry", Json::Bool(false)).put(
        "winner",
        Json::text(winner),
    ).put("phase", Json::text(phase_string(&game.phase).as_str())).done()
}

fn stopped_json() -> (j: Json)
    ensures
        j@ == stopped_reply(),
{
    Fields::new().put("status", Json::text("stopped")).put("retry", Json::Bool(false)).put(
        "hint",
        Json::text("Harness is shutting down."),
    ).done()
}

/// The reply when the store can never be read again: permanent, so no retry is invited.
pub fn store_poisoned_json() -> (j: Json)
    ensures
        j@ == JsonView::object().with("status"@, JsonView::Str("error"@)).with(
            "retry"@,
            JsonView::Bool(false),
        ).with("hint"@, JsonView::Str("Store lock poisoned; harness must restart."@)),
{
    Fields::new().put("status", Json::text("error")).put("retry", Json::Bool(false)).put(
        "hint",
        Json::text("Store lock poisoned; harness must restart."),
    ).done()
}

/// Render the prompt for a target.
pub fn render_prompt(
    display_name: &str,
    game: &Game,
    target: &SchedTarget,
    summary: &str,
) -> (s: String)
    requires
        summary@ == game@.public_snapshot(),
    ensures
        s@ == prompt_for(display_name@, game@, target@),
{
    match target {
        SchedTarget::Host(task) => prompts::host_task_tick(
            game.id.0,
            task,
            summary,
            host_hint(game).as_str(),
        ),
        SchedTarget::Player { seat, task } => prompts::player_task_tick(
            display_name,
            *seat,
            game.id.0,
            task,
            summary,
        ),
    }
}

#[verifier::loop_isolation(false)]
fn plan_still_contains(plan: &Vec<SchedTarget>, env: &WakeEnvelope) -> (b: bool)
    ensures
        b == still_planned(plan_view(plan@), env@),
{
    let wanted = actor_of(&env.target);
    let mut i: usize = 0;
    while i < plan.len()
        invariant
            i <= plan@.len(),
            forall|k: int|
                0 <= k < i ==> !(plan_key(#[trigger] plan_view(plan@)[k]) == env@.plan_key
                    && target_actor(plan_view(plan@)[k]) == target_actor(env@.target)),
        decreases plan@.len() - i,
    {
        assert(plan_view(plan@)[i as int] == plan@[i as int]@);
        let key = plan_key_of(&plan[i]);
        if str_eq(key.as_str(), env.plan_key.as_str()) && actor_of(&plan[i]) == wanted {
            return true;
        }
        i += 1;
    }
    false
}

#[verifier::loop_isolation(false)]
fn find_target(plan: &Vec<SchedTarget>, actor: WakeActor) -> (r: Option<usize>)
    ensures
        match r {
            Some(i) => i < plan@.len() && first_for(plan_view(plan@), actor) == Some(i as int),
            None => first_for(plan_view(plan@), actor) is None,
        },
{
    let ghost all = plan_view(plan@);
    let mut found: Option<usize> = None;
    let mut i: usize = 0;
    while i < plan.len()
        invariant
            i <= plan@.len(),
            match found {
                Some(k) => k < i && first_for(all.take(i as int), actor) == Some(k as int),
                None => first_for(all.take(i as int), actor) is None,
            },
        decreases plan@.len() - i,
    {
        assert(all.take(i + 1).drop_last() =~= all.take(i as int));
        assert(all[i as int] == plan@[i as int]@);
        if found.is_none() && actor_of(&plan[i]) == actor {
            found = Some(i);
        }
        i += 1;
    }
    assert(all.take(i as int) =~= all);
    found
}

/// The position of the last entry of an actor.
#[verifier::loop_isolation(false)]
fn last_entry(entries: &Vec<(WakeActor, WakeEnvelope)>, actor: WakeActor) -> (r: Option<usize>)
    ensures
        match r {
            Some(i) => i < entries@.len() && last_under(mail(entries@), actor) == Some(
                entries@[i as int].1@,
            ),
            None => last_under(mail(entries@), actor) is None,
        },
{
    let ghost all = mail(entries@);
    let mut i: usize = entries.len();
    assert(all.take(i as int) =~= all);
    while i > 0
        invariant
            i <= entries@.len(),
            last_under(all, actor) == last_under(all.take(i as int), actor),
        decreases i,
    {
        i -= 1;
        assert(all.take(i + 1).drop_last() =~= all.take(i as int));
        assert(all[i as int] == (entries@[i as int].0, entries@[i as int].1@));
        if entries[i].0 == actor {
            return Some(i);
        }
    }
    None
}

/// Drop the entries of an actor.
#[verifier::loop_isolation(false)]
fn drop_actor(entries: &mut Vec<(WakeActor, WakeEnvelope)>, actor: WakeActor)
    ensures
        mail(final(entries)@) == of_others(mail(old(entries)@), actor),
{
    let ghost all = mail(entries@);
    let ghost start = entries@;
    let mut done: usize = 0;
    let ghost mut seen: int = 0;
    let ghost mut kept: Seq<(WakeActor, WakeEnvelope)> = seq![];
    assert(entries@ =~= kept + start.skip(0));
    assert(mail(kept) =~= of_others(all.take(0), actor));
    while done < entries.len()
        invariant
            0 <= seen <= start.len(),
            done == kept.len(),
            entries@ == kept + start.skip(seen),
            mail(kept) == of_others(all.take(seen), actor),
        decreases entries@.len() - done,
    {
        assert(entries@[done as int] == start[seen]);
        assert(all.take(seen + 1).drop_last() =~= all.take(seen));
        assert(all[seen] == (start[seen].0, start[seen].1@));
        if entries[done].0 == actor {
            entries.remove(done);
            proof {
                assert(entries@ =~= kept + start.skip(seen + 1));
                seen = seen + 1;
            }
        } else {
            done += 1;
            proof {
                assert(mail(kept.push(start[seen])) =~= mail(kept).push(all[seen]));
                kept = kept.push(start[seen]);
                assert(entries@ =~= kept + start.skip(seen + 1));
                seen = seen + 1;
            }
        }
    }
    proof {
        assert(entries@ =~= kept);
        assert(all.take(seen) =~= all);
    }
}

impl Default for WakeCoordinator {
    fn default() -> (w: WakeCoordinator)
        ensures
            w@ == WakeView::fresh(),
    {
        WakeCoordinator::new()
    }
}

impl WakeCoordinator {
    pub fn new() -> (w: WakeCoordinator)
        ensures
            w@ == WakeView::fresh(),
    {
        let w = WakeCoordinator {
            game_id: None,
            rotation: 0,
            stall: 0,
            wait_sig: None,
            stage_key: "".to_owned(),
            last_stall_bump: None,
            next_seq: 1,
            outstanding: Vec::new(),
            waiters: Vec::new(),
            stopped: false,
        };
        assert(w@.outstanding =~= seq![]);
        w
    }

    /// Bind to a game and start over; sequence numbers and waiters go on.
    pub fn set_game_id(&mut self, game_id: u64)
        ensures
            final(self)@ == (WakeView {
                game_id: Some(game_id),
                next_seq: old(self)@.next_seq,
                waiters: old(self)@.waiters,
                ..WakeView::fresh()
            }),
    {
        self.game_id = Some(game_id);
        self.rotation = 0;
        self.stall = 0;
        self.wait_sig = None;
        self.stage_key = "".to_owned();
        self.outstanding = Vec::new();
        self.last_stall_bump = None;
        self.stopped = false;
        assert(self@.outstanding =~= seq![]);
    }

    /// Current bound game id, if any.
    pub fn game_id(&self) -> (r: Option<u64>)
        ensures
            r == self@.game_id,
    {
        self.game_id
    }

    pub fn stop(&mut self)
        ensures
            final(self)@ == (WakeView { stopped: true, ..old(self)@ }),
    {
        self.stopped = true;
    }

    pub fn rotation(&self) -> (r: usize)
        ensures
            r == self@.rotation,
    {
        self.rotation
    }

    pub fn stall(&self) -> (r: usize)
        ensures
            r == self@.stall,
    {
        self.stall
    }

    /// Actors currently waiting in `await_turn`.
    pub fn waiting_labels(&self) -> (v: Vec<String>)
        ensures
            texts(v@) == self@.waiters.map_values(|e: (WakeActor, u64)| e.0.name()),
    {
        let mut v: Vec<String> = Vec::new();
        let mut i: usize = 0;
        while i < self.waiters.len()
            invariant
                i <= self.waiters@.len(),
                v@.len() == i,
                forall|k: int| 0 <= k < i ==> (#[trigger] v@[k])@ == self.waiters@[k].0.name(),
            decreases self.waiters@.len() - i,
        {
            v.push(self.waiters[i].0.label());
            i += 1;
        }
        assert(texts(v@) =~= self@.waiters.map_values(|e: (WakeActor, u64)| e.0.name()));
        v
    }

    pub fn is_waiting(&self, actor: WakeActor) -> (b: bool)
        ensures
            b == waits(self@.waiters, actor),
    {
        let mut i: usize = 0;
        while i < self.waiters.len()
            invariant
                i <= self.waiters@.len(),
                forall|k: int| 0 <= k < i ==> (#[trigger] self.waiters@[k]).0 != actor,
            decreases self.waiters@.len() - i,
        {
            if self.waiters[i].0 == actor {
                return true;
            }
            i += 1;
        }
        false
    }

    /// True when every listed actor is waiting in `await_turn` (all idle).
    pub fn all_waiting(&self, actors: &Vec<WakeActor>) -> (b: bool)
        ensures
            b == (actors@.len() > 0 && forall|i: int|
                0 <= i < actors@.len() ==> waits(self@.waiters, #[trigger] actors@[i])),
    {
        if actors.len() == 0 {
            return false;
        }
        let mut i: usize = 0;
        while i < actors.len()
            invariant
                i <= actors@.len(),
                forall|k: int| 0 <= k < i ==> waits(self@.waiters, #[trigger] actors@[k]),
            decreases actors@.len() - i,
        {
            if !self.is_waiting(actors[i]) {
                return false;
            }
            i += 1;
        }
        true
    }

    /// After a successful game tool: clear outstanding if this action completes
    /// the wake, and advance discussion/nomination rotation. Returns whether an extra reply to
    /// a directed message was completed.
    pub fn note_tool_success(&mut self, actor: WakeActor, tool: &str) -> (replied: bool)
        ensures
            final(self)@ == old(self)@.tool_noted(actor, tool@),
            replied == (old(self)@.owed(actor) matches Some(env) && completes(tool@, env.target)
                && is_directed_reply(env.target)),
    {
        match last_entry(&self.outstanding, actor) {
            None => false,
            Some(i) => {
                let (done, advances, replied) = {
                    let target = &self.outstanding[i].1.target;
                    let done = tool_completes_wake(tool, target);
                    match target {
                        SchedTarget::Player {
                            seat: _,
                            task: PlayerTask::Discuss { round: _, last_round: _, directed_reply },
                        } => (done, !*directed_reply, *directed_reply),
                        SchedTarget::Player { seat: _, task: PlayerTask::Nominate } => (
                            done,
                            true,
                            false,
                        ),
                        _ => (done, false, false),
                    }
                };
                if !done {
                    return false;
                }
                if advances {
                    self.rotation = self.rotation.wrapping_add(1);
                }
                drop_actor(&mut self.outstanding, actor);
                replied
            },
        }
    }

    /// One look for an actor at the bound game.
    pub fn try_deliver(
        &mut self,
        store: &GameStore,
        actor: WakeActor,
        display_name: &str,
        now: u64,
    ) -> (d:
        Deliver)
        ensures
            (final(self)@, d@) == old(self)@.delivered(store@, actor, display_name@, now),
    {
        let id = match self.game_id {
            Some(id) => id,
            None => return Deliver::Idle,
        };
        let game = match store.get(GameId(id)) {
            Some(g) => g,
            None => return Deliver::Idle,
        };
        if game.phase.is_ended() {
            return Deliver::GameOver(game_over_json(game));
        }
        self.restage(game);
        self.bump_stall(game, now);
        self.look(game, actor, display_name)
    }

    /// Stage change resets discussion rotation.
    fn restage(&mut self, game: &Game)
        ensures
            final(self)@ == old(self)@.staged(game@),
    {
        let key = stage_key_of(game);
        if !str_eq(key.as_str(), self.stage_key.as_str()) {
            self.stage_key = key;
            self.rotation = 0;
            self.stall = 0;
            self.wait_sig = None;
            self.last_stall_bump = None;
            self.outstanding = Vec::new();
            assert(self@.outstanding =~= seq![]);
        }
    }

    /// Stall bump on stable wait signature (wall clock).
    fn bump_stall(&mut self, game: &Game, now: u64)
        ensures
            final(self)@ == old(self)@.stalled(game@, now),
    {
        let sig = wait_signature(game);
        let same = match (&sig, &self.wait_sig) {
            (Some(a), Some(b)) => str_eq(a.as_str(), b.as_str()),
            _ => false,
        };
        if same {
            let due = match self.last_stall_bump {
                Some(t) => now >= t && now - t >= STALL_BUMP_MS,
                None => true,
            };
            if due {
                self.stall = self.stall.saturating_add(1);
                self.last_stall_bump = Some(now);
            }
        } else {
            self.wait_sig = sig;
            self.stall = 0;
            self.last_stall_bump = Some(now);
        }
    }

    fn look(&mut self, game: &Game, actor: WakeActor, display_name: &str) -> (d: Deliver)
        ensures
            (final(self)@, d@) == old(self)@.looked(game@, actor, display_name@),
    {
        let plan = plan_ticks(game, self.rotation, self.stall);
        // Redeliver outstanding if still planned for this actor.
        if let Some(i) = last_entry(&self.outstanding, actor) {
            if plan_still_contains(&plan, &self.outstanding[i].1) {
                let summary = public_summary(game);
                return Deliver::Wake(wake_json(&self.outstanding[i].1, summary.as_str()));
            }
        }
        drop_actor(&mut self.outstanding, actor);
        // Fresh assignment if we are in the plan.
        match find_target(&plan, actor) {
            None => Deliver::Idle,
            Some(i) => {
                let target = plan[i].clone();
                assert(plan_view(plan@)[i as int] == target@);
                let summary = public_summary(game);
                let key = plan_key_of(&target);
                let seq = self.next_seq;
                self.next_seq = seq.saturating_add(1);
                let prompt_text = render_prompt(display_name, game, &target, summary.as_str());
                let kind = kind_of(&target);
                let mut wake_id = numbered("w-", seq);
                wake_id.append("-");
                wake_id.append(key.as_str());
                let env = WakeEnvelope { seq, wake_id, plan_key: key, target, prompt_text, kind };
                let out = wake_json(&env, summary.as_str());
                let ghost before = self.outstanding@;
                self.outstanding.push((actor, env));
                assert(mail(self.outstanding@) =~= mail(before).push((actor, env@)));
                Deliver::Wake(out)
            },
        }
    }

    /// An actor begins to wait.
    pub fn begin_wait(&mut self, actor: WakeActor, now: u64)
        ensures
            final(self)@ == (WakeView {
                waiters: of_others(old(self)@.waiters, actor).push((actor, now)),
                ..old(self)@
            }),
    {
        self.end_wait(actor);
        self.waiters.push((actor, now));
    }

    /// An actor stops waiting.
    #[verifier::loop_isolation(false)]
    pub fn end_wait(&mut self, actor: WakeActor)
        ensures
            final(self)@ == (WakeView {
                waiters: of_others(old(self)@.waiters, actor),
                ..old(self)@
            }),
    {
        let mut kept: Vec<(WakeActor, u64)> = Vec::new();
        let mut i: usize = 0;
        while i < self.waiters.len()
            invariant
                i <= self.waiters@.len(),
                self@ == old(self)@,
                kept@ == of_others(self.waiters@.take(i as int), actor),
            decreases self.waiters@.len() - i,
        {
            assert(self.waiters@.take(i + 1).drop_last() =~= self.waiters@.take(i as int));
            if self.waiters[i].0 != actor {
                kept.push(self.waiters[i]);
            }
            i += 1;
        }
        assert(self.waiters@.take(i as int) =~= self.waiters@);
        self.waiters = kept;
    }

    /// What a call with nothing to deliver does, e.g. while somebody else holds the store.
    pub fn idle_step(&self, actor: WakeActor, now: u64, deadline: u64) -> (s: PollStep)
        ensures
            s@ == self@.idled(actor, now, deadline),
    {
        if now >= deadline {
            let since = match last_entry(&self.outstanding, actor) {
                Some(i) => self.outstanding[i].1.seq,
                None => 0,
            };
            PollStep::Done(
                Fields::new().put("status", Json::text("idle")).put(
                    "next_since_seq",
                    Json::Uint(since),
                ).put("retry", Json::Bool(true)).put("hint", Json::text(IDLE_HINT)).done(),
            )
        } else {
            let remaining = deadline - now;
            PollStep::Wait {
                millis: if remaining < POLL_SLICE_MS { remaining } else { POLL_SLICE_MS },
            }
        }
    }

    /// One step of a long-poll: answer with a wake, a soft `idle` at the deadline, the end of
    /// the game or the shutdown, or wait.
    pub fn poll(
        &mut self,
        store: &GameStore,
        actor: WakeActor,
        display_name: &str,
        now: u64,
        deadline: u64,
    ) -> (s: PollStep)
        ensures
            (final(self)@, s@) == old(self)@.polled(store@, actor, display_name@, now, deadline),
    {
        if self.stopped {
            return PollStep::Done(stopped_json());
        }
        match self.try_deliver(store, actor, display_name, now) {
            Deliver::GameOver(j) => PollStep::Done(j),
            Deliver::Wake(j) => PollStep::Done(j),
            Deliver::Idle => self.idle_step(actor, now, deadline),
        }
    }
}

/// The actor is among the waiting.
pub open spec fn waits(waiters: Seq<(WakeActor, u64)>, actor: WakeActor) -> bool {
    exists|i: int| 0 <= i < waiters.len() && (#[trigger] waiters[i]).0 == actor
}

/// The target is an extra reply to a directed message.
pub open spec fn is_directed_reply(t: SchedTargetView) -> bool {
    match t {
        SchedTargetView::Player { task: PlayerTaskView::Discuss { directed_reply, .. }, .. } =>
            directed_reply,
        _ => false,
    }
}

// ---------------------------------------------------------------------------
// Laws
// ---------------------------------------------------------------------------

proof fn dropped_entries_are_gone<T>(entries: Seq<(WakeActor, T)>, actor: WakeActor)
    ensures
        last_under(of_others(entries, actor), actor) is None,
    decreases entries.len(),
{
    if entries.len() > 0 {
        let front = of_others(entries.drop_last(), actor);
        dropped_entries_are_gone(entries.drop_last(), actor);
        assert(front.push(entries.last()).drop_last() =~= front);
    }
}

proof fn other_entries_stay<T>(entries: Seq<(WakeActor, T)>, actor: WakeActor, other: WakeActor)
    requires
        other != actor,
    ensures
        last_under(of_others(entries, actor), other) == last_under(entries, other),
    decreases entries.len(),
{
    if entries.len() > 0 {
        let front = of_others(entries.drop_last(), actor);
        other_entries_stay(entries.drop_last(), actor, other);
        assert(front.push(entries.last()).drop_last() =~= front);
    }
}

proof fn first_target_is_the_actors(plan: Seq<SchedTargetView>, actor: WakeActor)
    ensures
        first_for(plan, actor) matches Some(i) ==> 0 <= i < plan.len() && target_actor(plan[i])
            == actor,
        first_for(plan, actor) is None ==> forall|i: int|
            0 <= i < plan.len() ==> target_actor(#[trigger] plan[i]) != actor,
    decreases plan.len(),
{
    if plan.len() > 0 {
        first_target_is_the_actors(plan.drop_last(), actor);
        assert forall|i: int| 0 <= i < plan.len() && first_for(plan, actor) is None implies
            target_actor(#[trigger] plan[i]) != actor by {
            if i < plan.len() - 1 {
                assert(plan[i] == plan.drop_last()[i]);
            }
        }
    }
}

/// A wake is durable: as long as the game does not move and the wait does not escalate, asking
/// again gives the very same wake, and it stays owed.
pub proof fn wakes_are_durable(
    w: WakeView,
    store: GameStoreView,
    actor: WakeActor,
    name: Seq<char>,
    now: u64,
    later: u64,
)
    requires
        w.delivered(store, actor, name, now).1 is Wake,
        ({
            let w1 = w.delivered(store, actor, name, now).0;
            let g = store.game(GameId(w.game_id->0))->0;
            w1.stalled(g, later).stall == w1.stall
        }),
    ensures
        ({
            let (w1, d1) = w.delivered(store, actor, name, now);
            let (w2, d2) = w1.delivered(store, actor, name, later);
            &&& d2 == d1
            &&& w2.outstanding == w1.outstanding
            &&& w2.next_seq == w1.next_seq
            &&& w1.owed(actor) is Some
        }),
{
    let g = store.game(GameId(w.game_id->0))->0;
    let ready = w.staged(g).stalled(g, now);
    let plan = g.plan(ready.rotation, ready.stall);
    let (w1, d1) = w.delivered(store, actor, name, now);
    first_target_is_the_actors(plan, actor);
    assert(w1.staged(g) == w1);
    let again = ready.owed(actor) matches Some(env) && still_planned(plan, env);
    if !again {
        let i = first_for(plan, actor)->0;
        let clear = WakeView { outstanding: of_others(ready.outstanding, actor), ..ready };
        let env = clear.envelope(g, name, plan[i]);
        assert(w1.outstanding.last() == (actor, env));
        assert(plan_key(plan[i]) == env.plan_key);
        assert(still_planned(plan, env));
    }
}

/// Whatever an actor is woken for is a target of the current plan for that very actor.
pub proof fn wakes_come_from_the_plan(
    w: WakeView,
    store: GameStoreView,
    actor: WakeActor,
    name: Seq<char>,
    now: u64,
)
    requires
        w.delivered(store, actor, name, now).1 is Wake,
        w.owed(actor) matches Some(env) ==> target_actor(env.target) == actor,
    ensures
        ({
            let (w1, d1) = w.delivered(store, actor, name, now);
            let g = store.game(GameId(w.game_id->0))->0;
            let plan = g.plan(w1.rotation, w1.stall);
            &&& w1.owed(actor) matches Some(env) && d1 == DeliverView::Wake(
                wake_reply(env, g.public_snapshot()),
            ) && target_actor(env.target) == actor && exists|i: int|
                0 <= i < plan.len() && target_actor(#[trigger] plan[i]) == actor && plan_key(plan[i])
                    == env.plan_key
        }),
{
    let g = store.game(GameId(w.game_id->0))->0;
    let ready = w.staged(g).stalled(g, now);
    let plan = g.plan(ready.rotation, ready.stall);
    let (w1, d1) = w.delivered(store, actor, name, now);
    first_target_is_the_actors(plan, actor);
    let again = ready.owed(actor) matches Some(env) && still_planned(plan, env);
    if again {
        let env = ready.owed(actor)->0;
        assert(w.owed(actor) == Some(env));
        assert(w1 == ready);
        let i = choose|i: int|
            0 <= i < plan.len() && plan_key(#[trigger] plan[i]) == env.plan_key && target_actor(
                plan[i],
            ) == target_actor(env.target);
        assert(target_actor(plan[i]) == actor);
    } else {
        let i = first_for(plan, actor)->0;
        let clear = WakeView { outstanding: of_others(ready.outstanding, actor), ..ready };
        let env = clear.envelope(g, name, plan[i]);
        assert(w1.outstanding.last() == (actor, env));
        assert(plan_key(plan[i]) == env.plan_key);
        assert(w1.owed(actor) == Some(env));
        assert(target_actor(plan[i]) == actor);
    }
    let env = w1.owed(actor)->0;
    assert(w1.owed(actor) is Some);
    assert(g.plan(w1.rotation, w1.stall) == plan);
    assert(d1 == DeliverView::Wake(wake_reply(env, g.public_snapshot())));
    assert(target_actor(env.target) == actor);
    assert(exists|i: int|
        0 <= i < plan.len() && target_actor(#[trigger] plan[i]) == actor && plan_key(plan[i])
            == env.plan_key);
}

/// Nobody whose turn is planned is left idle.
pub proof fn planned_actors_are_woken(
    w: WakeView,
    store: GameStoreView,
    actor: WakeActor,
    name: Seq<char>,
    now: u64,
    i: int,
)
    requires
        w.game_id is Some,
        store.game(GameId(w.game_id->0)) is Some,
        ({
            let g = store.game(GameId(w.game_id->0))->0;
            let w1 = w.staged(g).stalled(g, now);
            let plan = g.plan(w1.rotation, w1.stall);
            !(g.phase is Ended) && 0 <= i < plan.len() && target_actor(plan[i]) == actor
        }),
    ensures
        w.delivered(store, actor, name, now).1 is Wake,
{
    let g = store.game(GameId(w.game_id->0))->0;
    let w1 = w.staged(g).stalled(g, now);
    first_target_is_the_actors(g.plan(w1.rotation, w1.stall), actor);
}

/// Looking for one actor leaves the wakes of the others owed, unless the game moved on to
/// another stage.
pub proof fn others_keep_their_wakes(
    w: WakeView,
    store: GameStoreView,
    actor: WakeActor,
    other: WakeActor,
    name: Seq<char>,
    now: u64,
)
    requires
        other != actor,
        w.game_id is Some ==> (store.game(GameId(w.game_id->0)) matches Some(g) ==> stage_key(g)
            == w.stage_key),
    ensures
        w.delivered(store, actor, name, now).0.owed(other) == w.owed(other),
{
    other_entries_stay(w.outstanding, actor, other);
    if w.game_id is Some && store.game(GameId(w.game_id->0)) is Some {
        let g = store.game(GameId(w.game_id->0))->0;
        if !(g.phase is Ended) {
            let ready = w.staged(g).stalled(g, now);
            let plan = g.plan(ready.rotation, ready.stall);
            let again = ready.owed(actor) matches Some(env) && still_planned(plan, env);
            if !again && first_for(plan, actor) is Some {
                let clear = of_others(ready.outstanding, actor);
                let w1 = w.delivered(store, actor, name, now).0;
                assert(w1.outstanding.drop_last() =~= clear);
            }
        }
    }
}

/// A completing tool settles the actor's own wake and nobody else's; any other tool settles
/// nothing. The turn passes on exactly after a completed speaking or nominating turn that was
/// no extra reply.
pub proof fn completing_tools_settle_one_wake(
    w: WakeView,
    actor: WakeActor,
    other: WakeActor,
    tool: Seq<char>,
)
    requires
        other != actor,
    ensures
        ({
            let after = w.tool_noted(actor, tool);
            let done = w.owed(actor) matches Some(env) && completes(tool, env.target);
            &&& done ==> after.owed(actor) is None
            &&& !done ==> after == w
            &&& after.owed(other) == w.owed(other)
            &&& after.rotation == (if done && passes_the_turn(w.owed(actor)->0.target) {
                next_turn(w.rotation)
            } else {
                w.rotation
            })
        }),
{
    dropped_entries_are_gone(w.outstanding, actor);
    other_entries_stay(w.outstanding, actor, other);
}

/// Wakes are numbered upwards: every fresh wake carries a number above all earlier ones.
pub proof fn wake_numbers_grow(
    w: WakeView,
    store: GameStoreView,
    actor: WakeActor,
    name: Seq<char>,
    now: u64,
)
    requires
        w.next_seq < u64::MAX,
        forall|i: int| 0 <= i < w.outstanding.len() ==> (#[trigger] w.outstanding[i]).1.seq
            < w.next_seq,
    ensures
        ({
            let w1 = w.delivered(store, actor, name, now).0;
            &&& w.next_seq <= w1.next_seq <= w.next_seq + 1
            &&& forall|i: int|
                0 <= i < w1.outstanding.len() ==> (#[trigger] w1.outstanding[i]).1.seq < w1.next_seq
            &&& w1.next_seq > w.next_seq ==> (w1.owed(actor) matches Some(env) && env.seq
                == w.next_seq)
        }),
{
    if w.game_id is Some && store.game(GameId(w.game_id->0)) is Some {
        let g = store.game(GameId(w.game_id->0))->0;
        if !(g.phase is Ended) {
            let ready = w.staged(g).stalled(g, now);
            others_are_entries(ready.outstanding, actor);
            let plan = g.plan(ready.rotation, ready.stall);
            let clear = of_others(ready.outstanding, actor);
            let w1 = w.delivered(store, actor, name, now).0;
            assert forall|i: int| 0 <= i < w1.outstanding.len() implies (
            #[trigger] w1.outstanding[i]).1.seq < w1.next_seq by {
                if w1.outstanding.len() > clear.len() && i < clear.len() {
                    assert(w1.outstanding == ready.outstanding || w1.outstanding[i] == clear[i]);
                }
                if w1.outstanding == clear {
                    assert(w1.outstanding[i] == clear[i]);
                }
            }
        }
    }
}

proof fn others_are_entries<T>(entries: Seq<(WakeActor, T)>, actor: WakeActor)
    ensures
        of_others(entries, actor).len() <= entries.len(),
        forall|i: int|
            0 <= i < of_others(entries, actor).len() ==> entries.contains(
                #[trigger] of_others(entries, actor)[i],
            ),
    decreases entries.len(),
{
    if entries.len() > 0 {
        let front = of_others(entries.drop_last(), actor);
        others_are_entries(entries.drop_last(), actor);
        let all = of_others(entries, actor);
        assert forall|i: int| 0 <= i < all.len() implies entries.contains(#[trigger] all[i]) by {
            if i < front.len() {
                assert(all[i] == front[i]);
                let k = choose|k: int|
                    0 <= k < entries.drop_last().len() && entries.drop_last()[k] == front[i];
                assert(entries[k] == all[i]);
            } else {
                assert(entries[entries.len() - 1] == all[i]);
            }
        }
    }
}

/// Every long-poll ends: at the deadline it is answered whatever the game does, after a stop it
/// is answered at once, and the end of the game is told to everyone who asks.
pub proof fn polls_come_to_an_end(
    w: WakeView,
    store: GameStoreView,
    actor: WakeActor,
    name: Seq<char>,
    now: u64,
    deadline: u64,
)
    ensures
        ({
            let step = w.polled(store, actor, name, now, deadline).1;
            &&& now >= deadline ==> step is Done
            &&& w.stopped ==> step == PollStepView::Done(stopped_reply())
            &&& step matches PollStepView::Wait { millis } ==> 0 < millis <= POLL_SLICE_MS && now
                + millis <= deadline
            &&& !w.stopped && w.game_id is Some ==> (store.game(
                GameId(w.game_id->0),
            ) matches Some(g) ==> (g.phase is Ended ==> step == PollStepView::Done(
                game_over_reply(g),
            )))
        }),
{
}

} // verus!
