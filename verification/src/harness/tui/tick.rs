//! One turn: whom the game waits on, and when to stop by itself.

use crate::game::phase::{winner_name, winner_word, Phase};
use crate::game::seat::{count_living, head_count};
use crate::game::state::{Game, GameView};
use crate::harness::scheduler::{
    plan_ticks, plan_view, wait_signature, SchedTarget, SchedTargetView,
};
use crate::harness::summary::public_summary;
use crate::harness::tui::board::{short_stage, stage_in_short};
use crate::harness::tui::monitor::{Monitor, MonitorView};
use crate::harness::tui::paint::{bold_ink, ink, put, row_view, span, Paint, RowView, Span, Tone};
use crate::harness::wake::{quote, quoted};
use crate::text::{dec, join, joined, numbered, push_dec, str_eq, texts};
use vstd::prelude::*;
use vstd::string::*;

verus! {

/// Key of the phase/stage for the turn rotation.
pub open spec fn rotation_key(g: GameView) -> Seq<char> {
    match g.phase {
        Phase::Lobby => "lobby"@,
        Phase::FirstNight { .. } => "night1"@,
        Phase::Night { night, .. } => "night"@ + dec(night as nat),
        Phase::Day { day, stage } => "day"@ + dec(day as nat) + "-"@ + short_stage(stage) + "-"@
            + dec(head_count(g.seats) as nat),
        Phase::Ended { .. } => "ended"@,
    }
}

/// Stable key for the current phase/stage; a change means the turn rotation restarts.
/// Includes the living count so a mid-stage death (Slayer shot) restarts the round
/// with the current roster instead of mis-indexing speakers/rounds.
pub fn stage_key_of(g: &Game) -> (s: String)
    ensures
        s@ == rotation_key(g@),
{
    match &g.phase {
        Phase::Lobby => "lobby".to_owned(),
        Phase::FirstNight { .. } => "night1".to_owned(),
        Phase::Night { night, .. } => numbered("night", *night as u64),
        Phase::Day { day, stage } => {
            let mut s = numbered("day", *day as u64);
            s.append("-");
            s.append(stage_in_short(*stage));
            s.append("-");
            push_dec(&mut s, count_living(&g.seats) as u64);
            s
        },
        Phase::Ended { .. } => "ended".to_owned(),
    }
}

/// An optional text as std's `Debug` prints it.
pub open spec fn opt_notation(t: Option<Seq<char>>) -> Seq<char> {
    match t {
        Some(s) => "Some("@ + quoted(s) + ")"@,
        None => "None"@,
    }
}

fn opt_debug(t: Option<&str>) -> (s: String)
    ensures
        s@ == opt_notation(
            match t {
                Some(x) => Some(x@),
                None => None,
            },
        ),
{
    match t {
        Some(x) => {
            let mut s = "Some(".to_owned();
            s.append(quote(x).as_str());
            s.append(")");
            s
        },
        None => "None".to_owned(),
    }
}

/// What the Storyteller is told about open waits.
pub open spec fn tick_hint(g: GameView) -> Seq<char> {
    "pending_night="@ + (if g.pending_night is Some { "true"@ } else { "false"@ })
        + " pending_host="@ + opt_notation(
        match g.pending_host {
            Some(p) => Some(p.kind()),
            None => None,
        },
    )
}

/// Public snapshot + host hint for tick prompts.
pub fn game_summary_and_hint(g: &Game) -> (r: (String, String))
    ensures
        r.0@ == g@.public_snapshot(),
        r.1@ == tick_hint(g@),
{
    let mut hint = "pending_night=".to_owned();
    hint.append(if g.pending_night.is_some() { "true" } else { "false" });
    hint.append(" pending_host=");
    let kind = match &g.pending_host {
        Some(p) => Some(p.kind_str()),
        None => None,
    };
    hint.append(opt_debug(kind).as_str());
    (public_summary(g), hint)
}

/// A target in short.
pub open spec fn target_words(t: SchedTargetView) -> Seq<char> {
    match t {
        SchedTargetView::Host(_) => "Host"@,
        SchedTargetView::Player { seat, .. } => "P"@ + dec(seat.0 as nat),
    }
}

/// Label a scheduler target for the status bar.
pub fn target_label(t: &SchedTarget) -> (s: String)
    ensures
        s@ == target_words(t@),
{
    match t {
        SchedTarget::Host(_) => "Host".to_owned(),
        SchedTarget::Player { seat, .. } => numbered("P", seat.0 as u64),
    }
}

/// The targets of a plan in short.
pub open spec fn plan_words(plan: Seq<SchedTargetView>) -> Seq<Seq<char>> {
    plan.map_values(|t: SchedTargetView| target_words(t))
}

fn plan_labels(plan: &Vec<SchedTarget>) -> (v: Vec<String>)
    ensures
        texts(v@) == plan_words(plan_view(plan@)),
{
    let mut v: Vec<String> = Vec::new();
    let mut i: usize = 0;
    while i < plan.len()
        invariant
            i <= plan@.len(),
            v@.len() == i,
            forall|k: int| 0 <= k < i ==> (#[trigger] v@[k])@ == target_words(plan@[k]@),
        decreases plan@.len() - i,
    {
        v.push(target_label(&plan[i]));
        i += 1;
    }
    assert(texts(v@) =~= plan_words(plan_view(plan@)));
    v
}

/// Only the Storyteller is due.
pub open spec fn host_only(plan: Seq<SchedTargetView>) -> bool {
    forall|i: int| 0 <= i < plan.len() ==> (#[trigger] plan[i]) is Host
}

fn is_host_only(plan: &Vec<SchedTarget>) -> (b: bool)
    ensures
        b == host_only(plan_view(plan@)),
{
    let mut i: usize = 0;
    while i < plan.len()
        invariant
            i <= plan@.len(),
            forall|k: int| 0 <= k < i ==> (#[trigger] plan_view(plan@)[k]) is Host,
        decreases plan@.len() - i,
    {
        assert(plan_view(plan@)[i as int] == plan@[i as int]@);
        match &plan[i] {
            SchedTarget::Host(_) => {},
            SchedTarget::Player { .. } => return false,
        }
        i += 1;
    }
    true
}

/// Fingerprint of a plan for the host-retry brake.
pub open spec fn brake_key(plan: Seq<SchedTargetView>, sign: Option<Seq<char>>) -> Seq<char> {
    joined(plan_words(plan), ","@) + "|"@ + opt_notation(sign)
}

/// How often a Storyteller-only plan may repeat without progress.
pub const HOST_RETRY_CAP: usize = 5;

pub const GAME_ENDED: &'static str =
    "Game ended — agents idle. Press q to quit or Tab to review streams.";

pub const NOBODY_SPAWNED: &'static str =
    "auto-advance stopped: tick spawned no agent (check grok / debug log). t=resume";

/// What comes of a turn.
pub enum TickStep {
    /// The game is over.
    Ended,
    /// The Storyteller repeats the same plan without progress.
    Braked,
    /// Run these targets with these prompts' context.
    Run { plan: Vec<SchedTarget>, summary: String, hint: String },
}

/// What comes of a turn.
pub enum TickStepView {
    Ended,
    Braked,
    Run { plan: Seq<SchedTargetView>, summary: Seq<char>, hint: Seq<char> },
}

impl View for TickStep {
    type V = TickStepView;

    open spec fn view(&self) -> TickStepView {
        match *self {
            TickStep::Ended => TickStepView::Ended,
            TickStep::Braked => TickStepView::Braked,
            TickStep::Run { plan, summary, hint } => TickStepView::Run {
                plan: plan_view(plan@),
                summary: summary@,
                hint: hint@,
            },
        }
    }
}

/// One more, up to the maximum.
pub open spec fn next_count(n: usize) -> usize {
    if n < usize::MAX { (n + 1) as usize } else { n }
}

impl MonitorView {
    /// A new phase or stage restarts the turn rotation; an unchanged wait counts as a stall.
    pub open spec fn noticed(self, g: GameView) -> MonitorView {
        let sign = g.wait_sign();
        MonitorView {
            stage_key: rotation_key(g),
            tick_rotation: if rotation_key(g) == self.stage_key { self.tick_rotation } else { 0 },
            wait_sig: sign,
            stall: if sign is Some && sign == self.wait_sig { next_count(self.stall) } else { 0 },
            ..self
        }
    }

    /// The plan for the current turn.
    pub open spec fn planned(self, g: GameView) -> (MonitorView, TickStepView) {
        let m = self.noticed(g);
        let plan = g.plan(m.tick_rotation, m.stall);
        if g.phase is Ended {
            (MonitorView { auto_tick: false, status: GAME_ENDED@, ..m }, TickStepView::Ended)
        } else {
            let key = brake_key(plan, m.wait_sig);
            let counted = MonitorView {
                last_plan_key: key,
                host_plan_repeats: if host_only(plan) && key == self.last_plan_key {
                    next_count(self.host_plan_repeats)
                } else {
                    0
                },
                ..m
            };
            if host_only(plan) && counted.host_plan_repeats >= HOST_RETRY_CAP {
                (
                    MonitorView {
                        auto_tick: false,
                        status: "auto-advance stopped: host repeated '"@ + joined(
                            self.last_targets,
                            ","@,
                        ) + "' "@ + dec(HOST_RETRY_CAP as nat)
                            + "x without progress (see debug log). t=resume"@,
                        ..counted
                    },
                    TickStepView::Braked,
                )
            } else {
                (
                    MonitorView { last_targets: plan_words(plan), ..counted },
                    TickStepView::Run {
                        plan,
                        summary: g.public_snapshot(),
                        hint: tick_hint(g),
                    },
                )
            }
        }
    }

    /// The monitor after the targets of a turn were started, or were not. The turn slot is
    /// consumed only when someone actually ran — a failed spawn must not silently skip a speaker —
    /// and a turn that starts nobody stops the automatic advance.
    pub open spec fn ticked(self, due: nat, outcome: Result<usize, Seq<char>>) -> MonitorView {
        match outcome {
            Ok(spawned) => if spawned > 0 {
                MonitorView {
                    tick_rotation: if self.tick_rotation < usize::MAX {
                        (self.tick_rotation + 1) as usize
                    } else {
                        0
                    },
                    status: "Turn tick → "@ + joined(self.last_targets, ", "@) + ": "@ + dec(
                        spawned as nat,
                    ) + " of "@ + dec(due) + " spawned."@,
                    ..self
                }
            } else {
                MonitorView { auto_tick: false, status: NOBODY_SPAWNED@, ..self }
            },
            Err(e) => MonitorView {
                auto_tick: false,
                status: "tick error (auto stopped): "@ + e,
                ..self
            },
        }
    }
}

impl Monitor {
    fn notice(&mut self, g: &Game)
        ensures
            final(self)@ == old(self)@.noticed(g@),
    {
        // New phase/stage => restart the turn rotation (round counting depends
        // on rotation starting at 0 when discussion/nominations begin).
        let key = stage_key_of(g);
        if !str_eq(key.as_str(), self.stage_key.as_str()) {
            self.stage_key = key;
            self.tick_rotation = 0;
        }
        // Stall detection: same wait as last cycle => it's not progressing.
        let sig = wait_signature(g);
        let same = match (&sig, &self.wait_sig) {
            (Some(a), Some(b)) => str_eq(a.as_str(), b.as_str()),
            _ => false,
        };
        self.stall = if same { self.stall.saturating_add(1) } else { 0 };
        self.wait_sig = sig;
    }

    /// One turn-routed tick: plan from engine state, so only the agent(s) the game is waiting on
    /// run. Stops (and disarms auto-tick) at the end of the game, and when the Storyteller repeats
    /// a plan without progress: without a cap, auto-advance would re-spawn it forever.
    pub fn plan_turn(&mut self, g: &Game) -> (step: TickStep)
        ensures
            (final(self)@, step@) == old(self)@.planned(g@),
    {
        self.notice(g);
        let plan = plan_ticks(g, self.tick_rotation, self.stall);
        if g.phase.is_ended() {
            self.auto_tick = false;
            self.status = GAME_ENDED.to_owned();
            return TickStep::Ended;
        }
        let labels = plan_labels(&plan);
        let alone = is_host_only(&plan);
        let mut key = join(&labels, ",");
        key.append("|");
        let sig = match &self.wait_sig {
            Some(s) => Some(s.as_str()),
            None => None,
        };
        key.append(opt_debug(sig).as_str());
        if alone && str_eq(key.as_str(), self.last_plan_key.as_str()) {
            self.host_plan_repeats = self.host_plan_repeats.saturating_add(1);
        } else {
            self.host_plan_repeats = 0;
        }
        self.last_plan_key = key;
        if alone && self.host_plan_repeats >= HOST_RETRY_CAP {
            self.auto_tick = false;
            let mut s = "auto-advance stopped: host repeated '".to_owned();
            s.append(join(&self.last_targets, ",").as_str());
            s.append("' ");
            push_dec(&mut s, HOST_RETRY_CAP as u64);
            s.append("x without progress (see debug log). t=resume");
            self.status = s;
            return TickStep::Braked;
        }
        self.last_targets = labels;
        let (summary, hint) = game_summary_and_hint(g);
        TickStep::Run { plan, summary, hint }
    }

    /// The targets of a turn were started, or were not.
    pub fn note_ticked(&mut self, due: usize, outcome: Result<usize, String>)
        ensures
            final(self)@ == old(self)@.ticked(
                due as nat,
                match outcome {
                    Ok(n) => Ok(n),
                    Err(e) => Err(e@),
                },
            ),
    {
        match outcome {
            Ok(spawned) => {
                if spawned > 0 {
                    let mut s = "Turn tick → ".to_owned();
                    s.append(join(&self.last_targets, ", ").as_str());
                    s.append(": ");
                    push_dec(&mut s, spawned as u64);
                    s.append(" of ");
                    push_dec(&mut s, due as u64);
                    s.append(" spawned.");
                    self.status = s;
                    self.tick_rotation = self.tick_rotation.wrapping_add(1);
                } else {
                    self.auto_tick = false;
                    self.status = NOBODY_SPAWNED.to_owned();
                }
            },
            Err(e) => {
                self.auto_tick = false;
                let mut s = "tick error (auto stopped): ".to_owned();
                s.append(e.as_str());
                self.status = s;
            },
        }
    }
}

// ---------------------------------------------------------------------------
// The status bar
// ---------------------------------------------------------------------------

/// The phase in words.
pub open spec fn phase_words(g: GameView) -> Seq<char> {
    match g.phase {
        Phase::Lobby => "Lobby"@,
        Phase::FirstNight { .. } => "Night 1"@,
        Phase::Night { night, .. } => "Night "@ + dec(night as nat),
        Phase::Day { day, stage } => "Day "@ + dec(day as nat) + "·"@ + short_stage(stage),
        Phase::Ended { winner, .. } => "Ended: "@ + winner_word(winner),
    }
}

/// Concise phase label for the status bar (`Night 1`, `Day 2·noms`, `Ended: Good`).
pub fn phase_label(g: &Game) -> (s: String)
    ensures
        s@ == phase_words(g@),
{
    match &g.phase {
        Phase::Lobby => "Lobby".to_owned(),
        Phase::FirstNight { .. } => "Night 1".to_owned(),
        Phase::Night { night, .. } => numbered("Night ", *night as u64),
        Phase::Day { day, stage } => {
            let mut s = numbered("Day ", *day as u64);
            s.append("·");
            s.append(stage_in_short(*stage));
            s
        },
        Phase::Ended { winner, .. } => {
            let mut s = "Ended: ".to_owned();
            s.append(winner_name(*winner));
            s
        },
    }
}

/// The status bar: phase · whose turn · tick mode · what runs.
pub open spec fn status_row(
    m: MonitorView,
    phase: Seq<char>,
    running: Seq<Seq<char>>,
    secs_ago: u64,
) -> RowView {
    let turn = if m.last_targets.len() == 0 { "—"@ } else { joined(m.last_targets, ","@) };
    seq![
        span(" "@ + phase + " "@, bold_ink(Tone::Cyan)),
        span("· turn "@, ink(Tone::Plain)),
        span(turn + " "@, ink(Tone::Yellow)),
        span("· "@, ink(Tone::Plain)),
        span(
            if m.auto_tick { "auto (on turn end) "@ } else { "manual (Space) "@ },
            ink(if m.auto_tick { Tone::Green } else { Tone::Yellow }),
        ),
        span("· "@, ink(Tone::Plain)),
        if running.len() == 0 {
            span("idle · last turn "@ + dec(secs_ago as nat) + "s ago"@, ink(Tone::DarkGray))
        } else {
            span("▶ running: "@ + joined(running, ","@), bold_ink(Tone::Green))
        },
    ]
}

/// Game-progress spans for the top bar: phase · whose turn · tick mode · running.
pub fn status_spans(
    m: &Monitor,
    phase: &str,
    running: &Vec<String>,
    secs_ago: u64,
) -> (row: Vec<Span>)
    ensures
        row_view(row@) == status_row(m@, phase@, texts(running@), secs_ago),
{
    let mut row: Vec<Span> = Vec::new();
    let mut t = " ".to_owned();
    t.append(phase);
    t.append(" ");
    put(&mut row, t.as_str(), Paint::bold(Tone::Cyan));
    put(&mut row, "· turn ", Paint::ink(Tone::Plain));
    assert(texts(m.last_targets@).len() == m.last_targets@.len());
    let mut turn = if m.last_targets.len() == 0 {
        "—".to_owned()
    } else {
        join(&m.last_targets, ",")
    };
    turn.append(" ");
    put(&mut row, turn.as_str(), Paint::ink(Tone::Yellow));
    put(&mut row, "· ", Paint::ink(Tone::Plain));
    if m.auto_tick {
        put(&mut row, "auto (on turn end) ", Paint::ink(Tone::Green));
    } else {
        put(&mut row, "manual (Space) ", Paint::ink(Tone::Yellow));
    }
    put(&mut row, "· ", Paint::ink(Tone::Plain));
    assert(texts(running@).len() == running@.len());
    if running.len() == 0 {
        let mut s = numbered("idle · last turn ", secs_ago);
        s.append("s ago");
        put(&mut row, s.as_str(), Paint::ink(Tone::DarkGray));
    } else {
        let mut s = "▶ running: ".to_owned();
        s.append(join(running, ",").as_str());
        put(&mut row, s.as_str(), Paint::bold(Tone::Green));
    }
    assert(row_view(row@) =~= status_row(m@, phase@, texts(running@), secs_ago));
    row
}

/// What to do for the ranking corpus when the program quits.
#[derive(Debug, Clone, Copy, PartialEq, Eq, Structural)]
pub enum ClosingRecord {
    /// The closing record is already written, or there never was a game.
    Nothing,
    /// Write the end of the game.
    End,
    /// Write that the game was aborted.
    Abort,
}

/// What to write for a game when the program quits: every launched game gets exactly one closing
/// record, the end where it was reached, an abort where it was not.
pub fn closing_record(
    launched: bool,
    terminal_logged: bool,
    game: Option<&Game>,
) -> (r: ClosingRecord)
    ensures
        r == (if !launched || terminal_logged {
            ClosingRecord::Nothing
        } else if game matches Some(g) && g@.phase is Ended {
            ClosingRecord::End
        } else {
            ClosingRecord::Abort
        }),
{
    if !launched || terminal_logged {
        return ClosingRecord::Nothing;
    }
    match game {
        Some(g) => if g.phase.is_ended() {
            ClosingRecord::End
        } else {
            ClosingRecord::Abort
        },
        None => ClosingRecord::Abort,
    }
}

// ---------------------------------------------------------------------------
// Laws
// ---------------------------------------------------------------------------

/// The automatic advance stops at the end of the game and when a turn starts nobody.
pub proof fn auto_advance_stops(m: MonitorView, g: GameView, due: nat, e: Seq<char>)
    ensures
        g.phase is Ended ==> !m.planned(g).0.auto_tick,
        !m.ticked(due, Ok(0)).auto_tick,
        !m.ticked(due, Err(e)).auto_tick,
        m.planned(g).1 is Braked ==> !m.planned(g).0.auto_tick,
{
}

/// A failed start does not skip a speaker, and a successful one passes the turn on by one.
pub proof fn only_runs_consume_a_turn(m: MonitorView, due: nat, n: usize, e: Seq<char>)
    requires
        n > 0,
        m.tick_rotation < usize::MAX,
    ensures
        m.ticked(due, Ok(0)).tick_rotation == m.tick_rotation,
        m.ticked(due, Err(e)).tick_rotation == m.tick_rotation,
        m.ticked(due, Ok(n)).tick_rotation == m.tick_rotation + 1,
{
}

/// A Storyteller that never makes progress is not asked forever: each time the same
/// Storyteller-only plan comes up again it is counted, and at [`HOST_RETRY_CAP`] nobody is run.
/// Any other plan starts the count over.
pub proof fn stuck_storytellers_are_braked(m: MonitorView, g: GameView)
    requires
        !(g.phase is Ended),
        m.host_plan_repeats < usize::MAX,
    ensures
        ({
            let seen = m.noticed(g);
            let plan = g.plan(seen.tick_rotation, seen.stall);
            let again = host_only(plan) && brake_key(plan, seen.wait_sig) == m.last_plan_key;
            let (after, step) = m.planned(g);
            &&& again ==> after.host_plan_repeats == m.host_plan_repeats + 1
            &&& !again ==> after.host_plan_repeats == 0 && step is Run
            &&& again && m.host_plan_repeats + 1 >= HOST_RETRY_CAP ==> step is Braked
        }),
{
}

} // verus!
