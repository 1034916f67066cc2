//! Tool-layer view DTOs (public / private / host / character rules).

use crate::comms::{copy_seats, EventId, PrivateMessage};
use crate::game::ids::SeatId;
use crate::game::night::ChoiceSchema;
use crate::game::phase::Winner;
use crate::game::st_policy::PendingHostDecision;
use crate::game::state::PublicSeatView;
use crate::text::{dec, numbered, push_dec};
use vstd::prelude::*;
use vstd::string::*;

verus! {

/// Public table snapshot — no roles, no pending night seat identity.
#[derive(Debug, Clone)]
pub struct PublicStateView {
    pub phase: String,
    pub seats: Vec<PublicSeatView>,
    pub winner: Option<Winner>,
}

/// Structured “you must act” info (acting seat only; never leaks other seats’ wakes).
#[derive(Debug, Clone)]
pub struct AwaitingView {
    pub action: &'static str,
    pub prompt: String,
    pub schema: ChoiceSchema,
}

/// Player-facing private snapshot. Must never expose Drunk as `character_label`.
#[derive(Debug)]
pub struct PrivateStateView {
    pub seat: SeatId,
    pub name: String,
    pub alive: bool,
    /// Character the player should play as (Drunk → Townsfolk face only).
    pub character_label: Option<String>,
    pub team_label: Option<String>,
    pub rules_path: Option<String>,
    pub private_messages_since: Vec<(EventId, PrivateMessage)>,
    /// True only when this seat has a pending night (or later day) action.
    pub awaiting_action: bool,
    /// Details for the pending action; `None` unless this seat must act.
    pub awaiting: Option<AwaitingView>,
}

/// One seat in the host grimoire (true roles + markers).
#[derive(Debug, Clone)]
pub struct HostSeatView {
    pub seat_id: SeatId,
    pub name: String,
    pub alive: bool,
    pub ghost_vote_available: bool,
    pub true_character: Option<&'static str>,
    pub believed_character: Option<&'static str>,
    pub poisoned: bool,
    pub is_drunk_outsider: bool,
    pub monk_protected_tonight: bool,
    pub slayer_used: bool,
    pub virgin_ability_used: bool,
    pub butler_master: Option<SeatId>,
}

/// Pending wake as seen by the host (includes acting seat — not public).
#[derive(Debug, Clone)]
pub struct HostPendingView {
    pub seat_id: SeatId,
    pub prompt: String,
    pub schema: ChoiceSchema,
    pub step_debug: String,
}

/// Host-only pending Storyteller decision (Mayor / starpass / night info / day reg).
#[derive(Debug, Clone)]
pub struct HostDecisionView {
    pub kind: String,
    pub detail: String,
    pub seats: Vec<SeatId>,
}

/// Host-only full grimoire + pending + seed/salt (eval/debug).
#[derive(Debug, Clone)]
pub struct HostStateView {
    pub seed: u64,
    /// Per-game secret mixed into RNG substreams. Never exposed on player views.
    pub secret_salt: u64,
    pub phase: String,
    pub seats: Vec<HostSeatView>,
    pub pending: Option<HostPendingView>,
    /// Host Storyteller choice (not shown on player views).
    pub pending_host: Option<HostDecisionView>,
    pub registration_mode: String,
    pub st_choice_mode: String,
    pub host_lie_queue_len: usize,
    pub red_herring: Option<SeatId>,
    pub demon_bluffs: Vec<&'static str>,
    pub winner: Option<Winner>,
}

/// What the host reads about an open decision besides its kind.
pub open spec fn decision_detail(p: PendingHostDecision) -> Seq<char> {
    match p {
        PendingHostDecision::MayorRedirect { mayor, .. } => "mayor seat "@ + dec(mayor.0 as nat),
        PendingHostDecision::StarpassPick { dead_imp, .. } => "dead_imp seat "@ + dec(
            dead_imp.0 as nat,
        ),
        PendingHostDecision::NightInfo { seat, ability, reason, .. } => ability@ + " for seat "@
            + dec(seat.0 as nat) + " ("@ + reason@ + ")"@,
        PendingHostDecision::VirginSpyReg { nominator, virgin } => "nominator seat "@ + dec(
            nominator.0 as nat,
        ) + " virgin seat "@ + dec(virgin.0 as nat),
        PendingHostDecision::SlayerRecluseReg { slayer, target } => "slayer seat "@ + dec(
            slayer.0 as nat,
        ) + " target seat "@ + dec(target.0 as nat),
    }
}

/// The seats that an open decision is about.
pub open spec fn decision_seats(p: PendingHostDecision) -> Seq<SeatId> {
    match p {
        PendingHostDecision::MayorRedirect { living_others, .. } => living_others@,
        PendingHostDecision::StarpassPick { minions, .. } => minions@,
        PendingHostDecision::NightInfo { seat, .. } => seq![seat],
        PendingHostDecision::VirginSpyReg { nominator, virgin } => seq![nominator, virgin],
        PendingHostDecision::SlayerRecluseReg { slayer, target } => seq![slayer, target],
    }
}

impl HostDecisionView {
    /// The view shows the open decision.
    pub open spec fn shows(self, p: PendingHostDecision) -> bool {
        self.kind@ == p.kind() && self.detail@ == decision_detail(p) && self.seats@
            == decision_seats(p)
    }

    pub fn from_pending(p: &PendingHostDecision) -> (v: HostDecisionView)
        ensures
            v.shows(*p),
    {
        let kind = p.kind_str().to_owned();
        let (detail, seats) = match p {
            PendingHostDecision::MayorRedirect { mayor, living_others } => (
                numbered("mayor seat ", mayor.0 as u64),
                copy_seats(living_others),
            ),
            PendingHostDecision::StarpassPick { minions, dead_imp } => (
                numbered("dead_imp seat ", dead_imp.0 as u64),
                copy_seats(minions),
            ),
            PendingHostDecision::NightInfo { seat, ability, reason, .. } => {
                let mut detail = ability.clone();
                detail.append(" for seat ");
                push_dec(&mut detail, seat.0 as u64);
                detail.append(" (");
                detail.append(reason.as_str());
                detail.append(")");
                let mut seats: Vec<SeatId> = Vec::new();
                seats.push(*seat);
                assert(seats@ =~= seq![*seat]);
                (detail, seats)
            },
            PendingHostDecision::VirginSpyReg { nominator, virgin } => {
                let mut detail = numbered("nominator seat ", nominator.0 as u64);
                detail.append(" virgin seat ");
                push_dec(&mut detail, virgin.0 as u64);
                let seats = vec![*nominator, *virgin];
                assert(seats@ =~= seq![*nominator, *virgin]);
                (detail, seats)
            },
            PendingHostDecision::SlayerRecluseReg { slayer, target } => {
                let mut detail = numbered("slayer seat ", slayer.0 as u64);
                detail.append(" target seat ");
                push_dec(&mut detail, target.0 as u64);
                let seats = vec![*slayer, *target];
                assert(seats@ =~= seq![*slayer, *target]);
                (detail, seats)
            },
        };
        HostDecisionView { kind, detail, seats }
    }
}

/// Public character sheet entry with loaded markdown body.
#[derive(Debug, Clone)]
pub struct CharacterRulesView {
    pub name: &'static str,
    pub path: &'static str,
    pub team: String,
    pub character_type: String,
    /// Full markdown from `docs/roles/...`.
    pub text: String,
}

} // verus!
