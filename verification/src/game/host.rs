//! Storyteller decisions: what the host resolves, and what happens when they are skipped.

use crate::auth::{Actor, Token};
use crate::comms::{PrivateMessage, PrivateMessageView};
use crate::error::GameError;
use crate::game::ability::evil::{complete_starpass, resolve_mayor_host_choice};
use crate::game::ability::resolve_night_step;
use crate::game::ids::{holds_seat, SeatId};
use crate::game::night::NightActionPayload;
use crate::game::phase::NightStep;
use crate::game::seat::{ascending, ascending_sorts, sort_ascending};
use crate::game::st_policy::{
    HostDecision, MayorRedirectChoice, NightInfoPayload, PendingHostDecision,
};
use crate::game::state::{settles, Game, GameView};
use crate::text::numbered;
use vstd::prelude::*;
use vstd::string::*;

verus! {

/// A stored payload as the night choice it was.
pub open spec fn night_choice(p: Option<NightInfoPayload>) -> Option<NightActionPayload> {
    match p {
        Some(NightInfoPayload::PickTwo { a, b }) => Some(NightActionPayload::PickTwo { a, b }),
        Some(NightInfoPayload::PickOne { target }) => Some(NightActionPayload::PickOne { target }),
        None => None,
    }
}

impl GameView {
    /// No Storyteller decision is open.
    pub open spec fn undecided_cleared(self) -> GameView {
        GameView { pending_host: None, ..self }
    }

    /// A night goes on with its next step; any other phase stays.
    pub open spec fn resumed(self) -> GameView {
        if self.phase.night_falls() { self.advanced().ticked() } else { self }
    }

    /// The host resolves the open decision with an answer of its kind.
    #[verifier::opaque]
    pub open spec fn host_decided(self, decision: HostDecision) -> Result<GameView, GameError> {
        match self.pending_host {
            None => Err(GameError::IllegalAction("no pending host decision")),
            Some(pending) => match (pending, decision) {
                (
                    PendingHostDecision::MayorRedirect { mayor, .. },
                    HostDecision::MayorRedirect { choice },
                ) => Ok(self.undecided_cleared().mayor_decided(mayor, choice).0.resumed()),
                (
                    PendingHostDecision::StarpassPick { minions, dead_imp },
                    HostDecision::StarpassPick { minion },
                ) => if !minions@.contains(minion) {
                    Err(
                        GameError::IllegalAction(
                            "starpass pick must be a living minion from the pending list",
                        ),
                    )
                } else {
                    Ok(
                        self.undecided_cleared().killed_tonight(dead_imp).starpassed_to(
                            minion,
                        ).resumed(),
                    )
                },
                (
                    PendingHostDecision::NightInfo { seat, .. },
                    HostDecision::NightInfo { text },
                ) => Ok(
                    self.undecided_cleared().whisper(
                        seat,
                        PrivateMessageView::NightResult { text: text@ },
                    ).resumed(),
                ),
                _ => Err(
                    GameError::IllegalAction("host decision does not match pending decision type"),
                ),
            },
        }
    }

    /// The open decision is skipped: an attack on the Mayor kills nobody, a starpass goes to a
    /// drawn Minion, information is resolved by the engine (on its failure only the decision is
    /// gone), and a registration question, which play resolves at once anyway, is dropped.
    #[verifier::opaque]
    pub open spec fn host_skipped(self) -> (GameView, Result<(), GameError>) {
        match self.pending_host {
            None => (self, Err(GameError::IllegalAction("no pending host decision"))),
            Some(PendingHostDecision::MayorRedirect { mayor, .. }) => (
                self.undecided_cleared().resumed(),
                Ok(()),
            ),
            Some(PendingHostDecision::StarpassPick { minions, dead_imp }) => {
                let sorted = ascending(minions@);
                if sorted.len() == 0 {
                    (self, Err(GameError::IllegalAction("no minions for starpass default")))
                } else {
                    let minion = sorted[self.night_stream("starpass:c"@).choice(sorted.len()).0];
                    (
                        self.undecided_cleared().killed_tonight(dead_imp).starpassed_to(
                            minion,
                        ).resumed(),
                        Ok(()),
                    )
                }
            },
            Some(PendingHostDecision::NightInfo { step, payload, .. }) => {
                self.undecided_cleared().info_resolved(step, night_choice(payload))
            },
            Some(_) => (self.undecided_cleared(), Ok(())),
        }
    }

    /// The engine resolves an information step and the night goes on; a step that cannot be
    /// resolved changes nothing.
    pub open spec fn info_resolved(self, step: NightStep, payload: Option<NightActionPayload>) -> (
        GameView,
        Result<(), GameError>,
    ) {
        match self.informed(step, payload) {
            Ok((told, _)) => (told.resumed(), Ok(())),
            Err(e) => (self, Err(e)),
        }
    }

    /// The host skips what the night waits for: an open Storyteller decision, or else the
    /// pending wake, which takes its default choice.
    pub open spec fn skipped(self, host: Seq<char>) -> (GameView, Result<(), GameError>) {
        if !self.is_host(host) {
            (self, Err(GameError::Unauthorized))
        } else if self.pending_host is Some {
            self.host_skipped()
        } else {
            match self.pending_night {
                None => (self, Err(GameError::IllegalAction("no pending night action"))),
                Some(pending) => match self.default_payload(pending) {
                    Err(e) => (self, Err(e)),
                    Ok(payload) => match self.night_acted(pending.seat, payload) {
                        Ok(g) => (g, Ok(())),
                        Err(e) => (self, Err(e)),
                    },
                },
            }
        }
    }
}

impl Game {
    /// Host: push a free-text lie for the next disabled info result (FIFO).
    pub fn host_queue_lie(&mut self, host: &Token, text: String) -> (r: Result<(), GameError>)
        ensures
            if old(self)@.is_host(host@) {
                r is Ok && final(self)@ == (GameView {
                    host_lie_queue: old(self)@.host_lie_queue.push(text@),
                    ..old(self)@
                })
            } else {
                r == Err::<(), GameError>(GameError::Unauthorized) && final(self)@ == old(self)@
            },
    {
        match self.tokens.resolve(host) {
            Some(Actor::Host) => {},
            _ => return Err(GameError::Unauthorized),
        }
        self.host_lie_queue.push_back(text);
        assert(self@.host_lie_queue =~= old(self)@.host_lie_queue.push(text@));
        Ok(())
    }

    /// Host: resolve a pending Storyteller decision.
    pub fn host_decide(&mut self, host: &Token, decision: HostDecision) -> (r: Result<
        (),
        GameError,
    >)
        ensures
            settles(
                if old(self)@.is_host(host@) {
                    old(self)@.host_decided(decision)
                } else {
                    Err(GameError::Unauthorized)
                },
                old(self)@,
                final(self)@,
                r,
            ),
    {
        match self.tokens.resolve(host) {
            Some(Actor::Host) => {},
            _ => return Err(GameError::Unauthorized),
        }
        self.apply_host_decision(decision)
    }

    /// Resolve the open decision with an answer of its kind.
    pub fn apply_host_decision(&mut self, decision: HostDecision) -> (r: Result<(), GameError>)
        ensures
            settles(old(self)@.host_decided(decision), old(self)@, final(self)@, r),
    {
        reveal(GameView::host_decided);
        match (&self.pending_host, decision) {
            (None, _) => Err(GameError::IllegalAction("no pending host decision")),
            (
                Some(PendingHostDecision::MayorRedirect { mayor, .. }),
                HostDecision::MayorRedirect { choice },
            ) => {
                let mayor = *mayor;
                self.pending_host = None;
                resolve_mayor_host_choice(self, mayor, choice);
                self.advance_after_host_decision();
                Ok(())
            },
            (
                Some(PendingHostDecision::StarpassPick { minions, dead_imp }),
                HostDecision::StarpassPick { minion },
            ) => {
                if !holds_seat(minions, minion) {
                    return Err(
                        GameError::IllegalAction(
                            "starpass pick must be a living minion from the pending list",
                        ),
                    );
                }
                let dead_imp = *dead_imp;
                self.pending_host = None;
                complete_starpass(self, dead_imp, minion);
                self.advance_after_host_decision();
                Ok(())
            },
            (
                Some(PendingHostDecision::NightInfo { seat, .. }),
                HostDecision::NightInfo { text },
            ) => {
                let seat = *seat;
                self.pending_host = None;
                self.private_inboxes.push(seat, PrivateMessage::NightResult { text });
                self.advance_after_host_decision();
                Ok(())
            },
            _ => Err(
                GameError::IllegalAction("host decision does not match pending decision type"),
            ),
        }
    }

    /// Skip the open decision.
    pub fn apply_default_host_decision(&mut self) -> (r: Result<(), GameError>)
        ensures
            (final(self)@, r) == old(self)@.host_skipped(),
    {
        reveal(GameView::host_skipped);
        reveal(GameView::host_decided);
        match &self.pending_host {
            None => Err(GameError::IllegalAction("no pending host decision")),
            Some(PendingHostDecision::MayorRedirect { .. }) => {
                // Skip default: nobody dies. Host may still pick kill_mayor / kill_other.
                self.apply_host_decision(
                    HostDecision::MayorRedirect { choice: MayorRedirectChoice::Nobody },
                )
            },
            Some(PendingHostDecision::StarpassPick { minions, .. }) => {
                // Random among living minions.
                let sorted = sort_ascending(minions);
                if sorted.len() == 0 {
                    return Err(GameError::IllegalAction("no minions for starpass default"));
                }
                let label = numbered("starpass:c", self.night_cursor as u64);
                let mut rng = self.rng.substream(label.as_str());
                let k = rng.pick(sorted.len());
                let minion = sorted[k];
                proof {
                    sorted_pick_is_listed(minions@, k as int);
                }
                self.apply_host_decision(HostDecision::StarpassPick { minion })
            },
            Some(PendingHostDecision::NightInfo { step, payload, .. }) => {
                // Random path: run engine resolution for this step.
                let step = *step;
                let night_payload = match payload {
                    Some(NightInfoPayload::PickTwo { a, b }) => Some(
                        NightActionPayload::PickTwo { a: *a, b: *b },
                    ),
                    Some(NightInfoPayload::PickOne { target }) => Some(
                        NightActionPayload::PickOne { target: *target },
                    ),
                    None => None,
                };
                self.pending_host = None;
                self.resolve_info(step, night_payload)
            },
            _ => {
                self.pending_host = None;
                Ok(())
            },
        }
    }

    /// Run the engine's own resolution of an information step, then go on.
    fn resolve_info(&mut self, step: NightStep, payload: Option<NightActionPayload>) -> (r: Result<
        (),
        GameError,
    >)
        ensures
            (final(self)@, r) == old(self)@.info_resolved(step, payload),
    {
        if let Err(e) = resolve_night_step(self, step, payload.as_ref()) {
            return Err(e);
        }
        self.advance_after_host_decision();
        Ok(())
    }

    /// Only a night in progress moves on.
    fn advance_after_host_decision(&mut self)
        ensures
            final(self)@ == old(self)@.resumed(),
    {
        if !self.phase.is_night() {
            return;
        }
        self.advance_cursor();
        self.night_tick();
    }

    /// Host applies a documented default for the pending Storyteller decision, or else for the
    /// pending wake, and continues.
    pub fn skip_night_action(&mut self, host: &Token) -> (r: Result<(), GameError>)
        ensures
            (final(self)@, r) == old(self)@.skipped(host@),
    {
        match self.tokens.resolve(host) {
            Some(Actor::Host) => {},
            _ => return Err(GameError::Unauthorized),
        }
        if self.pending_host.is_some() {
            return self.apply_default_host_decision();
        }
        let pending = match &self.pending_night {
            Some(p) => p.clone(),
            None => return Err(GameError::IllegalAction("no pending night action")),
        };
        let payload = match self.default_payload_for(&pending) {
            Ok(p) => p,
            Err(e) => return Err(e),
        };
        self.apply_night_action(pending.seat, payload)
    }
}

/// What sorting puts anywhere was in the list.
proof fn sorted_pick_is_listed(ids: Seq<SeatId>, k: int)
    requires
        0 <= k < ids.len(),
    ensures
        ids.contains(ascending(ids)[k]),
{
    broadcast use vstd::seq_lib::group_to_multiset_ensures;

    ascending_sorts(ids);
    let id = ascending(ids)[k];
    assert(ascending(ids).contains(id));
    assert(ids.to_multiset().count(id) > 0);
}

} // verus!
