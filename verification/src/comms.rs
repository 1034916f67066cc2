//! Public table log and per-seat private Storyteller inbox.
//!
//! Policy: agent-to-agent communication is **public only**.
//! Private messages are Storyteller → single seat (abilities, briefings).

use crate::game::ids::SeatId;
use crate::roles::Team;
use vstd::prelude::*;

verus! {

/// Monotonic event id for polling cursors.
pub type EventId = u64;

/// Append-only public feed.
///
/// Everyone with a game token can read the full sequence via `get_public_log`.
#[derive(Debug, PartialEq, Eq)]
pub enum PublicEvent {
    /// Player speech — visible to every agent.
    ///
    /// Optional `to` addresses another seat **publicly** (not a whisper). The harness
    /// may immediately wake that seat; the message remains on the shared log.
    Chat {
        seat: SeatId,
        name: String,
        text: String,
        /// When set, this was directed at another seat (still fully public).
        to: Option<SeatId>,
    },
    StorytellerAnnounce { text: String },
    Nominated { by: SeatId, target: SeatId },
    VoteCast {
        seat: SeatId,
        nominee: SeatId,
        /// `true` = hand up / support execution.
        support: bool,
    },
    Executed { seat: SeatId },
    NoExecution,
    DiedInNight { seats: Vec<SeatId> },
    /// Immediate day death (Slayer success, Virgin bounce, etc.).
    PlayerDied { seat: SeatId },
    /// Optional public miss signal; engine may also stay silent.
    SlayerMiss { slayer: SeatId, target: SeatId },
    PhaseChanged { summary: String },
    GameEnded { winner: Team },
}

/// What a public event says.
pub enum PublicEventView {
    Chat { seat: SeatId, name: Seq<char>, text: Seq<char>, to: Option<SeatId> },
    StorytellerAnnounce { text: Seq<char> },
    Nominated { by: SeatId, target: SeatId },
    VoteCast { seat: SeatId, nominee: SeatId, support: bool },
    Executed { seat: SeatId },
    NoExecution,
    DiedInNight { seats: Seq<SeatId> },
    PlayerDied { seat: SeatId },
    SlayerMiss { slayer: SeatId, target: SeatId },
    PhaseChanged { summary: Seq<char> },
    GameEnded { winner: Team },
}

impl View for PublicEvent {
    type V = PublicEventView;

    open spec fn view(&self) -> PublicEventView {
        match *self {
            PublicEvent::Chat { seat, name, text, to } => PublicEventView::Chat {
                seat,
                name: name@,
                text: text@,
                to,
            },
            PublicEvent::StorytellerAnnounce { text } => PublicEventView::StorytellerAnnounce {
                text: text@,
            },
            PublicEvent::Nominated { by, target } => PublicEventView::Nominated { by, target },
            PublicEvent::VoteCast { seat, nominee, support } => PublicEventView::VoteCast {
                seat,
                nominee,
                support,
            },
            PublicEvent::Executed { seat } => PublicEventView::Executed { seat },
            PublicEvent::NoExecution => PublicEventView::NoExecution,
            PublicEvent::DiedInNight { seats } => PublicEventView::DiedInNight { seats: seats@ },
            PublicEvent::PlayerDied { seat } => PublicEventView::PlayerDied { seat },
            PublicEvent::SlayerMiss { slayer, target } => PublicEventView::SlayerMiss {
                slayer,
                target,
            },
            PublicEvent::PhaseChanged { summary } => PublicEventView::PhaseChanged {
                summary: summary@,
            },
            PublicEvent::GameEnded { winner } => PublicEventView::GameEnded { winner },
        }
    }
}

/// A copy of a list of seats.
pub fn copy_seats(seats: &Vec<SeatId>) -> (r: Vec<SeatId>)
    ensures
        r@ == seats@,
{
    let mut r: Vec<SeatId> = Vec::new();
    let mut i: usize = 0;
    while i < seats.len()
        invariant
            i <= seats.len(),
            r@ == seats@.take(i as int),
        decreases seats.len() - i,
    {
        r.push(seats[i]);
        i += 1;
        assert(r@ =~= seats@.take(i as int));
    }
    assert(r@ =~= seats@);
    r
}

impl Clone for PublicEvent {
    fn clone(&self) -> (e: PublicEvent)
        ensures
            e@ == self@,
    {
        match self {
            PublicEvent::Chat { seat, name, text, to } => PublicEvent::Chat {
                seat: *seat,
                name: name.clone(),
                text: text.clone(),
                to: *to,
            },
            PublicEvent::StorytellerAnnounce { text } => PublicEvent::StorytellerAnnounce {
                text: text.clone(),
            },
            PublicEvent::Nominated { by, target } => PublicEvent::Nominated {
                by: *by,
                target: *target,
            },
            PublicEvent::VoteCast { seat, nominee, support } => PublicEvent::VoteCast {
                seat: *seat,
                nominee: *nominee,
                support: *support,
            },
            PublicEvent::Executed { seat } => PublicEvent::Executed { seat: *seat },
            PublicEvent::NoExecution => PublicEvent::NoExecution,
            PublicEvent::DiedInNight { seats } => PublicEvent::DiedInNight {
                seats: copy_seats(seats),
            },
            PublicEvent::PlayerDied { seat } => PublicEvent::PlayerDied { seat: *seat },
            PublicEvent::SlayerMiss { slayer, target } => PublicEvent::SlayerMiss {
                slayer: *slayer,
                target: *target,
            },
            PublicEvent::PhaseChanged { summary } => PublicEvent::PhaseChanged {
                summary: summary.clone(),
            },
            PublicEvent::GameEnded { winner } => PublicEvent::GameEnded { winner: *winner },
        }
    }
}

/// The id after `id`. Ids stop growing at `u64::MAX`.
pub open spec fn next_event_id(id: EventId) -> EventId {
    if id < u64::MAX { (id + 1) as u64 } else { u64::MAX }
}

pub struct PublicLog {
    next_id: EventId,
    events: Vec<(EventId, PublicEvent)>,
}

/// The events of a log with their ids, and the id that the next one gets.
pub struct PublicLogView {
    pub next_id: EventId,
    pub events: Seq<(EventId, PublicEventView)>,
}

impl PublicLogView {
    pub open spec fn empty() -> PublicLogView {
        PublicLogView { next_id: 1, events: seq![] }
    }

    /// The log with one more event.
    pub open spec fn push(self, event: PublicEventView) -> PublicLogView {
        PublicLogView {
            next_id: next_event_id(self.next_id),
            events: self.events.push((self.next_id, event)),
        }
    }

    /// The log with a Storyteller announcement.
    pub open spec fn announce(self, text: Seq<char>) -> PublicLogView {
        self.push(PublicEventView::StorytellerAnnounce { text })
    }

    /// Events with an id above the cursor, in order.
    pub open spec fn since(self, cursor: EventId) -> Seq<(EventId, PublicEventView)> {
        self.events.filter(|e: (EventId, PublicEventView)| e.0 > cursor)
    }

    /// `later` holds everything this log holds, in the same places.
    pub open spec fn grows_to(self, later: PublicLogView) -> bool {
        self.events.is_prefix_of(later.events)
    }

    /// Event `i` has id `i + 1`: the state of every log that started empty.
    pub open spec fn numbered(self) -> bool {
        &&& self.next_id == self.events.len() + 1
        &&& forall|i: int| 0 <= i < self.events.len() ==> (#[trigger] self.events[i]).0 == i + 1
    }
}

/// What a list of event references says.
pub open spec fn public_refs(
    refs: Seq<(EventId, &PublicEvent)>,
) -> Seq<(EventId, PublicEventView)> {
    refs.map_values(|e: (EventId, &PublicEvent)| (e.0, e.1@))
}

impl View for PublicLog {
    type V = PublicLogView;

    closed spec fn view(&self) -> PublicLogView {
        PublicLogView {
            next_id: self.next_id,
            events: self.events@.map_values(|e: (EventId, PublicEvent)| (e.0, e.1@)),
        }
    }
}

impl Default for PublicLog {
    fn default() -> (l: PublicLog)
        ensures
            l@ == PublicLogView::empty(),
    {
        let l = PublicLog { next_id: 1, events: Vec::new() };
        assert(l@.events =~= seq![]);
        l
    }
}

impl PublicLog {
    pub fn push(&mut self, event: PublicEvent) -> (id: EventId)
        ensures
            final(self)@ == old(self)@.push(event@),
            id == old(self)@.next_id,
    {
        let id: EventId = self.next_id;
        self.next_id = id.saturating_add(1);
        self.events.push((id, event));
        assert(self@.events =~= old(self)@.push(event@).events);
        id
    }

    /// Events with id > cursor (cursor 0 = from start).
    pub fn since(&self, cursor: EventId) -> (r: Vec<(EventId, &PublicEvent)>)
        ensures
            public_refs(r@) == self@.since(cursor),
    {
        let mut r: Vec<(EventId, &PublicEvent)> = Vec::new();
        let ghost keep = |e: (EventId, PublicEventView)| e.0 > cursor;
        let mut i: usize = 0;
        assert(public_refs(r@) =~= self@.events.take(0).filter(keep));
        while i < self.events.len()
            invariant
                i <= self.events.len(),
                keep == (|e: (EventId, PublicEventView)| e.0 > cursor),
                public_refs(r@) == self@.events.take(i as int).filter(keep),
            decreases self.events.len() - i,
        {
            let ghost before = r@;
            let entry = &self.events[i];
            if entry.0 > cursor {
                r.push((entry.0, &entry.1));
                assert(public_refs(r@) =~= public_refs(before).push((entry.0, entry.1@)));
            }
            proof {
                let shown = self@.events.take(i + 1);
                assert(shown.drop_last() =~= self@.events.take(i as int));
                reveal(Seq::filter);
            }
            i += 1;
        }
        assert(self@.events.take(i as int) =~= self@.events);
        r
    }

    /// Number of events on the log.
    pub fn len(&self) -> (n: usize)
        ensures
            n == self@.events.len(),
    {
        self.events.len()
    }

    /// The event at a position of the log.
    pub fn event(&self, i: usize) -> (e: &PublicEvent)
        requires
            i < self@.events.len(),
        ensures
            e@ == self@.events[i as int].1,
    {
        &self.events[i].1
    }
}

/// Storyteller-only payload for one seat. Never copied into [`PublicLog`].
#[derive(Debug, PartialEq, Eq)]
pub enum PrivateMessage {
    /// Initial (or updated) identity as this player should see it.
    YouAre {
        /// What the player should believe (Drunk: Townsfolk face; others: true).
        character_label: String,
        team: Team,
        rules_path: String,
        note: Option<String>,
    },
    NightPrompt { text: String },
    NightResult { text: String },
    EvilBriefing { text: String },
    System { text: String },
}

/// What a private message says.
pub enum PrivateMessageView {
    YouAre {
        character_label: Seq<char>,
        team: Team,
        rules_path: Seq<char>,
        note: Option<Seq<char>>,
    },
    NightPrompt { text: Seq<char> },
    NightResult { text: Seq<char> },
    EvilBriefing { text: Seq<char> },
    System { text: Seq<char> },
}

/// What an optional string says.
pub open spec fn opt_text(s: Option<String>) -> Option<Seq<char>> {
    match s {
        Some(t) => Some(t@),
        None => None,
    }
}

/// A copy of an optional string.
pub fn copy_opt_text(s: &Option<String>) -> (r: Option<String>)
    ensures
        opt_text(r) == opt_text(*s),
{
    match s {
        Some(t) => Some(t.clone()),
        None => None,
    }
}

impl View for PrivateMessage {
    type V = PrivateMessageView;

    open spec fn view(&self) -> PrivateMessageView {
        match *self {
            PrivateMessage::YouAre { character_label, team, rules_path, note } =>
                PrivateMessageView::YouAre {
                    character_label: character_label@,
                    team,
                    rules_path: rules_path@,
                    note: opt_text(note),
                },
            PrivateMessage::NightPrompt { text } => PrivateMessageView::NightPrompt { text: text@ },
            PrivateMessage::NightResult { text } => PrivateMessageView::NightResult { text: text@ },
            PrivateMessage::EvilBriefing { text } => PrivateMessageView::EvilBriefing {
                text: text@,
            },
            PrivateMessage::System { text } => PrivateMessageView::System { text: text@ },
        }
    }
}

impl Clone for PrivateMessage {
    fn clone(&self) -> (m: PrivateMessage)
        ensures
            m@ == self@,
    {
        match self {
            PrivateMessage::YouAre { character_label, team, rules_path, note } =>
                PrivateMessage::YouAre {
                    character_label: character_label.clone(),
                    team: *team,
                    rules_path: rules_path.clone(),
                    note: copy_opt_text(note),
                },
            PrivateMessage::NightPrompt { text } => PrivateMessage::NightPrompt {
                text: text.clone(),
            },
            PrivateMessage::NightResult { text } => PrivateMessage::NightResult {
                text: text.clone(),
            },
            PrivateMessage::EvilBriefing { text } => PrivateMessage::EvilBriefing {
                text: text.clone(),
            },
            PrivateMessage::System { text } => PrivateMessage::System { text: text.clone() },
        }
    }
}

/// Private messages in the order they were delivered, each with its seat and id.
pub struct PrivateInboxes {
    entries: Vec<(SeatId, EventId, PrivateMessage)>,
    next_id: EventId,
}

/// Everything delivered so far, and the counter behind the ids.
pub struct PrivateInboxesView {
    pub entries: Seq<(SeatId, EventId, PrivateMessageView)>,
    pub next_id: EventId,
}

impl PrivateInboxesView {
    pub open spec fn empty() -> PrivateInboxesView {
        PrivateInboxesView { entries: seq![], next_id: 0 }
    }

    /// The id that the next message gets; ids start at 1.
    pub open spec fn fresh_id(self) -> EventId {
        if self.next_id == 0 { 1 } else { self.next_id }
    }

    /// The inboxes after `msg` was delivered to `seat`.
    pub open spec fn push(self, seat: SeatId, msg: PrivateMessageView) -> PrivateInboxesView {
        PrivateInboxesView {
            entries: self.entries.push((seat, self.fresh_id(), msg)),
            next_id: next_event_id(self.fresh_id()),
        }
    }

    /// What `seat` may read above the cursor, in order.
    pub open spec fn since(self, seat: SeatId, cursor: EventId) -> Seq<
        (EventId, PrivateMessageView),
    > {
        self.entries.filter(addressed_to(seat, cursor)).map_values(without_seat())
    }

    /// `later` holds everything these inboxes hold, in the same places.
    pub open spec fn grows_to(self, later: PrivateInboxesView) -> bool {
        self.entries.is_prefix_of(later.entries)
    }
}

/// Delivered to `seat` with an id above the cursor.
pub open spec fn addressed_to(seat: SeatId, cursor: EventId) -> spec_fn(
    (SeatId, EventId, PrivateMessageView),
) -> bool {
    |e: (SeatId, EventId, PrivateMessageView)| e.0 == seat && e.1 > cursor
}

/// An entry as its own seat reads it: the id and the message.
pub open spec fn without_seat() -> spec_fn((SeatId, EventId, PrivateMessageView)) -> (
    EventId,
    PrivateMessageView,
) {
    |e: (SeatId, EventId, PrivateMessageView)| (e.1, e.2)
}

/// What a list of message references says.
pub open spec fn private_refs(refs: Seq<(EventId, &PrivateMessage)>) -> Seq<
    (EventId, PrivateMessageView),
> {
    refs.map_values(|e: (EventId, &PrivateMessage)| (e.0, e.1@))
}

impl View for PrivateInboxes {
    type V = PrivateInboxesView;

    closed spec fn view(&self) -> PrivateInboxesView {
        PrivateInboxesView {
            entries: self.entries@.map_values(
                |e: (SeatId, EventId, PrivateMessage)| (e.0, e.1, e.2@),
            ),
            next_id: self.next_id,
        }
    }
}

impl Default for PrivateInboxes {
    fn default() -> (b: PrivateInboxes)
        ensures
            b@ == PrivateInboxesView::empty(),
    {
        let b = PrivateInboxes { entries: Vec::new(), next_id: 0 };
        assert(b@.entries =~= seq![]);
        b
    }
}

impl PrivateInboxes {
    pub fn push(&mut self, seat: SeatId, msg: PrivateMessage) -> (id: EventId)
        ensures
            final(self)@ == old(self)@.push(seat, msg@),
            id == old(self)@.fresh_id(),
    {
        let id: EventId = if self.next_id == 0 { 1 } else { self.next_id };
        self.next_id = id.saturating_add(1);
        self.entries.push((seat, id, msg));
        assert(self@.entries =~= old(self)@.push(seat, msg@).entries);
        id
    }

    pub fn since(&self, seat: SeatId, cursor: EventId) -> (r: Vec<(EventId, &PrivateMessage)>)
        ensures
            private_refs(r@) == self@.since(seat, cursor),
    {
        let mut r: Vec<(EventId, &PrivateMessage)> = Vec::new();
        let ghost keep = addressed_to(seat, cursor);
        let ghost strip = without_seat();
        let mut i: usize = 0;
        assert(private_refs(r@) =~= self@.entries.take(0).filter(keep).map_values(strip));
        while i < self.entries.len()
            invariant
                i <= self.entries.len(),
                keep == addressed_to(seat, cursor),
                strip == without_seat(),
                private_refs(r@) == self@.entries.take(i as int).filter(keep).map_values(strip),
            decreases self.entries.len() - i,
        {
            let ghost before = r@;
            let entry = &self.entries[i];
            proof {
                let shown = self@.entries.take(i + 1);
                assert(shown.drop_last() =~= self@.entries.take(i as int));
                reveal(Seq::filter);
            }
            if entry.0 == seat && entry.1 > cursor {
                r.push((entry.1, &entry.2));
                assert(private_refs(r@) =~= private_refs(before).push((entry.1, entry.2@)));
                assert(self@.entries.take(i + 1).filter(keep).map_values(strip)
                    =~= self@.entries.take(i as int).filter(keep).map_values(strip).push(
                    (entry.1, entry.2@),
                ));
            }
            i += 1;
        }
        assert(self@.entries.take(i as int) =~= self@.entries);
        r
    }
}

/// Reject any attempt to model player–player private channels.
#[derive(Debug, Clone, Copy)]
pub struct PrivatePlayerCommsDisabled;

impl PrivatePlayerCommsDisabled {
    pub fn whisper_allowed() -> (b: bool)
        ensures
            !b,
    {
        false
    }
}

/// Pushing extends the log and leaves what stands on it alone, and a log that numbers its
/// events from 1 goes on doing so.
pub proof fn public_log_is_append_only(log: PublicLogView, event: PublicEventView)
    ensures
        log.grows_to(log.push(event)),
        log.push(event).events.last() == (log.next_id, event),
        log.numbered() && log.next_id < u64::MAX ==> log.push(event).numbered(),
{
}

/// A reader that polls with the id of the last event it saw gets exactly what came after it.
pub proof fn polling_with_the_last_id_gives_the_rest(log: PublicLogView, seen: int)
    requires
        log.numbered(),
        0 <= seen <= log.events.len(),
    ensures
        log.since(seen as u64) == log.events.skip(seen),
    decreases log.events.len(),
{
    reveal(Seq::filter);
    let keep = |e: (EventId, PublicEventView)| e.0 > seen as u64;
    if log.events.len() == 0 {
        assert(log.since(seen as u64) =~= log.events.skip(seen));
    } else {
        let shorter = PublicLogView {
            next_id: (log.next_id - 1) as u64,
            events: log.events.drop_last(),
        };
        assert forall|i: int| 0 <= i < shorter.events.len() implies (
        #[trigger] shorter.events[i]).0 == i + 1 by {
            assert(log.events[i] == shorter.events[i]);
        }
        assert(log.events.last().0 == log.events.len());
        if seen == log.events.len() {
            polling_with_the_last_id_gives_the_rest(shorter, seen - 1);
            log_without_later_ids_is_silent(shorter, seen as u64);
            assert(log.since(seen as u64) =~= log.events.skip(seen));
        } else {
            polling_with_the_last_id_gives_the_rest(shorter, seen);
            assert(log.since(seen as u64) =~= log.events.skip(seen));
        }
    }
}

proof fn log_without_later_ids_is_silent(log: PublicLogView, cursor: u64)
    requires
        log.numbered(),
        log.events.len() <= cursor,
    ensures
        log.since(cursor) == Seq::<(EventId, PublicEventView)>::empty(),
    decreases log.events.len(),
{
    reveal(Seq::filter);
    if log.events.len() > 0 {
        let shorter = PublicLogView {
            next_id: (log.next_id - 1) as u64,
            events: log.events.drop_last(),
        };
        assert forall|i: int| 0 <= i < shorter.events.len() implies (
        #[trigger] shorter.events[i]).0 == i + 1 by {
            assert(log.events[i] == shorter.events[i]);
        }
        log_without_later_ids_is_silent(shorter, cursor);
    }
}

/// A private message reaches its own seat and no other: what any other seat can read is
/// unchanged.
pub proof fn private_messages_reach_one_seat(
    boxes: PrivateInboxesView,
    seat: SeatId,
    msg: PrivateMessageView,
    other: SeatId,
    cursor: EventId,
)
    ensures
        other != seat ==> boxes.push(seat, msg).since(other, cursor) == boxes.since(other, cursor),
        cursor < boxes.fresh_id() ==> boxes.push(seat, msg).since(seat, cursor) == boxes.since(
            seat,
            cursor,
        ).push((boxes.fresh_id(), msg)),
{
    reveal(Seq::filter);
    let strip = without_seat();
    assert(boxes.push(seat, msg).entries.drop_last() =~= boxes.entries);
    let keep = addressed_to(seat, cursor);
    if cursor < boxes.fresh_id() {
        assert(boxes.push(seat, msg).entries.filter(keep).map_values(strip)
            =~= boxes.entries.filter(keep).map_values(strip).push((boxes.fresh_id(), msg)));
    }
}

} // verus!
