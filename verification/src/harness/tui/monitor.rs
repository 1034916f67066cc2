//! The monitor: its state, and what its keys and clicks do.

use crate::comms::opt_text;
use crate::harness::tui::feed::FeedFilter;
use crate::harness::tui::paint::{hit, point_in_rect, Rect};
use crate::text::{dec, numbered, texts};
use vstd::prelude::*;
use vstd::string::*;

verus! {

#[derive(Debug, Clone, Copy, PartialEq, Eq, Structural)]
pub enum Focus {
    Setup,
    Monitor,
}

/// The state of the monitor.
#[derive(Debug)]
pub struct Monitor {
    pub focus: Focus,
    pub selected_agent: usize,
    pub status: String,
    /// Event-driven auto-advance: when on, the next turn is ticked as soon as all
    /// agents are idle (no fixed timer; a running agent is never skipped).
    pub auto_tick: bool,
    pub should_quit: bool,
    /// Lines scrolled up from the live tail (0 = stick to newest output).
    pub scroll_from_bottom: usize,
    /// Round-robin cursor for discussion/nomination turns in the scheduler.
    /// Reset to 0 whenever the game enters a new phase/stage (see `stage_key`).
    pub tick_rotation: usize,
    /// Key of the phase/stage the last tick planned for; a change resets `tick_rotation`
    /// so discussion rounds start counting from the first speaker.
    pub stage_key: String,
    /// Signature of what the engine was waiting on last tick, for stall detection.
    pub wait_sig: Option<String>,
    /// Consecutive cycles the engine has sat on `wait_sig`; drives host escalation.
    pub stall: usize,
    /// Fingerprint of the last plan (targets + signature) for the host-retry brake.
    pub last_plan_key: String,
    /// Consecutive identical host-only plans with no state change; capped to stop
    /// an unbounded host retry loop.
    pub host_plan_repeats: usize,
    /// Agent indices whose stream shows full thinking (default: collapsed).
    pub thinking_expanded: Vec<usize>,
    /// Last drawn hit targets for mouse (board / stream / feed).
    pub hit_agents: Rect,
    pub hit_stream: Rect,
    pub hit_feed: Rect,
    /// Number of the feed entry on each visible feed row (for click-expand).
    pub feed_rows: Vec<Option<u64>>,
    /// Feed entries whose full args/result are expanded.
    pub feed_expanded: Vec<u64>,
    /// Per visible row of the board: agent index to select on click.
    pub board_agent_rows: Vec<Option<usize>>,
    /// Labels of the agents targeted by the most recent tick (for the status bar).
    pub last_targets: Vec<String>,
    /// Rows scrolled up from the tail of the action feed (0 = live).
    pub feed_scroll: usize,
    /// Which actions the feed shows (all vs game-only).
    pub feed_filter: FeedFilter,
}

/// What the monitor's state says.
pub struct MonitorView {
    pub focus: Focus,
    pub selected_agent: usize,
    pub status: Seq<char>,
    pub auto_tick: bool,
    pub should_quit: bool,
    pub scroll_from_bottom: usize,
    pub tick_rotation: usize,
    pub stage_key: Seq<char>,
    pub wait_sig: Option<Seq<char>>,
    pub stall: usize,
    pub last_plan_key: Seq<char>,
    pub host_plan_repeats: usize,
    pub thinking_expanded: Seq<usize>,
    pub hit_agents: Rect,
    pub hit_stream: Rect,
    pub hit_feed: Rect,
    pub feed_rows: Seq<Option<u64>>,
    pub feed_expanded: Seq<u64>,
    pub board_agent_rows: Seq<Option<usize>>,
    pub last_targets: Seq<Seq<char>>,
    pub feed_scroll: usize,
    pub feed_filter: FeedFilter,
}

impl View for Monitor {
    type V = MonitorView;

    open spec fn view(&self) -> MonitorView {
        MonitorView {
            focus: self.focus,
            selected_agent: self.selected_agent,
            status: self.status@,
            auto_tick: self.auto_tick,
            should_quit: self.should_quit,
            scroll_from_bottom: self.scroll_from_bottom,
            tick_rotation: self.tick_rotation,
            stage_key: self.stage_key@,
            wait_sig: opt_text(self.wait_sig),
            stall: self.stall,
            last_plan_key: self.last_plan_key@,
            host_plan_repeats: self.host_plan_repeats,
            thinking_expanded: self.thinking_expanded@,
            hit_agents: self.hit_agents,
            hit_stream: self.hit_stream,
            hit_feed: self.hit_feed,
            feed_rows: self.feed_rows@,
            feed_expanded: self.feed_expanded@,
            board_agent_rows: self.board_agent_rows@,
            last_targets: texts(self.last_targets@),
            feed_scroll: self.feed_scroll,
            feed_filter: self.feed_filter,
        }
    }
}

/// An area without extent.
pub open spec fn nowhere() -> Rect {
    Rect { x: 0, y: 0, width: 0, height: 0 }
}

impl MonitorView {
    /// The monitor at the start.
    pub open spec fn fresh(status: Seq<char>) -> MonitorView {
        MonitorView {
            focus: Focus::Setup,
            selected_agent: 0,
            status,
            auto_tick: false,
            should_quit: false,
            scroll_from_bottom: 0,
            tick_rotation: 0,
            stage_key: seq![],
            wait_sig: None,
            stall: 0,
            last_plan_key: seq![],
            host_plan_repeats: 0,
            thinking_expanded: seq![],
            hit_agents: nowhere(),
            hit_stream: nowhere(),
            hit_feed: nowhere(),
            feed_rows: seq![],
            feed_expanded: seq![],
            board_agent_rows: seq![],
            last_targets: seq![],
            feed_scroll: 0,
            feed_filter: FeedFilter::All,
        }
    }
}

// ---------------------------------------------------------------------------
// Lists without repetition
// ---------------------------------------------------------------------------

/// The list without an item.
pub open spec fn dropped<T>(v: Seq<T>, x: T) -> Seq<T>
    decreases v.len(),
{
    if v.len() == 0 {
        seq![]
    } else {
        let front = dropped(v.drop_last(), x);
        if v.last() == x { front } else { front.push(v.last()) }
    }
}

/// The list with an item it did not hold, or without one it held.
pub open spec fn toggled<T>(v: Seq<T>, x: T) -> Seq<T> {
    if v.contains(x) { dropped(v, x) } else { v.push(x) }
}

/// Toggle an agent in a list; the result says whether it is now in it.
#[verifier::loop_isolation(false)]
fn toggle_agent(v: &mut Vec<usize>, x: usize) -> (now_in: bool)
    ensures
        final(v)@ == toggled(old(v)@, x),
        now_in == !old(v)@.contains(x),
{
    let mut kept: Vec<usize> = Vec::new();
    let mut found = false;
    let mut i: usize = 0;
    while i < v.len()
        invariant
            i <= v@.len(),
            v@ == old(v)@,
            kept@ == dropped(v@.take(i as int), x),
            found == v@.take(i as int).contains(x),
        decreases v@.len() - i,
    {
        let ghost part = v@.take(i + 1);
        assert(part.drop_last() =~= v@.take(i as int));
        assert(part.last() == v@[i as int]);
        if v[i] == x {
            found = true;
            assert(part[i as int] == x);
        } else {
            kept.push(v[i]);
            proof {
                if v@.take(i as int).contains(x) {
                    let k = v@.take(i as int).index_of(x);
                    assert(part[k] == x);
                }
                if part.contains(x) {
                    let k = part.index_of(x);
                    assert(v@.take(i as int)[k] == x);
                }
            }
        }
        i += 1;
    }
    assert(v@.take(i as int) =~= v@);
    if found {
        *v = kept;
        false
    } else {
        v.push(x);
        true
    }
}

/// Toggle an entry in a list.
#[verifier::loop_isolation(false)]
fn toggle_entry(v: &mut Vec<u64>, x: u64)
    ensures
        final(v)@ == toggled(old(v)@, x),
{
    let mut kept: Vec<u64> = Vec::new();
    let mut found = false;
    let mut i: usize = 0;
    while i < v.len()
        invariant
            i <= v@.len(),
            v@ == old(v)@,
            kept@ == dropped(v@.take(i as int), x),
            found == v@.take(i as int).contains(x),
        decreases v@.len() - i,
    {
        let ghost part = v@.take(i + 1);
        assert(part.drop_last() =~= v@.take(i as int));
        assert(part.last() == v@[i as int]);
        if v[i] == x {
            found = true;
            assert(part[i as int] == x);
        } else {
            kept.push(v[i]);
            proof {
                if v@.take(i as int).contains(x) {
                    let k = v@.take(i as int).index_of(x);
                    assert(part[k] == x);
                }
                if part.contains(x) {
                    let k = part.index_of(x);
                    assert(v@.take(i as int)[k] == x);
                }
            }
        }
        i += 1;
    }
    assert(v@.take(i as int) =~= v@);
    if found {
        *v = kept;
    } else {
        v.push(x);
    }
}

// ---------------------------------------------------------------------------
// Keys
// ---------------------------------------------------------------------------

/// A key of the keyboard.
#[derive(Debug, Clone, Copy, PartialEq, Eq, Structural)]
pub enum Key {
    Char(char),
    Esc,
    Up,
    Down,
    Left,
    Right,
    Enter,
    Tab,
    BackTab,
    PageUp,
    PageDown,
    Home,
    Other,
}

/// What a key asks of the rest of the program.
#[derive(Debug, Clone, Copy, PartialEq, Eq, Structural)]
pub enum KeyAction {
    Nothing,
    /// Setup: the row above.
    RowUp,
    /// Setup: the row below.
    RowDown,
    /// Setup: change the focused row by this much.
    Adjust { delta: i32 },
    /// Setup: reroll the whole-table role assignment.
    Reroll,
    /// Setup: choose models balanced against the current roles.
    Shuffle,
    /// Setup: cycle the focused seat's backend.
    CycleBackend,
    /// Setup: apply the focused pick to every session.
    ApplyAll,
    /// Create the game and start the agents.
    Launch,
    /// Run the next turn.
    Tick,
}

/// Words for an agent's thinking.
pub open spec fn thinking_words(agent: usize, expanded: bool) -> Seq<char> {
    "agent "@ + dec(agent as nat) + (if expanded {
        ": thinking expanded (h / click stream)"@
    } else {
        ": thinking collapsed (h / click stream)"@
    })
}

pub const FEED_ALL: &'static str = "feed: all actions (f = game-only)";

pub const FEED_GAME: &'static str = "feed: game actions only (f = all)";

pub const STILL_RUNNING: &'static str =
    "still running — advances automatically when this turn finishes";

impl MonitorView {
    /// Thinking of the selected agent toggled.
    pub open spec fn thinking_toggled(self) -> MonitorView {
        let v = toggled(self.thinking_expanded, self.selected_agent);
        MonitorView {
            thinking_expanded: v,
            status: thinking_words(
                self.selected_agent,
                !self.thinking_expanded.contains(self.selected_agent),
            ),
            scroll_from_bottom: 0,
            ..self
        }
    }

    /// The stream scrolled by `delta` visual rows (positive = older / up).
    pub open spec fn stream_scrolled(self, delta: int, has_agents: bool) -> MonitorView {
        let at = self.scroll_from_bottom + delta;
        if !(self.focus is Monitor) || !has_agents {
            self
        } else {
            MonitorView {
                scroll_from_bottom: if at < 0 {
                    0
                } else if at > usize::MAX {
                    usize::MAX
                } else {
                    at as usize
                },
                ..self
            }
        }
    }

    /// Another agent selected, the stream at its tail.
    pub open spec fn selecting(self, agent: usize) -> MonitorView {
        MonitorView { selected_agent: agent, scroll_from_bottom: 0, ..self }
    }

    /// What a key does on the setup screen.
    pub open spec fn setup_key(key: Key) -> KeyAction {
        if key == Key::Up || key == Key::Char('k') {
            KeyAction::RowUp
        } else if key == Key::Down || key == Key::Char('j') {
            KeyAction::RowDown
        } else if key == Key::Right || key == Key::Char('l') || key == Key::Char('m') {
            KeyAction::Adjust { delta: 1 }
        } else if key == Key::Left || key == Key::Char('h') || key == Key::Char('M') {
            KeyAction::Adjust { delta: -1i32 }
        } else if key == Key::Char('r') {
            KeyAction::Reroll
        } else if key == Key::Char('s') || key == Key::Char('S') {
            KeyAction::Shuffle
        } else if key == Key::Char('b') || key == Key::Char('B') {
            KeyAction::CycleBackend
        } else if key == Key::Char('a') {
            KeyAction::ApplyAll
        } else if key == Key::Enter {
            KeyAction::Launch
        } else {
            KeyAction::Nothing
        }
    }

    /// What a key does where there are `n` agents.
    pub open spec fn agents_key(self, key: Key, n: usize, running: bool) -> Option<
        (MonitorView, KeyAction),
    > {
        let count = if n == 0 { 1 } else { n as int };
        if key == Key::Tab {
            Some(
                (
                    self.selecting(((self.selected_agent + 1) % count) as usize),
                    KeyAction::Nothing,
                ),
            )
        } else if key == Key::BackTab {
            Some(
                (
                    self.selecting(((self.selected_agent + count - 1) % count) as usize),
                    KeyAction::Nothing,
                ),
            )
        } else if key == Key::Char('t') {
            Some(
                (
                    MonitorView {
                        auto_tick: !self.auto_tick,
                        status: if self.auto_tick {
                            "auto_tick=false"@
                        } else {
                            "auto_tick=true"@
                        },
                        ..self
                    },
                    KeyAction::Nothing,
                ),
            )
        } else if key == Key::Char('f') {
            let next = match self.feed_filter {
                FeedFilter::All => FeedFilter::GameOnly,
                FeedFilter::GameOnly => FeedFilter::All,
            };
            Some(
                (
                    MonitorView {
                        feed_filter: next,
                        status: match next {
                            FeedFilter::All => FEED_ALL@,
                            FeedFilter::GameOnly => FEED_GAME@,
                        },
                        ..self
                    },
                    KeyAction::Nothing,
                ),
            )
        } else if key == Key::Char('h') {
            Some((self.thinking_toggled(), KeyAction::Nothing))
        } else if key == Key::Char(' ') {
            // Never skip a running agent: only advance when everything is idle.
            if running {
                Some((MonitorView { status: STILL_RUNNING@, ..self }, KeyAction::Nothing))
            } else {
                Some((self, KeyAction::Tick))
            }
        } else {
            None
        }
    }

    /// What a key does to the stream.
    pub open spec fn stream_key(self, key: Key, has_agents: bool) -> MonitorView {
        if key == Key::PageUp {
            self.stream_scrolled(5, has_agents)
        } else if key == Key::PageDown {
            self.stream_scrolled(-5, has_agents)
        } else if key == Key::Up {
            self.stream_scrolled(1, has_agents)
        } else if key == Key::Down {
            self.stream_scrolled(-1, has_agents)
        } else if key == Key::Home {
            MonitorView { scroll_from_bottom: 0, ..self }
        } else {
            self
        }
    }

    /// What a key does. `agents` is how many agents there are, if any were started.
    pub open spec fn pressed(self, key: Key, agents: Option<usize>, running: bool) -> (
        MonitorView,
        KeyAction,
    ) {
        let in_setup = self.focus is Setup;
        if key == Key::Char('q') || key == Key::Esc {
            (MonitorView { should_quit: true, ..self }, KeyAction::Nothing)
        } else if in_setup && !(MonitorView::setup_key(key) is Nothing) {
            (self, MonitorView::setup_key(key))
        } else {
            let done = match agents {
                Some(n) => self.agents_key(key, n, running),
                None => None,
            };
            match done {
                Some(r) => r,
                None => if in_setup {
                    (self, KeyAction::Nothing)
                } else {
                    (self.stream_key(key, agents is Some), KeyAction::Nothing)
                },
            }
        }
    }
}

impl Monitor {
    pub fn new(status: String) -> (m: Monitor)
        ensures
            m@ == MonitorView::fresh(status@),
    {
        let m = Monitor {
            focus: Focus::Setup,
            selected_agent: 0,
            status,
            auto_tick: false,
            should_quit: false,
            scroll_from_bottom: 0,
            tick_rotation: 0,
            stage_key: String::new(),
            wait_sig: None,
            stall: 0,
            last_plan_key: String::new(),
            host_plan_repeats: 0,
            thinking_expanded: Vec::new(),
            hit_agents: Rect::default(),
            hit_stream: Rect::default(),
            hit_feed: Rect::default(),
            feed_rows: Vec::new(),
            feed_expanded: Vec::new(),
            board_agent_rows: Vec::new(),
            last_targets: Vec::new(),
            feed_scroll: 0,
            feed_filter: FeedFilter::All,
        };
        assert(m@.last_targets =~= seq![]);
        assert(m@.stage_key =~= seq![]);
        assert(m@.last_plan_key =~= seq![]);
        m
    }

    /// Whether the selected agent's thinking shows in full.
    pub fn selected_thinking_expanded(&self) -> (b: bool)
        ensures
            b == self@.thinking_expanded.contains(self@.selected_agent),
    {
        let mut i: usize = 0;
        while i < self.thinking_expanded.len()
            invariant
                i <= self.thinking_expanded@.len(),
                forall|k: int| 0 <= k < i ==> self.thinking_expanded@[k] != self.selected_agent,
            decreases self.thinking_expanded@.len() - i,
        {
            if self.thinking_expanded[i] == self.selected_agent {
                return true;
            }
            i += 1;
        }
        false
    }

    fn toggle_thinking_selected(&mut self)
        ensures
            final(self)@ == old(self)@.thinking_toggled(),
    {
        let idx = self.selected_agent;
        let now_in = toggle_agent(&mut self.thinking_expanded, idx);
        let mut status = numbered("agent ", idx as u64);
        if now_in {
            status.append(": thinking expanded (h / click stream)");
        } else {
            status.append(": thinking collapsed (h / click stream)");
        }
        self.status = status;
        self.scroll_from_bottom = 0;
    }

    /// Scroll the selected agent stream by `delta` visual rows (positive = older / up).
    pub fn scroll_stream(&mut self, delta: i32, has_agents: bool)
        ensures
            final(self)@ == old(self)@.stream_scrolled(delta as int, has_agents),
    {
        if self.focus != Focus::Monitor || !has_agents {
            return;
        }
        if delta > 0 {
            self.scroll_from_bottom = self.scroll_from_bottom.saturating_add(delta as usize);
        } else {
            let up: i64 = -(delta as i64);
            self.scroll_from_bottom = self.scroll_from_bottom.saturating_sub(up as u32 as usize);
        }
    }

    fn setup_action(key: Key) -> (a: KeyAction)
        ensures
            a == MonitorView::setup_key(key),
    {
        match key {
            Key::Up => KeyAction::RowUp,
            Key::Down => KeyAction::RowDown,
            Key::Right => KeyAction::Adjust { delta: 1 },
            Key::Left => KeyAction::Adjust { delta: -1 },
            Key::Enter => KeyAction::Launch,
            Key::Char(c) => {
                if c == 'k' {
                    KeyAction::RowUp
                } else if c == 'j' {
                    KeyAction::RowDown
                } else if c == 'l' || c == 'm' {
                    KeyAction::Adjust { delta: 1 }
                } else if c == 'h' || c == 'M' {
                    KeyAction::Adjust { delta: -1 }
                } else if c == 'r' {
                    KeyAction::Reroll
                } else if c == 's' || c == 'S' {
                    KeyAction::Shuffle
                } else if c == 'b' || c == 'B' {
                    KeyAction::CycleBackend
                } else if c == 'a' {
                    KeyAction::ApplyAll
                } else {
                    KeyAction::Nothing
                }
            },
            _ => KeyAction::Nothing,
        }
    }

    fn select(&mut self, agent: usize)
        ensures
            final(self)@ == old(self)@.selecting(agent),
    {
        self.selected_agent = agent;
        self.scroll_from_bottom = 0;
    }

    fn agents_action(&mut self, key: Key, n: usize, running: bool) -> (r: Option<KeyAction>)
        ensures
            match old(self)@.agents_key(key, n, running) {
                Some((after, action)) => final(self)@ == after && r == Some(action),
                None => final(self)@ == old(self)@ && r is None,
            },
    {
        let count: usize = if n == 0 { 1 } else { n };
        match key {
            Key::Tab => {
                let at: u128 = (self.selected_agent as u128 + 1) % (count as u128);
                self.select(at as usize);
                Some(KeyAction::Nothing)
            },
            Key::BackTab => {
                let at: u128 = (self.selected_agent as u128 + count as u128 - 1) % (count as u128);
                self.select(at as usize);
                Some(KeyAction::Nothing)
            },
            Key::Char(c) => {
                if c == 't' {
                    self.auto_tick = !self.auto_tick;
                    self.status = (if self.auto_tick {
                        "auto_tick=true"
                    } else {
                        "auto_tick=false"
                    }).to_owned();
                    Some(KeyAction::Nothing)
                } else if c == 'f' {
                    match self.feed_filter {
                        FeedFilter::All => {
                            self.feed_filter = FeedFilter::GameOnly;
                            self.status = FEED_GAME.to_owned();
                        },
                        FeedFilter::GameOnly => {
                            self.feed_filter = FeedFilter::All;
                            self.status = FEED_ALL.to_owned();
                        },
                    }
                    Some(KeyAction::Nothing)
                } else if c == 'h' {
                    self.toggle_thinking_selected();
                    Some(KeyAction::Nothing)
                } else if c == ' ' {
                    if running {
                        self.status = STILL_RUNNING.to_owned();
                        Some(KeyAction::Nothing)
                    } else {
                        Some(KeyAction::Tick)
                    }
                } else {
                    None
                }
            },
            _ => None,
        }
    }

    fn stream_action(&mut self, key: Key, has_agents: bool)
        ensures
            final(self)@ == old(self)@.stream_key(key, has_agents),
    {
        match key {
            Key::PageUp => self.scroll_stream(5, has_agents),
            Key::PageDown => self.scroll_stream(-5, has_agents),
            Key::Up => self.scroll_stream(1, has_agents),
            Key::Down => self.scroll_stream(-1, has_agents),
            // Jump to live tail.
            Key::Home => self.scroll_from_bottom = 0,
            _ => {},
        }
    }

    /// A key was pressed. `agents` is how many agents there are, if any were started.
    pub fn on_key(&mut self, key: Key, agents: Option<usize>, running: bool) -> (a: KeyAction)
        ensures
            (final(self)@, a) == old(self)@.pressed(key, agents, running),
    {
        if key == Key::Char('q') || key == Key::Esc {
            self.should_quit = true;
            return KeyAction::Nothing;
        }
        let in_setup = self.focus == Focus::Setup;
        if in_setup {
            let action = Monitor::setup_action(key);
            if action != KeyAction::Nothing {
                return action;
            }
        }
        if let Some(n) = agents {
            if let Some(action) = self.agents_action(key, n, running) {
                return action;
            }
        }
        if !in_setup {
            self.stream_action(key, agents.is_some());
        }
        KeyAction::Nothing
    }
}

// ---------------------------------------------------------------------------
// Mouse
// ---------------------------------------------------------------------------

/// A thing that the mouse does.
#[derive(Debug, Clone, Copy, PartialEq, Eq, Structural)]
pub enum MouseAct {
    WheelUp,
    WheelDown,
    LeftClick,
    /// Drags, right clicks and the rest.
    Other,
}

/// The row of a pane under its top border.
pub open spec fn inner_row(area: Rect, y: u16) -> int {
    let top = if area.y < u16::MAX { area.y + 1 } else { u16::MAX as int };
    if y > top { y - top } else { 0 }
}

/// What stands in a row, if the pane has that row.
pub open spec fn in_row<T>(rows: Seq<Option<T>>, row: int) -> Option<T> {
    if 0 <= row < rows.len() { rows[row] } else { None }
}

impl MonitorView {
    /// What a left click does: select an agent, expand a feed entry, or toggle thinking.
    pub open spec fn clicked(self, x: u16, y: u16, has_agents: bool) -> MonitorView {
        if hit(self.hit_agents, x, y) {
            match in_row(self.board_agent_rows, inner_row(self.hit_agents, y)) {
                Some(idx) => MonitorView {
                    status: "selected agent "@ + dec(idx as nat),
                    ..self.selecting(idx)
                },
                None => self,
            }
        } else if hit(self.hit_feed, x, y) {
            match in_row(self.feed_rows, inner_row(self.hit_feed, y)) {
                Some(seq) => MonitorView {
                    feed_expanded: toggled(self.feed_expanded, seq),
                    ..self
                },
                None => self,
            }
        } else if hit(self.hit_stream, x, y) && has_agents {
            self.thinking_toggled()
        } else {
            self
        }
    }

    /// What the mouse does.
    pub open spec fn moused(self, act: MouseAct, x: u16, y: u16, has_agents: bool) -> MonitorView {
        match act {
            MouseAct::WheelUp => if hit(self.hit_stream, x, y) {
                self.stream_scrolled(3, has_agents)
            } else if hit(self.hit_feed, x, y) {
                MonitorView {
                    feed_scroll: if self.feed_scroll + 3 <= usize::MAX {
                        (self.feed_scroll + 3) as usize
                    } else {
                        usize::MAX
                    },
                    ..self
                }
            } else {
                self
            },
            MouseAct::WheelDown => if hit(self.hit_stream, x, y) {
                self.stream_scrolled(-3, has_agents)
            } else if hit(self.hit_feed, x, y) {
                MonitorView {
                    feed_scroll: if self.feed_scroll >= 3 {
                        (self.feed_scroll - 3) as usize
                    } else {
                        0
                    },
                    ..self
                }
            } else {
                self
            },
            MouseAct::LeftClick => self.clicked(x, y, has_agents),
            MouseAct::Other => self,
        }
    }
}

fn row_under(area: Rect, y: u16) -> (n: usize)
    ensures
        n == inner_row(area, y),
{
    y.saturating_sub(area.y.saturating_add(1)) as usize
}

impl Monitor {
    fn on_click(&mut self, x: u16, y: u16, has_agents: bool)
        ensures
            final(self)@ == old(self)@.clicked(x, y, has_agents),
    {
        if point_in_rect(self.hit_agents, x, y) {
            // Row under the top border → board row mapping (multi-line board).
            let row = row_under(self.hit_agents, y);
            if row < self.board_agent_rows.len() {
                if let Some(idx) = self.board_agent_rows[row] {
                    self.select(idx);
                    self.status = numbered("selected agent ", idx as u64);
                }
            }
        } else if point_in_rect(self.hit_feed, x, y) {
            // Row under the top border → visible feed row → entry.
            let row = row_under(self.hit_feed, y);
            if row < self.feed_rows.len() {
                if let Some(seq) = self.feed_rows[row] {
                    toggle_entry(&mut self.feed_expanded, seq);
                }
            }
        } else if point_in_rect(self.hit_stream, x, y) && has_agents {
            self.toggle_thinking_selected();
        }
    }

    /// The mouse did something. Wheel / trackpad scrolls the stream or the feed under the
    /// pointer; a left click selects, expands or toggles.
    pub fn on_mouse(&mut self, act: MouseAct, x: u16, y: u16, has_agents: bool)
        ensures
            final(self)@ == old(self)@.moused(act, x, y, has_agents),
    {
        match act {
            MouseAct::WheelUp => {
                if point_in_rect(self.hit_stream, x, y) {
                    self.scroll_stream(3, has_agents);
                } else if point_in_rect(self.hit_feed, x, y) {
                    self.feed_scroll = self.feed_scroll.saturating_add(3);
                }
            },
            MouseAct::WheelDown => {
                if point_in_rect(self.hit_stream, x, y) {
                    self.scroll_stream(-3, has_agents);
                } else if point_in_rect(self.hit_feed, x, y) {
                    self.feed_scroll = self.feed_scroll.saturating_sub(3);
                }
            },
            MouseAct::LeftClick => self.on_click(x, y, has_agents),
            MouseAct::Other => {},
        }
    }
}

// ---------------------------------------------------------------------------
// Laws
// ---------------------------------------------------------------------------

/// A running agent is never skipped: no key starts a turn while one runs.
pub proof fn keys_never_skip_a_running_agent(m: MonitorView, key: Key, agents: Option<usize>)
    ensures
        !(m.pressed(key, agents, true).1 is Tick),
{
}

/// Keys and clicks of the monitor never touch the scheduling state.
pub proof fn keys_leave_the_schedule_alone(
    m: MonitorView,
    key: Key,
    agents: Option<usize>,
    running: bool,
    act: MouseAct,
    x: u16,
    y: u16,
)
    ensures
        ({
            let a = m.pressed(key, agents, running).0;
            let b = m.moused(act, x, y, agents is Some);
            &&& a.tick_rotation == m.tick_rotation && b.tick_rotation == m.tick_rotation
            &&& a.stall == m.stall && b.stall == m.stall
            &&& a.wait_sig == m.wait_sig && b.wait_sig == m.wait_sig
            &&& a.stage_key == m.stage_key && b.stage_key == m.stage_key
            &&& b.auto_tick == m.auto_tick
        }),
{
}

/// Clicking the same feed row twice leaves the same entries expanded.
pub proof fn two_clicks_cancel(expanded: Seq<u64>, seq: u64)
    requires
        expanded.no_duplicates(),
    ensures
        toggled(toggled(expanded, seq), seq).to_set() == expanded.to_set(),
{
    dropping_drops(expanded, seq);
    if expanded.contains(seq) {
        let once = dropped(expanded, seq);
        let twice = once.push(seq);
        assert forall|x: u64| twice.to_set().contains(x) == expanded.to_set().contains(x) by {
            if once.contains(x) {
                assert(twice[once.index_of(x)] == x);
            }
            if x == seq {
                assert(twice[once.len() as int] == seq);
            }
            if twice.contains(x) && x != seq {
                let k = twice.index_of(x);
                assert(once[k] == x);
            }
        }
        assert(twice.to_set() =~= expanded.to_set());
    } else {
        let once = expanded.push(seq);
        assert(once[expanded.len() as int] == seq);
        dropping_drops(once, seq);
        let twice = dropped(once, seq);
        assert forall|x: u64| twice.to_set().contains(x) == expanded.to_set().contains(x) by {
            if expanded.contains(x) {
                assert(once[expanded.index_of(x)] == x);
            }
            if once.contains(x) && x != seq {
                let k = once.index_of(x);
                assert(expanded[k] == x);
            }
        }
        assert(twice.to_set() =~= expanded.to_set());
    }
}

proof fn dropping_drops(v: Seq<u64>, x: u64)
    ensures
        forall|y: u64| dropped(v, x).contains(y) == (#[trigger] v.contains(y) && y != x),
    decreases v.len(),
{
    if v.len() > 0 {
        let front = v.drop_last();
        dropping_drops(front, x);
        let a = dropped(front, x);
        let b = dropped(v, x);
        assert forall|y: u64| b.contains(y) == (#[trigger] v.contains(y) && y != x) by {
            if v.contains(y) && y != x {
                let k = v.index_of(y);
                if k < front.len() {
                    assert(front[k] == y);
                    assert(front.contains(y));
                    assert(a.contains(y));
                    assert(b[a.index_of(y)] == y);
                } else {
                    assert(b[b.len() - 1] == y);
                }
            }
            if b.contains(y) {
                let k = b.index_of(y);
                if k < a.len() {
                    assert(a[k] == y);
                    assert(front.contains(y));
                    assert(v[front.index_of(y)] == y);
                } else {
                    assert(v[v.len() - 1] == y);
                }
            }
        }
    }
}

} // verus!
