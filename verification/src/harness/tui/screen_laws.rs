//! What the keys, the setup screen and the launch promise.

use crate::game::ids::SeatId;
use crate::game::state::GameView;
use crate::harness::action_log::ActorLabelView;
use crate::harness::agents::{AgentRole, Backend, HarnessConfig};
use crate::harness::tui::launch::{refusal, table_configs, table_labels, LaunchFacts};
use crate::harness::tui::monitor::{dropped, Key, KeyAction, MonitorView};
use crate::harness::tui::paint::Rect;
use crate::harness::tui::setup::{resized, ChoiceView, SetupView};
use crate::harness::tui::setup_keys::{eligible, legal_count, offered, recorded_of, with_lineup};
use crate::harness::tui::tick::TickStepView;
use crate::harness::balance::{key_of, stats_in, StatsView};
use crate::text::dec;
use vstd::prelude::*;

verus! {

/// On the setup screen up and down move the row, right and left change it one step on or back, and
/// Enter launches; the letters do what they stand for.
pub proof fn setup_keys_do_what_they_show()
    ensures
        MonitorView::setup_key(Key::Up) == KeyAction::RowUp,
        MonitorView::setup_key(Key::Char('k')) == KeyAction::RowUp,
        MonitorView::setup_key(Key::Down) == KeyAction::RowDown,
        MonitorView::setup_key(Key::Char('j')) == KeyAction::RowDown,
        MonitorView::setup_key(Key::Right) == (KeyAction::Adjust { delta: 1 }),
        MonitorView::setup_key(Key::Left) == (KeyAction::Adjust { delta: -1i32 }),
        MonitorView::setup_key(Key::Char('r')) == KeyAction::Reroll,
        MonitorView::setup_key(Key::Char('s')) == KeyAction::Shuffle,
        MonitorView::setup_key(Key::Char('b')) == KeyAction::CycleBackend,
        MonitorView::setup_key(Key::Char('a')) == KeyAction::ApplyAll,
        MonitorView::setup_key(Key::Enter) == KeyAction::Launch,
        MonitorView::setup_key(Key::Tab) == KeyAction::Nothing,
{
}

/// `q` and Escape quit from everywhere, and nothing else does.
pub proof fn only_quitting_quits(m: MonitorView, key: Key, agents: Option<usize>, running: bool)
    ensures
        key == Key::Char('q') || key == Key::Esc ==> m.pressed(key, agents, running).0.should_quit
            && m.pressed(key, agents, running).1 is Nothing,
        key != Key::Char('q') && key != Key::Esc ==> m.pressed(
            key,
            agents,
            running,
        ).0.should_quit == m.should_quit,
{
}

/// Scrolling goes as far as it is asked, up into the past and down to the tail, where it stops;
/// without agents and on the setup screen it does nothing.
pub proof fn scrolling_goes_as_asked(m: MonitorView, rows: nat, has_agents: bool)
    requires
        m.scroll_from_bottom + rows <= usize::MAX,
    ensures
        ({
            let up = m.stream_scrolled(rows as int, has_agents);
            let down = m.stream_scrolled(-(rows as int), has_agents);
            &&& m.focus is Monitor && has_agents ==> up.scroll_from_bottom == m.scroll_from_bottom
                + rows
            &&& m.focus is Monitor && has_agents && rows <= m.scroll_from_bottom
                ==> down.scroll_from_bottom == m.scroll_from_bottom - rows
            &&& m.focus is Monitor && has_agents && rows > m.scroll_from_bottom
                ==> down.scroll_from_bottom == 0
            &&& !(m.focus is Monitor) || !has_agents ==> up == m && down == m
        }),
{
}

/// The player count stays between five and fifteen, and a legal one is kept.
pub proof fn counts_stay_legal(n: int)
    ensures
        5 <= legal_count(n) <= 15,
        5 <= n <= 15 ==> legal_count(n) == n,
        n < 5 ==> legal_count(n) == 5,
        n > 15 ==> legal_count(n) == 15,
{
}

/// A change of the player count keeps the picks of all who stay and gives the new ones the default.
pub proof fn picks_stay_with_their_seats(
    choices: Seq<ChoiceView>,
    n: nat,
    fill: ChoiceView,
    i: int,
)
    requires
        0 <= i < n,
    ensures
        resized(choices, n, fill).len() == n,
        i < choices.len() ==> resized(choices, n, fill)[i] == choices[i],
        i >= choices.len() ==> resized(choices, n, fill)[i] == fill,
{
}

/// A lineup seats each chosen model at its player's seat and leaves the Storyteller's alone.
pub proof fn lineups_seat_the_chosen(
    s: SetupView,
    pool: Seq<ChoiceView>,
    pick: Seq<usize>,
    i: int,
)
    requires
        s.seat_choices.len() == pick.len() + 1,
        0 <= i < pick.len(),
    ensures
        with_lineup(s, pool, pick).seat_choices[0] == s.seat_choices[0],
        with_lineup(s, pool, pick).seat_choices[i + 1] == pool[pick[i] as int],
        with_lineup(s, pool, pick).setup_roles == s.setup_roles,
        with_lineup(s, pool, pick).player_count == s.player_count,
{
}

proof fn recorded_are_offered(
    backend: Backend,
    models: Seq<Seq<char>>,
    stats: Seq<(Seq<char>, StatsView)>,
    c: ChoiceView,
)
    ensures
        recorded_of(backend, models, stats).contains(c) <==> c.backend == backend
            && models.contains(c.model) && stats_in(stats, key_of(backend.word(), c.model)) is Some,
    decreases models.len(),
{
    if models.len() > 0 {
        let front = models.drop_last();
        let short = recorded_of(backend, front, stats);
        let all = recorded_of(backend, models, stats);
        recorded_are_offered(backend, front, stats, c);
        assert(models[models.len() - 1] == models.last());
        if front.contains(c.model) {
            assert(models[front.index_of(c.model)] == c.model);
        }
        if models.contains(c.model) && !front.contains(c.model) {
            let k = models.index_of(c.model);
            if k < front.len() {
                assert(front[k] == c.model);
            }
        }
        if all.len() > short.len() {
            assert(all[short.len() as int] == (ChoiceView { backend, model: models.last() }));
            if short.contains(c) {
                assert(all[short.index_of(c)] == c);
            }
            if all.contains(c) {
                let k = all.index_of(c);
                if k < short.len() {
                    assert(short[k] == c);
                }
            }
        }
    }
}

/// The balancer draws from what is offered on its own backend and has finished a game, and from
/// nothing else.
pub proof fn only_the_proven_are_drawn(
    cfg: HarnessConfig,
    stats: Seq<(Seq<char>, StatsView)>,
    c: ChoiceView,
)
    ensures
        eligible(cfg, stats).contains(c) <==> offered(cfg, c.backend).contains(c.model) && stats_in(
            stats,
            key_of(c.backend.word(), c.model),
        ) is Some,
{
    let one = recorded_of(Backend::Grok, offered(cfg, Backend::Grok), stats);
    let two = recorded_of(Backend::Claude, offered(cfg, Backend::Claude), stats);
    recorded_are_offered(Backend::Grok, offered(cfg, Backend::Grok), stats, c);
    recorded_are_offered(Backend::Claude, offered(cfg, Backend::Claude), stats, c);
    let all = eligible(cfg, stats);
    if one.contains(c) {
        assert(all[one.index_of(c)] == c);
    }
    if two.contains(c) {
        assert(all[one.len() + two.index_of(c)] == c);
    }
    if all.contains(c) {
        let k = all.index_of(c);
        if k < one.len() {
            assert(one[k] == c);
        } else {
            assert(two[k - one.len()] == c);
        }
    }
}

/// A table is launched once, with its tools there, and never with a model that its backend does
/// not offer.
pub proof fn launches_need_everything(s: SetupView, cfg: HarnessConfig, facts: LaunchFacts, i: int)
    ensures
        facts.launched ==> refusal(s, cfg, facts) is Some,
        !facts.mcp_ok ==> refusal(s, cfg, facts) is Some,
        0 <= i < s.seat_choices.len() && s.seat_choices[i].backend is Claude && !facts.claude_ok
            ==> refusal(s, cfg, facts) is Some,
        0 <= i < s.seat_choices.len() && s.seat_choices[i].backend is Claude && !offered(
            cfg,
            Backend::Claude,
        ).contains(s.seat_choices[i].model) ==> refusal(s, cfg, facts) is Some,
        !facts.launched && facts.mcp_ok && (forall|k: int|
            0 <= k < s.seat_choices.len() ==> (#[trigger] s.seat_choices[k]).backend is Grok)
            ==> refusal(s, cfg, facts) is None,
{
    misfits_are_found(s.seat_choices, cfg, i);
}

proof fn misfits_are_found(choices: Seq<ChoiceView>, cfg: HarnessConfig, i: int)
    ensures
        0 <= i < choices.len() && choices[i].backend is Claude && !offered(
            cfg,
            Backend::Claude,
        ).contains(choices[i].model) ==> crate::harness::tui::launch::first_misfit(choices, cfg)
            is Some,
        (forall|k: int| 0 <= k < choices.len() ==> (#[trigger] choices[k]).backend is Grok)
            ==> crate::harness::tui::launch::first_misfit(choices, cfg) is None,
    decreases choices.len(),
{
    if choices.len() > 0 {
        let front = choices.drop_last();
        misfits_are_found(front, cfg, i);
        assert(choices[choices.len() - 1] == choices.last());
        assert(forall|k: int| 0 <= k < front.len() ==> choices[k] == #[trigger] front[k]);
    }
}

/// Every session plays its own seat, with its own token, on the model that was picked for it.
pub proof fn sessions_play_their_own_seat(
    s: SetupView,
    cfg: HarnessConfig,
    host: Seq<char>,
    names: Seq<Seq<char>>,
    players: Seq<Seq<char>>,
    game_id: u64,
    i: int,
)
    requires
        s.seat_choices.len() == players.len() + 1,
        0 <= i < players.len() <= 256,
    ensures
        ({
            let all = table_configs(s, cfg, host, names, players, game_id);
            &&& all.len() == players.len() + 1
            &&& all[0].role == AgentRole::Host && all[0].token == host && all[0].game_id == game_id
                && all[0].model == s.seat_choices[0].model
            &&& all[i + 1].role == (AgentRole::Player { seat: SeatId(i as u8) }) && all[i + 1].token
                == players[i] && all[i + 1].display_name == names[i] && all[i + 1].model
                == s.seat_choices[i + 1].model && all[i + 1].backend == s.seat_choices[i + 1].backend
        }),
{
}

/// The record of calls knows the host and every player by their tokens.
pub proof fn callers_are_known_by_their_tokens(host: Seq<char>, players: Seq<Seq<char>>, i: int)
    requires
        0 <= i < players.len() <= 256,
    ensures
        ({
            let labels = table_labels(host, players);
            &&& labels.len() == players.len() + 1
            &&& labels[0] == (host, ActorLabelView { name: "Host"@, seat: None, is_host: true })
            &&& labels[i + 1] == (
                players[i],
                ActorLabelView { name: "P"@ + dec(i as nat), seat: Some(i as u8), is_host: false },
            )
        }),
{
}

/// A game that is over stops the automatic advance and runs nobody; one that goes on runs exactly
/// those who are due, unless the Storyteller alone has been due five times in vain.
pub proof fn turns_run_those_who_are_due(m: MonitorView, g: GameView)
    ensures
        ({
            let (after, step) = m.planned(g);
            let seen = m.noticed(g);
            &&& g.phase is Ended ==> step is Ended && !after.auto_tick
            &&& !(g.phase is Ended) ==> !(step is Ended)
            &&& step matches TickStepView::Run { plan, .. } ==> plan == g.plan(
                seen.tick_rotation,
                seen.stall,
            )
            &&& step is Braked ==> !after.auto_tick && after.host_plan_repeats >= 5
        }),
{
}

/// A new stage starts the turns over; the same wait seen again counts up, and any other starts
/// again at nothing.
pub proof fn repeated_waits_count_up(m: MonitorView, g: GameView)
    requires
        m.stall < usize::MAX,
    ensures
        ({
            let seen = m.noticed(g);
            let key = crate::harness::tui::tick::rotation_key(g);
            &&& key != m.stage_key ==> seen.tick_rotation == 0
            &&& key == m.stage_key ==> seen.tick_rotation == m.tick_rotation
            &&& g.wait_sign() is Some && g.wait_sign() == m.wait_sig ==> seen.stall == m.stall + 1
            &&& !(g.wait_sign() is Some && g.wait_sign() == m.wait_sig) ==> seen.stall == 0
        }),
{
}

/// While agents are on screen Tab goes on to the next of them and from the last to the first, and
/// back-tab the other way round; the letters switch what they stand for on and off.
pub proof fn monitor_keys_do_what_they_show(m: MonitorView, n: usize, running: bool)
    requires
        m.focus is Monitor,
        m.selected_agent < n,
    ensures
        ({
            let on = m.pressed(Key::Tab, Some(n), running).0;
            let back = m.pressed(Key::BackTab, Some(n), running).0;
            let auto = m.pressed(Key::Char('t'), Some(n), running).0;
            let narrow = m.pressed(Key::Char('f'), Some(n), running).0;
            let told = m.pressed(Key::Char('h'), Some(n), running).0;
            &&& on.selected_agent == if m.selected_agent + 1 < n { m.selected_agent + 1 } else { 0 }
            &&& back.selected_agent == if m.selected_agent > 0 { m.selected_agent - 1 } else {
                n - 1
            }
            &&& on.scroll_from_bottom == 0 && back.scroll_from_bottom == 0
            &&& auto.auto_tick == !m.auto_tick
            &&& narrow.feed_filter != m.feed_filter
            &&& told.thinking_expanded.contains(m.selected_agent)
                == !m.thinking_expanded.contains(m.selected_agent)
            &&& m.pressed(Key::Char(' '), Some(n), false) == (m, KeyAction::Tick)
            &&& m.pressed(Key::Char(' '), Some(n), true).1 is Nothing
        }),
{
    let at = m.selected_agent as int;
    let k = n as int;
    if at + 1 < k {
        assert((at + 1) % k == at + 1) by (nonlinear_arith)
            requires
                0 <= at,
                at + 1 < k,
        ;
    } else {
        assert(k % k == 0) by (nonlinear_arith)
            requires
                k > 0,
        ;
    }
    if at > 0 {
        assert((at + k - 1) % k == at - 1) by (nonlinear_arith)
            requires
                0 < at < k,
        ;
    } else {
        assert((k - 1) % k == k - 1) by (nonlinear_arith)
            requires
                k > 0,
        ;
    }
    let before = m.thinking_expanded;
    if before.contains(m.selected_agent) {
        the_dropped_is_gone(before, m.selected_agent);
    } else {
        let after = before.push(m.selected_agent);
        assert(after[before.len() as int] == m.selected_agent);
    }
}

proof fn the_dropped_is_gone(v: Seq<usize>, x: usize)
    ensures
        !dropped(v, x).contains(x),
    decreases v.len(),
{
    if v.len() > 0 {
        let front = dropped(v.drop_last(), x);
        the_dropped_is_gone(v.drop_last(), x);
        let all = dropped(v, x);
        if all.contains(x) {
            let k = all.index_of(x);
            if k < front.len() {
                assert(front[k] == x);
            }
        }
    }
}

/// Agents scroll by one row with up and down and by five with page up and page down; Home returns
/// to the tail.
pub proof fn monitor_keys_scroll(m: MonitorView, n: usize, running: bool)
    requires
        m.focus is Monitor,
        5 <= m.scroll_from_bottom <= usize::MAX - 5,
    ensures
        m.pressed(Key::Up, Some(n), running).0.scroll_from_bottom == m.scroll_from_bottom + 1,
        m.pressed(Key::Down, Some(n), running).0.scroll_from_bottom == m.scroll_from_bottom - 1,
        m.pressed(Key::PageUp, Some(n), running).0.scroll_from_bottom == m.scroll_from_bottom + 5,
        m.pressed(Key::PageDown, Some(n), running).0.scroll_from_bottom == m.scroll_from_bottom
            - 5,
        m.pressed(Key::Home, Some(n), running).0.scroll_from_bottom == 0,
{
}

/// A click below the frame of the agents' pane selects the agent drawn there, one below the frame
/// of the feed opens or closes the entry drawn there, and one beside all panes does nothing.
pub proof fn clicks_hit_what_is_drawn(m: MonitorView, x: u16, y: u16, row: int, has_agents: bool)
    requires
        row >= 0,
    ensures
        within(m.hit_agents, x, y) && y == m.hit_agents.y + 1 + row ==> {
            &&& (row < m.board_agent_rows.len() && m.board_agent_rows[row] is Some
                ==> m.clicked(x, y, has_agents).selected_agent == m.board_agent_rows[row]->0)
            &&& (row >= m.board_agent_rows.len() ==> m.clicked(x, y, has_agents) == m)
        },
        !within(m.hit_agents, x, y) && within(m.hit_feed, x, y) && y == m.hit_feed.y + 1 + row
            && row < m.feed_rows.len() && m.feed_rows[row] is Some
            && !m.feed_expanded.contains(m.feed_rows[row]->0) ==> m.clicked(
            x,
            y,
            has_agents,
        ).feed_expanded == m.feed_expanded.push(m.feed_rows[row]->0),
        !within(m.hit_agents, x, y) && !within(m.hit_feed, x, y) && !within(m.hit_stream, x, y)
            ==> m.clicked(x, y, has_agents) == m,
{
}

/// The point lies in the area and short of its right and lower edge.
pub open spec fn within(r: Rect, x: u16, y: u16) -> bool {
    &&& r.x <= x < u16::MAX && x - r.x < r.width
    &&& r.y <= y < u16::MAX && y - r.y < r.height
}

} // verus!
