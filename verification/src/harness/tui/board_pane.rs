//! The rows of the board pane.

use crate::harness::action_log::{clip_chars, clipped};
use crate::harness::agents::AgentRole;
use crate::harness::stream::AgentUsage;
use crate::harness::tui::board::{
    BoardClosedNom, BoardOpenNom, BoardOpenNomView, BoardSeat, BoardSnapshot, BoardView,
};
use crate::harness::tui::paint::{
    actor_color, actor_tone, bold_ink, ink, one_span, put, role_paint, role_style, row_of,
    row_view, rows_view, span, Paint, RowView, Span, SpanView, Tone,
};
use crate::roles::data::name_of;
use crate::roles::{team_of, Team};
use crate::text::{dec, join, joined, numbered, push_dec, texts};
use crate::tools::rules_docs::{team_label, team_word};
use vstd::prelude::*;
use vstd::string::*;

verus! {

/// An agent as the board shows it.
#[derive(Debug)]
pub struct BoardAgent {
    pub role: AgentRole,
    pub model: String,
    pub running: bool,
    pub usage: AgentUsage,
}

/// What the board shows of an agent.
pub struct BoardAgentView {
    pub role: AgentRole,
    pub model: Seq<char>,
    pub running: bool,
    pub usage: AgentUsage,
}

impl View for BoardAgent {
    type V = BoardAgentView;

    open spec fn view(&self) -> BoardAgentView {
        BoardAgentView {
            role: self.role,
            model: self.model@,
            running: self.running,
            usage: self.usage,
        }
    }
}

/// Dimmed paint.
pub open spec fn dim() -> Paint {
    ink(Tone::DarkGray)
}

/// A row with the agent it belongs to.
pub type BoardRow = (RowView, Option<usize>);

/// How far the context window of an agent is filled, in percent.
pub open spec fn fill_of(u: AgentUsage) -> u32 {
    match u.context {
        Some(c) => c.usage_pct,
        None => 0,
    }
}

/// The paint of the usage line.
pub open spec fn usage_paint(u: AgentUsage) -> Paint {
    if fill_of(u) >= 80 {
        ink(Tone::Red)
    } else if fill_of(u) >= 50 {
        ink(Tone::Yellow)
    } else if fill_of(u) > 0 || u.game_total.total_tokens > 0 {
        ink(Tone::Cyan)
    } else {
        dim()
    }
}

/// The usage line of an agent.
pub open spec fn usage_row(u: AgentUsage) -> RowView {
    one_span("    "@ + u.board_line(), usage_paint(u))
}

/// The lamp of an agent: on while it runs.
pub open spec fn lamp(running: bool) -> SpanView {
    if running { span("●"@, bold_ink(Tone::Green)) } else { span("○"@, dim()) }
}

/// The mark of the selected agent.
pub open spec fn mark(selected: bool) -> Seq<char> {
    if selected { "▶"@ } else { " "@ }
}

/// The model column.
pub open spec fn model_span(model: Seq<char>) -> SpanView {
    span(" · "@ + clipped(model, 12), dim())
}

/// What the Storyteller waits on.
pub open spec fn host_detail(board: Option<BoardView>) -> Seq<char> {
    match board {
        None => "—"@,
        Some(b) => {
            let waits = match b.pending_host {
                Some(ph) => b.phase_short + " · host:"@ + ph,
                None => b.phase_short,
            };
            let wakes = match b.pending_night {
                Some(seat) => waits + " · wake:P"@ + dec(seat as nat),
                None => waits,
            };
            if b.pending_host is None && b.pending_night is None {
                wakes + " · idle"@
            } else {
                wakes
            }
        },
    }
}

/// The rows of the Storyteller.
pub open spec fn host_rows(
    a: BoardAgentView,
    selected: bool,
    board: Option<BoardView>,
) -> Seq<RowView> {
    let name = if selected { bold_ink(Tone::Yellow) } else { ink(Tone::Magenta) };
    seq![
        seq![
            lamp(a.running),
            span(" "@, ink(Tone::Plain)),
            span(mark(selected) + " Host"@, name),
            span("  Storyteller"@, dim()),
            model_span(a.model),
        ],
        one_span("    "@ + host_detail(board), dim()),
        usage_row(a.usage),
    ]
}

/// The seat with this number.
pub open spec fn seat_info(seats: Seq<BoardSeat>, n: u8) -> Option<BoardSeat>
    decreases seats.len(),
{
    if seats.len() == 0 {
        None
    } else if seats[0].seat == n {
        Some(seats[0])
    } else {
        seat_info(seats.drop_first(), n)
    }
}

/// The seat of an agent on the board.
pub open spec fn seat_on(board: Option<BoardView>, n: u8) -> Option<BoardSeat> {
    match board {
        Some(b) => seat_info(b.seats, n),
        None => None,
    }
}

/// The role column.
pub open spec fn role_span(info: Option<BoardSeat>) -> SpanView {
    match info {
        None => span("—"@, dim()),
        Some(s) => {
            let label = if s.is_drunk_outsider {
                match s.believed {
                    Some(face) => "Drunk (as "@ + name_of(face) + ")"@,
                    None => "Drunk"@,
                }
            } else {
                match s.true_char {
                    Some(c) => name_of(c),
                    None => "?"@,
                }
            };
            span(
                label,
                match s.true_char {
                    Some(c) => role_paint(c),
                    None => ink(Tone::White),
                },
            )
        },
    }
}

/// A row with one more span, if it applies.
pub open spec fn when(row: RowView, applies: bool, s: SpanView) -> RowView {
    if applies { row.push(s) } else { row }
}

/// The markers of a seat: life, team, poison, monk, butler, ghost, spent abilities.
pub open spec fn markers(info: Option<BoardSeat>) -> RowView {
    let start = one_span("    "@, ink(Tone::Plain));
    match info {
        None => start.push(span("—"@, dim())),
        Some(s) => {
            let life = start.push(
                if s.alive {
                    span("alive"@, ink(Tone::Green))
                } else {
                    span("DEAD"@, bold_ink(Tone::Red))
                },
            );
            let team = match s.true_char {
                Some(c) => life.push(
                    span(
                        " · "@ + team_word(team_of(c)),
                        ink(if team_of(c) is Evil { Tone::Red } else { Tone::Green }),
                    ),
                ),
                None => life,
            };
            let poison = when(team, s.poisoned, span(" · poison"@, ink(Tone::Magenta)));
            let monk = when(poison, s.monk_protected, span(" · monk"@, ink(Tone::Cyan)));
            let butler = match s.butler_master {
                Some(m) => monk.push(span(" · butler→P"@ + dec(m as nat), ink(Tone::Yellow))),
                None => monk,
            };
            let departed = when(
                butler,
                !s.alive,
                span(if s.ghost_vote_available { " · ghost✓"@ } else { " · ghost✗"@ }, dim()),
            );
            let slayer = when(departed, s.slayer_used, span(" · slayer✓"@, dim()));
            when(slayer, s.virgin_used, span(" · virgin✓"@, dim()))
        },
    }
}

/// The rows of a player.
pub open spec fn player_rows(
    a: BoardAgentView,
    seat: u8,
    selected: bool,
    board: Option<BoardView>,
) -> Seq<RowView> {
    let name = if selected {
        bold_ink(Tone::Yellow)
    } else {
        ink(actor_tone(false, Some(seat)))
    };
    let info = seat_on(board, seat);
    seq![
        seq![
            lamp(a.running),
            span(" "@, ink(Tone::Plain)),
            span(mark(selected) + " P"@ + dec(seat as nat), name),
            span(" "@, ink(Tone::Plain)),
            role_span(info),
            model_span(a.model),
        ],
        markers(info),
        usage_row(a.usage),
    ]
}

/// The rows of an agent.
pub open spec fn agent_rows(
    a: BoardAgentView,
    selected: bool,
    board: Option<BoardView>,
) -> Seq<RowView> {
    match a.role {
        AgentRole::Host => host_rows(a, selected, board),
        AgentRole::Player { seat } => player_rows(a, seat.0, selected, board),
    }
}

/// Rows that all belong to one agent, or to none.
pub open spec fn owned(rows: Seq<RowView>, by: Option<usize>) -> Seq<BoardRow> {
    rows.map_values(|r: RowView| (r, by))
}

/// The rows of the first agents.
pub open spec fn all_agent_rows(
    agents: Seq<BoardAgentView>,
    selected: usize,
    board: Option<BoardView>,
) -> Seq<BoardRow>
    decreases agents.len(),
{
    if agents.len() == 0 {
        seq![]
    } else {
        let i = (agents.len() - 1) as usize;
        all_agent_rows(agents.drop_last(), selected, board) + owned(
            agent_rows(agents.last(), i == selected, board),
            Some(i),
        )
    }
}

/// `P1→P2` at the head of a nomination.
pub open spec fn nom_head(by: u8, target: u8) -> Seq<char> {
    "  P"@ + dec(by as nat) + "→P"@ + dec(target as nat) + "  "@
}

/// A closed nomination.
pub open spec fn closed_row(c: BoardClosedNom) -> RowView {
    let thr = if c.meets_threshold { ink(Tone::Cyan) } else { dim() };
    seq![
        span(nom_head(c.by, c.target), ink(Tone::Plain)),
        span("closed"@, dim()),
        span("  "@ + dec(c.yes as nat) + " yes"@, thr),
        if c.meets_threshold { span("  ≥½"@, thr) } else { span(""@, ink(Tone::Plain)) },
    ]
}

/// Votes and passes in short.
pub open spec fn vote_bits(o: BoardOpenNomView) -> Seq<Seq<char>> {
    o.votes.map_values(
        |v: (u8, bool)| "P"@ + dec(v.0 as nat) + (if v.1 { "✓"@ } else { "✗"@ }),
    ) + o.passes.map_values(|s: u8| "P"@ + dec(s as nat) + "–"@)
}

/// The open nomination.
pub open spec fn open_row(o: BoardOpenNomView) -> RowView {
    let bits = vote_bits(o);
    seq![
        span(nom_head(o.by, o.target), ink(Tone::Plain)),
        span("OPEN"@, bold_ink(Tone::Yellow)),
        span(
            "  "@ + (if bits.len() == 0 { "no votes yet"@ } else { joined(bits, " "@) }),
            ink(Tone::White),
        ),
    ]
}

/// The nomination tracker.
pub open spec fn tracker(board: Option<BoardView>) -> Seq<RowView> {
    let head = seq![one_span(""@, ink(Tone::Plain)), one_span("── noms ──"@, dim())];
    match board {
        None => head.push(one_span("  (no game)"@, dim())),
        Some(b) => {
            let none = if b.closed_noms.len() == 0 && b.open_nom is None {
                head.push(one_span("  (none today)"@, dim()))
            } else {
                head
            };
            let closed = none + b.closed_noms.map_values(|c: BoardClosedNom| closed_row(c));
            match b.open_nom {
                Some(o) => closed.push(open_row(o)),
                None => closed,
            }
        },
    }
}

/// The rows of the board pane.
pub open spec fn board_rows(
    board: Option<BoardView>,
    agents: Option<Seq<BoardAgentView>>,
    selected: usize,
) -> Seq<BoardRow> {
    (match agents {
        Some(v) => all_agent_rows(v, selected, board),
        None => owned(seq![one_span("no agents"@, dim())], None),
    }) + owned(tracker(board), None)
}

/// The title of the board pane.
pub open spec fn board_title(board: Option<BoardView>) -> Seq<char> {
    match board {
        Some(b) => "board · "@ + b.phase_short + " · ●=run"@,
        None => "board · ●=run"@,
    }
}

/// What an optional snapshot says.
pub open spec fn opt_board(board: Option<&BoardSnapshot>) -> Option<BoardView> {
    match board {
        Some(b) => Some(b@),
        None => None,
    }
}

/// What a list of agents says.
pub open spec fn board_agents(v: Seq<BoardAgent>) -> Seq<BoardAgentView> {
    v.map_values(|a: BoardAgent| a@)
}

// ---------------------------------------------------------------------------
// Rows
// ---------------------------------------------------------------------------

fn usage_line(u: &AgentUsage) -> (row: Vec<Span>)
    ensures
        row_view(row@) == usage_row(*u),
{
    let pct: u32 = match &u.context {
        Some(c) => c.usage_pct,
        None => 0,
    };
    let paint = if pct >= 80 {
        Paint::ink(Tone::Red)
    } else if pct >= 50 {
        Paint::ink(Tone::Yellow)
    } else if pct > 0 || u.game_total.total_tokens > 0 {
        Paint::ink(Tone::Cyan)
    } else {
        Paint::ink(Tone::DarkGray)
    };
    let mut s = "    ".to_owned();
    s.append(u.board_short().as_str());
    row_of(s.as_str(), paint)
}

/// Lamp, gap and name at the head of an agent's first row.
fn put_head(row: &mut Vec<Span>, running: bool, selected: bool, name: &str, paint: Paint)
    ensures
        row_view(final(row)@) == row_view(old(row)@).push(lamp(running)).push(
            span(" "@, ink(Tone::Plain)),
        ).push(span(mark(selected) + " "@ + name@, paint)),
{
    if running {
        put(row, "●", Paint::bold(Tone::Green));
    } else {
        put(row, "○", Paint::ink(Tone::DarkGray));
    }
    put(row, " ", Paint::ink(Tone::Plain));
    let mut s = (if selected { "▶" } else { " " }).to_owned();
    s.append(" ");
    s.append(name);
    put(row, s.as_str(), paint);
}

fn put_model(row: &mut Vec<Span>, model: &str)
    ensures
        row_view(final(row)@) == row_view(old(row)@).push(model_span(model@)),
{
    let mut s = " · ".to_owned();
    s.append(clip_chars(model, 12).as_str());
    put(row, s.as_str(), Paint::ink(Tone::DarkGray));
}

fn host_detail_text(board: Option<&BoardSnapshot>) -> (s: String)
    ensures
        s@ == host_detail(opt_board(board)),
{
    match board {
        None => "—".to_owned(),
        Some(b) => {
            let mut s = b.phase_short.clone();
            if let Some(ph) = &b.pending_host {
                s.append(" · host:");
                s.append(ph.as_str());
            }
            if let Some(seat) = b.pending_night {
                s.append(" · wake:P");
                push_dec(&mut s, seat as u64);
            }
            if b.pending_host.is_none() && b.pending_night.is_none() {
                s.append(" · idle");
            }
            s
        },
    }
}

fn host_lines(
    a: &BoardAgent,
    selected: bool,
    board: Option<&BoardSnapshot>,
) -> (rows: Vec<Vec<Span>>)
    ensures
        rows_view(rows@) == host_rows(a@, selected, opt_board(board)),
{
    let mut first: Vec<Span> = Vec::new();
    let paint = if selected { Paint::bold(Tone::Yellow) } else { Paint::ink(Tone::Magenta) };
    put_head(&mut first, a.running, selected, "Host", paint);
    put(&mut first, "  Storyteller", Paint::ink(Tone::DarkGray));
    put_model(&mut first, a.model.as_str());
    let mut detail = "    ".to_owned();
    detail.append(host_detail_text(board).as_str());
    let second = row_of(detail.as_str(), Paint::ink(Tone::DarkGray));
    let mut rows: Vec<Vec<Span>> = Vec::new();
    rows.push(first);
    rows.push(second);
    rows.push(usage_line(&a.usage));
    proof {
        reveal_strlit(" Host");
        reveal_strlit(" ");
        reveal_strlit("Host");
        assert(" "@ + "Host"@ =~= " Host"@);
        assert(mark(selected) + " "@ + "Host"@ =~= mark(selected) + " Host"@);
        assert(row_view(first@) =~= host_rows(a@, selected, opt_board(board))[0]);
        assert(rows_view(rows@) =~= host_rows(a@, selected, opt_board(board)));
    }
    rows
}

#[verifier::loop_isolation(false)]
fn find_info(board: Option<&BoardSnapshot>, n: u8) -> (r: Option<BoardSeat>)
    ensures
        r == seat_on(opt_board(board), n),
{
    if let Some(b) = board {
        let ghost all = b.seats@;
        let mut i: usize = 0;
        assert(all.skip(0) =~= all);
        while i < b.seats.len()
            invariant
                i <= b.seats@.len(),
                seat_info(all, n) == seat_info(all.skip(i as int), n),
            decreases b.seats@.len() - i,
        {
            assert(all.skip(i as int).drop_first() =~= all.skip(i + 1));
            if b.seats[i].seat == n {
                return Some(b.seats[i]);
            }
            i += 1;
        }
    }
    None
}

fn put_role(row: &mut Vec<Span>, info: &Option<BoardSeat>)
    ensures
        row_view(final(row)@) == row_view(old(row)@).push(role_span(*info)),
{
    match info {
        None => put(row, "—", Paint::ink(Tone::DarkGray)),
        Some(s) => {
            let label = if s.is_drunk_outsider {
                match s.believed {
                    Some(face) => {
                        let mut t = "Drunk (as ".to_owned();
                        t.append(face.display_name());
                        t.append(")");
                        t
                    },
                    None => "Drunk".to_owned(),
                }
            } else {
                match s.true_char {
                    Some(c) => c.display_name().to_owned(),
                    None => "?".to_owned(),
                }
            };
            let paint = match s.true_char {
                Some(c) => role_style(c),
                None => Paint::ink(Tone::White),
            };
            put(row, label.as_str(), paint);
        },
    }
}

fn marker_line(info: &Option<BoardSeat>) -> (row: Vec<Span>)
    ensures
        row_view(row@) == markers(*info),
{
    let faded = Paint::ink(Tone::DarkGray);
    let mut row = row_of("    ", Paint::ink(Tone::Plain));
    match info {
        None => put(&mut row, "—", faded),
        Some(s) => {
            if s.alive {
                put(&mut row, "alive", Paint::ink(Tone::Green));
            } else {
                put(&mut row, "DEAD", Paint::bold(Tone::Red));
            }
            if let Some(c) = s.true_char {
                let tone = match c.team() {
                    Team::Evil => Tone::Red,
                    Team::Good => Tone::Green,
                };
                let mut t = " · ".to_owned();
                t.append(team_label(c.team()));
                put(&mut row, t.as_str(), Paint::ink(tone));
            }
            if s.poisoned {
                put(&mut row, " · poison", Paint::ink(Tone::Magenta));
            }
            if s.monk_protected {
                put(&mut row, " · monk", Paint::ink(Tone::Cyan));
            }
            if let Some(m) = s.butler_master {
                let t = numbered(" · butler→P", m as u64);
                put(&mut row, t.as_str(), Paint::ink(Tone::Yellow));
            }
            if !s.alive {
                put(
                    &mut row,
                    if s.ghost_vote_available { " · ghost✓" } else { " · ghost✗" },
                    faded,
                );
            }
            if s.slayer_used {
                put(&mut row, " · slayer✓", faded);
            }
            if s.virgin_used {
                put(&mut row, " · virgin✓", faded);
            }
        },
    }
    row
}

fn player_lines(a: &BoardAgent, seat: u8, selected: bool, board: Option<&BoardSnapshot>) -> (rows:
    Vec<Vec<Span>>)
    ensures
        rows_view(rows@) == player_rows(a@, seat, selected, opt_board(board)),
{
    let info = find_info(board, seat);
    let mut first: Vec<Span> = Vec::new();
    let paint = if selected {
        Paint::bold(Tone::Yellow)
    } else {
        Paint::ink(actor_color(false, Some(seat)))
    };
    let name = numbered("P", seat as u64);
    put_head(&mut first, a.running, selected, name.as_str(), paint);
    put(&mut first, " ", Paint::ink(Tone::Plain));
    put_role(&mut first, &info);
    put_model(&mut first, a.model.as_str());
    let mut rows: Vec<Vec<Span>> = Vec::new();
    rows.push(first);
    rows.push(marker_line(&info));
    rows.push(usage_line(&a.usage));
    proof {
        reveal_strlit(" P");
        reveal_strlit(" ");
        reveal_strlit("P");
        assert(" "@ + "P"@ =~= " P"@);
        assert(mark(selected) + " "@ + ("P"@ + dec(seat as nat)) =~= mark(selected) + " P"@ + dec(
            seat as nat,
        ));
        assert(row_view(first@) =~= player_rows(a@, seat, selected, opt_board(board))[0]);
        assert(rows_view(rows@) =~= player_rows(a@, seat, selected, opt_board(board)));
    }
    rows
}

/// The board while its rows are put together.
pub struct BoardPane {
    pub rows: Vec<Vec<Span>>,
    /// Per row: the agent to select on click (`None` = header / nom tracker / spacer — not
    /// clickable for selection).
    pub agent_rows: Vec<Option<usize>>,
    pub title: String,
}

/// The rows with their agents.
pub open spec fn paired(rows: Seq<Vec<Span>>, by: Seq<Option<usize>>) -> Seq<BoardRow> {
    Seq::new(rows.len(), |i: int| (row_view(rows[i]@), by[i]))
}

#[verifier::loop_isolation(false)]
fn push_block(rows: &mut Vec<Vec<Span>>, by: &mut Vec<Option<usize>>, more: Vec<Vec<Span>>, who: Option<
    usize,
>)
    requires
        old(rows)@.len() == old(by)@.len(),
    ensures
        final(rows)@.len() == final(by)@.len(),
        paired(final(rows)@, final(by)@) == paired(old(rows)@, old(by)@) + owned(
            rows_view(more@),
            who,
        ),
{
    let mut rest = more;
    let n = rest.len();
    let ghost all = rest@;
    rows.append(&mut rest);
    let mut i: usize = 0;
    while i < n
        invariant
            i <= n,
            by@.len() == old(by)@.len() + i,
            forall|k: int| 0 <= k < old(by)@.len() ==> by@[k] == old(by)@[k],
            forall|k: int| old(by)@.len() <= k < by@.len() ==> by@[k] == who,
        decreases n - i,
    {
        by.push(who);
        i += 1;
    }
    assert(paired(rows@, by@) =~= paired(old(rows)@, old(by)@) + owned(rows_view(all), who));
}

fn closed_line(c: &BoardClosedNom) -> (row: Vec<Span>)
    ensures
        row_view(row@) == closed_row(*c),
{
    let thr = if c.meets_threshold { Paint::ink(Tone::Cyan) } else { Paint::ink(Tone::DarkGray) };
    let mut row: Vec<Span> = Vec::new();
    put(&mut row, nom_head_text(c.by, c.target).as_str(), Paint::ink(Tone::Plain));
    put(&mut row, "closed", Paint::ink(Tone::DarkGray));
    let mut s = numbered("  ", c.yes as u64);
    s.append(" yes");
    put(&mut row, s.as_str(), thr);
    if c.meets_threshold {
        put(&mut row, "  ≥½", thr);
    } else {
        put(&mut row, "", Paint::ink(Tone::Plain));
    }
    assert(row_view(row@) =~= closed_row(*c));
    row
}

fn nom_head_text(by: u8, target: u8) -> (s: String)
    ensures
        s@ == nom_head(by, target),
{
    let mut s = numbered("  P", by as u64);
    s.append("→P");
    push_dec(&mut s, target as u64);
    s.append("  ");
    s
}

#[verifier::loop_isolation(false)]
fn list_bits(o: &BoardOpenNom) -> (v: Vec<String>)
    ensures
        texts(v@) == vote_bits(o@),
{
    let mut v: Vec<String> = Vec::new();
    let mut i: usize = 0;
    while i < o.votes.len()
        invariant
            i <= o.votes@.len(),
            v@.len() == i,
            forall|k: int|
                0 <= k < i ==> (#[trigger] v@[k])@ == "P"@ + dec(o.votes@[k].0 as nat) + (
                if o.votes@[k].1 { "✓"@ } else { "✗"@ }),
        decreases o.votes@.len() - i,
    {
        let mut s = numbered("P", o.votes[i].0 as u64);
        s.append(if o.votes[i].1 { "✓" } else { "✗" });
        v.push(s);
        i += 1;
    }
    let mut j: usize = 0;
    while j < o.passes.len()
        invariant
            j <= o.passes@.len(),
            v@.len() == o.votes@.len() + j,
            forall|k: int|
                0 <= k < o.votes@.len() ==> (#[trigger] v@[k])@ == "P"@ + dec(
                    o.votes@[k].0 as nat,
                ) + (if o.votes@[k].1 { "✓"@ } else { "✗"@ }),
            forall|k: int|
                o.votes@.len() <= k < v@.len() ==> (#[trigger] v@[k])@ == "P"@ + dec(
                    o.passes@[k - o.votes@.len()] as nat,
                ) + "–"@,
        decreases o.passes@.len() - j,
    {
        let mut s = numbered("P", o.passes[j] as u64);
        s.append("–");
        v.push(s);
        j += 1;
    }
    assert(texts(v@) =~= vote_bits(o@));
    v
}

fn open_line(o: &BoardOpenNom) -> (row: Vec<Span>)
    ensures
        row_view(row@) == open_row(o@),
{
    let bits = list_bits(o);
    assert(texts(bits@).len() == bits@.len());
    let mut row: Vec<Span> = Vec::new();
    put(&mut row, nom_head_text(o.by, o.target).as_str(), Paint::ink(Tone::Plain));
    put(&mut row, "OPEN", Paint::bold(Tone::Yellow));
    let mut s = "  ".to_owned();
    if bits.len() == 0 {
        s.append("no votes yet");
    } else {
        s.append(join(&bits, " ").as_str());
    }
    put(&mut row, s.as_str(), Paint::ink(Tone::White));
    assert(row_view(row@) =~= open_row(o@));
    row
}

fn push_line(rows: &mut Vec<Vec<Span>>, row: Vec<Span>)
    ensures
        rows_view(final(rows)@) == rows_view(old(rows)@).push(row_view(row@)),
{
    rows.push(row);
    assert(rows_view(rows@) =~= rows_view(old(rows)@).push(row_view(row@)));
}

#[verifier::loop_isolation(false)]
fn tracker_lines(board: Option<&BoardSnapshot>) -> (rows: Vec<Vec<Span>>)
    ensures
        rows_view(rows@) == tracker(opt_board(board)),
{
    let faded = Paint::ink(Tone::DarkGray);
    let mut rows: Vec<Vec<Span>> = Vec::new();
    push_line(&mut rows, row_of("", Paint::ink(Tone::Plain)));
    push_line(&mut rows, row_of("── noms ──", faded));
    assert(rows_view(rows@) =~= seq![
        one_span(""@, ink(Tone::Plain)),
        one_span("── noms ──"@, dim()),
    ]);
    match board {
        None => {
            push_line(&mut rows, row_of("  (no game)", faded));
        },
        Some(b) => {
            if b.closed_noms.len() == 0 && b.open_nom.is_none() {
                push_line(&mut rows, row_of("  (none today)", faded));
            }
            let ghost start = rows_view(rows@);
            let ghost f = |c: BoardClosedNom| closed_row(c);
            let mut i: usize = 0;
            assert(rows_view(rows@) =~= start + b.closed_noms@.take(0).map_values(f));
            while i < b.closed_noms.len()
                invariant
                    i <= b.closed_noms@.len(),
                    rows_view(rows@) == start + b.closed_noms@.take(i as int).map_values(f),
                decreases b.closed_noms@.len() - i,
            {
                push_line(&mut rows, closed_line(&b.closed_noms[i]));
                assert(b.closed_noms@.take(i + 1).map_values(f) =~= b.closed_noms@.take(
                    i as int,
                ).map_values(f).push(closed_row(b.closed_noms@[i as int])));
                assert(rows_view(rows@) =~= start + b.closed_noms@.take(i + 1).map_values(f));
                i += 1;
            }
            assert(b.closed_noms@.take(i as int) =~= b.closed_noms@);
            assert(rows_view(rows@) == start + b.closed_noms@.map_values(f));
            assert(b.closed_noms@.map_values(f) =~= b.closed_noms@.map_values(
                |c: BoardClosedNom| closed_row(c),
            ));
            if let Some(o) = &b.open_nom {
                push_line(&mut rows, open_line(o));
            }
        },
    }
    rows
}

/// Left monitor pane: agents + grimoire fused per seat, plus a live nomination tracker.
///
/// Each agent has three rows (identity/status, markers or waits, usage). Clickable rows map
/// through `agent_rows`.
#[verifier::loop_isolation(false)]
pub fn board_panel(
    board: Option<&BoardSnapshot>,
    agents: Option<&Vec<BoardAgent>>,
    selected: usize,
) -> (p:
    BoardPane)
    ensures
        p.rows@.len() == p.agent_rows@.len(),
        paired(p.rows@, p.agent_rows@) == board_rows(
            opt_board(board),
            match agents {
                Some(v) => Some(board_agents(v@)),
                None => None,
            },
            selected,
        ),
        p.title@ == board_title(opt_board(board)),
{
    let mut rows: Vec<Vec<Span>> = Vec::new();
    let mut by: Vec<Option<usize>> = Vec::new();
    assert(paired(rows@, by@) =~= seq![]);
    match agents {
        Some(v) => {
            let ghost all = board_agents(v@);
            let mut i: usize = 0;
            assert(all.take(0) =~= seq![]);
            while i < v.len()
                invariant
                    i <= v@.len(),
                    rows@.len() == by@.len(),
                    paired(rows@, by@) == all_agent_rows(
                        all.take(i as int),
                        selected,
                        opt_board(board),
                    ),
                decreases v@.len() - i,
            {
                assert(all.take(i + 1).drop_last() =~= all.take(i as int));
                assert(all[i as int] == v@[i as int]@);
                let a = &v[i];
                let block = match a.role {
                    AgentRole::Host => host_lines(a, i == selected, board),
                    AgentRole::Player { seat } => player_lines(a, seat.0, i == selected, board),
                };
                push_block(&mut rows, &mut by, block, Some(i));
                i += 1;
            }
            assert(all.take(i as int) =~= all);
        },
        None => {
            let mut none: Vec<Vec<Span>> = Vec::new();
            push_line(&mut none, row_of("no agents", Paint::ink(Tone::DarkGray)));
            assert(rows_view(none@) =~= seq![one_span("no agents"@, dim())]);
            push_block(&mut rows, &mut by, none, None);
            assert(paired(rows@, by@) =~= owned(seq![one_span("no agents"@, dim())], None));
        },
    }
    push_block(&mut rows, &mut by, tracker_lines(board), None);
    let title = match board {
        Some(b) => {
            let mut s = "board · ".to_owned();
            s.append(b.phase_short.as_str());
            s.append(" · ●=run");
            s
        },
        None => "board · ●=run".to_owned(),
    };
    BoardPane { rows, agent_rows: by, title }
}

// ---------------------------------------------------------------------------
// Laws
// ---------------------------------------------------------------------------

/// A click lands on the right agent: the first `3n` rows belong to the `n` agents, three rows
/// each, in order.
pub proof fn rows_belong_to_their_agent(
    agents: Seq<BoardAgentView>,
    selected: usize,
    board: Option<BoardView>,
    row: int,
)
    requires
        agents.len() <= usize::MAX,
        0 <= row < 3 * agents.len(),
    ensures
        board_rows(board, Some(agents), selected).len() > row,
        board_rows(board, Some(agents), selected)[row].1 == Some((row / 3) as usize),
{
    agent_blocks_are_three_rows(agents, selected, board, row);
}

proof fn agent_blocks_are_three_rows(
    agents: Seq<BoardAgentView>,
    selected: usize,
    board: Option<BoardView>,
    row: int,
)
    requires
        agents.len() <= usize::MAX,
    ensures
        all_agent_rows(agents, selected, board).len() == 3 * agents.len(),
        0 <= row < 3 * agents.len() ==> all_agent_rows(agents, selected, board)[row].1 == Some(
            (row / 3) as usize,
        ),
    decreases agents.len(),
{
    if agents.len() > 0 {
        agent_blocks_are_three_rows(agents.drop_last(), selected, board, row);
        assert(agent_rows(agents.last(), (agents.len() - 1) as usize == selected, board).len()
            == 3);
    }
}

} // verus!
