//! The rows of the setup screen.

use crate::harness::agents::{Backend, HarnessConfig};
use crate::harness::tui::paint::{
    actor_color, actor_tone, bold_ink, ink, name_of_slot, one_span, pad_right, padded, put,
    put_row, role_label, role_paint, role_style, role_words, row_of, row_view, rows_view,
    slot_name, span, Paint, RowView, Span, SpanView, Tone,
};
use crate::harness::tui::setup::{default_choice, ChoiceView, SeatChoice, Setup, SetupView};
use crate::harness::tui::setup_keys::offered;
use crate::text::{dec, holds_text, join, joined, push_dec, texts};
use vstd::prelude::*;
use vstd::string::*;

verus! {

/// What the setup screen shows besides the setup itself.
pub struct SetupFacts {
    /// Where the agent proxy was looked for.
    pub mcp_path: String,
    /// Whether it is there.
    pub mcp_ok: bool,
}

/// The paint of the focused row.
pub open spec fn focus_paint(focused: bool) -> Paint {
    if focused { bold_ink(Tone::Yellow) } else { ink(Tone::Plain) }
}

/// The mark of the focused row.
pub open spec fn focus_mark(focused: bool) -> Seq<char> {
    if focused { "▶ "@ } else { "  "@ }
}

fn paint_focus(focused: bool) -> (p: Paint)
    ensures
        p == focus_paint(focused),
{
    if focused { Paint::bold(Tone::Yellow) } else { Paint::ink(Tone::Plain) }
}

fn mark_focus(focused: bool) -> (s: &'static str)
    ensures
        s@ == focus_mark(focused),
{
    if focused { "▶ " } else { "  " }
}

/// The player-count row.
pub open spec fn count_row(s: SetupView) -> RowView {
    one_span(
        focus_mark(s.setup_row == 0) + "Players: "@ + dec(s.player_count as nat) + "    →  "@ + dec(
            (s.player_count + 1) as nat,
        ) + " headless agent sessions (host + players)"@,
        focus_paint(s.setup_row == 0),
    )
}

/// The pick of a session row; the default where there is none.
pub open spec fn pick_at(s: SetupView, cfg: HarnessConfig, slot: int) -> ChoiceView {
    if slot < s.seat_choices.len() { s.seat_choices[slot] } else { default_choice(cfg) }
}

/// The role column: Host runs the game; players show their previewed character.
pub open spec fn role_column(s: SetupView, slot: int) -> SpanView {
    if slot == 0 {
        span(padded("Storyteller"@, 26), ink(Tone::DarkGray))
    } else if slot - 1 < s.setup_roles.len() {
        let a = s.setup_roles[slot - 1];
        span(padded(role_words(a), 26), role_paint(a.true_character))
    } else {
        span(padded("—"@, 26), ink(Tone::DarkGray))
    }
}

/// A session row: seat · role · model.
pub open spec fn session_row(s: SetupView, cfg: HarnessConfig, slot: int) -> RowView {
    let focused = s.setup_row == slot + 1;
    let c = pick_at(s, cfg, slot);
    let list = offered(cfg, c.backend);
    let row = one_span(
        focus_mark(focused) + padded(slot_name(slot), 5) + " "@,
        focus_paint(focused),
    ).push(role_column(s, slot)).push(
        span("["@ + c.backend.word() + "] "@, ink(Tone::DarkGray)),
    ).push(
        span(
            c.model,
            if focused {
                bold_ink(Tone::Yellow)
            } else {
                ink(
                    actor_tone(
                        slot == 0,
                        if slot == 0 { None } else { Some(((slot - 1) % 256) as u8) },
                    ),
                )
            },
        ),
    );
    if !list.contains(c.model) && list.len() > 0 {
        row.push(span("  (not in "@ + c.backend.word() + " models)"@, ink(Tone::DarkGray)))
    } else {
        row
    }
}

/// The backend of the focused seat.
pub open spec fn focus_backend(s: SetupView) -> Backend {
    if s.setup_row >= 1 && s.setup_row - 1 < s.seat_choices.len() {
        s.seat_choices[s.setup_row - 1].backend
    } else {
        Backend::Grok
    }
}

/// The model list for the focused seat's backend.
pub open spec fn models_row(s: SetupView, cfg: HarnessConfig) -> RowView {
    let list = offered(cfg, focus_backend(s));
    one_span(
        "  "@ + focus_backend(s).word() + " models: "@ + (if list.len() == 0 {
            "(none found)"@
        } else {
            joined(list, " · "@)
        }),
        ink(Tone::DarkGray),
    )
}

pub const SETUP_COLUMNS: &'static str =
    "  Seat · role · [backend] model   (←/→ model · b backend · a apply-all · r roles→models · s models→roles)";

pub const SETUP_CONTROLS: &'static str =
    "  Controls:  ↑/↓ row · ←/→ change · b backend · a apply→all · r reroll roles (balance vs models) · s shuffle models (balance vs roles)";

pub const SETUP_ENTER: &'static str =
    "             Enter create game + spawn agents · q quit";

pub const SETUP_NOTE: &'static str =
    "  Each agent workdir gets a per-backend MCP config → botc-agent-mcp (token-scoped)";

pub const SETUP_BUILD: &'static str =
    "  → Unix socket → shared in-process engine. Build first: cargo build --bins";

/// A plain row.
pub open spec fn plain(text: Seq<char>) -> RowView {
    one_span(text, ink(Tone::Plain))
}

/// A dimmed row.
pub open spec fn faded(text: Seq<char>) -> RowView {
    one_span(text, ink(Tone::DarkGray))
}

/// The rows of the sessions.
pub open spec fn session_rows(s: SetupView, cfg: HarnessConfig, n: nat) -> Seq<RowView> {
    Seq::new(n, |slot: int| session_row(s, cfg, slot))
}

/// The rows above the sessions.
pub open spec fn top_rows(s: SetupView) -> Seq<RowView> {
    seq![count_row(s), plain(""@), faded(SETUP_COLUMNS@)]
}

/// The rows below the sessions.
pub open spec fn bottom_rows(s: SetupView, cfg: HarnessConfig, facts: SetupFacts) -> Seq<RowView> {
    seq![
        plain(""@),
        models_row(s, cfg),
        plain(""@),
        plain("  Grok binary: "@ + cfg.grok_bin@),
        plain("  Alt binary:  "@ + cfg.claude_bin@),
        plain(
            "  Agent MCP:   "@ + facts.mcp_path@ + "  ("@ + (if facts.mcp_ok {
                "ok"@
            } else {
                "MISSING — cargo build --bins"@
            }) + ")"@,
        ),
        plain("  Work root:   "@ + cfg.work_root@),
        plain(""@),
        faded(SETUP_CONTROLS@),
        faded(SETUP_ENTER@),
        plain(""@),
        faded(SETUP_NOTE@),
        faded(SETUP_BUILD@),
    ]
}

/// The rows of the setup screen.
pub open spec fn setup_rows(s: SetupView, cfg: HarnessConfig, facts: SetupFacts) -> Seq<RowView> {
    top_rows(s) + session_rows(s, cfg, (s.player_count + 1) as nat) + bottom_rows(s, cfg, facts)
}

fn count_line(s: &Setup) -> (row: Vec<Span>)
    requires
        s@.wf(),
    ensures
        row_view(row@) == count_row(s@),
{
    let focused = s.setup_row == 0;
    let mut t = mark_focus(focused).to_owned();
    t.append("Players: ");
    push_dec(&mut t, s.player_count as u64);
    t.append("    →  ");
    push_dec(&mut t, s.player_count as u64 + 1);
    t.append(" headless agent sessions (host + players)");
    row_of(t.as_str(), paint_focus(focused))
}

fn put_role_column(row: &mut Vec<Span>, s: &Setup, slot: usize)
    ensures
        row_view(final(row)@) == row_view(old(row)@).push(role_column(s@, slot as int)),
{
    if slot == 0 {
        put(row, pad_right("Storyteller", 26).as_str(), Paint::ink(Tone::DarkGray));
    } else if slot - 1 < s.setup_roles.len() {
        let a = &s.setup_roles[slot - 1];
        put(
            row,
            pad_right(role_label(a).as_str(), 26).as_str(),
            role_style(a.true_character),
        );
    } else {
        put(row, pad_right("—", 26).as_str(), Paint::ink(Tone::DarkGray));
    }
}

fn session_line(s: &Setup, cfg: &HarnessConfig, slot: usize) -> (row: Vec<Span>)
    requires
        slot < usize::MAX,
    ensures
        row_view(row@) == session_row(s@, *cfg, slot as int),
{
    let focused = s.setup_row == slot + 1;
    let pick = if slot < s.seat_choices.len() {
        s.seat_choices[slot].clone()
    } else {
        SeatChoice { backend: Backend::Grok, model: cfg.model.clone() }
    };
    assert(pick@ == pick_at(s@, *cfg, slot as int));
    let mut head = mark_focus(focused).to_owned();
    head.append(pad_right(name_of_slot(slot).as_str(), 5).as_str());
    head.append(" ");
    let mut row = row_of(head.as_str(), paint_focus(focused));
    put_role_column(&mut row, s, slot);
    let mut tag = "[".to_owned();
    tag.append(pick.backend.as_str());
    tag.append("] ");
    put(&mut row, tag.as_str(), Paint::ink(Tone::DarkGray));
    let paint = if focused {
        Paint::bold(Tone::Yellow)
    } else {
        let seat: Option<u8> = if slot == 0 { None } else { Some(((slot - 1) % 256) as u8) };
        Paint::ink(actor_color(slot == 0, seat))
    };
    put(&mut row, pick.model.as_str(), paint);
    let list = cfg.models_for(pick.backend);
    assert(texts(list@).len() == list@.len());
    if !holds_text(list, pick.model.as_str()) && list.len() > 0 {
        let mut note = "  (not in ".to_owned();
        note.append(pick.backend.as_str());
        note.append(" models)");
        put(&mut row, note.as_str(), Paint::ink(Tone::DarkGray));
    }
    row
}

fn models_line(s: &Setup, cfg: &HarnessConfig) -> (row: Vec<Span>)
    ensures
        row_view(row@) == models_row(s@, *cfg),
{
    let backend = if s.setup_row >= 1 && s.setup_row - 1 < s.seat_choices.len() {
        assert(s@.seat_choices[s.setup_row - 1] == s.seat_choices@[s.setup_row - 1]@);
        s.seat_choices[s.setup_row - 1].backend
    } else {
        Backend::Grok
    };
    let list = cfg.models_for(backend);
    assert(texts(list@).len() == list@.len());
    let mut t = "  ".to_owned();
    t.append(backend.as_str());
    t.append(" models: ");
    if list.len() == 0 {
        t.append("(none found)");
    } else {
        t.append(join(list, " · ").as_str());
    }
    row_of(t.as_str(), Paint::ink(Tone::DarkGray))
}

fn put_plain(rows: &mut Vec<Vec<Span>>, label: &str, text: &str)
    ensures
        rows_view(final(rows)@) == rows_view(old(rows)@).push(plain(label@ + text@)),
{
    let mut t = label.to_owned();
    t.append(text);
    put_row(rows, row_of(t.as_str(), Paint::ink(Tone::Plain)));
}

fn put_blank(rows: &mut Vec<Vec<Span>>)
    ensures
        rows_view(final(rows)@) == rows_view(old(rows)@).push(plain(""@)),
{
    put_row(rows, row_of("", Paint::ink(Tone::Plain)));
}

fn put_faded(rows: &mut Vec<Vec<Span>>, text: &str)
    ensures
        rows_view(final(rows)@) == rows_view(old(rows)@).push(faded(text@)),
{
    put_row(rows, row_of(text, Paint::ink(Tone::DarkGray)));
}

fn push_bottom(rows: &mut Vec<Vec<Span>>, s: &Setup, cfg: &HarnessConfig, facts: &SetupFacts)
    ensures
        rows_view(final(rows)@) == rows_view(old(rows)@) + bottom_rows(s@, *cfg, *facts),
{
    put_blank(rows);
    put_row(rows, models_line(s, cfg));
    put_blank(rows);
    put_plain(rows, "  Grok binary: ", cfg.grok_bin.as_str());
    put_plain(rows, "  Alt binary:  ", cfg.claude_bin.as_str());
    let mut mcp = "  Agent MCP:   ".to_owned();
    mcp.append(facts.mcp_path.as_str());
    mcp.append("  (");
    mcp.append(if facts.mcp_ok { "ok" } else { "MISSING — cargo build --bins" });
    mcp.append(")");
    put_row(rows, row_of(mcp.as_str(), Paint::ink(Tone::Plain)));
    put_plain(rows, "  Work root:   ", cfg.work_root.as_str());
    put_blank(rows);
    put_faded(rows, SETUP_CONTROLS);
    put_faded(rows, SETUP_ENTER);
    put_blank(rows);
    put_faded(rows, SETUP_NOTE);
    put_faded(rows, SETUP_BUILD);
    assert(rows_view(rows@) =~= rows_view(old(rows)@) + bottom_rows(s@, *cfg, *facts));
}

/// Draw the setup screen.
#[verifier::loop_isolation(false)]
pub fn setup_panel(s: &Setup, cfg: &HarnessConfig, facts: &SetupFacts) -> (rows: Vec<Vec<Span>>)
    requires
        s@.wf(),
    ensures
        rows_view(rows@) == setup_rows(s@, *cfg, *facts),
{
    let mut rows: Vec<Vec<Span>> = Vec::new();
    put_row(&mut rows, count_line(s));
    put_blank(&mut rows);
    put_faded(&mut rows, SETUP_COLUMNS);
    assert(rows_view(rows@) =~= top_rows(s@));
    // One row per session: Host, P0, P1, … each showing seat · role · model.
    let mut slot: usize = 0;
    assert(rows_view(rows@) =~= top_rows(s@) + session_rows(s@, *cfg, 0));
    while slot <= s.player_count
        invariant
            slot <= s.player_count + 1,
            rows_view(rows@) == top_rows(s@) + session_rows(s@, *cfg, slot as nat),
        decreases s.player_count + 1 - slot,
    {
        put_row(&mut rows, session_line(s, cfg, slot));
        assert(rows_view(rows@) =~= top_rows(s@) + session_rows(s@, *cfg, (slot + 1) as nat));
        slot += 1;
    }
    push_bottom(&mut rows, s, cfg, facts);
    rows
}

} // verus!
