//! The action feed: every tool call of every agent, newest at the bottom.

use crate::harness::action_log::{
    clip_chars, clipped, entries_view, last_of, ActionEntry, ActionEntryView, ActionKind,
    ActionLog, ActionLogView, RESULT_SHOWN,
};
use crate::harness::tui::paint::{
    actor_color, actor_tone, bold_ink, indented, ink, one_span, pad_left, pad_right, padded, put,
    row_of, row_view, rows_view, span, summary_paint, summary_style, Paint, Rect, RowView, Span,
    Tone,
};
use crate::text::{chars_of, dec, dec_string, push_dec, str_eq, string_of};
use vstd::prelude::*;
use vstd::string::*;

verus! {

/// Which actions the feed shows.
#[derive(Debug, Clone, Copy, PartialEq, Eq, Structural)]
pub enum FeedFilter {
    /// Everything, incl. info reads (dimmed).
    All,
    /// Only game-affecting actions and errors.
    GameOnly,
}

/// Speech is shown in full.
pub open spec fn speaks(tool: Seq<char>) -> bool {
    tool == "say"@ || tool == "st_announce"@
}

/// `say` / `st_announce` text is never truncated in the feed — it always wraps
/// in full. Other tools keep a short inline summary on the header row.
pub fn is_speech_tool(tool: &str) -> (b: bool)
    ensures
        b == speaks(tool@),
{
    str_eq(tool, "say") || str_eq(tool, "st_announce")
}

/// What stands before the text of a continued row.
pub const INDENT: &'static str = "      ";

/// The text in pieces of this width.
pub open spec fn pieces(text: Seq<char>, width: nat) -> Seq<Seq<char>>
    decreases text.len(),
{
    if text.len() == 0 || width == 0 {
        seq![]
    } else if text.len() <= width {
        seq![text]
    } else {
        seq![text.take(width as int)] + pieces(text.skip(width as int), width)
    }
}

/// How much of a row is left behind the indent; at least eight columns.
pub open spec fn body_width(width: usize) -> nat {
    if width >= 14 { (width - 6) as nat } else { 8 }
}

/// A text in indented rows.
pub open spec fn chunk_rows(text: Seq<char>, width: usize, paint: Paint) -> Seq<RowView> {
    pieces(text, body_width(width)).map_values(|p: Seq<char>| one_span(INDENT@ + p, paint))
}

/// Append a text in indented rows at `width` (pane inner width).
#[verifier::loop_isolation(false)]
fn push_chunks(rows: &mut Vec<Vec<Span>>, text: &str, width: usize, paint: Paint)
    ensures
        rows_view(final(rows)@) == rows_view(old(rows)@) + chunk_rows(text@, width, paint),
{
    let body: usize = if width >= 14 { width - 6 } else { 8 };
    let chars = chars_of(text);
    let mut i: usize = 0;
    let ghost all = pieces(text@, body as nat);
    let ghost mut done: Seq<Seq<char>> = seq![];
    let ghost start = rows_view(rows@);
    let ghost f = |p: Seq<char>| one_span(INDENT@ + p, paint);
    assert(text@.skip(0) =~= text@);
    assert(done + all =~= all);
    assert(start + done.map_values(f) =~= start);
    while i < chars.len()
        invariant
            i <= chars@.len(),
            all == done + pieces(text@.skip(i as int), body as nat),
            rows_view(rows@) == start + done.map_values(f),
        decreases chars@.len() - i,
    {
        let end: usize = if chars.len() - i <= body { chars.len() } else { i + body };
        let mut s = INDENT.to_owned();
        s.append(string_of(&chars, i, end).as_str());
        let row = row_of(s.as_str(), paint);
        let ghost before = rows@;
        rows.push(row);
        proof {
            let rest = text@.skip(i as int);
            let piece = text@.subrange(i as int, end as int);
            assert(rest.skip(end - i) =~= text@.skip(end as int));
            if rest.len() <= body {
                assert(piece =~= rest);
                assert(pieces(text@.skip(end as int), body as nat) =~= seq![]);
            } else {
                assert(piece =~= rest.take(body as int));
            }
            assert(pieces(rest, body as nat) =~= seq![piece] + pieces(
                text@.skip(end as int),
                body as nat,
            ));
            let next = done.push(piece);
            assert(all =~= next + pieces(text@.skip(end as int), body as nat));
            assert(rows_view(rows@) =~= rows_view(before).push(row_view(row@)));
            assert(row_view(row@) == f(piece));
            assert(next.map_values(f) =~= done.map_values(f).push(f(piece)));
            assert(rows_view(rows@) =~= start + next.map_values(f));
            done = next;
        }
        i = end;
    }
    proof {
        assert(text@.skip(i as int).len() == 0);
        assert(all =~= done);
        assert(done.map_values(f) =~= chunk_rows(text@, width, paint));
    }
}

/// The paint of a tool name, and the mark before it.
pub open spec fn tool_paint(kind: ActionKind) -> Paint {
    match kind {
        ActionKind::Game => bold_ink(Tone::White),
        ActionKind::Info => ink(Tone::DarkGray),
        ActionKind::Meta => ink(Tone::Gray),
    }
}

/// The header row of an entry.
pub open spec fn header(e: ActionEntryView, expanded: bool) -> RowView {
    let tool = tool_paint(e.kind);
    let head = seq![
        span(if expanded { "▾ "@ } else { "▸ "@ }, ink(Tone::DarkGray)),
        span(indented(dec(e.secs as nat), 4) + "s "@, ink(Tone::DarkGray)),
        span(padded(e.actor.name, 5), bold_ink(actor_tone(e.actor.is_host, e.actor.seat))),
        span(if e.kind is Game { "▶ "@ } else { "  "@ }, tool),
        span(e.tool, tool),
    ];
    let told = if !speaks(e.tool) && e.summary.len() > 0 {
        head.push(span(" "@, ink(Tone::Plain))).push(span(e.summary, summary_paint(e.kind)))
    } else {
        head
    };
    if e.ok {
        told.push(span("  ✓"@, ink(Tone::Green)))
    } else {
        told.push(
            span(
                "  ✗ "@ + (match e.error {
                    Some(t) => t,
                    None => ""@,
                }),
                ink(Tone::Red),
            ),
        )
    }
}

/// Header row: time · actor · tool · status. Speech tools leave the quote off the
/// header (it wraps in full below). Other tools put the short summary inline.
pub fn feed_line(e: &ActionEntry, expanded: bool) -> (row: Vec<Span>)
    ensures
        row_view(row@) == header(e@, expanded),
{
    let tool = match e.kind {
        ActionKind::Game => Paint::bold(Tone::White),
        ActionKind::Info => Paint::ink(Tone::DarkGray),
        ActionKind::Meta => Paint::ink(Tone::Gray),
    };
    let mut row: Vec<Span> = Vec::new();
    put(&mut row, if expanded { "▾ " } else { "▸ " }, Paint::ink(Tone::DarkGray));
    let mut secs = pad_left(dec_string(e.secs).as_str(), 4);
    secs.append("s ");
    put(&mut row, secs.as_str(), Paint::ink(Tone::DarkGray));
    put(
        &mut row,
        pad_right(e.actor.name.as_str(), 5).as_str(),
        Paint::bold(actor_color(e.actor.is_host, e.actor.seat)),
    );
    let mark = match e.kind {
        ActionKind::Game => "▶ ",
        _ => "  ",
    };
    put(&mut row, mark, tool);
    put(&mut row, e.tool.as_str(), tool);
    let ghost head = row_view(row@);
    if !is_speech_tool(e.tool.as_str()) && chars_of(e.summary.as_str()).len() > 0 {
        put(&mut row, " ", Paint::ink(Tone::Plain));
        put(&mut row, e.summary.as_str(), summary_style(e.kind));
    }
    if e.ok {
        put(&mut row, "  ✓", Paint::ink(Tone::Green));
    } else {
        let mut s = "  ✗ ".to_owned();
        match &e.error {
            Some(t) => s.append(t.as_str()),
            None => s.append(""),
        }
        put(&mut row, s.as_str(), Paint::ink(Tone::Red));
    }
    assert(head =~= seq![
        span(if expanded { "▾ "@ } else { "▸ "@ }, ink(Tone::DarkGray)),
        span(indented(dec(e@.secs as nat), 4) + "s "@, ink(Tone::DarkGray)),
        span(padded(e@.actor.name, 5), bold_ink(actor_tone(e@.actor.is_host, e@.actor.seat))),
        span(if e@.kind is Game { "▶ "@ } else { "  "@ }, tool_paint(e@.kind)),
        span(e@.tool, tool_paint(e@.kind)),
    ]);
    row
}

/// Most detail rows of an expanded entry.
pub const MAX_DETAIL_ROWS: usize = 16;

/// The details of an entry before they are cut.
pub open spec fn full_details(e: ActionEntryView, width: usize) -> Seq<RowView> {
    let args = chunk_rows("args: "@ + e.args, width, ink(Tone::Gray));
    match (e.error, e.result) {
        (Some(err), _) => args + chunk_rows("error: "@ + err, width, ink(Tone::Red)),
        (None, Some(res)) => args + chunk_rows(
            "result: "@ + clipped(res, RESULT_SHOWN),
            width,
            ink(Tone::DarkGray),
        ),
        (None, None) => args,
    }
}

/// The details of an expanded entry.
pub open spec fn details(e: ActionEntryView, width: usize) -> Seq<RowView> {
    let all = full_details(e, width);
    if all.len() > MAX_DETAIL_ROWS {
        all.take(MAX_DETAIL_ROWS as int).push(
            one_span(INDENT@ + "… (truncated)"@, ink(Tone::DarkGray)),
        )
    } else {
        all
    }
}

/// Expanded-only detail: args JSON, then result / error. Speech text is already
/// visible above and is not repeated here.
pub fn feed_detail_lines(e: &ActionEntry, width: usize) -> (rows: Vec<Vec<Span>>)
    ensures
        rows_view(rows@) == details(e@, width),
{
    let mut rows: Vec<Vec<Span>> = Vec::new();
    assert(rows_view(rows@) =~= seq![]);
    let mut args = "args: ".to_owned();
    args.append(e.args.as_str());
    push_chunks(&mut rows, args.as_str(), width, Paint::ink(Tone::Gray));
    assert(rows_view(rows@) =~= chunk_rows("args: "@ + e@.args, width, ink(Tone::Gray)));
    match (&e.error, &e.result) {
        (Some(err), _) => {
            let mut s = "error: ".to_owned();
            s.append(err.as_str());
            push_chunks(&mut rows, s.as_str(), width, Paint::ink(Tone::Red));
        },
        (None, Some(res)) => {
            let mut s = "result: ".to_owned();
            s.append(clip_chars(res.as_str(), RESULT_SHOWN).as_str());
            push_chunks(&mut rows, s.as_str(), width, Paint::ink(Tone::DarkGray));
        },
        (None, None) => {},
    }
    assert(rows_view(rows@).len() == rows@.len());
    if rows.len() > MAX_DETAIL_ROWS {
        let ghost all = rows@;
        rows.truncate(MAX_DETAIL_ROWS);
        assert(rows_view(rows@) =~= rows_view(all).take(MAX_DETAIL_ROWS as int));
        let mut s = INDENT.to_owned();
        s.append("… (truncated)");
        let ghost cut = rows@;
        rows.push(row_of(s.as_str(), Paint::ink(Tone::DarkGray)));
        assert(rows_view(rows@) =~= rows_view(cut).push(
            one_span(INDENT@ + "… (truncated)"@, ink(Tone::DarkGray)),
        ));
    }
    rows
}

/// The rows of an entry: its header, its speech in full, and its details when expanded.
pub open spec fn entry_rows(e: ActionEntryView, expanded: bool, width: usize) -> Seq<RowView> {
    let head = seq![header(e, expanded)];
    let told = if speaks(e.tool) {
        head + chunk_rows(e.summary, width, summary_paint(e.kind))
    } else {
        head
    };
    if expanded { told + details(e, width) } else { told }
}

fn feed_entry_rows(e: &ActionEntry, expanded: bool, width: usize) -> (rows: Vec<Vec<Span>>)
    ensures
        rows_view(rows@) == entry_rows(e@, expanded, width),
{
    let mut rows: Vec<Vec<Span>> = Vec::new();
    rows.push(feed_line(e, expanded));
    assert(rows_view(rows@) =~= seq![header(e@, expanded)]);
    if is_speech_tool(e.tool.as_str()) {
        push_chunks(&mut rows, e.summary.as_str(), width, summary_style(e.kind));
    }
    if expanded {
        let ghost told = rows@;
        let mut more = feed_detail_lines(e, width);
        let ghost all = more@;
        rows.append(&mut more);
        assert(rows_view(rows@) =~= rows_view(told) + rows_view(all));
    }
    rows
}

/// The filter lets an entry through.
pub open spec fn shows(filter: FeedFilter, e: ActionEntryView) -> bool {
    filter is All || e.kind is Game || !e.ok
}

/// The rows of all entries, each with the number of its entry.
pub open spec fn feed_rows(
    entries: Seq<ActionEntryView>,
    filter: FeedFilter,
    expanded: Seq<u64>,
    width: usize,
) -> Seq<(RowView, Option<u64>)>
    decreases entries.len(),
{
    if entries.len() == 0 {
        seq![]
    } else {
        let front = feed_rows(entries.drop_last(), filter, expanded, width);
        let e = entries.last();
        if shows(filter, e) {
            front + entry_rows(e, expanded.contains(e.seq), width).map_values(
                |r: RowView| (r, Some(e.seq)),
            )
        } else {
            front
        }
    }
}

/// What an empty feed says.
pub open spec fn empty_feed(filter: FeedFilter) -> (RowView, Option<u64>) {
    (
        one_span(
            match filter {
                FeedFilter::All => "no actions yet — agents haven't called any tools"@,
                FeedFilter::GameOnly => "no game actions yet (f = show all)"@,
            },
            ink(Tone::DarkGray),
        ),
        None,
    )
}

/// The rows in a window of this height, `scroll` rows above the tail.
pub open spec fn window<T>(rows: Seq<T>, height: nat, scroll: nat) -> Seq<T> {
    let end = if rows.len() > scroll { rows.len() - scroll } else { 0 };
    let start = if end > height { end - height } else { 0 };
    rows.subrange(start, end)
}

/// Game-only pulls a wider window so real actions aren't starved by info reads.
pub open spec fn pulled(filter: FeedFilter, height: usize, scroll: usize) -> usize {
    match filter {
        FeedFilter::All => if height + scroll + 50 <= usize::MAX {
            (height + scroll + 50) as usize
        } else {
            usize::MAX
        },
        FeedFilter::GameOnly => 1500,
    }
}

/// Inner size of a bordered pane: at least one row, at least eight columns.
pub open spec fn feed_height(area: Rect) -> usize {
    if area.height >= 3 { (area.height - 2) as usize } else { 1 }
}

pub open spec fn feed_width(area: Rect) -> usize {
    if area.width >= 10 { (area.width - 2) as usize } else { 8 }
}

/// The visible rows of the feed.
pub open spec fn feed_window(
    log: ActionLogView,
    area: Rect,
    filter: FeedFilter,
    scroll: usize,
    expanded: Seq<u64>,
) -> Seq<(RowView, Option<u64>)> {
    let entries = last_of(log.entries, pulled(filter, feed_height(area), scroll));
    let rows = feed_rows(entries, filter, expanded, feed_width(area));
    window(
        if rows.len() == 0 { seq![empty_feed(filter)] } else { rows },
        feed_height(area) as nat,
        scroll as nat,
    )
}

/// The title of the feed.
pub open spec fn feed_title(total: nat, filter: FeedFilter, scroll: usize) -> Seq<char> {
    "actions · "@ + (match filter {
        FeedFilter::All => "all"@,
        FeedFilter::GameOnly => "game-only"@,
    }) + " · "@ + dec(total) + " total · click=expand f=filter "@ + (if scroll == 0 {
        "·live"@
    } else {
        "·scroll"@
    })
}

/// The feed as it is drawn.
pub struct FeedPane {
    pub rows: Vec<Vec<Span>>,
    /// Number of the entry on each visible row (for click-expand).
    pub seqs: Vec<Option<u64>>,
    pub title: String,
}

/// The rows with their numbers.
pub open spec fn numbered_rows(rows: Seq<Vec<Span>>, seqs: Seq<Option<u64>>) -> Seq<
    (RowView, Option<u64>),
> {
    Seq::new(rows.len(), |i: int| (row_view(rows[i]@), seqs[i]))
}

fn holds_number(v: &Vec<u64>, n: u64) -> (b: bool)
    ensures
        b == v@.contains(n),
{
    let mut i: usize = 0;
    while i < v.len()
        invariant
            i <= v@.len(),
            forall|k: int| 0 <= k < i ==> v@[k] != n,
        decreases v@.len() - i,
    {
        if v[i] == n {
            return true;
        }
        i += 1;
    }
    false
}

/// Append the rows of an entry with its number.
#[verifier::loop_isolation(false)]
fn push_entry(
    rows: &mut Vec<Vec<Span>>,
    seqs: &mut Vec<Option<u64>>,
    more: Vec<Vec<Span>>,
    seq: u64,
)
    requires
        old(rows)@.len() == old(seqs)@.len(),
    ensures
        final(rows)@.len() == final(seqs)@.len(),
        numbered_rows(final(rows)@, final(seqs)@) == numbered_rows(old(rows)@, old(seqs)@)
            + rows_view(more@).map_values(|r: RowView| (r, Some(seq))),
{
    let mut rest = more;
    let n = rest.len();
    let ghost all = rest@;
    rows.append(&mut rest);
    let mut i: usize = 0;
    while i < n
        invariant
            i <= n,
            seqs@.len() == old(seqs)@.len() + i,
            forall|k: int| 0 <= k < old(seqs)@.len() ==> seqs@[k] == old(seqs)@[k],
            forall|k: int| old(seqs)@.len() <= k < seqs@.len() ==> seqs@[k] == Some(seq),
        decreases n - i,
    {
        seqs.push(Some(seq));
        i += 1;
    }
    assert(numbered_rows(rows@, seqs@) =~= numbered_rows(old(rows)@, old(seqs)@) + rows_view(
        all,
    ).map_values(|r: RowView| (r, Some(seq))));
}

/// The rows of all entries.
#[verifier::loop_isolation(false)]
fn collect_rows(
    entries: &Vec<ActionEntry>,
    filter: FeedFilter,
    expanded: &Vec<u64>,
    width: usize,
) -> (r: (
    Vec<Vec<Span>>,
    Vec<Option<u64>>,
))
    ensures
        r.0@.len() == r.1@.len(),
        numbered_rows(r.0@, r.1@) == feed_rows(entries_view(entries@), filter, expanded@, width),
{
    let ghost all = entries_view(entries@);
    let mut rows: Vec<Vec<Span>> = Vec::new();
    let mut seqs: Vec<Option<u64>> = Vec::new();
    let mut i: usize = 0;
    assert(numbered_rows(rows@, seqs@) =~= seq![]);
    while i < entries.len()
        invariant
            i <= entries@.len(),
            rows@.len() == seqs@.len(),
            numbered_rows(rows@, seqs@) == feed_rows(
                all.take(i as int),
                filter,
                expanded@,
                width,
            ),
        decreases entries@.len() - i,
    {
        assert(all.take(i + 1).drop_last() =~= all.take(i as int));
        assert(all[i as int] == entries@[i as int]@);
        let e = &entries[i];
        let shown = match filter {
            FeedFilter::All => true,
            FeedFilter::GameOnly => e.kind == ActionKind::Game || !e.ok,
        };
        if shown {
            let more = feed_entry_rows(e, holds_number(expanded, e.seq), width);
            let ghost f = |r: RowView| (r, Some(e@.seq));
            push_entry(&mut rows, &mut seqs, more, e.seq);
        }
        i += 1;
    }
    assert(all.take(i as int) =~= all);
    (rows, seqs)
}

/// Draw the global action feed (all agents), tail-anchored with `scroll`.
/// Rows are pre-clipped (no wrapping) so every visible row maps to exactly one
/// entry — that mapping makes rows click-expandable.
pub fn action_feed(
    log: &ActionLog,
    area: Rect,
    filter: FeedFilter,
    scroll: usize,
    expanded: &Vec<u64>,
) -> (p:
    FeedPane)
    ensures
        p.rows@.len() == p.seqs@.len(),
        numbered_rows(p.rows@, p.seqs@) == feed_window(log@, area, filter, scroll, expanded@),
        p.title@ == feed_title(log@.entries.len(), filter, scroll),
{
    let inner_h: usize = if area.height >= 3 { (area.height - 2) as usize } else { 1 };
    let inner_w: usize = if area.width >= 10 { (area.width - 2) as usize } else { 8 };
    let pull: usize = match filter {
        FeedFilter::All => inner_h.saturating_add(scroll).saturating_add(50),
        FeedFilter::GameOnly => 1500,
    };
    let entries = log.recent(pull);
    let (mut rows, mut seqs) = collect_rows(&entries, filter, expanded, inner_w);
    if rows.len() == 0 {
        assert(numbered_rows(rows@, seqs@).len() == 0);
        let msg = match filter {
            FeedFilter::All => "no actions yet — agents haven't called any tools",
            FeedFilter::GameOnly => "no game actions yet (f = show all)",
        };
        rows.push(row_of(msg, Paint::ink(Tone::DarkGray)));
        seqs.push(None);
        assert(numbered_rows(rows@, seqs@) =~= seq![empty_feed(filter)]);
    } else {
        assert(numbered_rows(rows@, seqs@).len() == rows@.len());
    }
    // Tail-anchored window over the visual rows.
    let ghost all_rows = rows@;
    let ghost all_seqs = seqs@;
    let end: usize = rows.len().saturating_sub(scroll);
    let start: usize = end.saturating_sub(inner_h);
    rows.truncate(end);
    seqs.truncate(end);
    let tail_rows = rows.split_off(start);
    let tail_seqs = seqs.split_off(start);
    assert(numbered_rows(tail_rows@, tail_seqs@) =~= window(
        numbered_rows(all_rows, all_seqs),
        inner_h as nat,
        scroll as nat,
    ));
    let mut title = "actions · ".to_owned();
    title.append(
        match filter {
            FeedFilter::All => "all",
            FeedFilter::GameOnly => "game-only",
        },
    );
    title.append(" · ");
    push_dec(&mut title, log.len() as u64);
    title.append(" total · click=expand f=filter ");
    title.append(if scroll == 0 { "·live" } else { "·scroll" });
    FeedPane { rows: tail_rows, seqs: tail_seqs, title }
}

// ---------------------------------------------------------------------------
// Laws
// ---------------------------------------------------------------------------

/// All pieces one after the other.
pub open spec fn glued(parts: Seq<Seq<char>>) -> Seq<char>
    decreases parts.len(),
{
    if parts.len() == 0 { seq![] } else { parts[0] + glued(parts.drop_first()) }
}

/// Cutting a text into rows loses nothing: the pieces one after the other are the text, and none
/// is wider than the row.
pub proof fn pieces_are_the_text(text: Seq<char>, width: nat)
    requires
        width > 0,
    ensures
        glued(pieces(text, width)) == text,
        forall|i: int|
            0 <= i < pieces(text, width).len() ==> (#[trigger] pieces(text, width)[i]).len() <= width,
    decreases text.len(),
{
    if text.len() == 0 {
        assert(glued(pieces(text, width)) =~= text);
    } else if text.len() <= width {
        let p = pieces(text, width);
        assert(p.drop_first() =~= seq![]);
        assert(glued(p.drop_first()) =~= seq![]);
        assert(glued(p) =~= text);
    } else {
        let head = text.take(width as int);
        let rest = text.skip(width as int);
        pieces_are_the_text(rest, width);
        let p = pieces(text, width);
        assert(p.drop_first() =~= pieces(rest, width));
        assert(glued(p) =~= head + rest);
        assert(head + rest =~= text);
        assert forall|i: int| 0 <= i < p.len() implies (#[trigger] p[i]).len() <= width by {
            if i > 0 {
                assert(p[i] == pieces(rest, width)[i - 1]);
            }
        }
    }
}

/// The feed is never higher than its pane.
pub proof fn feed_fits_its_pane(
    log: ActionLogView,
    area: Rect,
    filter: FeedFilter,
    scroll: usize,
    expanded: Seq<u64>,
)
    ensures
        feed_window(log, area, filter, scroll, expanded).len() <= feed_height(area),
{
}

} // verus!
