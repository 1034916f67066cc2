//! The stream of the selected agent.

use crate::harness::action_log::last_of;
use crate::harness::stream::{lines_view, LineKind, LogLine, LogLineView};
use crate::harness::tui::paint::{
    ink, one_span, put_row, row_of, row_view, rows_view, Paint, RowView, Span, Tone,
};
use crate::text::{
    chars_of, contains_text, dec, first_chars, has_text, lowered, numbered, string_of, to_lower,
    trim, trimmed,
};
use ratatui::widgets::{Paragraph, Wrap};
use vstd::prelude::*;
use vstd::slice::slice_subrange;
use vstd::string::*;

verus! {

/// The paint of a stream line.
pub open spec fn line_paint(l: LogLineView) -> Paint {
    match l.kind {
        LineKind::Text => ink(Tone::Plain),
        LineKind::Thought => ink(Tone::DarkGray),
        LineKind::Stderr => ink(Tone::Yellow),
        LineKind::System => if has_text(lowered(l.text), "error"@) {
            ink(Tone::Red)
        } else {
            ink(Tone::Cyan)
        },
    }
}

/// Colour a stream line by kind — no in-text tags. Errors show red.
pub fn styled_log_line(e: &LogLine) -> (row: Vec<Span>)
    ensures
        row_view(row@) == one_span(e@.text, line_paint(e@)),
{
    let paint = match e.kind {
        LineKind::Text => Paint::ink(Tone::Plain),
        LineKind::Thought => Paint::ink(Tone::DarkGray),
        LineKind::Stderr => Paint::ink(Tone::Yellow),
        LineKind::System => {
            if contains_text(to_lower(e.text.as_str()).as_str(), "error") {
                Paint::ink(Tone::Red)
            } else {
                Paint::ink(Tone::Cyan)
            }
        },
    };
    row_of(e.text.as_str(), paint)
}

/// How much of a hidden thought is shown.
pub const PREVIEW_CHARS: usize = 48;

/// A glimpse of a hidden thought.
pub open spec fn glimpse(preview: Seq<char>) -> Seq<char> {
    let t = trimmed(preview);
    if t.len() == 0 {
        ""@
    } else {
        " “"@ + first_chars(t, PREVIEW_CHARS as int) + (if t.len() > PREVIEW_CHARS {
            "…"@
        } else {
            ""@
        }) + "”"@
    }
}

/// The paint of a collapsed thought.
pub open spec fn faint() -> Paint {
    Paint { fg: Tone::DarkGray, bold: false, italic: true }
}

/// A collapsed-thinking summary.
pub open spec fn summary_row(n: nat, preview: Seq<char>) -> RowView {
    one_span(
        "· thinking… "@ + dec(n) + " line(s)"@ + glimpse(preview) + "  (h/click = show)"@,
        faint(),
    )
}

/// A collapsed-thinking summary line standing in for a run of hidden thought.
pub fn think_summary(n: usize, preview: &str) -> (row: Vec<Span>)
    ensures
        row_view(row@) == summary_row(n as nat, preview@),
{
    let t = trim(preview);
    let chars = chars_of(t.as_str());
    let mut s = numbered("· thinking… ", n as u64);
    s.append(" line(s)");
    let mut snip = "".to_owned();
    if chars.len() > 0 {
        let shown: usize = if chars.len() > PREVIEW_CHARS { PREVIEW_CHARS } else { chars.len() };
        snip = " “".to_owned();
        snip.append(string_of(&chars, 0, shown).as_str());
        assert(chars@.subrange(0, shown as int) =~= first_chars(t@, PREVIEW_CHARS as int));
        snip.append(if chars.len() > PREVIEW_CHARS { "…" } else { "" });
        snip.append("”");
    }
    s.append(snip.as_str());
    s.append("  (h/click = show)");
    row_of(s.as_str(), Paint { fg: Tone::DarkGray, bold: false, italic: true })
}

/// A stream while it is laid out: the rows, and the run of thought that is hidden so far.
pub struct LayoutView {
    pub rows: Seq<RowView>,
    pub hidden: nat,
    pub preview: Seq<char>,
}

/// The rows with the hidden run summed up.
pub open spec fn summed_up(l: LayoutView) -> Seq<RowView> {
    if l.hidden > 0 { l.rows.push(summary_row(l.hidden, l.preview)) } else { l.rows }
}

/// One more line laid out.
pub open spec fn laid_out(l: LayoutView, e: LogLineView, expand: bool) -> LayoutView {
    if e.kind is Thought && !expand {
        LayoutView {
            rows: l.rows,
            hidden: l.hidden + 1,
            preview: if l.preview.len() == 0 { e.text } else { l.preview },
        }
    } else {
        LayoutView {
            rows: summed_up(l).push(one_span(e.text, line_paint(e))),
            hidden: 0,
            preview: seq![],
        }
    }
}

/// All lines laid out.
pub open spec fn layout(entries: Seq<LogLineView>, expand: bool) -> LayoutView
    decreases entries.len(),
{
    if entries.len() == 0 {
        LayoutView { rows: seq![], hidden: 0, preview: seq![] }
    } else {
        laid_out(layout(entries.drop_last(), expand), entries.last(), expand)
    }
}

/// The rows of a stream.
pub open spec fn stream_rows(entries: Seq<LogLineView>, expand: bool) -> Seq<RowView> {
    summed_up(layout(entries, expand))
}

/// Turn the kinded log into styled display lines. When `expand` is false, runs of
/// `Thought` lines collapse to a one-line summary (default); otherwise they show
/// dimmed. Everything else streams verbatim, coloured by kind.
#[verifier::loop_isolation(false)]
pub fn stream_lines(entries: &[LogLine], expand: bool) -> (out: Vec<Vec<Span>>)
    ensures
        rows_view(out@) == stream_rows(lines_view(entries@), expand),
{
    let ghost all = lines_view(entries@);
    let mut out: Vec<Vec<Span>> = Vec::new();
    let mut think_n: usize = 0;
    let mut preview = String::new();
    let mut i: usize = 0;
    assert(rows_view(out@) =~= seq![]);
    while i < entries.len()
        invariant
            i <= entries@.len(),
            think_n <= i,
            ({
                let l = layout(all.take(i as int), expand);
                &&& l.rows == rows_view(out@)
                &&& l.hidden == think_n
                &&& l.preview == preview@
            }),
        decreases entries@.len() - i,
    {
        assert(all.take(i + 1).drop_last() =~= all.take(i as int));
        assert(all[i as int] == entries@[i as int]@);
        let e = &entries[i];
        if e.kind == LineKind::Thought && !expand {
            think_n += 1;
            if chars_of(preview.as_str()).len() == 0 {
                preview = e.text.clone();
            }
        } else {
            if think_n > 0 {
                put_row(&mut out, think_summary(think_n, preview.as_str()));
            }
            think_n = 0;
            preview = String::new();
            assert(preview@ =~= seq![]);
            put_row(&mut out, styled_log_line(e));
        }
        i += 1;
    }
    assert(all.take(i as int) =~= all);
    if think_n > 0 {
        put_row(&mut out, think_summary(think_n, preview.as_str()));
    }
    out
}

/// How many lines of a stream the pane looks back.
pub const LINES_SHOWN: usize = 600;

/// The rows of the pane: the latest lines of the stream.
pub fn agent_log_lines(log: &Vec<LogLine>, expand: bool) -> (out: Vec<Vec<Span>>)
    ensures
        rows_view(out@) == stream_rows(last_of(lines_view(log@), LINES_SHOWN), expand),
{
    let start: usize = log.len().saturating_sub(LINES_SHOWN);
    let tail = slice_subrange(log.as_slice(), start, log.len());
    assert(lines_view(tail@) =~= last_of(lines_view(log@), LINES_SHOWN));
    stream_lines(tail, expand)
}

/// How many rows `ratatui`'s `Paragraph` takes for a text when it wraps it, without trimming, at
/// this width.
pub uninterp spec fn wrapped_rows(text: Seq<char>, width: u16) -> usize;

/// The widest pane that text is wrapped for: the wrapper adds up to four widths of a line in 16
/// bits.
pub const WIDEST_PANE: u16 = 16383;

/// Calls `Paragraph::line_count` on the text, wrapped without trimming. Claimed: the count
/// depends on the text and the width alone. In wider panes its sums of widths could overflow.
#[verifier::external_body]
fn paragraph_rows(text: &str, width: u16) -> (n: usize)
    requires
        width <= WIDEST_PANE,
    ensures
        n == wrapped_rows(text@, width),
{
    Paragraph::new(text).wrap(Wrap { trim: false }).line_count(width)
}

/// Wrapped visual row count at `inner_w` — same unit as the renderer's scroll offset.
pub fn stream_wrapped_row_count(text: &str, inner_w: u16) -> (n: usize)
    requires
        inner_w <= WIDEST_PANE,
    ensures
        n == (if text@.len() == 0 || inner_w == 0 { 0 } else { wrapped_rows(text@, inner_w) }),
{
    if chars_of(text).len() == 0 || inner_w == 0 {
        return 0;
    }
    paragraph_rows(text, inner_w)
}

/// The offset that shows what is `from_bottom` rows above the tail.
pub open spec fn scroll_offset(rows: usize, view_h: usize, from_bottom: usize) -> int {
    let top = if rows > view_h { rows - view_h } else { 0 };
    if from_bottom >= top { 0 } else { top - from_bottom }
}

/// Vertical scroll offset that keeps the live tail (or an offset from it) in view.
/// `row_count` / `scroll_from_bottom` are in **wrapped visual rows**.
pub fn stream_scroll_y(row_count: usize, view_h: usize, scroll_from_bottom: usize) -> (y: usize)
    ensures
        y == scroll_offset(row_count, view_h, scroll_from_bottom),
{
    let max_scroll_top: usize = row_count.saturating_sub(view_h);
    let back: usize = if scroll_from_bottom < max_scroll_top {
        scroll_from_bottom
    } else {
        max_scroll_top
    };
    max_scroll_top.saturating_sub(back)
}

// ---------------------------------------------------------------------------
// Laws
// ---------------------------------------------------------------------------

/// With no scroll the last row is in view, and the view never starts beyond the rows.
pub proof fn live_tail_is_in_view(rows: usize, view_h: usize, from_bottom: usize)
    ensures
        scroll_offset(rows, view_h, 0) + view_h >= rows,
        0 <= scroll_offset(rows, view_h, from_bottom) <= rows,
        scroll_offset(rows, view_h, from_bottom) <= scroll_offset(rows, view_h, 0),
{
}

/// Expanded, nothing is hidden: there is one row per line.
pub proof fn expanded_streams_hide_nothing(entries: Seq<LogLineView>)
    ensures
        stream_rows(entries, true).len() == entries.len(),
        layout(entries, true).hidden == 0,
    decreases entries.len(),
{
    if entries.len() > 0 {
        expanded_streams_hide_nothing(entries.drop_last());
    }
}

/// Collapsed, every line that is no thought still shows, verbatim and in its colour.
pub proof fn actions_stay_visible(entries: Seq<LogLineView>, i: int)
    requires
        0 <= i < entries.len(),
        !(entries[i].kind is Thought),
    ensures
        stream_rows(entries, false).contains(one_span(entries[i].text, line_paint(entries[i]))),
    decreases entries.len(),
{
    let front = entries.drop_last();
    let row = one_span(entries[i].text, line_paint(entries[i]));
    let shown = stream_rows(entries, false);
    if i < front.len() {
        actions_stay_visible(front, i);
        let before = stream_rows(front, false);
        let k = before.index_of(row);
        let l = layout(front, false);
        if entries.last().kind is Thought {
            if k < l.rows.len() {
                assert(shown[k] == row);
            } else {
                // The row at the end is the summary of the run, which is italic.
                assert(before[k] == summary_row(l.hidden, l.preview));
                assert(before[k][0].paint == faint());
                assert(row[0].paint.italic == false);
            }
        } else {
            assert(shown[k] == row);
        }
    } else {
        assert(shown.last() == row);
    }
}

} // verus!
