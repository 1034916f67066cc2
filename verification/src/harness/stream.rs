//! What a headless agent prints: spend, session evidence and live display lines.

use crate::harness::action_log::last_of;
use crate::harness::agents::{capped_sum, format_token_count, short_count, TickUsage};
use crate::json::{opt_json, parse, parse_outcome, Json, JsonView};
use crate::text::{
    chars_of, dec, join, joined, numbered, split, split_is_not_empty, split_on, str_eq, texts,
    trim, trimmed,
};
use vstd::prelude::*;
use vstd::string::*;

verus! {

// ---------------------------------------------------------------------------
// Spend
// ---------------------------------------------------------------------------

/// A number as a count: what is below zero or no number counts nothing, a fraction is cut off.
pub open spec fn count_of(v: Option<JsonView>) -> u64 {
    match v {
        Some(JsonView::Int(n)) => if 0 <= n <= u64::MAX { n as u64 } else { 0 },
        Some(JsonView::Float { whole, .. }) => whole,
        _ => 0,
    }
}

fn read_count(v: Option<&Json>) -> (n: u64)
    ensures
        n == count_of(opt_json(v)),
{
    match v {
        Some(Json::Float { notation: _, whole }) => *whole,
        Some(x) => match x.as_u64() {
            Some(n) => n,
            None => 0,
        },
        None => 0,
    }
}

/// The low 32 bits.
pub open spec fn low_bits(n: u64) -> u32 {
    (n % 0x1_0000_0000) as u32
}

/// The spend that a result object reports: `usage`, with the total put together where it is left
/// out; nothing where it reports no spend at all.
pub open spec fn spend(v: JsonView) -> Option<TickUsage> {
    match v.field("usage"@) {
        None => None,
        Some(usage) => {
            let total = count_of(usage.field("total_tokens"@));
            let input = count_of(usage.field("input_tokens"@));
            let cache = count_of(usage.field("cache_read_input_tokens"@));
            let output = count_of(usage.field("output_tokens"@));
            let all = if total > 0 {
                total
            } else {
                capped_sum(capped_sum(input, cache), output)
            };
            if all == 0 && input == 0 && output == 0 {
                None
            } else {
                Some(
                    TickUsage {
                        input_tokens: input,
                        cache_read_input_tokens: cache,
                        output_tokens: output,
                        reasoning_tokens: count_of(usage.field("reasoning_tokens"@)),
                        total_tokens: all,
                        num_turns: match v.uint_at("num_turns"@) {
                            Some(n) => Some(low_bits(n)),
                            None => None,
                        },
                    },
                )
            }
        },
    }
}

/// Parse `usage` (+ optional `num_turns`) from a streaming-json `end` / result object.
pub fn parse_tick_usage(v: &Json) -> (r: Option<TickUsage>)
    ensures
        r == spend(v@),
{
    let usage = match v.get("usage") {
        Some(u) => u,
        None => return None,
    };
    let total = read_count(usage.get("total_tokens"));
    let input = read_count(usage.get("input_tokens"));
    let cache = read_count(usage.get("cache_read_input_tokens"));
    let output = read_count(usage.get("output_tokens"));
    let reasoning = read_count(usage.get("reasoning_tokens"));
    // Some payloads omit total_tokens — reconstruct.
    let total = if total > 0 {
        total
    } else {
        input.saturating_add(cache).saturating_add(output)
    };
    if total == 0 && input == 0 && output == 0 {
        return None;
    }
    let num_turns = match v.u64_at("num_turns") {
        Some(n) => Some((n % 0x1_0000_0000) as u32),
        None => None,
    };
    Some(
        TickUsage {
            input_tokens: input,
            cache_read_input_tokens: cache,
            output_tokens: output,
            reasoning_tokens: reasoning,
            total_tokens: total,
            num_turns,
        },
    )
}

/// The type of an event, empty where it names none.
pub open spec fn event_type(v: JsonView) -> Seq<char> {
    match v.text_at("type"@) {
        Some(t) => t,
        None => ""@,
    }
}

/// The spend that an event carries: `end` and result-shaped events do, others may hold a result.
pub open spec fn event_spend(v: JsonView) -> Option<TickUsage> {
    let ty = event_type(v);
    if ty == "end"@ || ty == "max_turns_reached"@ || ty == "result"@ || ty == ""@ {
        spend(v)
    } else {
        match v.field("result"@) {
            Some(inner) => spend(inner),
            None => None,
        }
    }
}

/// The spend that an event carries.
pub fn event_usage(v: &Json) -> (r: Option<TickUsage>)
    ensures
        r == event_spend(v@),
{
    let ty = match v.str_at("type") {
        Some(t) => t,
        None => "",
    };
    // `end` is the documented spend carrier; also accept a bare result-shaped line.
    if str_eq(ty, "end") || str_eq(ty, "max_turns_reached") || str_eq(ty, "result") || str_eq(
        ty,
        "",
    ) {
        return parse_tick_usage(v);
    }
    // Nested usage under some wrappers.
    match v.get("result") {
        Some(inner) => parse_tick_usage(inner),
        None => None,
    }
}

/// The event on a line, if there is one.
pub open spec fn event_on(line: Seq<char>) -> Option<JsonView> {
    let text = trimmed(line);
    if text.len() == 0 {
        None
    } else {
        match parse_outcome(text) {
            Ok(v) => Some(v),
            Err(_) => None,
        }
    }
}

/// The event on a line, if there is one.
fn read_event(line: &str) -> (r: Option<Json>)
    ensures
        match r {
            Some(v) => event_on(line@) == Some(v@),
            None => event_on(line@) is None,
        },
{
    let text = trim(line);
    if chars_of(text.as_str()).len() == 0 {
        return None;
    }
    match parse(text.as_str()) {
        Ok(v) => Some(v),
        Err(_) => None,
    }
}

/// Parse usage from one streaming-json stdout line (`type: end` preferred).
pub fn parse_stream_line_usage(line: &str) -> (r: Option<TickUsage>)
    ensures
        r == (match event_on(line@) {
            Some(v) => event_spend(v),
            None => None,
        }),
{
    match read_event(line) {
        Some(v) => event_usage(&v),
        None => None,
    }
}

/// The event shows that a session exists.
pub open spec fn shows_session(v: JsonView) -> bool {
    v.text_at("type"@) == Some("end"@) || v.text_at("type"@) == Some("max_turns_reached"@)
}

/// Whether an event means that a session was created or used.
///
/// `max_turns_reached` and `end` both mean the session is on disk and resumable,
/// even when the process exits non-zero.
pub fn event_establishes_session(v: &Json) -> (b: bool)
    ensures
        b == shows_session(v@),
{
    match v.str_at("type") {
        Some(t) => str_eq(t, "end") || str_eq(t, "max_turns_reached"),
        None => false,
    }
}

/// True if a streaming-json line means a session was created or used.
pub fn stream_line_establishes_session(line: &str) -> (b: bool)
    ensures
        b == (event_on(line@) matches Some(v) && shows_session(v)),
{
    match read_event(line) {
        Some(v) => event_establishes_session(&v),
        None => false,
    }
}

/// Context window fill from a session's signals (after a run).
#[derive(Debug, Clone, Copy, PartialEq, Eq, Structural)]
pub struct ContextWindow {
    pub tokens_used: u64,
    pub window_tokens: u64,
    /// Integer percent, 0–100.
    pub usage_pct: u32,
}

impl Default for ContextWindow {
    fn default() -> (c: ContextWindow)
        ensures
            c == (ContextWindow { tokens_used: 0, window_tokens: 0, usage_pct: 0 }),
    {
        ContextWindow { tokens_used: 0, window_tokens: 0, usage_pct: 0 }
    }
}

impl ContextWindow {
    pub open spec fn in_short(self) -> Seq<char> {
        "ctx "@ + dec(self.usage_pct as nat) + (if self.window_tokens > 0 {
            "% ("@ + short_count(self.tokens_used) + "/"@ + short_count(self.window_tokens) + ")"@
        } else {
            "%"@
        })
    }

    pub fn short(&self) -> (s: String)
        ensures
            s@ == self.in_short(),
    {
        let mut s = numbered("ctx ", self.usage_pct as u64);
        if self.window_tokens > 0 {
            let mut t = "% (".to_owned();
            t.append(format_token_count(self.tokens_used).as_str());
            t.append("/");
            t.append(format_token_count(self.window_tokens).as_str());
            t.append(")");
            s.append(t.as_str());
        } else {
            s.append("%");
        }
        s
    }
}

/// A count that has to be a whole number.
pub open spec fn whole_at(v: JsonView, key: Seq<char>) -> u64 {
    match v.uint_at(key) {
        Some(n) => n,
        None => 0,
    }
}

/// The context window that a signals object reports, if it reports any fill.
pub open spec fn window_in(v: JsonView) -> Option<ContextWindow> {
    let c = ContextWindow {
        tokens_used: whole_at(v, "contextTokensUsed"@),
        window_tokens: whole_at(v, "contextWindowTokens"@),
        usage_pct: low_bits(count_of(v.field("contextWindowUsage"@))),
    };
    if c.tokens_used == 0 && c.window_tokens == 0 && c.usage_pct == 0 {
        None
    } else {
        Some(c)
    }
}

/// The context window that a signals object reports.
pub fn context_in(v: &Json) -> (r: Option<ContextWindow>)
    ensures
        r == window_in(v@),
{
    let tokens_used = match v.u64_at("contextTokensUsed") {
        Some(n) => n,
        None => 0,
    };
    let window_tokens = match v.u64_at("contextWindowTokens") {
        Some(n) => n,
        None => 0,
    };
    let usage_pct = (read_count(v.get("contextWindowUsage")) % 0x1_0000_0000) as u32;
    if tokens_used == 0 && window_tokens == 0 && usage_pct == 0 {
        return None;
    }
    Some(ContextWindow { tokens_used, window_tokens, usage_pct })
}

/// Read context-window fill from the text of a session's `signals.json`.
pub fn read_session_context(signals: &str) -> (r: Option<ContextWindow>)
    ensures
        r == (match parse_outcome(signals@) {
            Ok(v) => window_in(v),
            Err(_) => None,
        }),
{
    match parse(signals) {
        Ok(v) => context_in(&v),
        Err(_) => None,
    }
}

/// Per-agent cumulative spend + latest context window for UI / ranking.
#[derive(Debug, Clone, Copy, PartialEq, Eq, Structural)]
pub struct AgentUsage {
    pub last_tick: Option<TickUsage>,
    /// Sum of the totals over the whole game.
    pub game_total: TickUsage,
    pub ticks_with_usage: u32,
    pub context: Option<ContextWindow>,
}

impl Default for AgentUsage {
    fn default() -> (u: AgentUsage)
        ensures
            u == (AgentUsage {
                last_tick: None,
                game_total: TickUsage::zero(),
                ticks_with_usage: 0,
                context: None,
            }),
    {
        AgentUsage {
            last_tick: None,
            game_total: TickUsage::default(),
            ticks_with_usage: 0,
            context: None,
        }
    }
}

impl AgentUsage {
    /// The usage after one more run.
    pub open spec fn after_tick(self, tick: TickUsage) -> AgentUsage {
        AgentUsage {
            last_tick: Some(tick),
            game_total: self.game_total.plus(tick),
            ticks_with_usage: if self.ticks_with_usage < u32::MAX {
                (self.ticks_with_usage + 1) as u32
            } else {
                self.ticks_with_usage
            },
            context: self.context,
        }
    }

    pub fn record_tick(&mut self, tick: TickUsage)
        ensures
            *final(self) == old(self).after_tick(tick),
    {
        self.game_total.accumulate(&tick);
        self.ticks_with_usage = self.ticks_with_usage.saturating_add(1);
        self.last_tick = Some(tick);
    }

    /// The parts of the board line.
    pub open spec fn board_parts(self) -> Seq<Seq<char>> {
        let total = if self.game_total.total_tokens > 0 {
            seq!["Σ"@ + short_count(self.game_total.total_tokens)]
        } else {
            seq![]
        };
        let last = match self.last_tick {
            Some(t) => if t.total_tokens > 0 {
                seq!["last "@ + short_count(t.total_tokens)]
            } else {
                seq![]
            },
            None => seq![],
        };
        let context = match self.context {
            Some(c) => seq![c.in_short()],
            None => seq![],
        };
        total + last + context
    }

    pub open spec fn board_line(self) -> Seq<char> {
        if self.board_parts().len() == 0 { "—"@ } else { joined(self.board_parts(), " · "@) }
    }

    /// Compact board line: `Σ48k · last 12k · ctx 7% (36k/512k)`.
    pub fn board_short(&self) -> (s: String)
        ensures
            s@ == self.board_line(),
    {
        let mut parts: Vec<String> = Vec::new();
        if self.game_total.total_tokens > 0 {
            let mut t = "Σ".to_owned();
            t.append(format_token_count(self.game_total.total_tokens).as_str());
            parts.push(t);
        }
        if let Some(t) = &self.last_tick {
            if t.total_tokens > 0 {
                let mut l = "last ".to_owned();
                l.append(format_token_count(t.total_tokens).as_str());
                parts.push(l);
            }
        }
        if let Some(c) = &self.context {
            parts.push(c.short());
        }
        assert(texts(parts@) =~= self.board_parts());
        if parts.len() == 0 {
            "—".to_owned()
        } else {
            join(&parts, " · ")
        }
    }
}

// ---------------------------------------------------------------------------
// Display lines
// ---------------------------------------------------------------------------

/// Kind of a stream line — used only for colouring the display (no in-text tags).
#[derive(Debug, Clone, Copy, PartialEq, Eq, Structural)]
pub enum LineKind {
    /// Model assistant text.
    Text,
    /// Model reasoning ("thinking").
    Thought,
    /// Child process stderr.
    Stderr,
    /// Harness / turn notices (turn end, errors).
    System,
}

/// One display line of an agent's stream (kinded for colour; grown live).
#[derive(Debug)]
pub struct LogLine {
    pub kind: LineKind,
    pub text: String,
    /// True once a newline closed the line (no further appends).
    pub closed: bool,
}

/// What a display line says.
pub struct LogLineView {
    pub kind: LineKind,
    pub text: Seq<char>,
    pub closed: bool,
}

impl View for LogLine {
    type V = LogLineView;

    open spec fn view(&self) -> LogLineView {
        LogLineView { kind: self.kind, text: self.text@, closed: self.closed }
    }
}

impl Clone for LogLine {
    fn clone(&self) -> (c: LogLine)
        ensures
            c@ == self@,
    {
        LogLine { kind: self.kind, text: self.text.clone(), closed: self.closed }
    }
}

/// What a stream says.
pub open spec fn lines_view(v: Seq<LogLine>) -> Seq<LogLineView> {
    v.map_values(|l: LogLine| l@)
}

/// How many lines of a stream are kept.
pub const STREAM_LOG_CAP: usize = 800;

/// The line is open for more of this kind.
pub open spec fn open_for(l: LogLineView, kind: LineKind) -> bool {
    l.kind == kind && !l.closed
}

/// The lines that an open line with this text becomes when `parts` arrive.
pub open spec fn grown(kind: LineKind, text: Seq<char>, parts: Seq<Seq<char>>) -> Seq<LogLineView> {
    Seq::new(
        parts.len(),
        |i: int|
            LogLineView {
                kind,
                text: if i == 0 { text + parts[0] } else { parts[i] },
                closed: i < parts.len() - 1,
            },
    )
}

/// The stream after a chunk: it extends the open line of its kind, or begins one, and breaks at
/// each newline.
pub open spec fn chunked(
    log: Seq<LogLineView>,
    kind: LineKind,
    data: Seq<char>,
) -> Seq<LogLineView> {
    let parts = split(data, '\n');
    if data.len() == 0 {
        log
    } else if log.len() > 0 && open_for(log.last(), kind) {
        last_of(log.drop_last() + grown(kind, log.last().text, parts), STREAM_LOG_CAP)
    } else {
        last_of(log + grown(kind, seq![], parts), STREAM_LOG_CAP)
    }
}

/// The stream with its last line closed.
pub open spec fn closed_off(log: Seq<LogLineView>) -> Seq<LogLineView> {
    if log.len() == 0 {
        log
    } else {
        log.update(log.len() - 1, LogLineView { closed: true, ..log.last() })
    }
}

/// The stream after a complete line.
pub open spec fn lined(log: Seq<LogLineView>, kind: LineKind, text: Seq<char>) -> Seq<LogLineView> {
    last_of(closed_off(log).push(LogLineView { kind, text, closed: true }), STREAM_LOG_CAP)
}

#[verifier::loop_isolation(false)]
fn cap_log(log: &mut Vec<LogLine>)
    ensures
        lines_view(final(log)@) == last_of(lines_view(old(log)@), STREAM_LOG_CAP),
{
    let ghost all = log@;
    let ghost mut gone: int = 0;
    assert(all.skip(0) =~= all);
    while log.len() > STREAM_LOG_CAP
        invariant
            0 <= gone <= all.len(),
            log@ == all.skip(gone),
            gone == 0 || all.len() - gone >= STREAM_LOG_CAP,
        decreases log@.len(),
    {
        log.remove(0);
        proof {
            gone = gone + 1;
            assert(log@ =~= all.skip(gone));
        }
    }
    assert(lines_view(log@) =~= last_of(lines_view(all), STREAM_LOG_CAP));
}

fn close_last(log: &mut Vec<LogLine>)
    ensures
        lines_view(final(log)@) == closed_off(lines_view(old(log)@)),
        final(log)@.len() == old(log)@.len(),
{
    let n = log.len();
    if n > 0 {
        let last = &mut log[n - 1];
        last.closed = true;
    }
    assert(lines_view(log@) =~= closed_off(lines_view(old(log)@)));
}

fn extend_last(log: &mut Vec<LogLine>, text: &str)
    requires
        old(log)@.len() > 0,
    ensures
        ({
            let was = lines_view(old(log)@);
            lines_view(final(log)@) == was.update(
                was.len() - 1,
                LogLineView { text: was.last().text + text@, ..was.last() },
            )
        }),
{
    let n = log.len();
    let last = &mut log[n - 1];
    last.text.append(text);
    proof {
        let was = lines_view(old(log)@);
        assert(lines_view(log@) =~= was.update(
            was.len() - 1,
            LogLineView { text: was.last().text + text@, ..was.last() },
        ));
    }
}

fn push_line(log: &mut Vec<LogLine>, kind: LineKind, text: &str, closed: bool)
    ensures
        lines_view(final(log)@) == lines_view(old(log)@).push(
            LogLineView { kind, text: text@, closed },
        ),
{
    log.push(LogLine { kind, text: text.to_owned(), closed });
    assert(lines_view(log@) =~= lines_view(old(log)@).push(
        LogLineView { kind, text: text@, closed },
    ));
}

/// Append a streaming chunk **live**: extend the current open line of the same
/// kind, breaking to a new line on `\n`. The visible tail updates on every chunk
/// (no buffering until a block ends), so the stream shows text as it arrives.
#[verifier::loop_isolation(false)]
pub fn append_chunk(log: &mut Vec<LogLine>, kind: LineKind, data: &str)
    ensures
        lines_view(final(log)@) == chunked(lines_view(old(log)@), kind, data@),
{
    if chars_of(data).len() == 0 {
        return;
    }
    let ghost was = lines_view(log@);
    let n = log.len();
    let cont = if n > 0 { log[n - 1].kind == kind && !log[n - 1].closed } else { false };
    assert(n > 0 ==> was.last() == log@[n - 1]@);
    let ghost kept = if cont { was.drop_last() } else { was };
    let ghost text = if cont { was.last().text } else { seq![] };
    if !cont {
        push_line(log, kind, "", false);
        proof {
            reveal_strlit("");
            assert(""@ =~= seq![]);
        }
    }
    let parts = split_on(data, '\n');
    let ghost all = texts(parts@);
    extend_last(log, parts[0].as_str());
    let mut i: usize = 1;
    assert(all[0] == parts@[0]@);
    assert(lines_view(log@) =~= kept + grown(kind, text, all.take(1)));
    while i < parts.len()
        invariant
            1 <= i <= parts@.len(),
            lines_view(log@) == kept + grown(kind, text, all.take(i as int)),
        decreases parts@.len() - i,
    {
        assert(all[i as int] == parts@[i as int]@);
        close_last(log);
        push_line(log, kind, parts[i].as_str(), false);
        proof {
            let before = kept + grown(kind, text, all.take(i as int));
            assert(lines_view(log@) =~= kept + grown(kind, text, all.take(i + 1)));
        }
        i += 1;
    }
    assert(all.take(i as int) =~= all);
    cap_log(log);
}

/// Push a complete standalone line (stderr line / system notice).
pub fn push_full_line(log: &mut Vec<LogLine>, kind: LineKind, text: String)
    ensures
        lines_view(final(log)@) == lined(lines_view(old(log)@), kind, text@),
{
    close_last(log);
    push_line(log, kind, text.as_str(), true);
    cap_log(log);
}

// ---------------------------------------------------------------------------
// Events
// ---------------------------------------------------------------------------

/// The text under a key, empty where there is none.
pub open spec fn text_or(v: JsonView, key: Seq<char>, other: Seq<char>) -> Seq<char> {
    match v.text_at(key) {
        Some(t) => t,
        None => other,
    }
}

/// A notice with the spend where there is one.
pub open spec fn spend_note(v: JsonView, what: Seq<char>, without: Seq<char>) -> Seq<char> {
    match spend(v) {
        Some(u) => "— "@ + what + " · "@ + short_count(u.total_tokens) + " tok —"@,
        None => without,
    }
}

/// The name in an event of some other type: a text under `name`, or under `tool` where there is
/// no `name`.
pub open spec fn event_name(v: JsonView) -> Option<Seq<char>> {
    match v.either("name"@, "tool"@) {
        Some(x) => x.text(),
        None => None,
    }
}

/// The stream after an event.
pub open spec fn evented(log: Seq<LogLineView>, v: JsonView) -> Seq<LogLineView> {
    match v.text_at("type"@) {
        None => log,
        Some(ty) => if ty == "text"@ {
            chunked(log, LineKind::Text, text_or(v, "data"@, ""@))
        } else if ty == "thought"@ {
            chunked(log, LineKind::Thought, text_or(v, "data"@, ""@))
        } else if ty == "end"@ {
            lined(log, LineKind::System, spend_note(v, "turn end"@, "— turn end —"@))
        } else if ty == "max_turns_reached"@ {
            lined(log, LineKind::System, spend_note(v, "max turns"@, "— max turns reached —"@))
        } else if ty == "error"@ {
            lined(log, LineKind::System, "error: "@ + text_or(v, "message"@, "?"@))
        } else {
            lined(
                log,
                LineKind::System,
                match event_name(v) {
                    Some(n) => "· "@ + ty + ": "@ + n,
                    None => "· "@ + ty,
                },
            )
        },
    }
}

/// The stream after a printed line: an event does what it says, any other text is shown as it is.
pub open spec fn streamed(log: Seq<LogLineView>, line: Seq<char>) -> Seq<LogLineView> {
    let text = trimmed(line);
    if text.len() == 0 {
        log
    } else {
        match parse_outcome(text) {
            Ok(v) => evented(log, v),
            Err(_) => lined(log, LineKind::Text, text),
        }
    }
}

fn note_spend(v: &Json, what: &str, without: &str) -> (s: String)
    ensures
        s@ == spend_note(v@, what@, without@),
{
    match parse_tick_usage(v) {
        Some(u) => {
            let mut s = "— ".to_owned();
            s.append(what);
            s.append(" · ");
            s.append(format_token_count(u.total_tokens).as_str());
            s.append(" tok —");
            s
        },
        None => without.to_owned(),
    }
}

/// Append what an event says to the stream.
pub fn apply_event(log: &mut Vec<LogLine>, v: &Json)
    ensures
        lines_view(final(log)@) == evented(lines_view(old(log)@), v@),
{
    let ty = match v.str_at("type") {
        Some(t) => t,
        None => return,
    };
    if str_eq(ty, "text") {
        append_chunk(
            log,
            LineKind::Text,
            match v.str_at("data") {
                Some(d) => d,
                None => "",
            },
        );
    } else if str_eq(ty, "thought") {
        append_chunk(
            log,
            LineKind::Thought,
            match v.str_at("data") {
                Some(d) => d,
                None => "",
            },
        );
    } else if str_eq(ty, "end") {
        push_full_line(log, LineKind::System, note_spend(v, "turn end", "— turn end —"));
    } else if str_eq(ty, "max_turns_reached") {
        push_full_line(
            log,
            LineKind::System,
            note_spend(v, "max turns", "— max turns reached —"),
        );
    } else if str_eq(ty, "error") {
        let mut s = "error: ".to_owned();
        match v.str_at("message") {
            Some(m) => s.append(m),
            None => s.append("?"),
        }
        push_full_line(log, LineKind::System, s);
    } else {
        // Surface other events (tool calls, etc.) compactly rather than dropping them.
        let name = match v.get_either("name", "tool") {
            Some(x) => x.as_str(),
            None => None,
        };
        let mut s = "· ".to_owned();
        s.append(ty);
        if let Some(n) = name {
            s.append(": ");
            s.append(n);
        }
        push_full_line(log, LineKind::System, s);
    }
}

/// Parse one `streaming-json` line and append it to `log` live.
pub fn apply_stream_event(log: &mut Vec<LogLine>, line: &str)
    ensures
        lines_view(final(log)@) == streamed(lines_view(old(log)@), line@),
{
    let text = trim(line);
    if chars_of(text.as_str()).len() == 0 {
        return;
    }
    match parse(text.as_str()) {
        Ok(v) => apply_event(log, &v),
        Err(_) => push_full_line(log, LineKind::Text, text),
    }
}

/// What a printed line of a run means beyond its display.
#[derive(Debug, Clone, Copy, PartialEq, Eq, Structural)]
pub struct LineNews {
    /// The session exists from here on.
    pub established: bool,
    /// The spend that the line reports.
    pub tick: Option<TickUsage>,
}

/// The usage after a line with this spend.
pub open spec fn usage_after(u: AgentUsage, tick: Option<TickUsage>) -> AgentUsage {
    match tick {
        Some(t) => u.after_tick(t),
        None => u,
    }
}

/// Take in one printed line of a run: count its spend, show it, and say whether it shows that the
/// session exists.
pub fn take_line(log: &mut Vec<LogLine>, usage: &mut AgentUsage, line: &str) -> (news: LineNews)
    ensures
        news.established == (event_on(line@) matches Some(v) && shows_session(v)),
        news.tick == (match event_on(line@) {
            Some(v) => event_spend(v),
            None => None,
        }),
        *final(usage) == usage_after(*old(usage), news.tick),
        lines_view(final(log)@) == streamed(lines_view(old(log)@), line@),
{
    let established = stream_line_establishes_session(line);
    let tick = parse_stream_line_usage(line);
    if let Some(t) = tick {
        usage.record_tick(t);
    }
    apply_stream_event(log, line);
    LineNews { established, tick }
}

// ---------------------------------------------------------------------------
// Laws
// ---------------------------------------------------------------------------

/// A stream is bounded, whatever arrives.
pub proof fn streams_are_bounded(log: Seq<LogLineView>, v: JsonView, line: Seq<char>)
    requires
        log.len() <= STREAM_LOG_CAP,
    ensures
        evented(log, v).len() <= STREAM_LOG_CAP,
        streamed(log, line).len() <= STREAM_LOG_CAP,
{
}

/// The lines before the cap is applied.
spec fn uncapped(log: Seq<LogLineView>, kind: LineKind, data: Seq<char>) -> Seq<LogLineView> {
    let parts = split(data, '\n');
    if log.len() > 0 && open_for(log.last(), kind) {
        log.drop_last() + grown(kind, log.last().text, parts)
    } else {
        log + grown(kind, seq![], parts)
    }
}

/// The parts of two texts in a row: the last part of the first runs on into the first part of the
/// second.
proof fn split_runs_on(a: Seq<char>, b: Seq<char>)
    ensures
        ({
            let x = split(a, '\n');
            let y = split(b, '\n');
            split(a + b, '\n') == x.drop_last().push(x.last() + y[0]) + y.drop_first()
        }),
    decreases b.len(),
{
    let x = split(a, '\n');
    let y = split(b, '\n');
    split_is_not_empty(a, '\n');
    split_is_not_empty(b, '\n');
    if b.len() == 0 {
        assert(a + b =~= a);
        assert(x.last() + y[0] =~= x.last());
        assert(x =~= x.drop_last().push(x.last() + y[0]) + y.drop_first());
    } else {
        let front = b.drop_last();
        let z = split(front, '\n');
        split_is_not_empty(front, '\n');
        split_runs_on(a, front);
        assert((a + b).drop_last() =~= a + front);
        let whole = split(a + front, '\n');
        if b.last() == '\n' {
            assert(split(a + b, '\n') =~= x.drop_last().push(x.last() + y[0]) + y.drop_first());
        } else {
            assert((x.last() + z[0]).push(b.last()) =~= x.last() + z[0].push(b.last()));
            assert(split(a + b, '\n') =~= x.drop_last().push(x.last() + y[0]) + y.drop_first());
        }
    }
}

proof fn uncapped_chunks_coalesce(
    log: Seq<LogLineView>,
    kind: LineKind,
    a: Seq<char>,
    b: Seq<char>,
)
    ensures
        uncapped(uncapped(log, kind, a), kind, b) == uncapped(log, kind, a + b),
        uncapped(log, kind, a).len() > 0,
        open_for(uncapped(log, kind, a).last(), kind),
{
    let x = split(a, '\n');
    let y = split(b, '\n');
    split_is_not_empty(a, '\n');
    split_is_not_empty(b, '\n');
    split_runs_on(a, b);
    let open = log.len() > 0 && open_for(log.last(), kind);
    let kept = if open { log.drop_last() } else { log };
    let text = if open { log.last().text } else { seq![] };
    let one = uncapped(log, kind, a);
    let first = grown(kind, text, x);
    assert(one == kept + first);
    assert(one.last() == first.last());
    assert(one.drop_last() =~= kept + first.drop_last());
    let joined_parts = split(a + b, '\n');
    let both = grown(kind, text, joined_parts);
    let second = grown(kind, first.last().text, y);
    assert(first.drop_last() + second =~= both) by {
        assert(joined_parts.len() == x.len() + y.len() - 1);
        assert forall|i: int| 0 <= i < both.len() implies both[i] == (first.drop_last()
            + second)[i] by {
            if i < x.len() - 1 {
                assert(joined_parts[i] == x[i]);
            } else if i == x.len() - 1 {
                assert(joined_parts[i] == x.last() + y[0]);
                if i == 0 {
                    assert(text + (x[0] + y[0]) =~= (text + x[0]) + y[0]);
                }
            } else {
                assert(joined_parts[i] == y[i - x.len() + 1]);
            }
        }
    }
    assert(uncapped(one, kind, b) =~= kept + both);
}

proof fn capping_first_changes_nothing(log: Seq<LogLineView>, kind: LineKind, data: Seq<char>)
    requires
        log.len() > 0,
        open_for(log.last(), kind),
    ensures
        last_of(uncapped(last_of(log, STREAM_LOG_CAP), kind, data), STREAM_LOG_CAP) == last_of(
            uncapped(log, kind, data),
            STREAM_LOG_CAP,
        ),
{
    split_is_not_empty(data, '\n');
    let kept = last_of(log, STREAM_LOG_CAP);
    assert(kept.last() == log.last());
    assert(last_of(uncapped(kept, kind, data), STREAM_LOG_CAP) =~= last_of(
        uncapped(log, kind, data),
        STREAM_LOG_CAP,
    ));
}

/// Chunks coalesce: two of a kind in a row leave the stream exactly as if they had arrived in one
/// piece, and an empty one leaves it as it is.
pub proof fn chunks_coalesce(log: Seq<LogLineView>, kind: LineKind, a: Seq<char>, b: Seq<char>)
    requires
        log.len() <= STREAM_LOG_CAP,
    ensures
        chunked(chunked(log, kind, a), kind, b) == chunked(log, kind, a + b),
        chunked(log, kind, seq![]) == log,
{
    if a.len() == 0 {
        assert(a + b =~= b);
    } else if b.len() == 0 {
        assert(a + b =~= a);
    } else {
        uncapped_chunks_coalesce(log, kind, a, b);
        let one = uncapped(log, kind, a);
        let kept = last_of(one, STREAM_LOG_CAP);
        assert(kept.last() == one.last());
        capping_first_changes_nothing(one, kind, b);
    }
}

/// The oldest lines go first: what a chunk leaves is the end of what it would leave without a
/// limit, and all of that where it fits.
pub proof fn only_the_oldest_lines_go(log: Seq<LogLineView>, kind: LineKind, data: Seq<char>)
    requires
        log.len() <= STREAM_LOG_CAP,
        data.len() > 0,
    ensures
        ({
            let open = log.len() > 0 && open_for(log.last(), kind);
            let kept = if open { log.drop_last() } else { log };
            let text = if open { log.last().text } else { seq![] };
            let all = kept + grown(kind, text, split(data, '\n'));
            let after = chunked(log, kind, data);
            &&& after.len() == if all.len() <= STREAM_LOG_CAP { all.len() } else {
                STREAM_LOG_CAP as nat
            }
            &&& after == all.skip(all.len() - after.len())
        }),
{
    let open = log.len() > 0 && open_for(log.last(), kind);
    let kept = if open { log.drop_last() } else { log };
    let text = if open { log.last().text } else { seq![] };
    let all = kept + grown(kind, text, split(data, '\n'));
    assert(all.skip(0) =~= all);
}

/// The spend of a game never shrinks, and each run adds its total to it.
pub proof fn spend_only_grows(u: AgentUsage, tick: TickUsage)
    ensures
        u.after_tick(tick).game_total.total_tokens >= u.game_total.total_tokens,
        u.game_total.total_tokens + tick.total_tokens <= u64::MAX ==> u.after_tick(
            tick,
        ).game_total.total_tokens == u.game_total.total_tokens + tick.total_tokens,
{
}

} // verus!
