//! Central action feed: every agent tool call that reaches the shared engine.
//!
//! All proxies funnel through one dispatcher, so recording there gives one authoritative,
//! chronological view of what every agent is *doing* (not just thinking) — including failed
//! and read-only calls. The monitor renders this feed and highlights game-affecting actions.

use crate::auth::last_under;
use crate::comms::{copy_opt_text, opt_text};
use crate::harness::summary::{one_line, to_one_line};
use crate::json::{items_view, json_text, meaning, object_view, print, Json, JsonView};
use crate::text::{
    chars_of, dec, join, joined, numbered, str_eq, string_of, texts, trim, trimmed,
};
use std::collections::VecDeque;
use vstd::prelude::*;
use vstd::string::*;

verus! {

/// How prominently to show an action.
#[derive(Debug, Clone, Copy, PartialEq, Eq, Structural)]
pub enum ActionKind {
    /// Changes or advances the game (say/nominate/vote/night_action/host moves).
    Game,
    /// Read-only inspection (get_*_state, list_*, rules).
    Info,
    /// Anything else (setup, unknown).
    Meta,
}

/// Which agent issued an action (for labels + per-agent colour).
#[derive(Debug)]
pub struct ActorLabel {
    pub name: String,
    pub seat: Option<u8>,
    pub is_host: bool,
}

/// What an actor label says.
pub struct ActorLabelView {
    pub name: Seq<char>,
    pub seat: Option<u8>,
    pub is_host: bool,
}

impl View for ActorLabel {
    type V = ActorLabelView;

    open spec fn view(&self) -> ActorLabelView {
        ActorLabelView { name: self.name@, seat: self.seat, is_host: self.is_host }
    }
}

impl Clone for ActorLabel {
    fn clone(&self) -> (c: ActorLabel)
        ensures
            c@ == self@,
    {
        ActorLabel { name: self.name.clone(), seat: self.seat, is_host: self.is_host }
    }
}

/// One recorded action.
#[derive(Debug)]
pub struct ActionEntry {
    pub seq: u64,
    /// Seconds since the log started (monotonic; for "12s ago"-style display).
    pub secs: u64,
    pub actor: ActorLabel,
    pub tool: String,
    /// Human summary of the salient args (e.g. `→P1 YES`, or the full `say` text).
    /// May be long; the monitor truncates when collapsed and shows the full string when expanded.
    pub summary: String,
    pub kind: ActionKind,
    pub ok: bool,
    pub error: Option<String>,
    /// Full argument JSON (token redacted, char-capped) for expanded display.
    pub args: String,
    /// Result preview on success (char-capped) for expanded display.
    pub result: Option<String>,
}

/// What a recorded action says.
pub struct ActionEntryView {
    pub seq: u64,
    pub secs: u64,
    pub actor: ActorLabelView,
    pub tool: Seq<char>,
    pub summary: Seq<char>,
    pub kind: ActionKind,
    pub ok: bool,
    pub error: Option<Seq<char>>,
    pub args: Seq<char>,
    pub result: Option<Seq<char>>,
}

impl View for ActionEntry {
    type V = ActionEntryView;

    open spec fn view(&self) -> ActionEntryView {
        ActionEntryView {
            seq: self.seq,
            secs: self.secs,
            actor: self.actor@,
            tool: self.tool@,
            summary: self.summary@,
            kind: self.kind,
            ok: self.ok,
            error: opt_text(self.error),
            args: self.args@,
            result: opt_text(self.result),
        }
    }
}

impl Clone for ActionEntry {
    fn clone(&self) -> (c: ActionEntry)
        ensures
            c@ == self@,
    {
        ActionEntry {
            seq: self.seq,
            secs: self.secs,
            actor: self.actor.clone(),
            tool: self.tool.clone(),
            summary: self.summary.clone(),
            kind: self.kind,
            ok: self.ok,
            error: copy_opt_text(&self.error),
            args: self.args.clone(),
            result: copy_opt_text(&self.result),
        }
    }
}

// ---------------------------------------------------------------------------
// Texts
// ---------------------------------------------------------------------------

/// At most `max` characters; a cut text ends in `…`.
pub open spec fn clipped(s: Seq<char>, max: usize) -> Seq<char> {
    if s.len() <= max {
        s
    } else {
        s.take(if max == 0 { 0 } else { max - 1 }) + "…"@
    }
}

/// Truncation by characters, safe for any text.
pub fn clip_chars(s: &str, max: usize) -> (r: String)
    ensures
        r@ == clipped(s@, max),
{
    let chars = chars_of(s);
    if chars.len() <= max {
        return s.to_owned();
    }
    let keep: usize = if max == 0 { 0 } else { max - 1 };
    let mut cut = string_of(&chars, 0, keep);
    cut.append("…");
    assert(s@.subrange(0, keep as int) =~= s@.take(keep as int));
    cut
}

/// A key that carries a secret.
pub open spec fn secret_key(key: Seq<char>) -> bool {
    key == "token"@ || key == "host_token"@ || key == "player_token"@
}

/// A field as it may be shown.
pub open spec fn redacted_field() -> spec_fn((Seq<char>, JsonView)) -> (Seq<char>, JsonView) {
    |e: (Seq<char>, JsonView)|
        if secret_key(e.0) {
            (e.0, JsonView::Str("<redacted>"@))
        } else {
            e
        }
}

/// The arguments with the auth tokens blotted out.
pub open spec fn redacted(args: JsonView) -> JsonView {
    match args {
        JsonView::Obj(fields) => JsonView::Obj(fields.map_values(redacted_field())),
        _ => args,
    }
}

/// Longest arguments and results that are kept.
pub const ARGS_SHOWN: usize = 2000;

pub const RESULT_SHOWN: usize = 600;

/// The arguments as they are shown.
pub open spec fn shown_args(args: JsonView) -> Seq<char> {
    clipped(json_text(redacted(args)), ARGS_SHOWN)
}

fn is_secret_key(key: &str) -> (b: bool)
    ensures
        b == secret_key(key@),
{
    str_eq(key, "token") || str_eq(key, "host_token") || str_eq(key, "player_token")
}

/// The arguments with the auth tokens blotted out.
#[verifier::loop_isolation(false)]
fn redact(args: &Json) -> (j: Json)
    ensures
        j@ == redacted(args@),
{
    match args {
        Json::Obj(fields) => {
            let mut out: Vec<(String, Json)> = Vec::new();
            let mut i: usize = 0;
            while i < fields.len()
                invariant
                    i <= fields@.len(),
                    out@.len() == i,
                    forall|k: int|
                        0 <= k < i ==> ((#[trigger] out@[k]).0@, meaning(out@[k].1))
                            == redacted_field()((fields@[k].0@, meaning(fields@[k].1))),
                decreases fields@.len() - i,
            {
                let key = fields[i].0.clone();
                let value = if is_secret_key(key.as_str()) {
                    Json::text("<redacted>")
                } else {
                    fields[i].1.clone()
                };
                out.push((key, value));
                i += 1;
            }
            proof {
                object_view(*fields);
                object_view(out);
                assert(crate::json::fields_view(out@) =~= crate::json::fields_view(
                    fields@,
                ).map_values(redacted_field()));
            }
            Json::Obj(out)
        },
        _ => args.clone(),
    }
}

/// Full args as one JSON line with the auth token redacted (it must never render
/// in the monitor — streams/feeds may be screenshotted).
fn args_for_display(args: &Json) -> (s: String)
    ensures
        s@ == shown_args(args@),
{
    clip_chars(print(&redact(args)).as_str(), ARGS_SHOWN)
}

/// Display prominence of a tool.
pub open spec fn kind_of_tool(tool: Seq<char>) -> ActionKind {
    if tool == "say"@ || tool == "st_announce"@ || tool == "night_action"@ || tool == "day_action"@
        || tool == "nominate"@ || tool == "vote"@ || tool == "pass_vote"@ || tool
        == "open_nominations"@ || tool == "close_vote"@ || tool == "end_nominations"@ || tool
        == "skip_night_action"@ || tool == "host_decide"@ || tool == "host_queue_lie"@ || tool
        == "start_game"@ {
        ActionKind::Game
    } else if tool == "get_public_state"@ || tool == "get_public_log"@ || tool
        == "get_private_state"@ || tool == "get_host_state"@ || tool == "get_character_rules"@
        || tool == "list_characters"@ || tool == "list_rules_topics"@ || tool
        == "get_rules_topic"@ {
        ActionKind::Info
    } else {
        ActionKind::Meta
    }
}

/// Classify a tool for display prominence.
pub fn classify(tool: &str) -> (k: ActionKind)
    ensures
        k == kind_of_tool(tool@),
{
    if str_eq(tool, "say") || str_eq(tool, "st_announce") || str_eq(tool, "night_action") || str_eq(
        tool,
        "day_action",
    ) || str_eq(tool, "nominate") || str_eq(tool, "vote") || str_eq(tool, "pass_vote") || str_eq(
        tool,
        "open_nominations",
    ) || str_eq(tool, "close_vote") || str_eq(tool, "end_nominations") || str_eq(
        tool,
        "skip_night_action",
    ) || str_eq(tool, "host_decide") || str_eq(tool, "host_queue_lie") || str_eq(
        tool,
        "start_game",
    ) {
        ActionKind::Game
    } else if str_eq(tool, "get_public_state") || str_eq(tool, "get_public_log") || str_eq(
        tool,
        "get_private_state",
    ) || str_eq(tool, "get_host_state") || str_eq(tool, "get_character_rules") || str_eq(
        tool,
        "list_characters",
    ) || str_eq(tool, "list_rules_topics") || str_eq(tool, "get_rules_topic") {
        ActionKind::Info
    } else {
        ActionKind::Meta
    }
}

/// `P{n}` for a seat-number value.
pub open spec fn seat_named(v: Option<JsonView>) -> Option<Seq<char>> {
    match v {
        Some(x) => match x.uint() {
            Some(n) => Some("P"@ + dec(n as nat)),
            None => None,
        },
        None => None,
    }
}

/// Seat names of the seat numbers in a list.
pub open spec fn seats_named(items: Seq<JsonView>) -> Seq<Seq<char>>
    decreases items.len(),
{
    if items.len() == 0 {
        seq![]
    } else {
        let front = seats_named(items.drop_last());
        match seat_named(Some(items.last())) {
            Some(s) => front.push(s),
            None => front,
        }
    }
}

/// The payload object of a call, or its arguments where there is none.
pub open spec fn payload_in(args: JsonView) -> JsonView {
    match args.field("payload"@) {
        Some(p) => p,
        None => args,
    }
}

/// An optional text, or nothing.
pub open spec fn or_empty(t: Option<Seq<char>>) -> Seq<char> {
    match t {
        Some(s) => s,
        None => ""@,
    }
}

/// The salient arguments of a call.
pub open spec fn summary_of(tool: Seq<char>, args: JsonView) -> Seq<char> {
    let payload = payload_in(args);
    if tool == "say"@ || tool == "st_announce"@ {
        let spoken = "“"@ + (match args.text_at("text"@) {
            Some(t) => one_line(t),
            None => ""@,
        }) + "”"@;
        match seat_named(args.field("to"@)) {
            Some(to) => if tool == "say"@ { "→"@ + to + " "@ + spoken } else { spoken },
            None => spoken,
        }
    } else if tool == "nominate"@ {
        match seat_named(args.field("target"@)) {
            Some(s) => "→"@ + s,
            None => ""@,
        }
    } else if tool == "vote"@ {
        let yes = args.field("support"@) matches Some(v) && v.truth() == Some(true);
        "→"@ + or_empty(seat_named(args.either("nominee"@, "target"@))) + " "@ + (if yes {
            "YES"@
        } else {
            "no"@
        })
    } else if tool == "pass_vote"@ {
        "abstain"@
    } else if tool == "day_action"@ {
        let target = match payload.field("target"@) {
            Some(t) => Some(t),
            None => args.field("target"@),
        };
        match seat_named(target) {
            Some(s) => "slay →"@ + s,
            None => "slay"@,
        }
    } else if tool == "night_action"@ {
        let a = seat_named(payload.either("target_a"@, "a"@));
        let b = seat_named(payload.either("target_b"@, "b"@));
        match seat_named(payload.field("target"@)) {
            Some(t) => t,
            None => if a is Some && b is Some {
                a->0 + ","@ + b->0
            } else {
                match payload.items_at("targets"@) {
                    Some(items) => joined(seats_named(items), ","@),
                    None => ""@,
                }
            },
        }
    } else if tool == "host_decide"@ {
        let choice = match args.either("decision"@, "choice"@) {
            Some(v) => or_empty(v.text()),
            None => ""@,
        };
        let target = match seat_named(args.either("target"@, "seat"@)) {
            Some(s) => " →"@ + s,
            None => ""@,
        };
        trimmed(choice + target)
    } else {
        ""@
    }
}

/// `P{n}` for a seat-number value, else `None`.
fn seatp(v: Option<&Json>) -> (r: Option<String>)
    ensures
        opt_text(r) == seat_named(crate::json::opt_json(v)),
{
    match v {
        Some(x) => match x.as_u64() {
            Some(n) => Some(numbered("P", n)),
            None => None,
        },
        None => None,
    }
}

#[verifier::loop_isolation(false)]
fn list_seats(items: &Vec<Json>) -> (v: Vec<String>)
    ensures
        texts(v@) == seats_named(items_view(items@)),
{
    let ghost all = items_view(items@);
    let mut v: Vec<String> = Vec::new();
    let mut i: usize = 0;
    assert(texts(v@) =~= seats_named(all.take(0)));
    while i < items.len()
        invariant
            i <= items@.len(),
            texts(v@) == seats_named(all.take(i as int)),
        decreases items@.len() - i,
    {
        let ghost before = v@;
        assert(all.take(i + 1).drop_last() =~= all.take(i as int));
        assert(all[i as int] == items@[i as int]@);
        if let Some(s) = seatp(Some(&items[i])) {
            v.push(s);
            assert(texts(v@) =~= texts(before).push(s@));
        }
        i += 1;
    }
    assert(all.take(i as int) =~= all);
    v
}

fn arrow(s: Option<String>, prefix: &str, otherwise: &str) -> (r: String)
    ensures
        r@ == (match s {
            Some(t) => prefix@ + t@,
            None => otherwise@,
        }),
{
    match s {
        Some(t) => {
            let mut r = prefix.to_owned();
            r.append(t.as_str());
            r
        },
        None => otherwise.to_owned(),
    }
}

fn payload_of_call(args: &Json) -> (p: &Json)
    ensures
        p@ == payload_in(args@),
{
    match args.get("payload") {
        Some(p) => p,
        None => args,
    }
}

fn summarize_speech(tool: &str, args: &Json) -> (r: String)
    requires
        tool@ == "say"@ || tool@ == "st_announce"@,
    ensures
        r@ == summary_of(tool@, args@),
{
    let text = match args.str_at("text") {
        Some(t) => to_one_line(t),
        None => "".to_owned(),
    };
    let mut r = "".to_owned();
    if str_eq(tool, "say") {
        if let Some(to) = seatp(args.get("to")) {
            r.append("→");
            r.append(to.as_str());
            r.append(" ");
        }
    }
    let ghost lead = r@;
    let mut spoken = "“".to_owned();
    spoken.append(text.as_str());
    spoken.append("”");
    r.append(spoken.as_str());
    proof {
        reveal_strlit("");
        assert(""@ =~= seq![]);
        assert(""@ + spoken@ =~= spoken@);
        if lead.len() > 0 {
            assert(""@ + "→"@ =~= "→"@);
        }
    }
    r
}

fn summarize_night_action(payload: &Json) -> (r: String)
    ensures
        forall|args: JsonView|
            payload_in(args) == payload@ ==> r@ == #[trigger] summary_of("night_action"@, args),
{
    proof {
        reveal_strlit("night_action");
        reveal_strlit("say");
        reveal_strlit("st_announce");
        reveal_strlit("nominate");
        reveal_strlit("vote");
        reveal_strlit("pass_vote");
        reveal_strlit("day_action");
        assert("night_action"@.len() == 12);
        assert("st_announce"@.len() == 11);
        assert("day_action"@.len() == 10);
        assert("pass_vote"@.len() == 9);
    }
    if let Some(t) = seatp(payload.get("target")) {
        return t;
    }
    let a = seatp(payload.get_either("target_a", "a"));
    let b = seatp(payload.get_either("target_b", "b"));
    if let (Some(a), Some(b)) = (a, b) {
        let mut r = a;
        r.append(",");
        r.append(b.as_str());
        return r;
    }
    match payload.array_at("targets") {
        Some(items) => join(&list_seats(items), ","),
        None => "".to_owned(),
    }
}

/// Readable summary of the salient args for a tool call.
///
/// For `say` / `st_announce` this is the **full** spoken text (quoted) — never
/// truncated here; the feed always shows it complete (wrapping if needed).
pub fn summarize(tool: &str, args: &Json) -> (r: String)
    ensures
        r@ == summary_of(tool@, args@),
{
    if str_eq(tool, "say") || str_eq(tool, "st_announce") {
        summarize_speech(tool, args)
    } else if str_eq(tool, "nominate") {
        arrow(seatp(args.get("target")), "→", "")
    } else if str_eq(tool, "vote") {
        let yes = match args.get("support") {
            Some(v) => match v.as_bool() {
                Some(b) => b,
                None => false,
            },
            None => false,
        };
        let mut r = "→".to_owned();
        match seatp(args.get_either("nominee", "target")) {
            Some(who) => r.append(who.as_str()),
            None => r.append(""),
        }
        r.append(" ");
        r.append(if yes { "YES" } else { "no" });
        r
    } else if str_eq(tool, "pass_vote") {
        "abstain".to_owned()
    } else if str_eq(tool, "day_action") {
        let target = match payload_of_call(args).get("target") {
            Some(t) => Some(t),
            None => args.get("target"),
        };
        arrow(seatp(target), "slay →", "slay")
    } else if str_eq(tool, "night_action") {
        summarize_night_action(payload_of_call(args))
    } else if str_eq(tool, "host_decide") {
        let mut r = match args.get_either("decision", "choice") {
            Some(v) => match v.as_str() {
                Some(s) => s.to_owned(),
                None => "".to_owned(),
            },
            None => "".to_owned(),
        };
        r.append(arrow(seatp(args.get_either("target", "seat")), " →", "").as_str());
        trim(r.as_str())
    } else {
        "".to_owned()
    }
}

// ---------------------------------------------------------------------------
// The log
// ---------------------------------------------------------------------------

/// Bounded ring buffer of agent actions.
pub struct ActionLog {
    entries: VecDeque<ActionEntry>,
    seq: u64,
    /// token string -> actor label, set once at launch.
    labels: Vec<(String, ActorLabel)>,
    cap: usize,
}

/// What the log holds.
pub struct ActionLogView {
    pub entries: Seq<ActionEntryView>,
    pub seq: u64,
    pub labels: Seq<(Seq<char>, ActorLabelView)>,
    pub cap: usize,
}

/// What a list of recorded actions says.
pub open spec fn entries_view(v: Seq<ActionEntry>) -> Seq<ActionEntryView> {
    v.map_values(|e: ActionEntry| e@)
}

/// What a table of labels says.
pub open spec fn labels_view(v: Seq<(String, ActorLabel)>) -> Seq<(Seq<char>, ActorLabelView)> {
    v.map_values(|e: (String, ActorLabel)| (e.0@, e.1@))
}

impl View for ActionLog {
    type V = ActionLogView;

    closed spec fn view(&self) -> ActionLogView {
        ActionLogView {
            entries: entries_view(self.entries@),
            seq: self.seq,
            labels: labels_view(self.labels@),
            cap: self.cap,
        }
    }
}

/// The last `n` items.
pub open spec fn last_of<T>(s: Seq<T>, n: usize) -> Seq<T> {
    if s.len() <= n { s } else { s.skip(s.len() - n) }
}

/// The label of somebody unknown.
pub open spec fn unknown_actor() -> ActorLabelView {
    ActorLabelView { name: "?"@, seat: None, is_host: false }
}

impl ActionLogView {
    /// Who presents this token.
    pub open spec fn actor(self, token: Option<Seq<char>>) -> ActorLabelView {
        match token {
            Some(t) => match last_under(self.labels, t) {
                Some(l) => l,
                None => unknown_actor(),
            },
            None => unknown_actor(),
        }
    }

    /// The log after one more call: it comes last, and only the latest `cap` stay.
    pub open spec fn recorded(
        self,
        secs: u64,
        token: Option<Seq<char>>,
        tool: Seq<char>,
        args: JsonView,
        ok: bool,
        error: Option<Seq<char>>,
        result: Option<Seq<char>>,
    ) -> ActionLogView {
        let seq = if self.seq < u64::MAX { (self.seq + 1) as u64 } else { self.seq };
        let entry = ActionEntryView {
            seq,
            secs,
            actor: self.actor(token),
            tool,
            summary: summary_of(tool, args),
            kind: kind_of_tool(tool),
            ok,
            error,
            args: shown_args(args),
            result: match result {
                Some(r) => Some(clipped(r, RESULT_SHOWN)),
                None => None,
            },
        };
        ActionLogView { entries: last_of(self.entries.push(entry), self.cap), seq, ..self }
    }
}

impl Default for ActionLog {
    fn default() -> (l: ActionLog)
        ensures
            l@ == (ActionLogView { entries: seq![], seq: 0, labels: seq![], cap: 2000 }),
    {
        ActionLog::new(2000)
    }
}

impl ActionLog {
    pub fn new(cap: usize) -> (l: ActionLog)
        ensures
            l@ == (ActionLogView { entries: seq![], seq: 0, labels: seq![], cap }),
    {
        let l = ActionLog { entries: VecDeque::new(), seq: 0, labels: Vec::new(), cap };
        assert(l@.entries =~= seq![]);
        assert(l@.labels =~= seq![]);
        l
    }

    /// Register token -> actor labels (called once, after the game is created).
    pub fn set_labels(&mut self, labels: Vec<(String, ActorLabel)>)
        ensures
            final(self)@ == (ActionLogView { labels: labels_view(labels@), ..old(self)@ }),
    {
        self.labels = labels;
    }

    #[verifier::loop_isolation(false)]
    fn label_of(&self, token: Option<&str>) -> (l: ActorLabel)
        ensures
            l@ == self@.actor(
                match token {
                    Some(t) => Some(t@),
                    None => None,
                },
            ),
    {
        if let Some(t) = token {
            let ghost all = labels_view(self.labels@);
            let mut i: usize = self.labels.len();
            assert(all.take(i as int) =~= all);
            while i > 0
                invariant
                    i <= self.labels@.len(),
                    last_under(all, t@) == last_under(all.take(i as int), t@),
                decreases i,
            {
                i -= 1;
                assert(all.take(i + 1).drop_last() =~= all.take(i as int));
                if str_eq(self.labels[i].0.as_str(), t) {
                    return self.labels[i].1.clone();
                }
            }
        }
        ActorLabel { name: "?".to_owned(), seat: None, is_host: false }
    }

    /// Record one dispatched call, `secs` seconds after the log started. `token` is the raw
    /// token string from the args; `result` is a preview of the successful result value (None
    /// on error).
    #[verifier::loop_isolation(false)]
    pub fn record_rpc(
        &mut self,
        secs: u64,
        token: Option<&str>,
        tool: &str,
        args: &Json,
        ok: bool,
        error: Option<String>,
        result: Option<String>,
    )
        ensures
            final(self)@ == old(self)@.recorded(
                secs,
                match token {
                    Some(t) => Some(t@),
                    None => None,
                },
                tool@,
                args@,
                ok,
                opt_text(error),
                opt_text(result),
            ),
    {
        let actor = self.label_of(token);
        self.seq = self.seq.saturating_add(1);
        let entry = ActionEntry {
            seq: self.seq,
            secs,
            actor,
            tool: tool.to_owned(),
            summary: summarize(tool, args),
            kind: classify(tool),
            ok,
            error,
            args: args_for_display(args),
            result: match result {
                Some(r) => Some(clip_chars(r.as_str(), RESULT_SHOWN)),
                None => None,
            },
        };
        let ghost before = self.entries@;
        self.entries.push_back(entry);
        let ghost all = self.entries@;
        assert(entries_view(all) =~= entries_view(before).push(entry@));
        assert(all.skip(0) =~= all);
        let ghost mut gone: int = 0;
        while self.entries.len() > self.cap
            invariant
                0 <= gone <= all.len(),
                self.entries@ == all.skip(gone),
                self.cap == old(self).cap,
                self.seq == old(self)@.recorded(
                    secs,
                    None,
                    tool@,
                    args@,
                    ok,
                    None,
                    None,
                ).seq,
                self.labels == old(self).labels,
                gone == 0 || all.len() - gone >= self.cap,
            decreases self.entries@.len(),
        {
            let _ = self.entries.pop_front();
            proof {
                gone = gone + 1;
                assert(self.entries@ =~= all.skip(gone));
            }
        }
        assert(self@.entries =~= last_of(entries_view(all), self.cap));
    }

    /// The most recent `n` entries, oldest-first (ready to render top→bottom).
    #[verifier::loop_isolation(false)]
    pub fn recent(&self, n: usize) -> (v: Vec<ActionEntry>)
        ensures
            entries_view(v@) == last_of(self@.entries, n),
    {
        let len = self.entries.len();
        let start: usize = if len <= n { 0 } else { len - n };
        let mut v: Vec<ActionEntry> = Vec::new();
        let mut i: usize = start;
        while i < len
            invariant
                start <= i <= len,
                v@.len() == i - start,
                forall|k: int| 0 <= k < v@.len() ==> (#[trigger] v@[k])@ == self.entries@[start
                    + k]@,
            decreases len - i,
        {
            v.push(self.entries[i].clone());
            i += 1;
        }
        assert(entries_view(v@) =~= last_of(self@.entries, n));
        v
    }

    pub fn len(&self) -> (n: usize)
        ensures
            n == self@.entries.len(),
    {
        self.entries.len()
    }

    pub fn is_empty(&self) -> (b: bool)
        ensures
            b == (self@.entries.len() == 0),
    {
        self.len() == 0
    }
}

// ---------------------------------------------------------------------------
// Laws
// ---------------------------------------------------------------------------

/// The feed never grows beyond its cap, and the newest call is always in it (unless the cap
/// is zero).
pub proof fn feed_is_bounded(
    log: ActionLogView,
    secs: u64,
    token: Option<Seq<char>>,
    tool: Seq<char>,
    args: JsonView,
    ok: bool,
    error: Option<Seq<char>>,
    result: Option<Seq<char>>,
)
    ensures
        ({
            let after = log.recorded(secs, token, tool, args, ok, error, result);
            &&& after.entries.len() <= log.cap
            &&& log.cap > 0 ==> after.entries.len() > 0 && after.entries.last().tool == tool
                && after.entries.last().ok == ok && after.entries.last().seq == after.seq
        }),
{
}

/// Two argument objects that differ only in what the token fields hold.
pub open spec fn same_but_for_secrets(a: JsonView, b: JsonView) -> bool {
    match (a, b) {
        (JsonView::Obj(x), JsonView::Obj(y)) => {
            &&& x.len() == y.len()
            &&& forall|i: int|
                0 <= i < x.len() ==> (#[trigger] x[i]).0 == y[i].0 && (secret_key(x[i].0) || x[i].1
                    == y[i].1)
        },
        _ => a == b,
    }
}

proof fn open_fields_agree(
    x: Seq<(Seq<char>, JsonView)>,
    y: Seq<(Seq<char>, JsonView)>,
    key: Seq<char>,
)
    requires
        !secret_key(key),
        same_but_for_secrets(JsonView::Obj(x), JsonView::Obj(y)),
    ensures
        crate::json::first_under(x, key) == crate::json::first_under(y, key),
    decreases x.len(),
{
    if x.len() > 0 {
        assert(x[0].0 == y[0].0);
        let (p, q) = (x.drop_first(), y.drop_first());
        assert forall|i: int| 0 <= i < p.len() implies (#[trigger] p[i]).0 == q[i].0 && (secret_key(
            p[i].0,
        ) || p[i].1 == q[i].1) by {
            assert(x[i + 1] == p[i]);
            assert(y[i + 1] == q[i]);
        }
        open_fields_agree(p, q, key);
    }
}

proof fn secrets_are_not_read(a: JsonView, b: JsonView, key: Seq<char>)
    requires
        !secret_key(key),
        same_but_for_secrets(a, b),
    ensures
        a.field(key) == b.field(key),
{
    match (a, b) {
        (JsonView::Obj(x), JsonView::Obj(y)) => open_fields_agree(x, y, key),
        _ => {},
    }
}

/// Tokens never show: calls that differ only in their token fields are summarized and displayed
/// alike.
pub proof fn tokens_never_show(tool: Seq<char>, a: JsonView, b: JsonView)
    requires
        same_but_for_secrets(a, b),
    ensures
        shown_args(a) == shown_args(b),
        summary_of(tool, a) == summary_of(tool, b),
{
    match (a, b) {
        (JsonView::Obj(x), JsonView::Obj(y)) => {
            assert(x.map_values(redacted_field()) =~= y.map_values(redacted_field()));
        },
        _ => {},
    }
    reveal_strlit("token");
    reveal_strlit("host_token");
    reveal_strlit("player_token");
    reveal_strlit("payload");
    reveal_strlit("text");
    reveal_strlit("to");
    reveal_strlit("target");
    reveal_strlit("nominee");
    reveal_strlit("support");
    reveal_strlit("target_a");
    reveal_strlit("target_b");
    reveal_strlit("a");
    reveal_strlit("b");
    reveal_strlit("targets");
    reveal_strlit("decision");
    reveal_strlit("choice");
    reveal_strlit("seat");
    assert("token"@.len() == 5 && "host_token"@.len() == 10 && "player_token"@.len() == 12);
    secrets_are_not_read(a, b, "payload"@);
    secrets_are_not_read(a, b, "text"@);
    secrets_are_not_read(a, b, "to"@);
    secrets_are_not_read(a, b, "target"@);
    secrets_are_not_read(a, b, "nominee"@);
    secrets_are_not_read(a, b, "support"@);
    secrets_are_not_read(a, b, "target_a"@);
    secrets_are_not_read(a, b, "target_b"@);
    secrets_are_not_read(a, b, "a"@);
    secrets_are_not_read(a, b, "b"@);
    secrets_are_not_read(a, b, "targets"@);
    secrets_are_not_read(a, b, "decision"@);
    secrets_are_not_read(a, b, "choice"@);
    secrets_are_not_read(a, b, "seat"@);
}

/// Speech is kept in full: the summary of a speech ends in the whole spoken text in quotes.
pub proof fn speech_is_never_cut(args: JsonView, text: Seq<char>)
    requires
        args.text_at("text"@) == Some(text),
    ensures
        crate::text::has_text(summary_of("say"@, args), one_line(text)),
        crate::text::has_text(summary_of("st_announce"@, args), one_line(text)),
{
    let t = one_line(text);
    let spoken = "“"@ + t + "”"@;
    reveal_strlit("“");
    reveal_strlit("say");
    reveal_strlit("st_announce");
    assert("say"@.len() == 3 && "st_announce"@.len() == 11);
    assert(spoken.subrange(1, 1 + t.len() as int) =~= t);
    assert(crate::text::matches_at(spoken, t, 1));
    match seat_named(args.field("to"@)) {
        Some(to) => {
            let lead = "→"@ + to + " "@;
            let said = lead + spoken;
            let at = lead.len() as int + 1;
            assert(said.subrange(at, at + t.len()) =~= t);
            assert(crate::text::matches_at(said, t, at));
        },
        None => {},
    }
}

} // verus!
