//! Agent sessions: their configuration, the headless command lines, and what their streams say.
//!
//! Running the processes is left to the caller.

use crate::comms::opt_text;
use crate::game::ids::SeatId;
use crate::harness::prompts;
use crate::harness::scheduler::{SchedTarget, SchedTargetView};
use crate::harness::wake::AWAIT_CLIENT_TIMEOUT_SECS;
pub use crate::harness::stream::{
    append_chunk, apply_stream_event, parse_stream_line_usage, parse_tick_usage, push_full_line,
    read_session_context, stream_line_establishes_session, AgentUsage, ContextWindow, LineKind,
    LogLine,
};
use crate::text::{
    after_prefix, chars_of, dec, dec_string, holds_text, join, joined, numbered, push_dec, split,
    split_on, split_words, str_eq, strip, texts, trim, trimmed, words,
};
use vstd::arithmetic::div_mod::lemma_fundamental_div_mod_converse;
use vstd::prelude::*;
use vstd::string::*;

verus! {

// ---------------------------------------------------------------------------
// Roles and backends
// ---------------------------------------------------------------------------

#[derive(Debug, Clone, Copy, PartialEq, Eq, Structural)]
pub enum AgentRole {
    Host,
    Player { seat: SeatId },
}

/// `Host`, or `P` and the seat number.
pub open spec fn role_label(role: AgentRole) -> Seq<char> {
    match role {
        AgentRole::Host => "Host"@,
        AgentRole::Player { seat } => "P"@ + dec(seat.0 as nat),
    }
}

/// Short label for an agent role (for logs / feed).
pub fn agent_label(role: &AgentRole) -> (s: String)
    ensures
        s@ == role_label(*role),
{
    match role {
        AgentRole::Host => "Host".to_owned(),
        AgentRole::Player { seat } => numbered("P", seat.0 as u64),
    }
}

/// Name of the working directory of an agent.
pub fn workdir_name(role: &AgentRole) -> (s: String)
    ensures
        s@ == (match *role {
            AgentRole::Host => "host"@,
            AgentRole::Player { seat } => "seat"@ + dec(seat.0 as nat),
        }),
{
    match role {
        AgentRole::Host => "host".to_owned(),
        AgentRole::Player { seat } => numbered("seat", seat.0 as u64),
    }
}

/// Which command-line agent runs a session. The second one goes by the word `alt`: on screen, in
/// seat records and in ranking keys, so that a history read back is looked up under the keys that
/// were written.
#[derive(Debug, Clone, Copy, PartialEq, Eq, Structural)]
pub enum Backend {
    Grok,
    Claude,
}

impl Backend {
    pub open spec fn word(self) -> Seq<char> {
        match self {
            Backend::Grok => "grok"@,
            Backend::Claude => "alt"@,
        }
    }

    pub fn as_str(self) -> (s: &'static str)
        ensures
            s@ == self.word(),
    {
        match self {
            Backend::Grok => "grok",
            Backend::Claude => "alt",
        }
    }

    /// The backend `delta` steps on; there are two.
    pub fn cycle(self, delta: i32) -> (b: Backend)
        ensures
            b == (if delta % 2 == 0 {
                self
            } else {
                match self {
                    Backend::Grok => Backend::Claude,
                    Backend::Claude => Backend::Grok,
                }
            }),
    {
        let steps: i64 = delta as i64 + 2147483648;
        if steps % 2 == 0 {
            self
        } else {
            match self {
                Backend::Grok => Backend::Claude,
                Backend::Claude => Backend::Grok,
            }
        }
    }
}

#[derive(Debug)]
pub struct AgentConfig {
    pub role: AgentRole,
    pub display_name: String,
    pub token: String,
    pub game_id: u64,
    /// Model this agent's sessions run on (picked per seat in setup).
    pub model: String,
    pub backend: Backend,
}

/// What an agent's configuration says.
pub struct AgentConfigView {
    pub role: AgentRole,
    pub display_name: Seq<char>,
    pub token: Seq<char>,
    pub game_id: u64,
    pub model: Seq<char>,
    pub backend: Backend,
}

impl View for AgentConfig {
    type V = AgentConfigView;

    open spec fn view(&self) -> AgentConfigView {
        AgentConfigView {
            role: self.role,
            display_name: self.display_name@,
            token: self.token@,
            game_id: self.game_id,
            model: self.model@,
            backend: self.backend,
        }
    }
}

impl Clone for AgentConfig {
    fn clone(&self) -> (c: AgentConfig)
        ensures
            c@ == self@,
    {
        AgentConfig {
            role: self.role,
            display_name: self.display_name.clone(),
            token: self.token.clone(),
            game_id: self.game_id,
            model: self.model.clone(),
            backend: self.backend,
        }
    }
}

/// What a list of agents says.
pub open spec fn agents_view(v: Seq<AgentConfig>) -> Seq<AgentConfigView> {
    v.map_values(|a: AgentConfig| a@)
}

// ---------------------------------------------------------------------------
// Configuration
// ---------------------------------------------------------------------------

#[derive(Debug)]
pub struct HarnessConfig {
    /// Number of player seats (5–15). Host is +1 session.
    pub player_count: usize,
    /// Default model: the starting pick for every session row in setup and the
    /// fallback when a seat has no pick. The model actually used by an agent is
    /// per-session ([`AgentConfig::model`]).
    pub model: String,
    /// Models available in the setup pickers — filled from `grok models` at start.
    pub available_models: Vec<String>,
    /// Models available for seats on the second backend.
    pub claude_models: Vec<String>,
    pub grok_bin: String,
    pub claude_bin: String,
    pub agent_mcp_bin: String,
    pub work_root: String,
    pub socket_path: String,
    pub max_turns_per_tick: u32,
    pub seed: Option<u64>,
    pub st_choice_mode: String,
    /// Built-in tools to REMOVE from each agent (`--disallowed-tools`). The game
    /// is played only through the `botc` MCP server (reached via search_tool/use_tool),
    /// so agents don't need shell/file tools — removing them stops them exploring the
    /// filesystem for source / other seats' tokens. NEVER remove search_tool/use_tool.
    pub disallowed_tools: Vec<String>,
    /// `--sandbox` profile confining filesystem/network (defense in depth).
    pub grok_sandbox: Option<String>,
    /// Pass `--no-memory` so agents don't inherit the user's global coding context.
    pub no_memory: bool,
}

/// Every file/shell/edit/search built-in; removals must be self-consistent — search_replace
/// (edit) requires read_file, so both go together.
pub open spec fn stripped_tools() -> Seq<Seq<char>> {
    seq![
        "run_terminal_command"@,
        "read_file"@,
        "list_dir"@,
        "search_replace"@,
        "grep"@,
        "get_command_or_subagent_output"@,
        "kill_command_or_subagent"@,
        "image_edit"@,
        "web_search"@,
        "x_keyword_search"@,
        "x_semantic_search"@,
        "x_thread_fetch"@,
        "x_user_search"@,
    ]
}

fn list_stripped_tools() -> (v: Vec<String>)
    ensures
        texts(v@) == stripped_tools(),
{
    let mut v: Vec<String> = Vec::new();
    v.push("run_terminal_command".to_owned());
    v.push("read_file".to_owned());
    v.push("list_dir".to_owned());
    v.push("search_replace".to_owned());
    v.push("grep".to_owned());
    v.push("get_command_or_subagent_output".to_owned());
    v.push("kill_command_or_subagent".to_owned());
    v.push("image_edit".to_owned());
    v.push("web_search".to_owned());
    v.push("x_keyword_search".to_owned());
    v.push("x_semantic_search".to_owned());
    v.push("x_thread_fetch".to_owned());
    v.push("x_user_search".to_owned());
    assert(texts(v@) =~= stripped_tools());
    v
}

impl Default for HarnessConfig {
    fn default() -> (c: HarnessConfig)
        ensures
            c.player_count == 5,
            c.model@ == "grok-build"@,
            c.available_models@.len() == 0,
            c.claude_models@.len() == 0,
            c.grok_bin@ == "grok"@,
            c.claude_bin@ == "alt"@,
            c.agent_mcp_bin@ == "botc-agent-mcp"@,
            c.work_root@ == "/tmp/botc-harness"@,
            c.socket_path@ == "/tmp/botc-harness/engine.sock"@,
            c.max_turns_per_tick == 12,
            c.seed == Some(42u64),
            c.st_choice_mode@ == "host_first"@,
            texts(c.disallowed_tools@) == stripped_tools(),
            opt_text(c.grok_sandbox) == Some("workspace"@),
            c.no_memory,
    {
        HarnessConfig {
            player_count: 5,
            // Placeholder until the models are loaded (or the caller fills it).
            model: "grok-build".to_owned(),
            available_models: Vec::new(),
            claude_models: Vec::new(),
            grok_bin: "grok".to_owned(),
            claude_bin: "alt".to_owned(),
            agent_mcp_bin: "botc-agent-mcp".to_owned(),
            work_root: "/tmp/botc-harness".to_owned(),
            socket_path: "/tmp/botc-harness/engine.sock".to_owned(),
            max_turns_per_tick: 12,
            seed: Some(42),
            st_choice_mode: "host_first".to_owned(),
            disallowed_tools: list_stripped_tools(),
            grok_sandbox: Some("workspace".to_owned()),
            no_memory: true,
        }
    }
}

/// What a models listing says: the models in order, each once, and the default.
pub struct ModelListing {
    pub models: Seq<Seq<char>>,
    pub default: Option<Seq<char>>,
}

/// What follows the mark of a bullet line.
pub open spec fn bullet_rest(line: Seq<char>) -> Option<Seq<char>> {
    match after_prefix(line, "* "@) {
        Some(r) => Some(r),
        None => after_prefix(line, "- "@),
    }
}

/// The model that a line lists: the first word of a bullet; empty where it lists none.
pub open spec fn listed_model(raw: Seq<char>) -> Seq<char> {
    let line = trimmed(raw);
    if after_prefix(line, "Default model:"@) is Some {
        seq![]
    } else {
        match bullet_rest(line) {
            Some(r) => if words(r).len() > 0 { words(r)[0] } else { seq![] },
            None => seq![],
        }
    }
}

/// The default that a `Default model:` line names; empty where the line names none.
pub open spec fn named_model(raw: Seq<char>) -> Seq<char> {
    match after_prefix(trimmed(raw), "Default model:"@) {
        Some(rest) => trimmed(rest),
        None => seq![],
    }
}

/// The line is a `* … (default)` bullet.
pub open spec fn marks_default(raw: Seq<char>) -> bool {
    let line = trimmed(raw);
    &&& after_prefix(line, "Default model:"@) is None
    &&& after_prefix(line, "* "@) matches Some(r) && words(r).len() > 1 && words(r)[1]
        == "(default)"@
}

/// The models that the lines list, each once.
pub open spec fn listed_models(lines: Seq<Seq<char>>) -> Seq<Seq<char>>
    decreases lines.len(),
{
    if lines.len() == 0 {
        seq![]
    } else {
        let front = listed_models(lines.drop_last());
        let id = listed_model(lines.last());
        if id.len() > 0 && !front.contains(id) { front.push(id) } else { front }
    }
}

/// The default that the last `Default model:` line names, if one does.
pub open spec fn named_default(lines: Seq<Seq<char>>) -> Option<Seq<char>>
    decreases lines.len(),
{
    if lines.len() == 0 {
        None
    } else if named_model(lines.last()).len() > 0 {
        Some(named_model(lines.last()))
    } else {
        named_default(lines.drop_last())
    }
}

/// The model of the first bullet that is marked as the default, if one is.
pub open spec fn marked_default(lines: Seq<Seq<char>>) -> Option<Seq<char>>
    decreases lines.len(),
{
    if lines.len() == 0 {
        None
    } else {
        match marked_default(lines.drop_last()) {
            Some(id) => Some(id),
            None => if marks_default(lines.last()) {
                Some(listed_model(lines.last()))
            } else {
                None
            },
        }
    }
}

/// What the lines of a listing say. A `Default model:` line names the default; without one a
/// bullet may be marked as the default.
pub open spec fn listing(lines: Seq<Seq<char>>) -> ModelListing {
    ModelListing {
        models: listed_models(lines),
        default: match named_default(lines) {
            Some(id) => Some(id),
            None => marked_default(lines),
        },
    }
}

/// The model that a trimmed bullet line lists, empty where it lists none, and whether the line
/// marks it as the default.
fn read_bullet(line: &str) -> (r: (String, bool))
    ensures
        r.0@ == (match bullet_rest(line@) {
            Some(rest) => if words(rest).len() > 0 { words(rest)[0] } else { seq![] },
            None => seq![],
        }),
        r.1 == (after_prefix(line@, "* "@) matches Some(rest) && words(rest).len() > 1
            && words(rest)[1] == "(default)"@),
{
    let starred = strip(line, "* ");
    let is_starred = starred.is_some();
    let rest = match starred {
        Some(r) => Some(r),
        None => strip(line, "- "),
    };
    match rest {
        Some(r) => {
            // First token is the model id; a "(default)" label may follow.
            let tokens = split_words(r.as_str());
            assert(texts(tokens@).len() == tokens@.len());
            if tokens.len() > 0 {
                assert(texts(tokens@)[0] == tokens@[0]@);
                let mut marked = false;
                if tokens.len() > 1 {
                    assert(texts(tokens@)[1] == tokens@[1]@);
                    marked = is_starred && str_eq(tokens[1].as_str(), "(default)");
                }
                (tokens[0].clone(), marked)
            } else {
                (String::new(), false)
            }
        },
        None => (String::new(), false),
    }
}

/// Whether there is nothing in a string.
fn is_blank(s: &str) -> (b: bool)
    ensures
        b == (s@.len() == 0),
{
    chars_of(s).len() == 0
}

/// Parse the human-readable output of `grok models`.
///
/// Expected shape:
/// ```text
/// Default model: grok-code-fast-1
///
/// Available models:
///   - v9-stickynote
///   * grok-code-fast-1 (default)
/// ```
///
/// Returns `(models, default_id)`. Models keep the order of the output. The default is taken
/// from the `Default model:` line when present, else from a `* … (default)` bullet.
#[verifier::loop_isolation(false)]
pub fn parse_grok_models_output(stdout: &str) -> (r: (Vec<String>, Option<String>))
    ensures
        texts(r.0@) == listing(split(stdout@, '\n')).models,
        opt_text(r.1) == listing(split(stdout@, '\n')).default,
{
    let lines = split_on(stdout, '\n');
    let ghost all = texts(lines@);
    let mut models: Vec<String> = Vec::new();
    let mut named: Option<String> = None;
    let mut marked: Option<String> = None;
    let mut i: usize = 0;
    assert(texts(models@) =~= listed_models(all.take(0)));
    while i < lines.len()
        invariant
            i <= lines@.len(),
            texts(models@) == listed_models(all.take(i as int)),
            opt_text(named) == named_default(all.take(i as int)),
            opt_text(marked) == marked_default(all.take(i as int)),
        decreases lines@.len() - i,
    {
        assert(all.take(i + 1).drop_last() =~= all.take(i as int));
        assert(all[i as int] == lines@[i as int]@);
        let line = trim(lines[i].as_str());
        match strip(line.as_str(), "Default model:") {
            Some(rest) => {
                let id = trim(rest.as_str());
                if !is_blank(id.as_str()) {
                    named = Some(id);
                }
            },
            None => {
                let (id, is_default) = read_bullet(line.as_str());
                if is_default && marked.is_none() {
                    marked = Some(id.clone());
                }
                if !is_blank(id.as_str()) && !holds_text(&models, id.as_str()) {
                    let ghost before = models@;
                    models.push(id);
                    assert(texts(models@) =~= texts(before).push(id@));
                }
            },
        }
        i += 1;
    }
    assert(all.take(i as int) =~= all);
    let default = match named {
        Some(id) => Some(id),
        None => marked,
    };
    (models, default)
}

/// The listing in what the command printed: on standard output, or failing that on standard
/// error (sometimes the list is there, or mixed).
pub open spec fn printed_listing(stdout: Seq<char>, stderr: Seq<char>) -> ModelListing {
    let out = listing(split(stdout, '\n'));
    let err = listing(split(stderr, '\n'));
    if out.models.len() == 0 && err.models.len() > 0 {
        ModelListing {
            models: err.models,
            default: match err.default {
                Some(d) => Some(d),
                None => out.default,
            },
        }
    } else {
        out
    }
}

/// The available model ids plus the default, from what `grok models` printed. Nothing readable
/// gives an empty list — the caller should keep whatever `model` it already has.
pub fn read_models(stdout: &str, stderr: &str) -> (r: (Vec<String>, Option<String>))
    ensures
        texts(r.0@) == printed_listing(stdout@, stderr@).models,
        opt_text(r.1) == printed_listing(stdout@, stderr@).default,
{
    let (models, default) = parse_grok_models_output(stdout);
    if models.len() == 0 {
        assert(texts(models@).len() == 0);
        let (m2, d2) = parse_grok_models_output(stderr);
        assert(texts(m2@).len() == m2@.len());
        if m2.len() > 0 {
            return (
                m2,
                match d2 {
                    Some(d) => Some(d),
                    None => default,
                },
            );
        }
    } else {
        assert(texts(models@).len() == models@.len());
    }
    (models, default)
}

/// The model in use after a listing: its default where it lists it, else the current model where
/// the listing names no default and lists it, else the first one.
pub open spec fn model_after(
    current: Seq<char>,
    models: Seq<Seq<char>>,
    default: Option<Seq<char>>,
) -> Seq<char> {
    match default {
        Some(d) => if models.contains(d) { d } else { models[0] },
        None => if models.contains(current) { current } else { models[0] },
    }
}

/// The position of a text in a list.
pub open spec fn place_of(list: Seq<Seq<char>>, x: Seq<char>) -> Option<int>
    decreases list.len(),
{
    if list.len() == 0 {
        None
    } else if list[0] == x {
        Some(0)
    } else {
        match place_of(list.drop_first(), x) {
            Some(i) => Some(i + 1),
            None => None,
        }
    }
}

proof fn place_of_first(list: Seq<Seq<char>>, x: Seq<char>, i: int)
    requires
        0 <= i < list.len(),
        list[i] == x,
        forall|k: int| 0 <= k < i ==> list[k] != x,
    ensures
        place_of(list, x) == Some(i),
    decreases i,
{
    if i > 0 {
        assert(list[0] != x);
        place_of_first(list.drop_first(), x, i - 1);
    }
}

proof fn place_of_none(list: Seq<Seq<char>>, x: Seq<char>)
    requires
        forall|k: int| 0 <= k < list.len() ==> list[k] != x,
    ensures
        place_of(list, x) is None,
    decreases list.len(),
{
    if list.len() > 0 {
        assert(list[0] != x);
        place_of_none(list.drop_first(), x);
    }
}

/// The texts of a slice.
pub open spec fn slice_texts(list: &[String]) -> Seq<Seq<char>> {
    texts(list@)
}

/// The position of a text in a list.
fn find_place(list: &[String], x: &str) -> (r: Option<usize>)
    ensures
        match r {
            Some(i) => i < list@.len() && place_of(slice_texts(list), x@) == Some(i as int),
            None => place_of(slice_texts(list), x@) is None,
        },
{
    let ghost all = slice_texts(list);
    let mut i: usize = 0;
    while i < list.len()
        invariant
            i <= list@.len(),
            all == texts(list@),
            forall|k: int| 0 <= k < i ==> all[k] != x@,
        decreases list@.len() - i,
    {
        assert(all[i as int] == list@[i as int]@);
        if str_eq(list[i].as_str(), x) {
            proof {
                place_of_first(all, x@, i as int);
            }
            return Some(i);
        }
        i += 1;
    }
    proof {
        place_of_none(all, x@);
    }
    None
}

/// `current` stepped through `list`.
pub open spec fn stepped(current: Seq<char>, list: Seq<Seq<char>>, delta: int) -> Seq<char> {
    if list.len() == 0 || delta == 0 {
        current
    } else {
        match place_of(list, current) {
            Some(i) => list[(i + delta) % (list.len() as int)],
            None => if delta > 0 { list[0] } else { list.last() },
        }
    }
}

/// The position `delta` steps on from `i` in a ring of `n`.
fn step_in_ring(i: usize, n: usize, delta: i32) -> (r: usize)
    requires
        i < n,
    ensures
        r < n,
        r == (i + delta) % (n as int),
{
    if delta >= 0 {
        let d: usize = delta as usize;
        let s: usize = d % n;
        let rest: usize = n - i;
        let r: usize = if s < rest { i + s } else { s - rest };
        proof {
            let q = d as int / n as int;
            let wraps = if s < rest { q } else { q + 1 };
            assert(d as int == q * n + s) by (nonlinear_arith)
                requires
                    q == d as int / n as int,
                    s == d as int % n as int,
                    n > 0,
            ;
            assert(wraps * n == q * n + (if s < rest { 0 } else { n as int })) by (nonlinear_arith)
                requires
                    wraps == (if s < rest { q } else { q + 1 }),
            ;
            lemma_fundamental_div_mod_converse(i + delta, n as int, wraps, r as int);
        }
        r
    } else {
        let wide: i64 = -(delta as i64);
        let d: usize = wide as u32 as usize;
        let s: usize = d % n;
        let r: usize = if s <= i { i - s } else { n - (s - i) };
        proof {
            let q = d as int / n as int;
            let wraps = if s <= i { -q } else { -q - 1 };
            assert(d as int == q * n + s) by (nonlinear_arith)
                requires
                    q == d as int / n as int,
                    s == d as int % n as int,
                    n > 0,
            ;
            assert(wraps * n == -(q * n) - (if s <= i { 0 } else { n as int })) by (nonlinear_arith)
                requires
                    wraps == (if s <= i { -q } else { -q - 1 }),
            ;
            lemma_fundamental_div_mod_converse(i + delta, n as int, wraps, r as int);
        }
        r
    }
}

/// Step `current` through `list` by `delta` (wrapping). An unknown `current`
/// lands on the first entry going forward, the last going backward. Used by the
/// per-seat model pickers in setup.
pub fn cycle_in_list(current: &str, list: &[String], delta: i32) -> (s: String)
    ensures
        s@ == stepped(current@, slice_texts(list), delta as int),
{
    if list.len() == 0 || delta == 0 {
        return current.to_owned();
    }
    let idx = match find_place(list, current) {
        Some(i) => step_in_ring(i, list.len(), delta),
        None => if delta > 0 { 0 } else { list.len() - 1 },
    };
    assert(slice_texts(list)[idx as int] == list@[idx as int]@);
    list[idx].clone()
}

impl HarnessConfig {
    /// Fill [`Self::available_models`] (and optionally [`Self::model`]) from a models listing.
    /// Returns a short status note for the setup screen.
    pub fn apply_models(&mut self, models: Vec<String>, default: Option<String>) -> (note: String)
        ensures
            models@.len() == 0 ==> final(self).model@ == old(self).model@ && texts(
                final(self).available_models@,
            ) == (if old(self).available_models@.len() == 0 {
                seq![old(self).model@]
            } else {
                texts(old(self).available_models@)
            }),
            models@.len() > 0 ==> final(self).available_models@ == models@,
            models@.len() > 0 ==> final(self).model@ == model_after(
                old(self).model@,
                texts(models@),
                opt_text(default),
            ),
            note@ == (if models@.len() == 0 {
                "model list: could not read `"@ + old(self).grok_bin@ + " models` — using "@
                    + old(self).model@
            } else {
                "models: "@ + dec(models@.len()) + " from `"@ + old(self).grok_bin@
                    + " models` · selected "@ + final(self).model@
            }),
            *final(self) == (HarnessConfig {
                available_models: final(self).available_models,
                model: final(self).model,
                ..*old(self)
            }),
    {
        if models.len() == 0 {
            // Keep a one-entry picker so ←/→ is not a no-op, using the current model.
            if self.available_models.len() == 0 {
                let mut only: Vec<String> = Vec::new();
                only.push(self.model.clone());
                self.available_models = only;
                assert(texts(self.available_models@) =~= seq![old(self).model@]);
            }
            let mut note = "model list: could not read `".to_owned();
            note.append(self.grok_bin.as_str());
            note.append(" models` — using ");
            note.append(self.model.as_str());
            return note;
        }
        self.available_models = models;
        assert(texts(self.available_models@)[0] == self.available_models@[0]@);
        match default {
            Some(d) => {
                if holds_text(&self.available_models, d.as_str()) {
                    self.model = d;
                } else {
                    self.model = self.available_models[0].clone();
                }
            },
            None => {
                if !holds_text(&self.available_models, self.model.as_str()) {
                    self.model = self.available_models[0].clone();
                }
            },
        }
        let mut note = numbered("models: ", self.available_models.len() as u64);
        note.append(" from `");
        note.append(self.grok_bin.as_str());
        note.append(" models` · selected ");
        note.append(self.model.as_str());
        note
    }

    /// Fill [`Self::available_models`] (and optionally [`Self::model`]) from what `grok models`
    /// printed. Returns a short status note for the setup screen.
    pub fn load_models_from_grok(&mut self, stdout: &str, stderr: &str) -> (note: String)
        ensures
            ({
                let found = printed_listing(stdout@, stderr@);
                if found.models.len() == 0 {
                    &&& final(self).model@ == old(self).model@
                    &&& texts(final(self).available_models@) == (if old(self).available_models@.len() == 0 {
                        seq![old(self).model@]
                    } else {
                        texts(old(self).available_models@)
                    })
                    &&& note@ == "model list: could not read `"@ + old(self).grok_bin@
                        + " models` — using "@ + old(self).model@
                } else {
                    &&& texts(final(self).available_models@) == found.models
                    &&& final(self).model@ == model_after(
                        old(self).model@,
                        found.models,
                        found.default,
                    )
                    &&& note@ == "models: "@ + dec(found.models.len()) + " from `"@
                        + old(self).grok_bin@ + " models` · selected "@ + final(self).model@
                }
            }),
            *final(self) == (HarnessConfig {
                available_models: final(self).available_models,
                model: final(self).model,
                ..*old(self)
            }),
    {
        let (models, default) = read_models(stdout, stderr);
        assert(texts(models@).len() == models@.len());
        self.apply_models(models, default)
    }

    /// Index of `self.model` in [`Self::available_models`], or `None` if custom.
    pub fn model_index(&self) -> (r: Option<usize>)
        ensures
            match r {
                Some(i) => place_of(texts(self.available_models@), self.model@) == Some(i as int),
                None => place_of(texts(self.available_models@), self.model@) is None,
            },
    {
        find_place(self.available_models.as_slice(), self.model.as_str())
    }

    /// Cycle the model picker by `delta` steps (±1 for next/prev).
    ///
    /// If the current model is not in the list, `delta > 0` jumps to the first
    /// entry and `delta < 0` to the last.
    pub fn cycle_model(&mut self, delta: i32)
        ensures
            final(self).model@ == stepped(
                old(self).model@,
                texts(old(self).available_models@),
                delta as int,
            ),
            *final(self) == (HarnessConfig { model: final(self).model, ..*old(self) }),
    {
        self.model = cycle_in_list(self.model.as_str(), self.available_models.as_slice(), delta);
    }

    /// The models that a backend offers.
    pub fn models_for(&self, backend: Backend) -> (v: &Vec<String>)
        ensures
            *v == (match backend {
                Backend::Grok => self.available_models,
                Backend::Claude => self.claude_models,
            }),
    {
        match backend {
            Backend::Grok => &self.available_models,
            Backend::Claude => &self.claude_models,
        }
    }

    /// The model that a seat starts on when it changes to a backend.
    pub open spec fn starting_model(self, backend: Backend) -> Seq<char> {
        match backend {
            Backend::Grok => self.model@,
            Backend::Claude => if self.claude_models@.len() > 0 {
                self.claude_models@[0]@
            } else {
                self.model@
            },
        }
    }

    /// The model that a seat starts on when it changes to a backend.
    pub fn default_model(&self, backend: Backend) -> (s: String)
        ensures
            s@ == self.starting_model(backend),
    {
        match backend {
            Backend::Grok => self.model.clone(),
            Backend::Claude => {
                if self.claude_models.len() > 0 {
                    self.claude_models[0].clone()
                } else {
                    self.model.clone()
                }
            },
        }
    }
}

// ---------------------------------------------------------------------------
// Command lines
// ---------------------------------------------------------------------------

/// The arguments of one headless run.
pub open spec fn tick_args(
    cfg: HarnessConfig,
    model: Seq<char>,
    workdir: Seq<char>,
    prompt_file: Seq<char>,
    session_id: Seq<char>,
    session_started: bool,
) -> Seq<Seq<char>> {
    let base = seq![
        "--prompt-file"@,
        prompt_file,
        "-m"@,
        model,
        "--cwd"@,
        workdir,
        "--max-turns"@,
        dec(cfg.max_turns_per_tick as nat),
        "--output-format"@,
        "streaming-json"@,
        "--yolo"@,
        "--no-subagents"@,
        "--disable-web-search"@,
    ];
    let confined = if cfg.disallowed_tools@.len() > 0 {
        base + seq!["--disallowed-tools"@, joined(texts(cfg.disallowed_tools@), ","@)]
    } else {
        base
    };
    let forgetful = if cfg.no_memory { confined + seq!["--no-memory"@] } else { confined };
    let boxed = match cfg.grok_sandbox {
        Some(profile) => forgetful + seq!["--sandbox"@, profile@],
        None => forgetful,
    };
    boxed + seq![
        if session_started { "--resume"@ } else { "--session-id"@ },
        session_id,
    ]
}

fn push_arg(args: &mut Vec<String>, arg: &str)
    ensures
        texts(final(args)@) == texts(old(args)@).push(arg@),
{
    args.push(arg.to_owned());
    assert(texts(args@) =~= texts(old(args)@).push(arg@));
}

/// Build the argv for one headless run.
///
/// Uses a single auto-approve flag (`--yolo`). Do **not** also pass `--always-approve`
/// (alias of the same flag → "cannot be used multiple times").
pub fn build_grok_tick_args(
    cfg: &HarnessConfig,
    model: &str,
    workdir: &str,
    prompt_file: &str,
    session_id: &str,
    session_started: bool,
) -> (args: Vec<String>)
    ensures
        texts(args@) == tick_args(
            *cfg,
            model@,
            workdir@,
            prompt_file@,
            session_id@,
            session_started,
        ),
{
    let mut args: Vec<String> = Vec::new();
    push_arg(&mut args, "--prompt-file");
    push_arg(&mut args, prompt_file);
    push_arg(&mut args, "-m");
    push_arg(&mut args, model);
    push_arg(&mut args, "--cwd");
    push_arg(&mut args, workdir);
    push_arg(&mut args, "--max-turns");
    push_arg(&mut args, dec_string(cfg.max_turns_per_tick as u64).as_str());
    push_arg(&mut args, "--output-format");
    push_arg(&mut args, "streaming-json");
    // Single auto-approve flag only (--yolo == --always-approve).
    push_arg(&mut args, "--yolo");
    push_arg(&mut args, "--no-subagents");
    push_arg(&mut args, "--disable-web-search");
    let ghost base = texts(args@);
    // Confine the agent to *playing* (not exploring the repo): remove built-in
    // file/shell tools, drop the global coding context, and sandbox the fs.
    if cfg.disallowed_tools.len() > 0 {
        push_arg(&mut args, "--disallowed-tools");
        push_arg(&mut args, join(&cfg.disallowed_tools, ",").as_str());
    }
    let ghost confined = texts(args@);
    if cfg.no_memory {
        push_arg(&mut args, "--no-memory");
    }
    let ghost forgetful = texts(args@);
    if let Some(profile) = &cfg.grok_sandbox {
        push_arg(&mut args, "--sandbox");
        push_arg(&mut args, profile.as_str());
    }
    let ghost boxed = texts(args@);
    if session_started {
        push_arg(&mut args, "--resume");
    } else {
        push_arg(&mut args, "--session-id");
    }
    push_arg(&mut args, session_id);
    proof {
        let flag = if session_started { "--resume"@ } else { "--session-id"@ };
        assert(texts(args@) =~= boxed + seq![flag, session_id@]);
        if cfg.disallowed_tools@.len() > 0 {
            assert(confined =~= base + seq![
                "--disallowed-tools"@,
                joined(texts(cfg.disallowed_tools@), ","@),
            ]);
        }
        if cfg.no_memory {
            assert(forgetful =~= confined + seq!["--no-memory"@]);
        }
        if let Some(profile) = &cfg.grok_sandbox {
            assert(boxed =~= forgetful + seq!["--sandbox"@, profile@]);
        }
        assert(base =~= seq![
            "--prompt-file"@,
            prompt_file@,
            "-m"@,
            model@,
            "--cwd"@,
            workdir@,
            "--max-turns"@,
            dec(cfg.max_turns_per_tick as nat),
            "--output-format"@,
            "streaming-json"@,
            "--yolo"@,
            "--no-subagents"@,
            "--disable-web-search"@,
        ]);
    }
    args
}

/// The MCP configuration of an agent.
pub open spec fn mcp_config(
    bin: Seq<char>,
    sock: Seq<char>,
    token_file: Seq<char>,
    game_id: u64,
    role: AgentRole,
) -> Seq<char> {
    MCP_CONFIG_HEAD@ + bin + "\"\nargs = [\"--socket\", \""@ + sock + "\", \"--token-file\", \""@
        + token_file + "\", \"--game-id\", \""@ + dec(game_id as nat) + "\", \"--role\", \""@ + (
    match role {
        AgentRole::Host => "host"@,
        AgentRole::Player { .. } => "player"@,
    }) + MCP_CONFIG_MIDDLE@ + dec(AWAIT_CLIENT_TIMEOUT_SECS as nat) + "\n"@
}

pub const MCP_CONFIG_HEAD: &'static str =
    "# Auto-generated by botc-tui — do not commit.\n[mcp_servers.botc]\ncommand = \"";

pub const MCP_CONFIG_MIDDLE: &'static str =
    "\"]\nenabled = true\nstartup_timeout_sec = 60\n\n[mcp_servers.botc.tool_timeouts]\nawait_turn = ";

/// The text of an agent's MCP configuration file.
pub fn agent_mcp_config(
    bin: &str,
    sock: &str,
    token_file: &str,
    game_id: u64,
    role: AgentRole,
) -> (s:
    String)
    ensures
        s@ == mcp_config(bin@, sock@, token_file@, game_id, role),
{
    let mut s = MCP_CONFIG_HEAD.to_owned();
    s.append(bin);
    s.append("\"\nargs = [\"--socket\", \"");
    s.append(sock);
    s.append("\", \"--token-file\", \"");
    s.append(token_file);
    s.append("\", \"--game-id\", \"");
    push_dec(&mut s, game_id);
    s.append("\", \"--role\", \"");
    match role {
        AgentRole::Host => s.append("host"),
        AgentRole::Player { .. } => s.append("player"),
    }
    s.append(MCP_CONFIG_MIDDLE);
    push_dec(&mut s, AWAIT_CLIENT_TIMEOUT_SECS);
    s.append("\n");
    s
}

/// Slashes written as `%2F`.
pub open spec fn flattened_path(path: Seq<char>) -> Seq<char>
    decreases path.len(),
{
    if path.len() == 0 {
        seq![]
    } else {
        let front = flattened_path(path.drop_last());
        if path.last() == '/' { front + "%2F"@ } else { front.push(path.last()) }
    }
}

/// Directory name under which the sessions of a working directory are kept.
#[verifier::loop_isolation(false)]
pub fn session_dir_name(abs: &str) -> (s: String)
    ensures
        s@ == flattened_path(abs@),
{
    let chars = chars_of(abs);
    let mut s = String::new();
    let mut i: usize = 0;
    assert(s@ =~= flattened_path(abs@.take(0)));
    while i < chars.len()
        invariant
            i <= chars@.len(),
            s@ == flattened_path(abs@.take(i as int)),
        decreases chars@.len() - i,
    {
        assert(abs@.take(i + 1).drop_last() =~= abs@.take(i as int));
        if chars[i] == '/' {
            s.append("%2F");
        } else {
            s.push(chars[i]);
        }
        i += 1;
    }
    assert(abs@.take(i as int) =~= abs@);
    s
}

// ---------------------------------------------------------------------------
// Prompts
// ---------------------------------------------------------------------------

/// The first prompt of an agent.
pub fn kickoff_prompt(agent: &AgentConfig, n_players: usize, st_choice_mode: &str) -> (s: String)
    ensures
        s@ == (match agent.role {
            AgentRole::Host => prompts::host_kickoff_text(
                agent.game_id,
                n_players,
                st_choice_mode@,
            ),
            AgentRole::Player { seat } => prompts::player_kickoff_text(
                agent.display_name@,
                seat,
                agent.game_id,
                n_players,
            ),
        }),
{
    match agent.role {
        AgentRole::Host => prompts::host_kickoff(agent.game_id, n_players, st_choice_mode),
        AgentRole::Player { seat } => prompts::player_kickoff(
            agent.display_name.as_str(),
            seat,
            agent.game_id,
            n_players,
        ),
    }
}

/// The prompt of an agent for one more turn.
pub fn tick_prompt(agent: &AgentConfig, public_summary: &str, host_hint: &str) -> (s: String)
    ensures
        s@ == (match agent.role {
            AgentRole::Host => prompts::host_tick_text(
                agent.game_id,
                public_summary@,
                host_hint@,
            ),
            AgentRole::Player { seat } => prompts::player_tick_text(
                agent.display_name@,
                seat,
                agent.game_id,
                public_summary@,
            ),
        }),
{
    match agent.role {
        AgentRole::Host => prompts::host_tick(agent.game_id, public_summary, host_hint),
        AgentRole::Player { seat } => prompts::player_tick(
            agent.display_name.as_str(),
            seat,
            agent.game_id,
            public_summary,
        ),
    }
}

/// The prompt of an agent for the task that the game waits on.
pub fn task_prompt(
    agent: &AgentConfig,
    target: &SchedTarget,
    public_summary: &str,
    host_hint: &str,
) -> (s:
    String)
    ensures
        s@ == (match target@ {
            SchedTargetView::Host(task) => prompts::host_task_tick_text(
                agent.game_id,
                task,
                public_summary@,
                host_hint@,
            ),
            SchedTargetView::Player { seat, task } => prompts::player_task_tick_text(
                agent.display_name@,
                seat,
                agent.game_id,
                task,
                public_summary@,
            ),
        }),
{
    match target {
        SchedTarget::Host(task) => prompts::host_task_tick(
            agent.game_id,
            task,
            public_summary,
            host_hint,
        ),
        SchedTarget::Player { seat, task } => prompts::player_task_tick(
            agent.display_name.as_str(),
            *seat,
            agent.game_id,
            task,
            public_summary,
        ),
    }
}

/// The role that a target asks for.
pub open spec fn target_role(t: SchedTargetView) -> AgentRole {
    match t {
        SchedTargetView::Host(_) => AgentRole::Host,
        SchedTargetView::Player { seat, .. } => AgentRole::Player { seat },
    }
}

/// The first agent in a role.
pub fn find_agent(agents: &Vec<AgentConfig>, target: &SchedTarget) -> (r: Option<usize>)
    ensures
        match r {
            Some(i) => i < agents@.len() && agents@[i as int].role == target_role(target@) && (
            forall|k: int| 0 <= k < i ==> (#[trigger] agents@[k]).role != target_role(target@)),
            None => forall|k: int|
                0 <= k < agents@.len() ==> (#[trigger] agents@[k]).role != target_role(target@),
        },
{
    let role = match target {
        SchedTarget::Host(_) => AgentRole::Host,
        SchedTarget::Player { seat, .. } => AgentRole::Player { seat: *seat },
    };
    let mut i: usize = 0;
    while i < agents.len()
        invariant
            i <= agents@.len(),
            role == target_role(target@),
            forall|k: int| 0 <= k < i ==> (#[trigger] agents@[k]).role != role,
        decreases agents@.len() - i,
    {
        if agents[i].role == role {
            return Some(i);
        }
        i += 1;
    }
    None
}

/// Result of attempting to run one agent.
#[derive(Debug, Clone, Copy, PartialEq, Eq, Structural)]
pub enum TickOutcome {
    Spawned,
    SkippedStillRunning,
    Failed,
}

/// How many of the attempts started an agent.
pub open spec fn spawned(outcomes: Seq<TickOutcome>) -> nat
    decreases outcomes.len(),
{
    if outcomes.len() == 0 {
        0
    } else {
        spawned(outcomes.drop_last()) + if outcomes.last() is Spawned { 1nat } else { 0nat }
    }
}

/// What a round of attempts comes to: how many agents were started, or the position of the last
/// failure where none was. One failure does not abort the rest.
#[verifier::loop_isolation(false)]
pub fn round_outcome(outcomes: &Vec<TickOutcome>) -> (r: Result<usize, usize>)
    ensures
        match r {
            Ok(n) => n == spawned(outcomes@) && (n > 0 || !outcomes@.contains(TickOutcome::Failed)),
            Err(i) => spawned(outcomes@) == 0 && i < outcomes@.len() && outcomes@[i as int]
                is Failed && forall|k: int| i < k < outcomes@.len() ==> !(outcomes@[k] is Failed),
        },
{
    let mut n: usize = 0;
    let mut last_err: Option<usize> = None;
    let mut i: usize = 0;
    while i < outcomes.len()
        invariant
            i <= outcomes@.len(),
            n == spawned(outcomes@.take(i as int)),
            n <= i,
            match last_err {
                Some(e) => e < i && outcomes@[e as int] is Failed && forall|k: int|
                    e < k < i ==> !(outcomes@[k] is Failed),
                None => forall|k: int| 0 <= k < i ==> !(outcomes@[k] is Failed),
            },
        decreases outcomes@.len() - i,
    {
        assert(outcomes@.take(i + 1).drop_last() =~= outcomes@.take(i as int));
        match outcomes[i] {
            TickOutcome::Spawned => n += 1,
            TickOutcome::SkippedStillRunning => {},
            TickOutcome::Failed => last_err = Some(i),
        }
        i += 1;
    }
    assert(outcomes@.take(i as int) =~= outcomes@);
    if n == 0 {
        if let Some(e) = last_err {
            return Err(e);
        }
    }
    Ok(n)
}

/// What the end of a run means for the session.
#[derive(Debug, Clone, Copy, PartialEq, Eq, Structural)]
pub struct SettledSession {
    /// The session exists: the next run resumes it.
    pub started: bool,
    /// No session was created (auth/spawn death): the next run needs a fresh id.
    pub needs_fresh_id: bool,
}

/// What the end of a run means for the session: the stream's evidence decides, not the exit code
/// (a run that used up its turns exits non-zero and is resumable).
pub fn settle_session(established: bool, was_started: bool) -> (v: SettledSession)
    ensures
        v.started == (established || was_started),
        v.needs_fresh_id == (!established && !was_started),
{
    SettledSession { started: established || was_started, needs_fresh_id: !established && !was_started }
}

// ---------------------------------------------------------------------------
// Token counts
// ---------------------------------------------------------------------------

/// Token spend for one headless run, from streaming-json `end.usage`.
#[derive(Debug, Clone, Copy, PartialEq, Eq, Structural)]
pub struct TickUsage {
    pub input_tokens: u64,
    pub cache_read_input_tokens: u64,
    pub output_tokens: u64,
    pub reasoning_tokens: u64,
    /// Full prompt+output including cache.
    pub total_tokens: u64,
    pub num_turns: Option<u32>,
}

/// A sum that stops at `u64::MAX`.
pub open spec fn capped_sum(a: u64, b: u64) -> u64 {
    if a + b <= u64::MAX { (a + b) as u64 } else { u64::MAX }
}

/// Turns of both, where either counts them.
pub open spec fn turns_of_both(a: Option<u32>, b: Option<u32>) -> Option<u32> {
    match (a, b) {
        (Some(x), Some(y)) => Some(if x + y <= u32::MAX { (x + y) as u32 } else { u32::MAX }),
        (Some(x), None) => Some(x),
        (None, y) => y,
    }
}

impl TickUsage {
    pub open spec fn zero() -> TickUsage {
        TickUsage {
            input_tokens: 0,
            cache_read_input_tokens: 0,
            output_tokens: 0,
            reasoning_tokens: 0,
            total_tokens: 0,
            num_turns: None,
        }
    }

    /// The spend of both; each count stops at its maximum.
    pub open spec fn plus(self, other: TickUsage) -> TickUsage {
        TickUsage {
            input_tokens: capped_sum(self.input_tokens, other.input_tokens),
            cache_read_input_tokens: capped_sum(
                self.cache_read_input_tokens,
                other.cache_read_input_tokens,
            ),
            output_tokens: capped_sum(self.output_tokens, other.output_tokens),
            reasoning_tokens: capped_sum(self.reasoning_tokens, other.reasoning_tokens),
            total_tokens: capped_sum(self.total_tokens, other.total_tokens),
            num_turns: turns_of_both(self.num_turns, other.num_turns),
        }
    }

    pub fn accumulate(&mut self, other: &TickUsage)
        ensures
            *final(self) == old(self).plus(*other),
    {
        self.input_tokens = self.input_tokens.saturating_add(other.input_tokens);
        self.cache_read_input_tokens = self.cache_read_input_tokens.saturating_add(
            other.cache_read_input_tokens,
        );
        self.output_tokens = self.output_tokens.saturating_add(other.output_tokens);
        self.reasoning_tokens = self.reasoning_tokens.saturating_add(other.reasoning_tokens);
        self.total_tokens = self.total_tokens.saturating_add(other.total_tokens);
        // num_turns: sum tool-loop rounds across runs.
        self.num_turns = match (self.num_turns, other.num_turns) {
            (Some(a), Some(b)) => Some(a.saturating_add(b)),
            (Some(a), None) => Some(a),
            (None, Some(b)) => Some(b),
            (None, None) => None,
        };
    }
}

impl Default for TickUsage {
    fn default() -> (u: TickUsage)
        ensures
            u == TickUsage::zero(),
    {
        TickUsage {
            input_tokens: 0,
            cache_read_input_tokens: 0,
            output_tokens: 0,
            reasoning_tokens: 0,
            total_tokens: 0,
            num_turns: None,
        }
    }
}

/// `num / den` rounded to the nearest whole number, halves to the even one.
pub open spec fn nearest(num: nat, den: nat) -> nat {
    let q = num / den;
    let r = num % den;
    if 2 * r > den || (2 * r == den && q % 2 == 1) { q + 1 } else { q }
}

/// The smallest power of two by which `n` has to be multiplied to reach `target`.
pub open spec fn scale_to(n: nat, target: nat) -> nat
    decreases (if n < target { target - n } else { 0 }),
{
    if n == 0 || n >= target { 1 } else { 2 * scale_to(2 * n, target) }
}

/// The smallest power of two, from `unit` on, of which `n` holds fewer than 2^53.
pub open spec fn unit_of(n: nat, unit: nat) -> nat
    decreases (if n >= TWO_53 * unit { n - TWO_53 * unit + 1 } else { 0 }),
{
    if unit == 0 || n < TWO_53 * unit { unit } else { unit_of(n, 2 * unit) }
}

pub const TWO_52: u128 = 4503599627370496;

pub const TWO_53: u128 = 9007199254740992;

/// The whole number nearest to `n` with 53 significant bits.
pub open spec fn double_of(n: nat) -> nat {
    nearest(n, unit_of(n, 1)) * unit_of(n, 1)
}

/// Tenths of `n / d` as they print with one decimal: the count and the quotient are each taken to
/// the nearest double-precision number, halves to even, and so is the decimal.
pub open spec fn tenths(n: nat, d: nat) -> nat {
    let whole = double_of(n);
    let p = scale_to(whole, (TWO_52 * d) as nat);
    nearest(10 * nearest(whole * p, d), p)
}

/// A count in tenths with its unit.
pub open spec fn with_decimal(t: nat, unit: Seq<char>) -> Seq<char> {
    dec(t / 10) + "."@ + dec(t % 10) + unit
}

/// A token count in short.
pub open spec fn short_count(n: u64) -> Seq<char> {
    if n >= 1_000_000 {
        with_decimal(tenths(n as nat, 1_000_000), "M"@)
    } else if n >= 10_000 {
        dec(((n + 500) / 1_000) as nat) + "k"@
    } else if n >= 1_000 {
        with_decimal(tenths(n as nat, 1_000), "k"@)
    } else {
        dec(n as nat)
    }
}

fn round_div(num: u128, den: u128) -> (q: u128)
    requires
        den > 0,
        den < 0x8000_0000_0000_0000_0000_0000_0000_0000,
    ensures
        q == nearest(num as nat, den as nat),
        num / den <= q <= num / den + 1,
{
    let q: u128 = num / den;
    let r: u128 = num % den;
    if 2 * r > den || (2 * r == den && q % 2 == 1) {
        proof {
            assert(q < u128::MAX) by (nonlinear_arith)
                requires
                    q == num as int / den as int,
                    2 * r >= den,
                    r == num as int % den as int,
                    num <= u128::MAX,
                    den > 0,
            ;
        }
        q + 1
    } else {
        q
    }
}

/// The nearest double of a count.
fn to_double(n: u64) -> (r: u128)
    ensures
        r == double_of(n as nat),
        r <= 0x1_0000_0000_0000_0000,
        n > 0 ==> r > 0,
{
    let wide: u128 = n as u128;
    let mut unit: u128 = 1;
    while wide >= TWO_53 * unit
        invariant
            wide == n,
            1 <= unit <= 2048,
            unit_of(n as nat, 1) == unit_of(n as nat, unit as nat),
            unit == 1 || 2 * wide >= TWO_53 * unit,
            unit == 1 || unit == 2 || unit == 4 || unit == 8 || unit == 16 || unit == 32 || unit
                == 64 || unit == 128 || unit == 256 || unit == 512 || unit == 1024 || unit == 2048,
        decreases 4096 - unit,
    {
        unit = unit * 2;
    }
    let q = round_div(wide, unit);
    proof {
        assert(n > 0 ==> q * unit > 0) by (nonlinear_arith)
            requires
                q >= wide / unit,
                wide == n,
                unit >= 1,
                unit == 1 || 2 * wide >= TWO_53 * unit,
        ;
        assert(q * unit <= 0x1_0000_0000_0000_0000) by (nonlinear_arith)
            requires
                q <= wide / unit + 1,
                wide < TWO_53 * unit,
                q == nearest(wide as nat, unit as nat),
                wide <= 0xffff_ffff_ffff_ffff,
                unit == 1 || unit == 2 || unit == 4 || unit == 8 || unit == 16 || unit == 32 || unit
                    == 64 || unit == 128 || unit == 256 || unit == 512 || unit == 1024 || unit
                    == 2048,
        ;
    }
    q * unit
}

/// Tenths of a count fit into 64 bits.
proof fn tenths_fit(whole: int, p: int, d: int, scaled: int, f: int, t: int)
    requires
        0 < whole <= 0x1_0000_0000_0000_0000,
        p >= 1,
        d >= 1_000,
        scaled == whole * p,
        0 <= f <= scaled / d + 1,
        t <= (10 * f) / p + 1,
    ensures
        t <= 0x1000_0000_0000_0000,
{
    let w: int = 0x1_0000_0000_0000_0000;
    assert(scaled <= w * p) by (nonlinear_arith)
        requires
            scaled == whole * p,
            whole <= w,
            p >= 1,
    ;
    assert(scaled / d <= scaled / 1000) by (nonlinear_arith)
        requires
            d >= 1000,
            scaled >= 0,
    ;
    assert(scaled >= 0) by (nonlinear_arith)
        requires
            scaled == whole * p,
            whole > 0,
            p >= 1,
    ;
    let k = w / 1000 + 1;
    assert(scaled / 1000 <= k * p) by (nonlinear_arith)
        requires
            scaled <= w * p,
            k == w / 1000 + 1,
            p >= 1,
    ;
    assert(10 * f <= (10 * k + 10) * p) by (nonlinear_arith)
        requires
            f <= k * p + 1,
            p >= 1,
    ;
    assert((10 * f) / p <= 10 * k + 10) by (nonlinear_arith)
        requires
            10 * f <= (10 * k + 10) * p,
            p >= 1,
    ;
}

/// Tenths of a count over a unit.
fn count_tenths(n: u64, d: u64) -> (t: u64)
    requires
        d == 1_000 || d == 1_000_000,
        n >= d,
    ensures
        t == tenths(n as nat, d as nat),
{
    let whole = to_double(n);
    let target: u128 = TWO_52 * (d as u128);
    let mut scaled: u128 = whole;
    let mut p: u128 = 1;
    while scaled < target
        invariant
            0 < whole <= 0x1_0000_0000_0000_0000,
            target == TWO_52 * d,
            d == 1_000 || d == 1_000_000,
            p >= 1,
            whole <= scaled,
            scaled == whole * p,
            p <= scaled,
            scaled < 2 * target || p == 1,
            scale_to(whole as nat, target as nat) == p * scale_to(scaled as nat, target as nat),
        decreases (if scaled < target { target - scaled } else { 0 }),
    {
        proof {
            let rest = scale_to((2 * scaled) as nat, target as nat);
            assert(p * (2 * rest) == (2 * p) * rest) by (nonlinear_arith);
            assert(2 * scaled == whole * (2 * p)) by (nonlinear_arith)
                requires
                    scaled == whole * p,
            ;
        }
        scaled = scaled * 2;
        p = p * 2;
    }
    assert(scale_to(scaled as nat, target as nat) == 1);
    assert(p * 1 == p);
    let f = round_div(scaled, d as u128);
    assert(f <= 0x1_0000_0000_0000_0000_0000) by (nonlinear_arith)
        requires
            f <= scaled / (d as u128) + 1,
            scaled < 0x1_0000_0000_0000_0000_0000,
            d >= 1000,
    ;
    let t = round_div(10 * f, p);
    proof {
        tenths_fit(whole as int, p as int, d as int, scaled as int, f as int, t as int);
    }
    t as u64
}

fn decimal(t: u64, unit: &str) -> (s: String)
    ensures
        s@ == with_decimal(t as nat, unit@),
{
    let mut s = dec_string(t / 10);
    s.append(".");
    push_dec(&mut s, t % 10);
    s.append(unit);
    s
}

/// Human token count: `940`, `12k`, `1.2M`.
pub fn format_token_count(n: u64) -> (s: String)
    ensures
        s@ == short_count(n),
{
    if n >= 1_000_000 {
        decimal(count_tenths(n, 1_000_000), "M")
    } else if n >= 10_000 {
        let mut s = dec_string((n + 500) / 1_000);
        s.append("k");
        s
    } else if n >= 1_000 {
        decimal(count_tenths(n, 1_000), "k")
    } else {
        dec_string(n)
    }
}

// ---------------------------------------------------------------------------
// Laws
// ---------------------------------------------------------------------------

/// The tools through which the game is reached are never removed: the default list strips
/// neither `search_tool` nor `use_tool`.
pub proof fn game_tools_are_kept(i: int)
    requires
        0 <= i < stripped_tools().len(),
    ensures
        stripped_tools()[i] != "search_tool"@,
        stripped_tools()[i] != "use_tool"@,
{
    reveal_strlit("search_tool");
    reveal_strlit("use_tool");
    reveal_strlit("run_terminal_command");
    reveal_strlit("read_file");
    reveal_strlit("list_dir");
    reveal_strlit("search_replace");
    reveal_strlit("grep");
    reveal_strlit("get_command_or_subagent_output");
    reveal_strlit("kill_command_or_subagent");
    reveal_strlit("image_edit");
    reveal_strlit("web_search");
    reveal_strlit("x_keyword_search");
    reveal_strlit("x_semantic_search");
    reveal_strlit("x_thread_fetch");
    reveal_strlit("x_user_search");
    assert("search_tool"@.len() == 11 && "use_tool"@.len() == 8);
    assert("list_dir"@.len() == 8 && "list_dir"@[0] == 'l' && "use_tool"@[0] == 'u');
}

/// A session that exists is resumed and one that does not is opened under the given id: the
/// arguments end in exactly one of the two flags and the id, and the model is the caller's.
pub proof fn sessions_are_continued(
    cfg: HarnessConfig,
    model: Seq<char>,
    workdir: Seq<char>,
    prompt_file: Seq<char>,
    session_id: Seq<char>,
    started: bool,
)
    ensures
        ({
            let args = tick_args(cfg, model, workdir, prompt_file, session_id, started);
            &&& args.last() == session_id
            &&& args[args.len() - 2] == (if started { "--resume"@ } else { "--session-id"@ })
            &&& args[2] == "-m"@ && args[3] == model
        }),
{
}

/// A flag that decides about approval, the model or the session.
pub open spec fn is_key_flag(arg: Seq<char>) -> bool {
    arg == "--yolo"@ || arg == "--always-approve"@ || arg == "-m"@ || arg == "--resume"@ || arg
        == "--session-id"@
}

proof fn numbers_are_no_flags(n: nat)
    ensures
        dec(n).len() > 0,
        dec(n)[0] != '-',
    decreases n,
{
    if n >= 10 {
        numbers_are_no_flags(n / 10);
    }
}

/// All but the key flags stand in the way of none of them.
proof fn other_flags_are_plain()
    ensures
        !is_key_flag("--prompt-file"@),
        !is_key_flag("--cwd"@),
        !is_key_flag("--max-turns"@),
        !is_key_flag("--output-format"@),
        !is_key_flag("streaming-json"@),
        !is_key_flag("--no-subagents"@),
        !is_key_flag("--disable-web-search"@),
        !is_key_flag("--disallowed-tools"@),
        !is_key_flag("--no-memory"@),
        !is_key_flag("--sandbox"@),
        "--yolo"@ != "-m"@ && "--yolo"@ != "--always-approve"@ && "-m"@ != "--always-approve"@,
        "--resume"@ != "--session-id"@,
        "--resume"@ != "--yolo"@ && "--resume"@ != "-m"@ && "--resume"@ != "--always-approve"@,
        "--session-id"@ != "--yolo"@ && "--session-id"@ != "-m"@,
        "--session-id"@ != "--always-approve"@,
        "--yolo"@ != "--resume"@ && "--yolo"@ != "--session-id"@,
        "-m"@ != "--resume"@ && "-m"@ != "--session-id"@,
        "-m"@[0] == '-' && "--yolo"@[0] == '-' && "--always-approve"@[0] == '-',
        "--resume"@[0] == '-' && "--session-id"@[0] == '-',
{
    reveal_strlit("--prompt-file");
    reveal_strlit("-m");
    reveal_strlit("--cwd");
    reveal_strlit("--max-turns");
    reveal_strlit("--output-format");
    reveal_strlit("streaming-json");
    reveal_strlit("--yolo");
    reveal_strlit("--no-subagents");
    reveal_strlit("--disable-web-search");
    reveal_strlit("--disallowed-tools");
    reveal_strlit("--no-memory");
    reveal_strlit("--sandbox");
    reveal_strlit("--resume");
    reveal_strlit("--session-id");
    reveal_strlit("--always-approve");
    assert("--prompt-file"@.len() == 13 && "-m"@.len() == 2);
    assert("--cwd"@.len() == 5 && "--max-turns"@.len() == 11);
    assert("--output-format"@.len() == 15 && "streaming-json"@.len() == 14);
    assert("--yolo"@.len() == 6 && "--no-subagents"@.len() == 14);
    assert("--disable-web-search"@.len() == 20 && "--disallowed-tools"@.len() == 18);
    assert("--no-memory"@.len() == 11 && "--sandbox"@.len() == 9);
    assert("--resume"@.len() == 8 && "--session-id"@.len() == 12);
    assert("--always-approve"@.len() == 16);
}

/// The arguments up to the session: what a fresh and a resumed run have in common.
pub open spec fn run_args(
    cfg: HarnessConfig,
    model: Seq<char>,
    workdir: Seq<char>,
    prompt_file: Seq<char>,
) -> Seq<Seq<char>> {
    tick_args(cfg, model, workdir, prompt_file, seq![], false).drop_last().drop_last()
}

/// A fresh run and a resumed one differ in the last two arguments alone, `--session-id` or
/// `--resume` and the id. As long as no value is itself such a flag, neither has the flag of the
/// other, each approves by exactly one `--yolo` and no alias of it, and the only `-m` is followed
/// by the model of the seat.
pub proof fn flags_are_given_once(
    cfg: HarnessConfig,
    model: Seq<char>,
    workdir: Seq<char>,
    prompt_file: Seq<char>,
    session_id: Seq<char>,
    started: bool,
    i: int,
)
    requires
        !is_key_flag(model) && !is_key_flag(workdir) && !is_key_flag(prompt_file) && !is_key_flag(
            session_id,
        ),
        !is_key_flag(joined(texts(cfg.disallowed_tools@), ","@)),
        cfg.grok_sandbox matches Some(profile) ==> !is_key_flag(profile@),
        0 <= i < tick_args(cfg, model, workdir, prompt_file, session_id, started).len(),
    ensures
        ({
            let args = tick_args(cfg, model, workdir, prompt_file, session_id, started);
            let n = args.len();
            &&& args == run_args(cfg, model, workdir, prompt_file) + seq![
                if started { "--resume"@ } else { "--session-id"@ },
                session_id,
            ]
            &&& args[i] == "--yolo"@ <==> i == 10
            &&& args[i] != "--always-approve"@
            &&& args[i] == "-m"@ <==> i == 2
            &&& args[3] == model
            &&& args[i] == "--resume"@ <==> started && i == n - 2
            &&& args[i] == "--session-id"@ <==> !started && i == n - 2
        }),
{
    other_flags_are_plain();
    numbers_are_no_flags(cfg.max_turns_per_tick as nat);
    let turns = dec(cfg.max_turns_per_tick as nat);
    assert(!is_key_flag(turns));
    let args = tick_args(cfg, model, workdir, prompt_file, session_id, started);
    let common = run_args(cfg, model, workdir, prompt_file);
    assert(args =~= common + seq![
        if started { "--resume"@ } else { "--session-id"@ },
        session_id,
    ]);
    assert forall|k: int| 0 <= k < common.len() && k != 2 && k != 10 implies !is_key_flag(
        #[trigger] common[k],
    ) by {}
    assert(common[2] == "-m"@ && common[10] == "--yolo"@);
    if i < common.len() {
        assert(args[i] == common[i]);
    }
}

/// Stepping forward and back again leads back to a listed model.
pub proof fn stepping_back_undoes_a_step(current: Seq<char>, list: Seq<Seq<char>>)
    requires
        list.no_duplicates(),
        list.contains(current),
    ensures
        stepped(stepped(current, list, 1), list, -1) == current,
        stepped(stepped(current, list, -1), list, 1) == current,
{
    let n = list.len() as int;
    let i = list.index_of(current);
    assert forall|k: int| 0 <= k < i implies list[k] != current by {}
    place_of_first(list, current, i);
    let up = (i + 1) % n;
    let down = (i - 1) % n;
    assert forall|k: int| 0 <= k < up implies list[k] != list[up] by {}
    assert forall|k: int| 0 <= k < down implies list[k] != list[down] by {}
    place_of_first(list, list[up], up);
    place_of_first(list, list[down], down);
    assert((up - 1) % n == i) by {
        if i + 1 < n {
            assert(up == i + 1) by (nonlinear_arith)
                requires
                    up == (i + 1) % n,
                    0 <= i + 1 < n,
            ;
            assert((up - 1) % n == i) by (nonlinear_arith)
                requires
                    up == i + 1,
                    0 <= i < n,
            ;
        } else {
            lemma_fundamental_div_mod_converse(i + 1, n, 1, 0);
            lemma_fundamental_div_mod_converse(-1, n, -1, n - 1);
        }
    }
    assert((down + 1) % n == i) by {
        if i > 0 {
            assert(down == i - 1) by (nonlinear_arith)
                requires
                    down == (i - 1) % n,
                    0 <= i - 1 < n,
            ;
            assert((down + 1) % n == i) by (nonlinear_arith)
                requires
                    down == i - 1,
                    0 <= i < n,
            ;
        } else {
            lemma_fundamental_div_mod_converse(-1, n, -1, n - 1);
            lemma_fundamental_div_mod_converse(n, n, 1, 0);
        }
    }
}

} // verus!
