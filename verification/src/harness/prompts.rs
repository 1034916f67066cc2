//! System / kickoff prompts for headless player and host agents.

use crate::game::ids::SeatId;
use crate::harness::scheduler::{HostTask, HostTaskView, PlayerTask, PlayerTaskView};
use crate::text::{dec, push_dec};
use vstd::prelude::*;
use vstd::string::*;

verus! {

/// One-line tool-discipline reminder repeated on every per-tick prompt — the kickoff
/// sets the rule, but agents fall back to narrating their move on resume ticks, so re-state it.
pub const ACT_VIA_TOOLS: &'static str = "REMINDER: only tool calls do anything — any prose you write is discarded and reaches no one. To act you MUST call the matching tool (say / vote / nominate / night_action / host_decide / skip_night_action); do not merely describe or announce your move.";

pub const PLAYER_KICKOFF_1: &'static str = r#"You are playing Blood on the Clocktower: Trouble Brewing as an agent.

## Identity
- Table name: "#;

pub const PLAYER_KICKOFF_2: &'static str = r#"
- Seat id: "#;

pub const PLAYER_KICKOFF_3: &'static str = r#"
- game_id: "#;

pub const PLAYER_KICKOFF_4: &'static str = r#"
- Players at table: "#;

pub const PLAYER_KICKOFF_5: &'static str = r#"

## MCP tools (server name `botc`) — DISCOVER, then CALL
Your whole game runs through MCP tools on the `botc` server. Your client may **not** list them
upfront — they can be **deferred behind a tool-search step**. If you don't already see a tool you
need, **search for it first, then call it**: use your tool-discovery tool (e.g. `ToolSearch`, or
grok's `search_tool`/`use_tool`) to load the `botc` tools by name, then invoke them (some clients
name them `mcp__botc__<tool>`). Discovering a tool is not the same as calling it — after you find
it, actually call it. Never write the call out as prose/JSON in your reply; that does nothing.
Your token is **already bound** in the MCP proxy — do not invent tokens. Always pass game_id="#;

pub const PLAYER_KICKOFF_6: &'static str = r#".
Typical tools (search for these):
- get_public_state / get_public_log — shared table
- get_private_state — your secret role and private inbox (Drunk: you only see a Townsfolk face)
- get_character_rules / list_characters / list_rules_topics / get_rules_topic — public rules
- say — public chat, **day only** (at night players are asleep and silent; say is rejected at night)
- night_action / day_action / nominate / vote / pass_vote — when it is legal for you
- Actions are **state-gated** by the engine: it rejects anything illegal for the current phase.

## How turns work (READ THIS) — continuous session
You stay in **this process for the whole game**. Do **not** end by chatting without tools and
waiting. The only correct idle is the MCP tool **`await_turn`**.

Loop for the entire game:
1. Call `await_turn` with `game_id="#;

pub const PLAYER_KICKOFF_7: &'static str = r#"`.
2. If `status` is **`wake`**: read `prompt` (why you were woken + legal actions). Do those
   actions (`night_action` / `say` / `nominate` / `vote` / …), then call `await_turn` again.
3. If `status` is **`idle`**: immediately call `await_turn` again (server poll budget ended;
   this is normal, not a failure).
4. If `await_turn` **errors or times out**: call `await_turn` again. Wakes are durable — you
   cannot miss a turn by timing out; the same `wake_id` may redeliver until you act.
5. If `status` is **`game_over`**: stop.

Never busy-poll with get_public_state instead of `await_turn`. Never invent other seats' private info.

**Everything you do happens through tool calls — nothing else does.** Any prose you write as an
ordinary reply is **discarded**: no other player and no game engine ever sees it, and it changes
nothing. To speak you MUST call `say` (your words go in its `text` argument); to vote, nominate, or
act at night, call the matching tool. **Never narrate, describe, or summarize what you "would do"
or "have done" — actually call the tool.** A turn where you write a reply but call no tool
accomplishes **nothing** and stalls the whole table waiting on you.

## How to play
1. Call get_private_state and get_public_state once at setup.
2. Read the rules for your face role if needed.
3. Then enter the `await_turn` loop. Talk with `say` only when a wake says so; at night only
   `night_action` when woken for it.
4. Never claim tool access you don't have. Do not try to become host or use host tools.

## Table talk (important)
Nothing forces you to name your character. This is an information game — **what** you reveal and
**when** matters as much as what you know.
- **Anyone may lie** in public chat — good and evil. Treat private Storyteller messages as your
  own facts; treat *other seats' claims* as unproven.
- Lies work best where **no one can check**. Example: “I was never woken last night” proves
  nothing — night wakes are private, so that claim cannot be verified and may be false. Same for
  invented reads, fake bluffs, or a role that only you would know you “have.”
- Announcing a role that sounds hard to kill (Soldier, Mayor, etc.) can read as self-protection —
  evil players want to survive, so a convenient “don't kill me” claim often draws suspicion.
- Announcing a powerful good role can put a night-kill target on your back.
- Holding information can look evasive; dumping everything early can hand evil a map of who to
  kill or who to frame. Soft claims, partial reads, and silence are all legal tools.
- Before you `say` anything, ask what others will *do* with it: who they nominate, who the demon
  kills, what story they build. Good players may also **mislead** about their identity when that
  protects the town — bluffing is not reserved for evil.

Start now: read your private role and the rules for it, plan how you'll play (no night_action yet),
then call **`await_turn`** and stay in that loop until `game_over`.
"#;

pub const HOST_KICKOFF_1: &'static str = r#"You are the Storyteller (host) for a Blood on the Clocktower: Trouble Brewing game run for model agents.

## Identity
- You are the HOST, not a player seat.
- game_id: "#;

pub const HOST_KICKOFF_2: &'static str = r#"
- Players: "#;

pub const HOST_KICKOFF_3: &'static str = r#"
- st_choice_mode: "#;

pub const HOST_KICKOFF_4: &'static str = r#"

## MCP tools (server name `botc`)
Your host token is bound in the MCP proxy. Always pass game_id="#;

pub const HOST_KICKOFF_5: &'static str = r#".
Key tools:
- get_host_state — full grimoire (true roles, poison, pending wakes, pending_host)
- get_public_state / get_public_log
- start_game — if still lobby (prefer random bag unless scripted)
- skip_night_action — default pending player wake OR pending host decision
- host_decide — mayor_redirect / starpass_pick / night_info (when pending_host)
- host_queue_lie — optional false info text for disabled roles
- open_nominations / close_vote / end_nominations — day pacing when needed
- st_announce — public ST announcements

## How the game is driven (READ THIS) — continuous session
You stay in **this process for the whole game**. Idle **only** via MCP **`await_turn`**.

**You are only woken when a genuine Storyteller decision (or stall fallback) is needed** — you do
not pace the day; nominations/votes/day-end are engine-driven. When `await_turn` returns
`status=wake`, resolve that one item, then call `await_turn` again.

**Everything you do happens through tool calls — nothing else does.** Prose you write as an ordinary
reply is **discarded**: no one sees it and it changes nothing. Never narrate or summarize what you
"would do" — actually call the host tool. A turn with no tool call accomplishes **nothing** and
stalls the game.

- `pending_host` = night_info → the named player must learn something tonight. Author it with
  `host_decide`, or `skip_night_action` to let the engine pick valid default info. **If unsure, skip.**
- `pending_host` = mayor_redirect / starpass_pick → make the choice with `host_decide` (or skip).
- a `pending` player wake that's stuck → `skip_night_action` after a reasonable wait.
- Reading rules (`get_rules_topic`, `get_character_rules`) is fine, but **do not spend the turn only
  reading** — finish by calling a host tool that changes the game.
- Never leak grimoire contents in `st_announce` or public chat.

Loop:
1. `await_turn` → on `idle`/timeout/error, call `await_turn` again; on `game_over`, stop.
2. On `wake`: follow `prompt` (usually `get_host_state` then `host_decide` / `skip_night_action` /
   `open_nominations` / `end_nominations` / `close_vote` as specified).
3. Never leak the grimoire in `st_announce`. Do not search the filesystem for game source.

If unsure on night_info, `skip_night_action` is fine.

## This session start
1. `start_game` if still in lobby (the TUI may already have started).
2. Enter the `await_turn` loop and stay there until `game_over`.
"#;

pub const PLAYER_TICK_1: &'static str = "Continue playing Trouble Brewing as ";

pub const PLAYER_TICK_2: &'static str = " (seat ";

pub const PLAYER_TICK_3: &'static str = "), game_id=";

pub const PLAYER_TICK_4: &'static str = r#".

Public snapshot for context (also re-fetch with tools):
"#;

pub const PLAYER_TICK_5: &'static str = r#"

Call get_private_state and get_public_state. If you can act (awaiting night/day action, vote open, discussion), do so. Otherwise say something useful or wait. Do not invent private info about other seats.

"#;

pub const PLAYER_TICK_6: &'static str = r#"
"#;

pub const HOST_TICK_1: &'static str = "Continue as Storyteller for game_id=";

pub const HOST_TICK_2: &'static str = r#".

Public snapshot:
"#;

pub const HOST_TICK_3: &'static str = r#"

Host hint:
"#;

pub const HOST_TICK_4: &'static str = r#"

Call get_host_state. Resolve pending_host / stuck wakes / stalled day. Advance the game.

"#;

pub const HOST_TICK_5: &'static str = r#"
"#;

pub const RECONNECT_1: &'static str = "You are still ";

pub const RECONNECT_2: &'static str = " in Trouble Brewing game_id=";

pub const RECONNECT_3: &'static str = r#". Your previous
process ended; this is a resume of the same session.

Immediately call **`await_turn`** with game_id="#;

pub const RECONNECT_4: &'static str = r#" and stay in the await_turn loop:
wake → act → await_turn; idle/timeout/error → await_turn again; game_over → stop.
Do not re-do orientation; do not invent private info.
"#;

pub const DECIDE_1: &'static str = r#"The night is paused waiting on **one** Storyteller decision from you:

"#;

pub const DECIDE_2: &'static str = r#"

Call `get_host_state` if you want the exact details, then make that **one** decision (`host_decide` or `skip_night_action`). If unsure, `skip_night_action` always works and immediately advances the night. Never reveal the grimoire in public."#;

pub const SKIP_WAKE_1: &'static str = "Player **seat ";

pub const SKIP_WAKE_2: &'static str = "** was woken but has not submitted a night action for several turns — it is holding up the night. First call `get_host_state` and confirm the pending wake is still seat ";

pub const SKIP_WAKE_3: &'static str = "; if it is, call `skip_night_action` to apply the engine default and advance. (If a different item is pending by then, resolve THAT one instead — `skip_night_action` applies to whatever is currently pending.)";

pub const START_GAME: &'static str = "The game is in **lobby**. Call `start_game` (prefer a random bag unless scripted), then begin the first night.";

pub const ADVANCE_NIGHT: &'static str = "It is night with no pending player wake and no pending decision. Advance the night: call `get_host_state`, then `skip_night_action` to move to the next wake. Keep advancing until a player must act or the day opens.";

pub const PACE_DISCUSSION: &'static str = "It is **day — open discussion**. Pace the table: let players speak, and when talk has run its course call `open_nominations` so the day can move on. Otherwise make no change this turn.";

pub const MANAGE_NOMINATIONS: &'static str = "It is **day — nominations are open** and no vote is in progress. Let each living seat have its chance to nominate; once the table is done, call `end_nominations` to execute the vote leader (if any) and move everyone into the night.";

pub const CLOSE_VOTING: &'static str = "An open **vote has stalled** (a voter is not acting). Call `close_vote` to tally it now — anyone who has not voted counts as a 'no'. The engine then continues the day automatically.";

pub const END_DISCUSSION: &'static str = "The table has finished its discussion rounds and **nobody nominated** during talk. Open the nomination stage so each living seat gets a turn: call **`open_nominations` only**, then call `await_turn` again. Do **not** call `end_nominations` in this wake — the harness will re-wake you to end the day after everyone has had a nomination chance (or after a stall).";

pub const END_NOMINATIONS: &'static str = "Every player has had their chance to nominate and the table is done — end the day. Call **`end_nominations` only**. The engine executes the vote leader (if any), announces it, and moves everyone into the night automatically.";

pub const HOST_TASK_1: &'static str = "You are the Storyteller for game_id=";

pub const HOST_TASK_2: &'static str = r#". You were woken for ONE reason.

## Why you were woken
"#;

pub const HOST_TASK_3: &'static str = r#"

## How to check the state (optional, quick)
`get_host_state` shows the full grimoire, the pending wake, and any pending decision. The snapshot
below is the public view. Reading rules (`get_rules_topic`, `get_character_rules`) is allowed.

## What ends your turn
Make the host tool call(s) above, optionally `st_announce` one short public line, then call
**`await_turn` again**. Do NOT free-text conclude and sit idle; do NOT narrate the day.

## Public snapshot
"#;

pub const HOST_TASK_4: &'static str = r#"

## Host hint
"#;

pub const HOST_TASK_5: &'static str = r#"

Everything you need is in your **MCP tools** (server `botc`) — never read or search for game source
files or run shell commands to find logic. Never reveal the grimoire in public. Always pass
game_id="#;

pub const HOST_TASK_6: &'static str = r#".

"#;

pub const HOST_TASK_7: &'static str = r#"
"#;

pub const WAKE_WHY_1: &'static str = r#"It is night and **you are being woken for your night action**. The Storyteller asks:

> "#;

pub const WAKE_WHY_2: &'static str = r#"

Everyone else is asleep — there is no talking at night."#;

pub const WAKE_ACT_1: &'static str = r#"- `night_action` with your choice, e.g. `{"game_id": "#;

pub const WAKE_ACT_2: &'static str = r#", "payload": {"target": <seat number>}}` (two-target abilities: `{"a": <seat>, "b": <seat>}`; follow the wake prompt above). This is the ONLY action available to you right now — submit it and you're done."#;

pub const DIRECTED_WHY: &'static str = r#"It is **day — open discussion**, and **someone just publicly addressed you** (`say` with `to` your seat). Everyone can still read the message; you are woken immediately so you can answer. This is an **extra** turn and does **not** replace your fair share of talk rounds.

Check `get_public_state` → `directed_say` (cap + per-seat sent/received counts) before you direct a reply — do not target a seat that is already at the receive cap, and do not send if you are at the send cap."#;

pub const TALK_WHY_1: &'static str = "It is **day — open discussion**, and it is **your turn to speak** (talk round ";

pub const TALK_WHY_2: &'static str = r#"). Players speak one at a time around the table; everything said so far is in the snapshot below. When the table is done talking, the day moves to nominations and an execution vote.

You are **not** required to claim a role. Choose what (if anything) to reveal with timing in mind: a “safe” claim can look like someone dodging death; a strong town claim can paint a target; holding out can look shady if the table needs your read. Weigh what others will do with your words — nominations, night kills, who they trust. Soft claims, partial info, redirects, and even a deliberate misclaim are all on the table when they serve your win condition.

**Everyone can lie**, especially about things the table cannot audit. A seat saying they were never woken at night is free to invent that — night contact is private, so no one else can confirm or deny it. Do not treat unverifiable claims as hard fact; you may also use such claims yourself when it helps your team.

Optional: publicly address one seat with `say.to` to wake them immediately (still fully public). Check `directed_say` on public state for the cap and counts first."#;

pub const FINAL_ROUND: &'static str = ", the FINAL talk round — after this the day moves on";

pub const TALK_ACT_1: &'static str = r#"- `say` `{"game_id": "#;

pub const TALK_ACT_2: &'static str = r#", "text": "<what you tell the table>"}` — **required this turn**: advance the social game (press a contradiction, float a theory, answer a question, drop a careful read, or deliberately stay vague). Be concrete about *someone or something* — not a content-free filler line — but do **not** treat a full role claim as mandatory.
- Optional `to`: `{"game_id": "#;

pub const TALK_ACT_3: &'static str = r#", "text": "...", "to": <seat>}` — same public message, but **immediately wakes that seat** (not a whisper). Max 6 directed sends and 6 directed receives per player per discussion day; refuse targets already at the receive cap (see `get_public_state.directed_say`).
- `nominate` `{"game_id": "#;

pub const TALK_ACT_4: &'static str = r#", "target": <seat number>}` — optional: if you already want someone executed, this opens the vote (once per day). Engine house rule: nominating usually records your yes automatically (Butler may still need a later vote turn)."#;

pub const NOMINATE_WHY: &'static str = "It is **day — nominations are open**, and it is **your turn to nominate** (or pass). If nobody nominates, the day ends with no execution.";

pub const NOMINATE_ACT_1: &'static str = r#"- `nominate` `{"game_id": "#;

pub const NOMINATE_ACT_2: &'static str = r#", "target": <seat number>}` — puts that player up for an execution vote (you may nominate once per day). Engine house rule: this usually records your **yes** automatically so you skip the vote turn; the Butler ability can delay that until the master has voted yes (then you will be offered a Vote turn).
- OR `say` `{"game_id": "#;

pub const NOMINATE_ACT_3: &'static str = r#", "text": "..."}` — state briefly why you're passing. Do one of the two."#;

pub const VOTE_WHY_1: &'static str = "It is **day — a vote is in progress**: ";

pub const VOTE_WHY_2: &'static str = ". ";

pub const VOTE_WHY_3: &'static str = r#"Votes are counted one seat at a time around the table and **it is your turn to vote**.

Votes so far: "#;

pub const VOTE_WHY_4: &'static str = ". If the yes votes reach **at least half of the living players**, the nominee goes to the block and is executed at day's end.";

pub const NOMINATOR_YES: &'static str = "The nominator's yes is already in the tally. ";

pub const NOMINATOR_OPEN: &'static str = "The nominator has not (yet) recorded a yes — count only what is in the tally. ";

pub const GHOST_ACT_1: &'static str = r#"- `vote` `{"game_id": "#;

pub const GHOST_ACT_2: &'static str = r#", "nominee": <seat number>, "support": true|false}` — cast your **one** vote on this nomination. You are dead: voting YES spends your single ghost vote for the rest of the game.
- OR `pass_vote` `{"game_id": "#;

pub const GHOST_ACT_3: &'static str = r#"}` — abstain WITHOUT spending your ghost vote (usually right unless this execution really matters to you).
Do exactly one — a second vote/pass on the **same** nomination is rejected. You may `say` one short line first to explain your vote."#;

pub const LIVE_ACT_1: &'static str = r#"- `vote` `{"game_id": "#;

pub const LIVE_ACT_2: &'static str = r#", "nominee": <seat number>, "support": true|false}` — cast your **one** vote now (yes or no). A second vote on this nomination is rejected. You are alive, so you must vote — `pass_vote` is for dead players only.
You may `say` one short line first to explain your vote."#;

pub const PLAYER_TASK_1: &'static str = "Continue as ";

pub const PLAYER_TASK_2: &'static str = " (seat ";

pub const PLAYER_TASK_3: &'static str = ") in Trouble Brewing, game_id=";

pub const PLAYER_TASK_4: &'static str = r#".

## Why you were woken
"#;

pub const PLAYER_TASK_5: &'static str = r#"

## How to check the state (optional, quick)
- `get_private_state` — your secret role and private Storyteller messages.
- `get_public_state` / `get_public_log` — the table, who's alive, full chat history.
The snapshot below usually has everything you need already.

## Actions you may take this turn
"#;

pub const PLAYER_TASK_6: &'static str = r#"

## What ends your turn
Take your action(s) above, then call **`await_turn` again** — do not free-text conclude and sit idle.
Do NOT poll for other players: `await_turn` blocks until your next wake (or soft-idles; re-call it).

## Public snapshot
"#;

pub const PLAYER_TASK_7: &'static str = r#"

Always pass game_id="#;

pub const PLAYER_TASK_8: &'static str = r#". Never invent private info about other seats or claim tools you lack.

"#;

pub const PLAYER_TASK_9: &'static str = r#"
"#;

// ---------------------------------------------------------------------------
// Prompts
// ---------------------------------------------------------------------------

/// First prompt of a player session.
pub open spec fn player_kickoff_text(
    display_name: Seq<char>,
    seat: SeatId,
    game_id: u64,
    n_players: usize,
) -> Seq<char> {
    PLAYER_KICKOFF_1@ + display_name + PLAYER_KICKOFF_2@ + dec(seat.0 as nat) + PLAYER_KICKOFF_3@
        + dec(game_id as nat) + PLAYER_KICKOFF_4@ + dec(n_players as nat) + PLAYER_KICKOFF_5@
        + dec(game_id as nat) + PLAYER_KICKOFF_6@ + dec(game_id as nat) + PLAYER_KICKOFF_7@
}

/// First prompt of a player session.
pub fn player_kickoff(
    display_name: &str,
    seat: SeatId,
    game_id: u64,
    n_players: usize,
) -> (s: String)
    ensures
        s@ == player_kickoff_text(display_name@, seat, game_id, n_players),
{
    let mut s = PLAYER_KICKOFF_1.to_owned();
    s.append(display_name);
    s.append(PLAYER_KICKOFF_2);
    push_dec(&mut s, seat.0 as u64);
    s.append(PLAYER_KICKOFF_3);
    push_dec(&mut s, game_id as u64);
    s.append(PLAYER_KICKOFF_4);
    push_dec(&mut s, n_players as u64);
    s.append(PLAYER_KICKOFF_5);
    push_dec(&mut s, game_id as u64);
    s.append(PLAYER_KICKOFF_6);
    push_dec(&mut s, game_id as u64);
    s.append(PLAYER_KICKOFF_7);
    s
}

/// First prompt of the Storyteller session.
pub open spec fn host_kickoff_text(
    game_id: u64,
    n_players: usize,
    st_choice_mode: Seq<char>,
) -> Seq<char> {
    HOST_KICKOFF_1@ + dec(game_id as nat) + HOST_KICKOFF_2@ + dec(n_players as nat)
        + HOST_KICKOFF_3@ + st_choice_mode + HOST_KICKOFF_4@ + dec(game_id as nat) + HOST_KICKOFF_5@
}

/// First prompt of the Storyteller session.
pub fn host_kickoff(game_id: u64, n_players: usize, st_choice_mode: &str) -> (s: String)
    ensures
        s@ == host_kickoff_text(game_id, n_players, st_choice_mode@),
{
    let mut s = HOST_KICKOFF_1.to_owned();
    push_dec(&mut s, game_id as u64);
    s.append(HOST_KICKOFF_2);
    push_dec(&mut s, n_players as u64);
    s.append(HOST_KICKOFF_3);
    s.append(st_choice_mode);
    s.append(HOST_KICKOFF_4);
    push_dec(&mut s, game_id as u64);
    s.append(HOST_KICKOFF_5);
    s
}

/// General player prompt.
pub open spec fn player_tick_text(
    display_name: Seq<char>,
    seat: SeatId,
    game_id: u64,
    public_summary: Seq<char>,
) -> Seq<char> {
    PLAYER_TICK_1@ + display_name + PLAYER_TICK_2@ + dec(seat.0 as nat) + PLAYER_TICK_3@
        + dec(game_id as nat) + PLAYER_TICK_4@ + public_summary + PLAYER_TICK_5@ + ACT_VIA_TOOLS@
        + PLAYER_TICK_6@
}

/// General player prompt.
pub fn player_tick(
    display_name: &str,
    seat: SeatId,
    game_id: u64,
    public_summary: &str,
) -> (s: String)
    ensures
        s@ == player_tick_text(display_name@, seat, game_id, public_summary@),
{
    let mut s = PLAYER_TICK_1.to_owned();
    s.append(display_name);
    s.append(PLAYER_TICK_2);
    push_dec(&mut s, seat.0 as u64);
    s.append(PLAYER_TICK_3);
    push_dec(&mut s, game_id as u64);
    s.append(PLAYER_TICK_4);
    s.append(public_summary);
    s.append(PLAYER_TICK_5);
    s.append(ACT_VIA_TOOLS);
    s.append(PLAYER_TICK_6);
    s
}

/// General Storyteller prompt.
pub open spec fn host_tick_text(
    game_id: u64,
    public_summary: Seq<char>,
    host_hint: Seq<char>,
) -> Seq<char> {
    HOST_TICK_1@ + dec(game_id as nat) + HOST_TICK_2@ + public_summary + HOST_TICK_3@ + host_hint
        + HOST_TICK_4@ + ACT_VIA_TOOLS@ + HOST_TICK_5@
}

/// General Storyteller prompt.
pub fn host_tick(game_id: u64, public_summary: &str, host_hint: &str) -> (s: String)
    ensures
        s@ == host_tick_text(game_id, public_summary@, host_hint@),
{
    let mut s = HOST_TICK_1.to_owned();
    push_dec(&mut s, game_id as u64);
    s.append(HOST_TICK_2);
    s.append(public_summary);
    s.append(HOST_TICK_3);
    s.append(host_hint);
    s.append(HOST_TICK_4);
    s.append(ACT_VIA_TOOLS);
    s.append(HOST_TICK_5);
    s
}

/// After a headless process exits mid-game, resume with this prompt so the agent re-enters the
/// `await_turn` loop (durable wakes redeliver).
pub open spec fn reconnect_await_loop_text(display_name: Seq<char>, game_id: u64) -> Seq<char> {
    RECONNECT_1@ + display_name + RECONNECT_2@ + dec(game_id as nat) + RECONNECT_3@
        + dec(game_id as nat) + RECONNECT_4@
}

/// After a headless process exits mid-game, resume with this prompt so the agent re-enters the
/// `await_turn` loop (durable wakes redeliver).
pub fn reconnect_await_loop(display_name: &str, game_id: u64) -> (s: String)
    ensures
        s@ == reconnect_await_loop_text(display_name@, game_id),
{
    let mut s = RECONNECT_1.to_owned();
    s.append(display_name);
    s.append(RECONNECT_2);
    push_dec(&mut s, game_id as u64);
    s.append(RECONNECT_3);
    push_dec(&mut s, game_id as u64);
    s.append(RECONNECT_4);
    s
}

/// What a host task asks for.
pub open spec fn host_action_text(task: HostTaskView) -> Seq<char> {
    match task {
        HostTaskView::StartGame => START_GAME@,
        HostTaskView::ResolveDecision { detail, .. } => DECIDE_1@ + detail + DECIDE_2@,
        HostTaskView::AdvanceNight => ADVANCE_NIGHT@,
        HostTaskView::SkipStuckWake { seat } => SKIP_WAKE_1@ + dec(seat.0 as nat) + SKIP_WAKE_2@
            + dec(seat.0 as nat) + SKIP_WAKE_3@,
        HostTaskView::PaceDiscussion => PACE_DISCUSSION@,
        HostTaskView::ManageNominations => MANAGE_NOMINATIONS@,
        HostTaskView::CloseVoting => CLOSE_VOTING@,
        // Opening Nominations lets concurrent player sessions take nominate turns. Ending them
        // in the same wake would collapse that window before anyone can act.
        HostTaskView::EndDay { in_discussion } => if in_discussion {
            END_DISCUSSION@
        } else {
            END_NOMINATIONS@
        },
    }
}

fn host_action(task: &HostTask) -> (s: String)
    ensures
        s@ == host_action_text(task@),
{
    match task {
        HostTask::StartGame => START_GAME.to_owned(),
        HostTask::ResolveDecision { kind: _, detail } => {
            let mut s = DECIDE_1.to_owned();
            s.append(detail.as_str());
            s.append(DECIDE_2);
            s
        },
        HostTask::AdvanceNight => ADVANCE_NIGHT.to_owned(),
        HostTask::SkipStuckWake { seat } => {
            let mut s = SKIP_WAKE_1.to_owned();
            push_dec(&mut s, seat.0 as u64);
            s.append(SKIP_WAKE_2);
            push_dec(&mut s, seat.0 as u64);
            s.append(SKIP_WAKE_3);
            s
        },
        HostTask::PaceDiscussion => PACE_DISCUSSION.to_owned(),
        HostTask::ManageNominations => MANAGE_NOMINATIONS.to_owned(),
        HostTask::CloseVoting => CLOSE_VOTING.to_owned(),
        HostTask::EndDay { in_discussion } => {
            if *in_discussion {
                END_DISCUSSION.to_owned()
            } else {
                END_NOMINATIONS.to_owned()
            }
        },
    }
}

/// Targeted host prompt for a single scheduled turn: says exactly what the engine
/// is waiting on, so the host acts instead of re-inspecting and idling.
pub open spec fn host_task_tick_text(
    game_id: u64,
    task: HostTaskView,
    public_summary: Seq<char>,
    host_hint: Seq<char>,
) -> Seq<char> {
    HOST_TASK_1@ + dec(game_id as nat) + HOST_TASK_2@ + host_action_text(task) + HOST_TASK_3@
        + public_summary + HOST_TASK_4@ + host_hint + HOST_TASK_5@ + dec(game_id as nat)
        + HOST_TASK_6@ + ACT_VIA_TOOLS@ + HOST_TASK_7@
}

/// Targeted host prompt for a single scheduled turn: says exactly what the engine
/// is waiting on, so the host acts instead of re-inspecting and idling.
pub fn host_task_tick(
    game_id: u64,
    task: &HostTask,
    public_summary: &str,
    host_hint: &str,
) -> (s: String)
    ensures
        s@ == host_task_tick_text(game_id, task@, public_summary@, host_hint@),
{
    let mut s = HOST_TASK_1.to_owned();
    push_dec(&mut s, game_id as u64);
    s.append(HOST_TASK_2);
    s.append(host_action(task).as_str());
    s.append(HOST_TASK_3);
    s.append(public_summary);
    s.append(HOST_TASK_4);
    s.append(host_hint);
    s.append(HOST_TASK_5);
    push_dec(&mut s, game_id as u64);
    s.append(HOST_TASK_6);
    s.append(ACT_VIA_TOOLS);
    s.append(HOST_TASK_7);
    s
}

/// The number after `round` (it stops at `usize::MAX`).
pub open spec fn next_round(round: usize) -> usize {
    if round < usize::MAX { (round + 1) as usize } else { round }
}

/// Why a player was woken.
pub open spec fn player_why_text(task: PlayerTaskView) -> Seq<char> {
    match task {
        PlayerTaskView::NightWake { prompt } => WAKE_WHY_1@ + prompt + WAKE_WHY_2@,
        PlayerTaskView::Discuss { round, last_round, directed_reply } => if directed_reply {
            DIRECTED_WHY@
        } else {
            TALK_WHY_1@ + dec(next_round(round) as nat)
                + (if last_round { FINAL_ROUND@ } else { ""@ }) + TALK_WHY_2@
        },
        PlayerTaskView::Nominate => NOMINATE_WHY@,
        PlayerTaskView::Vote { nomination, tally, nominator_yes, .. } => VOTE_WHY_1@ + nomination
            + VOTE_WHY_2@ + (if nominator_yes { NOMINATOR_YES@ } else { NOMINATOR_OPEN@ })
            + VOTE_WHY_3@ + tally + VOTE_WHY_4@,
    }
}

/// The legal actions of a player turn, with the argument shapes.
pub open spec fn player_actions_text(task: PlayerTaskView, game_id: u64) -> Seq<char> {
    match task {
        PlayerTaskView::NightWake { .. } => WAKE_ACT_1@ + dec(game_id as nat) + WAKE_ACT_2@,
        PlayerTaskView::Discuss { .. } => TALK_ACT_1@ + dec(game_id as nat) + TALK_ACT_2@
            + dec(game_id as nat) + TALK_ACT_3@ + dec(game_id as nat) + TALK_ACT_4@,
        PlayerTaskView::Nominate => NOMINATE_ACT_1@ + dec(game_id as nat) + NOMINATE_ACT_2@
            + dec(game_id as nat) + NOMINATE_ACT_3@,
        PlayerTaskView::Vote { can_pass, .. } => if can_pass {
            GHOST_ACT_1@ + dec(game_id as nat) + GHOST_ACT_2@ + dec(game_id as nat) + GHOST_ACT_3@
        } else {
            LIVE_ACT_1@ + dec(game_id as nat) + LIVE_ACT_2@
        },
    }
}

fn player_why(task: &PlayerTask) -> (s: String)
    ensures
        s@ == player_why_text(task@),
{
    match task {
        PlayerTask::NightWake { prompt } => {
            let mut s = WAKE_WHY_1.to_owned();
            s.append(prompt.as_str());
            s.append(WAKE_WHY_2);
            s
        },
        PlayerTask::Discuss { round, last_round, directed_reply } => {
            if *directed_reply {
                return DIRECTED_WHY.to_owned();
            }
            let mut s = TALK_WHY_1.to_owned();
            push_dec(&mut s, round.saturating_add(1) as u64);
            s.append(if *last_round { FINAL_ROUND } else { "" });
            s.append(TALK_WHY_2);
            s
        },
        PlayerTask::Nominate => NOMINATE_WHY.to_owned(),
        PlayerTask::Vote { nomination, tally, can_pass: _, nominator_yes } => {
            let mut s = VOTE_WHY_1.to_owned();
            s.append(nomination.as_str());
            s.append(VOTE_WHY_2);
            s.append(if *nominator_yes { NOMINATOR_YES } else { NOMINATOR_OPEN });
            s.append(VOTE_WHY_3);
            s.append(tally.as_str());
            s.append(VOTE_WHY_4);
            s
        },
    }
}

fn player_actions(task: &PlayerTask, game_id: u64) -> (s: String)
    ensures
        s@ == player_actions_text(task@, game_id),
{
    match task {
        PlayerTask::NightWake { .. } => {
            let mut s = WAKE_ACT_1.to_owned();
            push_dec(&mut s, game_id as u64);
            s.append(WAKE_ACT_2);
            s
        },
        PlayerTask::Discuss { .. } => {
            let mut s = TALK_ACT_1.to_owned();
            push_dec(&mut s, game_id as u64);
            s.append(TALK_ACT_2);
            push_dec(&mut s, game_id as u64);
            s.append(TALK_ACT_3);
            push_dec(&mut s, game_id as u64);
            s.append(TALK_ACT_4);
            s
        },
        PlayerTask::Nominate => {
            let mut s = NOMINATE_ACT_1.to_owned();
            push_dec(&mut s, game_id as u64);
            s.append(NOMINATE_ACT_2);
            push_dec(&mut s, game_id as u64);
            s.append(NOMINATE_ACT_3);
            s
        },
        PlayerTask::Vote { nomination: _, tally: _, can_pass, nominator_yes: _ } => {
            if *can_pass {
                let mut s = GHOST_ACT_1.to_owned();
                push_dec(&mut s, game_id as u64);
                s.append(GHOST_ACT_2);
                push_dec(&mut s, game_id as u64);
                s.append(GHOST_ACT_3);
                s
            } else {
                let mut s = LIVE_ACT_1.to_owned();
                push_dec(&mut s, game_id as u64);
                s.append(LIVE_ACT_2);
                s
            }
        },
    }
}

/// Targeted player prompt for a single scheduled turn: why woken, the legal actions (with exact
/// argument shapes), and what ends the turn.
pub open spec fn player_task_tick_text(
    display_name: Seq<char>,
    seat: SeatId,
    game_id: u64,
    task: PlayerTaskView,
    public_summary: Seq<char>,
) -> Seq<char> {
    PLAYER_TASK_1@ + display_name + PLAYER_TASK_2@ + dec(seat.0 as nat) + PLAYER_TASK_3@
        + dec(game_id as nat) + PLAYER_TASK_4@ + player_why_text(task) + PLAYER_TASK_5@
        + player_actions_text(task, game_id) + PLAYER_TASK_6@ + public_summary + PLAYER_TASK_7@
        + dec(game_id as nat) + PLAYER_TASK_8@ + ACT_VIA_TOOLS@ + PLAYER_TASK_9@
}

/// Targeted player prompt for a single scheduled turn: why woken, the legal actions (with exact
/// argument shapes), and what ends the turn — so the model never has to guess the protocol.
pub fn player_task_tick(
    display_name: &str,
    seat: SeatId,
    game_id: u64,
    task: &PlayerTask,
    public_summary: &str,
) -> (s: String)
    ensures
        s@ == player_task_tick_text(display_name@, seat, game_id, task@, public_summary@),
{
    let mut s = PLAYER_TASK_1.to_owned();
    s.append(display_name);
    s.append(PLAYER_TASK_2);
    push_dec(&mut s, seat.0 as u64);
    s.append(PLAYER_TASK_3);
    push_dec(&mut s, game_id as u64);
    s.append(PLAYER_TASK_4);
    s.append(player_why(task).as_str());
    s.append(PLAYER_TASK_5);
    s.append(player_actions(task, game_id).as_str());
    s.append(PLAYER_TASK_6);
    s.append(public_summary);
    s.append(PLAYER_TASK_7);
    push_dec(&mut s, game_id as u64);
    s.append(PLAYER_TASK_8);
    s.append(ACT_VIA_TOOLS);
    s.append(PLAYER_TASK_9);
    s
}

} // verus!
