//! Titles and the status line at the start.

use crate::harness::agents::AgentRole;
use crate::harness::tui::monitor::Monitor;
use crate::text::{dec, numbered, push_dec};
use vstd::prelude::*;
use vstd::string::*;

verus! {

/// The status at the start.
pub open spec fn boot_words(
    models_note: Seq<char>,
    grok: Seq<char>,
    mcp: Seq<char>,
    mcp_ok: bool,
) -> Seq<char> {
    if mcp_ok {
        "↑/↓ row · ←/→ change · a=model to all · Enter launch · q quit | "@ + models_note
            + " | grok="@ + grok + " mcp="@ + mcp
    } else {
        "MISSING botc-agent-mcp at "@ + mcp + " — run: cargo build --bins"@
    }
}

/// The status at the start.
pub fn boot_status(models_note: &str, grok: &str, mcp: &str, mcp_ok: bool) -> (s: String)
    ensures
        s@ == boot_words(models_note@, grok@, mcp@, mcp_ok),
{
    if mcp_ok {
        let mut s =
            "↑/↓ row · ←/→ change · a=model to all · Enter launch · q quit | ".to_owned();
        s.append(models_note);
        s.append(" | grok=");
        s.append(grok);
        s.append(" mcp=");
        s.append(mcp);
        s
    } else {
        let mut s = "MISSING botc-agent-mcp at ".to_owned();
        s.append(mcp);
        s.append(" — run: cargo build --bins");
        s
    }
}

/// The title line of the setup screen.
pub fn setup_title(player_count: usize) -> (s: String)
    requires
        player_count < usize::MAX,
    ensures
        s@ == " players="@ + dec(player_count as nat) + " sessions="@ + dec(
            (player_count + 1) as nat,
        ) + "  [SETUP]"@,
{
    let mut s = numbered(" players=", player_count as u64);
    s.append(" sessions=");
    push_dec(&mut s, (player_count + 1) as u64);
    s.append("  [SETUP]");
    s
}

/// What the title of the stream pane says of its agent.
pub open spec fn stream_agent(agent: Option<(AgentRole, Seq<char>)>) -> Seq<char> {
    match agent {
        Some((AgentRole::Host, model)) => "stream: Storyteller ["@ + model + "]"@,
        Some((AgentRole::Player { seat }, model)) => "stream: seat"@ + dec(seat.0 as nat) + " ["@
            + model + "]"@,
        None => "stream"@,
    }
}

/// The title of the stream pane.
pub fn stream_title(agent: Option<(AgentRole, &str)>, m: &Monitor) -> (s: String)
    ensures
        s@ == stream_agent(
            match agent {
                Some((role, model)) => Some((role, model@)),
                None => None,
            },
        ) + (if m@.scroll_from_bottom == 0 { " ·live "@ } else { " ·scroll "@ }) + (
        if m@.thinking_expanded.contains(m@.selected_agent) { "·think▸"@ } else { "·think▾"@ })
            + "  click·h  wheel·scroll"@,
{
    let mut s = match agent {
        Some((AgentRole::Host, model)) => {
            let mut t = "stream: Storyteller [".to_owned();
            t.append(model);
            t.append("]");
            t
        },
        Some((AgentRole::Player { seat }, model)) => {
            let mut t = numbered("stream: seat", seat.0 as u64);
            t.append(" [");
            t.append(model);
            t.append("]");
            t
        },
        None => "stream".to_owned(),
    };
    s.append(if m.scroll_from_bottom == 0 { " ·live " } else { " ·scroll " });
    s.append(if m.selected_thinking_expanded() { "·think▸" } else { "·think▾" });
    s.append("  click·h  wheel·scroll");
    s
}

} // verus!
