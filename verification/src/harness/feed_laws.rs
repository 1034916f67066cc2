//! What the record of calls shows: who did what, in what words, and never a secret.

use crate::auth::last_under;
use crate::harness::action_log::{
    clipped, kind_of_tool, redacted, redacted_field, summary_of, ActionKind, ActionLogView,
    ActorLabelView,
};
use crate::harness::socket::logged;
use crate::json::JsonView;
use crate::mcp_server::tool_laws::names_seat;
use crate::game::ids::SeatId;
use crate::text::dec;
use vstd::prelude::*;

verus! {

/// No token is ever shown, neither the host's nor a player's; everything else is shown as it was
/// sent.
pub proof fn secrets_are_blotted_out(fields: Seq<(Seq<char>, JsonView)>, i: int)
    requires
        0 <= i < fields.len(),
    ensures
        redacted(JsonView::Obj(fields)) matches JsonView::Obj(shown) && shown.len() == fields.len()
            && shown[i].0 == fields[i].0 && ({
            let key = fields[i].0;
            let secret = key == "token"@ || key == "host_token"@ || key == "player_token"@;
            &&& secret ==> shown[i].1 == JsonView::Str("<redacted>"@)
            &&& !secret ==> shown[i].1 == fields[i].1
        }),
{
    let shown = fields.map_values(redacted_field());
    assert(shown[i] == redacted_field()(fields[i]));
}

/// What moves the game is shown as play, what looks at it as a look, and everything else beside
/// both.
pub proof fn play_is_told_from_looks(tool: Seq<char>)
    ensures
        kind_of_tool("vote"@) == ActionKind::Game,
        kind_of_tool("nominate"@) == ActionKind::Game,
        kind_of_tool("say"@) == ActionKind::Game,
        kind_of_tool("night_action"@) == ActionKind::Game,
        kind_of_tool("day_action"@) == ActionKind::Game,
        kind_of_tool("pass_vote"@) == ActionKind::Game,
        kind_of_tool("host_decide"@) == ActionKind::Game,
        kind_of_tool("start_game"@) == ActionKind::Game,
        kind_of_tool(tool) == ActionKind::Info ==> tool == "get_public_state"@ || tool
            == "get_public_log"@ || tool == "get_private_state"@ || tool == "get_host_state"@
            || tool == "get_character_rules"@ || tool == "list_characters"@ || tool
            == "list_rules_topics"@ || tool == "get_rules_topic"@,
        kind_of_tool(tool) == ActionKind::Game ==> tool == "say"@ || tool == "st_announce"@ || tool
            == "night_action"@ || tool == "day_action"@ || tool == "nominate"@ || tool == "vote"@
            || tool == "pass_vote"@ || tool == "open_nominations"@ || tool == "close_vote"@ || tool
            == "end_nominations"@ || tool == "skip_night_action"@ || tool == "host_decide"@ || tool
            == "host_queue_lie"@ || tool == "start_game"@,
{
}

/// A vote is summed up with the nominee and the answer, a nomination with the one put up.
pub proof fn ballots_are_summed_up(args: JsonView, seat: SeatId, support: bool)
    ensures
        names_seat(args, "nominee"@, seat) && args.field("support"@) == Some(JsonView::Bool(support))
            ==> summary_of("vote"@, args) == "→"@ + ("P"@ + dec(seat.0 as nat)) + " "@ + (if support {
            "YES"@
        } else {
            "no"@
        }),
        names_seat(args, "target"@, seat) ==> summary_of("nominate"@, args) == "→"@ + ("P"@ + dec(
            seat.0 as nat,
        )),
        summary_of("pass_vote"@, args) == "abstain"@,
{
    reveal_strlit("vote");
    reveal_strlit("nominate");
    reveal_strlit("say");
    reveal_strlit("st_announce");
    reveal_strlit("pass_vote");
    assert("vote"@.len() == 4 && "nominate"@.len() == 8 && "say"@.len() == 3 && "st_announce"@.len()
        == 11 && "pass_vote"@.len() == 9);
}

/// A call comes last, under the name of whoever holds its token, with how it came out; as long as
/// there is room nothing goes, and then the oldest does.
pub proof fn calls_are_recorded_in_order(
    log: ActionLogView,
    secs: u64,
    token: Seq<char>,
    tool: Seq<char>,
    args: JsonView,
    ok: bool,
    error: Option<Seq<char>>,
    result: Option<Seq<char>>,
    who: ActorLabelView,
)
    requires
        log.cap > 0,
        log.entries.len() <= log.cap,
        log.seq < u64::MAX,
        last_under(log.labels, token) == Some(who),
    ensures
        ({
            let after = log.recorded(secs, Some(token), tool, args, ok, error, result);
            let entry = after.entries.last();
            &&& entry.actor == who && entry.tool == tool && entry.ok == ok && entry.error == error
                && entry.secs == secs
            &&& entry.seq == log.seq + 1 && after.seq == log.seq + 1
            &&& after.labels == log.labels && after.cap == log.cap
            &&& log.entries.len() < log.cap ==> after.entries.drop_last() == log.entries
            &&& log.entries.len() == log.cap ==> after.entries.drop_last()
                == log.entries.drop_first()
        }),
{
    let after = log.recorded(secs, Some(token), tool, args, ok, error, result);
    if log.entries.len() < log.cap {
        assert(after.entries.drop_last() =~= log.entries);
    } else {
        assert(after.entries.drop_last() =~= log.entries.drop_first());
    }
}

/// A text that fits stays as it is; a longer one is cut to fit, and shows that it was.
pub proof fn cut_texts_fit(s: Seq<char>, max: usize)
    requires
        max > 0,
    ensures
        clipped(s, max).len() <= max,
        s.len() <= max ==> clipped(s, max) == s,
        s.len() > max ==> clipped(s, max).len() == max && clipped(s, max).take(max - 1) == s.take(
            max - 1,
        ) && clipped(s, max).last() == '…',
{
    reveal_strlit("…");
    assert("…"@.len() == 1);
    if s.len() > max {
        assert(clipped(s, max).take(max - 1) =~= s.take(max - 1));
    }
}

/// A call is recorded with how it went: a granted one as such, a refused one with its error.
pub proof fn calls_are_recorded_as_they_went(
    log: ActionLogView,
    secs: u64,
    name: Seq<char>,
    args: JsonView,
    answer: JsonView,
    error: Seq<char>,
)
    requires
        log.cap > 0,
        log.entries.len() <= log.cap,
    ensures
        ({
            let granted = logged(log, secs, name, args, Ok(answer)).entries.last();
            let refused = logged(log, secs, name, args, Err(error)).entries.last();
            &&& granted.ok && granted.error is None && granted.tool == name && granted.secs == secs
            &&& !refused.ok && refused.error == Some(error) && refused.tool == name && refused.secs
                == secs
        }),
{
}

} // verus!
