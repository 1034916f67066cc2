//! What the agents' sessions are started with, and what reaches the engine through them.

use crate::harness::agent_proxy::{authorized, proxied, ProxyCallView};
use crate::harness::agents::{
    listed_model, listed_models, marked_default, marks_default, model_after, place_of, short_count, spawned, stepped, tick_args,
    Backend, HarnessConfig, TickOutcome,
};
use crate::harness::proxy_acl::allowed;
use crate::json::JsonView;
use crate::text::dec;
use vstd::prelude::*;

verus! {

/// The default that a listing names is used if it is listed; without one the model in use stays if
/// it is listed; and else the first of the list is used.
pub proof fn listed_defaults_are_used(
    current: Seq<char>,
    models: Seq<Seq<char>>,
    d: Seq<char>,
)
    ensures
        models.contains(d) ==> model_after(current, models, Some(d)) == d,
        !models.contains(d) ==> model_after(current, models, Some(d)) == models[0],
        models.contains(current) ==> model_after(current, models, None) == current,
        !models.contains(current) ==> model_after(current, models, None) == models[0],
{
}

proof fn places_are_first(list: Seq<Seq<char>>, i: int)
    requires
        0 <= i < list.len(),
        forall|k: int| 0 <= k < i ==> list[k] != list[i],
    ensures
        place_of(list, list[i]) == Some(i),
    decreases list.len(),
{
    if i > 0 {
        let rest = list.drop_first();
        assert(rest[i - 1] == list[i]);
        assert forall|k: int| 0 <= k < i - 1 implies #[trigger] rest[k] != rest[i - 1] by {
            assert(rest[k] == list[k + 1]);
        }
        assert(list[0] != list[i]);
        places_are_first(rest, i - 1);
    }
}

/// A step on goes to the next of the list and from the last one to the first; a step back the other
/// way round; what is not in the list is followed by its first and preceded by its last.
pub proof fn steps_go_round_the_list(list: Seq<Seq<char>>, i: int, stranger: Seq<char>)
    requires
        0 <= i < list.len(),
        forall|k: int| 0 <= k < i ==> list[k] != list[i],
    ensures
        stepped(list[i], list, 1) == if i + 1 < list.len() { list[i + 1] } else { list[0] },
        stepped(list[i], list, -1) == if i > 0 { list[i - 1] } else { list.last() },
        stepped(list[i], list, 0) == list[i],
        place_of(list, stranger) is None ==> stepped(stranger, list, 1) == list[0] && stepped(
            stranger,
            list,
            -1,
        ) == list.last(),
{
    places_are_first(list, i);
    let n = list.len() as int;
    if i + 1 < n {
        assert((i + 1) % n == i + 1) by (nonlinear_arith)
            requires
                0 <= i,
                i + 1 < n,
        ;
    } else {
        assert(n % n == 0) by (nonlinear_arith)
            requires
                n > 0,
        ;
    }
    if i > 0 {
        assert((i - 1) % n == i - 1) by (nonlinear_arith)
            requires
                0 < i < n,
        ;
    } else {
        assert((-1int) % n == n - 1) by (nonlinear_arith)
            requires
                n > 0,
        ;
    }
}

/// A listing holds every model that a line of it lists, each once, and no other.
pub proof fn listings_hold_what_is_listed(lines: Seq<Seq<char>>, id: Seq<char>)
    ensures
        listed_models(lines).contains(id) <==> id.len() > 0 && exists|k: int|
            0 <= k < lines.len() && listed_model(#[trigger] lines[k]) == id,
        listed_models(lines).no_duplicates(),
    decreases lines.len(),
{
    if lines.len() > 0 {
        let front = lines.drop_last();
        let short = listed_models(front);
        let all = listed_models(lines);
        listings_hold_what_is_listed(front, id);
        let last = lines.len() - 1;
        assert(lines[last] == lines.last());
        assert(forall|k: int| 0 <= k < front.len() ==> lines[k] == #[trigger] front[k]);
        assert(forall|k: int| 0 <= k < front.len() ==> front[k] == #[trigger] lines[k]);
        if all.len() > short.len() {
            let new = listed_model(lines.last());
            assert(all =~= short.push(new));
            assert(all[short.len() as int] == new);
            if short.contains(id) {
                assert(all[short.index_of(id)] == id);
            }
            if all.contains(id) && id != new {
                let k = all.index_of(id);
                assert(short[k] == id);
            }
        }
    }
}

/// Small counts are shown in full, and from ten thousand on in thousands, rounded half up.
pub proof fn counts_are_shown_rounded(n: u64)
    ensures
        n < 1_000 ==> short_count(n) == dec(n as nat),
        10_000 <= n < 1_000_000 ==> short_count(n) == dec(((n + 500) / 1_000) as nat) + "k"@,
{
}

/// Only agents that were started are counted.
pub proof fn only_the_started_count(outcomes: Seq<TickOutcome>, next: TickOutcome)
    ensures
        spawned(outcomes.push(next)) == spawned(outcomes) + if next is Spawned { 1nat } else {
            0nat
        },
        spawned(seq![]) == 0,
{
    assert(outcomes.push(next).drop_last() =~= outcomes);
}

/// A seat that changes to the default backend starts on the default model, and one that changes to
/// the other on the first model offered there.
pub proof fn backends_start_on_their_own_model(cfg: HarnessConfig)
    ensures
        cfg.starting_model(Backend::Grok) == cfg.model@,
        cfg.claude_models@.len() > 0 ==> cfg.starting_model(Backend::Claude)
            == cfg.claude_models@[0]@,
{
}

/// A run is given its prompt, its model and its directory, and ends with the session: a new one to
/// begin, or the one that was begun to go on.
pub proof fn runs_are_given_their_session(
    cfg: HarnessConfig,
    model: Seq<char>,
    workdir: Seq<char>,
    prompt_file: Seq<char>,
    id: Seq<char>,
)
    ensures
        ({
            let new = tick_args(cfg, model, workdir, prompt_file, id, false);
            let old_one = tick_args(cfg, model, workdir, prompt_file, id, true);
            &&& new.len() >= 8 && new[0] == "--prompt-file"@ && new[1] == prompt_file && new[2]
                == "-m"@ && new[3] == model && new[4] == "--cwd"@ && new[5] == workdir
            &&& new[new.len() - 2] == "--session-id"@ && new.last() == id
            &&& old_one[old_one.len() - 2] == "--resume"@ && old_one.last() == id
            &&& new.take(new.len() - 2) == old_one.take(old_one.len() - 2)
        }),
{
    let new = tick_args(cfg, model, workdir, prompt_file, id, false);
    let old_one = tick_args(cfg, model, workdir, prompt_file, id, true);
    assert(new.take(new.len() - 2) =~= old_one.take(old_one.len() - 2));
}

/// A call that the role may make goes to the engine under its own name, with what the agent sent
/// and the credentials of its seat.
pub proof fn allowed_calls_go_through(
    token: Seq<char>,
    game_id: Option<u64>,
    is_host: bool,
    params: JsonView,
    name: Seq<char>,
    arguments: JsonView,
)
    requires
        params.text_at("name"@) == Some(name),
        params.field("arguments"@) == Some(arguments),
        allowed(name, is_host),
    ensures
        proxied(token, game_id, is_host, "tools/call"@, params) == (ProxyCallView::Forward {
            name,
            arguments: authorized(arguments, token, game_id, is_host),
        }),
{
    reveal_strlit("tools/call");
    reveal_strlit("initialize");
    reveal_strlit("notifications/initialized");
    reveal_strlit("initialized");
    reveal_strlit("ping");
    reveal_strlit("tools/list");
    assert("tools/call"@[0] == 't' && "tools/call"@.len() == 10 && "tools/call"@[6] == 'c');
    assert("initialize"@[0] == 'i' && "tools/list"@[6] == 'l');
    assert("initialized"@.len() == 11 && "notifications/initialized"@.len() == 25 && "ping"@.len()
        == 4);
}

/// The first model that a listing marks is its default.
pub proof fn the_first_mark_is_the_default(lines: Seq<Seq<char>>, i: int)
    requires
        0 <= i < lines.len(),
        marks_default(lines[i]),
        forall|k: int| 0 <= k < i ==> !marks_default(#[trigger] lines[k]),
    ensures
        marked_default(lines) == Some(listed_model(lines[i])),
    decreases lines.len(),
{
    let front = lines.drop_last();
    assert(forall|k: int| 0 <= k < front.len() ==> front[k] == #[trigger] lines[k]);
    if i < front.len() {
        assert(front[i] == lines[i]);
        assert forall|k: int| 0 <= k < i implies !marks_default(#[trigger] front[k]) by {
            assert(front[k] == lines[k]);
        }
        the_first_mark_is_the_default(front, i);
    } else {
        assert forall|k: int| 0 <= k < front.len() implies !marks_default(#[trigger] front[k]) by {
            assert(front[k] == lines[k]);
        }
        unmarked_listings_have_no_default(front);
    }
}

/// A listing without a mark has no default.
pub proof fn unmarked_listings_have_no_default(lines: Seq<Seq<char>>)
    requires
        forall|k: int| 0 <= k < lines.len() ==> !marks_default(#[trigger] lines[k]),
    ensures
        marked_default(lines) is None,
    decreases lines.len(),
{
    if lines.len() > 0 {
        let front = lines.drop_last();
        assert forall|k: int| 0 <= k < front.len() implies !marks_default(#[trigger] front[k]) by {
            assert(front[k] == lines[k]);
        }
        assert(lines[lines.len() - 1] == lines.last());
        unmarked_listings_have_no_default(front);
    }
}

} // verus!
