//! Models onto pinned roles: choosing who plays, seat by seat.

use crate::game::setup::order_reaches_all;
use crate::harness::balance::{
    part_of, stats_in, stats_of, History, HistoryView, ModelStats, StatsView,
};
use crate::harness::matching::{
    cost_less, cost_of, cost_on, find_min, first_min, less, unassigned, values_of, Cost,
};
use crate::rng::{is_order, Substream};
use crate::roles::{team_of, Character, Team};
use crate::text::texts;
use vstd::prelude::*;
use vstd::string::*;

verus! {

/// One, as a fixed-point covariance.
pub const UNIT: i128 = 1_099_511_627_776;

/// Cost added for putting a model on **both** sides of the table, in fixed point. Splitting a
/// model across teams cancels its own contrast, so those seats resolve no variance: ranked
/// far above any real covariance term, but finite, so a one-eligible-model table still
/// resolves instead of having no legal assignment.
pub const SAME_MODEL_PENALTY: i128 = 1_152_921_504_606_846_976;

/// Largest covariance, in fixed point.
pub const COVARIANCE_LIMIT: i64 = 17_592_186_044_416;

/// How many characters are not on this team.
pub open spec fn other_side(chars: Seq<Character>, team: Team) -> nat
    decreases chars.len(),
{
    if chars.len() == 0 {
        0
    } else {
        other_side(chars.drop_last(), team)
            + if team_of(chars.last()) != team { 1nat } else { 0nat }
    }
}

/// How many seats of the other team a candidate already has.
pub open spec fn opposed(
    out: Seq<Option<usize>>,
    chars: Seq<Character>,
    team: Team,
    c: usize,
) -> nat
    decreases out.len(),
{
    if out.len() == 0 || chars.len() == 0 {
        0
    } else {
        opposed(out.drop_last(), chars.drop_last(), team, c) + if out.last() == Some(c) && team_of(
            chars.last(),
        ) != team { 1nat } else { 0nat }
    }
}

/// The opposition: for each candidate, how many seats of the other team it already has.
pub open spec fn opposition(
    out: Seq<Option<usize>>,
    chars: Seq<Character>,
    team: Team,
    candidates: nat,
) -> Seq<nat> {
    Seq::new(candidates, |c: int| opposed(out, chars, team, c as usize))
}

/// The covariances weighed by the opposition.
pub open spec fn overlap(row: Seq<i64>, against: Seq<nat>) -> int
    decreases row.len(),
{
    if row.len() == 0 || against.len() == 0 {
        0
    } else {
        overlap(row.drop_last(), against.drop_last()) + row.last() * against.last()
    }
}

/// What seating a candidate costs: the match-up (covariance-weighted overlap with the
/// opposition, times its seat total; lower = less-resolved), then the counts.
pub struct BidView {
    pub matchup: int,
    pub cost: Cost,
}

/// The bid of a candidate.
pub open spec fn bid_of(
    row: Seq<i64>,
    against: Seq<nat>,
    c: int,
    total: int,
    live: StatsView,
    who: Character,
) -> BidView {
    BidView {
        matchup: overlap(row, against)
            + if against[c] > 0 { SAME_MODEL_PENALTY * total } else { 0 },
        cost: cost_on(live, who),
    }
}

/// The size of a number.
pub open spec fn size(n: int) -> int {
    if n < 0 { -n } else { n }
}

/// Lexicographic order on the selection cost: match-up cost first (with a relative
/// tolerance so noise falls through), then the team / role-type / role counts.
pub open spec fn better(a: BidView, b: BidView, total: int) -> bool {
    let wide = if size(a.matchup) > size(b.matchup) { size(a.matchup) } else { size(b.matchup) };
    if size(a.matchup - b.matchup) * 1_000_000_000 > UNIT * total + wide {
        a.matchup < b.matchup
    } else {
        less(a.cost, b.cost)
    }
}

/// The winner when the candidates bid in this order: a later one has to be better.
pub open spec fn best_bid(order: Seq<usize>, bids: Seq<BidView>, total: int) -> usize
    decreases order.len(),
{
    if order.len() == 0 {
        0
    } else if order.len() == 1 {
        order[0]
    } else {
        let best = best_bid(order.drop_last(), bids, total);
        if better(bids[order.last() as int], bids[best as int], total) { order.last() } else { best }
    }
}

/// A selection under way.
pub struct SelectionView {
    /// Which candidate has each seat.
    pub out: Seq<Option<usize>>,
    /// Running per-model record: real history plus what this game has already handed out.
    pub live: Seq<StatsView>,
    pub rng: Substream,
}

/// The other team's seat total, at least one.
pub open spec fn weight(chars: Seq<Character>, team: Team) -> int {
    if other_side(chars, team) == 0 { 1 } else { other_side(chars, team) as int }
}

impl SelectionView {
    /// The bids for a seat.
    pub open spec fn bids(self, chars: Seq<Character>, sigma: Seq<Seq<i64>>, seat: usize) -> Seq<
        BidView,
    > {
        let who = chars[seat as int];
        let against = opposition(self.out, chars, team_of(who), self.live.len());
        Seq::new(
            self.live.len(),
            |c: int|
                bid_of(sigma[c], against, c, weight(chars, team_of(who)), self.live[c], who),
        )
    }

    /// The candidate that gets a seat.
    pub open spec fn winner(
        self,
        chars: Seq<Character>,
        sigma: Seq<Seq<i64>>,
        seat: usize,
    ) -> usize {
        best_bid(
            self.rng.order(self.live.len()).0,
            self.bids(chars, sigma, seat),
            weight(chars, team_of(chars[seat as int])),
        )
    }

    /// One more seat filled.
    pub open spec fn seated(
        self,
        chars: Seq<Character>,
        sigma: Seq<Seq<i64>>,
        seat: usize,
    ) -> SelectionView {
        let c = self.winner(chars, sigma, seat) as int;
        SelectionView {
            out: self.out.update(seat as int, Some(c as usize)),
            live: self.live.update(c, self.live[c].played(part_of(chars[seat as int]))),
            rng: self.rng.order(self.live.len()).1,
        }
    }

    /// Seats filled in this order.
    pub open spec fn all_seated(
        self,
        chars: Seq<Character>,
        sigma: Seq<Seq<i64>>,
        order: Seq<usize>,
    ) -> SelectionView
        decreases order.len(),
    {
        if order.len() == 0 {
            self
        } else {
            self.all_seated(chars, sigma, order.drop_last()).seated(chars, sigma, order.last())
        }
    }
}

/// The seats of a team, in order.
pub open spec fn of_team(order: Seq<usize>, chars: Seq<Character>, team: Team) -> Seq<usize>
    decreases order.len(),
{
    if order.len() == 0 {
        seq![]
    } else {
        let front = of_team(order.drop_last(), chars, team);
        if team_of(chars[order.last() as int]) == team { front.push(order.last()) } else { front }
    }
}

/// The Evil seats first: they are the scarce side, and pinning them gives every Good seat a
/// concrete opposition to measure against.
pub open spec fn evil_first(order: Seq<usize>, chars: Seq<Character>) -> Seq<usize> {
    of_team(order, chars, Team::Evil) + of_team(order, chars, Team::Good)
}

/// The records that the candidates start with.
pub open spec fn starting_records(
    candidates: Seq<Seq<char>>,
    models: Seq<(Seq<char>, StatsView)>,
) -> Seq<
    StatsView,
> {
    candidates.map_values(
        |k: Seq<char>|
            match stats_in(models, k) {
                Some(s) => s,
                None => StatsView::empty(),
            },
    )
}

/// All seats but one candidate's.
pub open spec fn candidates_but(n: nat, c: usize) -> Seq<usize>
    decreases n,
{
    if n == 0 {
        seq![]
    } else {
        let front = candidates_but((n - 1) as nat, c);
        if n - 1 == c { front } else { front.push((n - 1) as usize) }
    }
}

/// The side on which a second model counts for most: the smaller one, Evil where both are
/// equal, the only one where there is one.
pub open spec fn thin_side(chars: Seq<Character>, n: nat) -> Seq<usize> {
    let all = Seq::new(n, |i: int| i as usize);
    let good = of_team(all, chars, Team::Good);
    let evil = of_team(all, chars, Team::Evil);
    if evil.len() == 0 || (good.len() > 0 && evil.len() > good.len()) { good } else { evil }
}

/// Every seat is with one candidate.
pub open spec fn one_model(out: Seq<usize>) -> bool {
    forall|i: int| 0 <= i < out.len() ==> #[trigger] out[i] == out[0]
}

/// The costs of a character for these candidates.
pub open spec fn costs_for(order: Seq<usize>, live: Seq<StatsView>, who: Character) -> Seq<Cost> {
    order.map_values(|c: usize| cost_on(live[c as int], who))
}

/// The table with a second model where there is one: a seat on the thin side goes to the
/// candidate owed it most.
pub open spec fn two_models(
    out: Seq<usize>,
    chars: Seq<Character>,
    live: Seq<StatsView>,
    rng: Substream,
) -> (Seq<usize>, Substream) {
    if live.len() < 2 || out.len() == 0 || !one_model(out) {
        (out, rng)
    } else {
        let side = thin_side(chars, out.len());
        let (at, mid) = rng.choice(side.len());
        let seat = side[at];
        let others = candidates_but(live.len(), out[0]);
        let (order, end) = mid.order(others.len());
        let asked = order.map_values(|k: usize| others[k as int]);
        let best = asked[first_min(costs_for(asked, live, chars[seat as int]))];
        (out.update(seat as int, best), end)
    }
}

/// The whole selection, and the stream after it.
pub open spec fn selected(
    chars: Seq<Character>,
    candidates: Seq<Seq<char>>,
    hist: HistoryView,
    sigma: Seq<Seq<i64>>,
    rng: Substream,
) -> (Seq<usize>, Substream) {
    let (order, mid) = rng.order(chars.len());
    let start = SelectionView {
        out: unassigned(chars.len()),
        live: starting_records(candidates, hist.models),
        rng: mid,
    };
    let end = start.all_seated(chars, sigma, evil_first(order, chars));
    two_models(values_of(end.out), chars, end.live, end.rng)
}

/// The covariance matrix of the candidates: square, within bounds.
pub open spec fn is_covariance(sigma: Seq<Seq<i64>>, n: nat) -> bool {
    &&& sigma.len() == n
    &&& forall|i: int| 0 <= i < n ==> (#[trigger] sigma[i]).len() == n
    &&& forall|i: int, k: int|
        0 <= i < n && 0 <= k < n ==> -COVARIANCE_LIMIT <= #[trigger] sigma[i][k] <= COVARIANCE_LIMIT
}

/// What a matrix holds.
pub open spec fn matrix_view(m: Seq<Vec<i64>>) -> Seq<Seq<i64>> {
    m.map_values(|row: Vec<i64>| row@)
}

// ---------------------------------------------------------------------------
// Counting
// ---------------------------------------------------------------------------

#[verifier::loop_isolation(false)]
fn count_other_side(chars: &Vec<Character>, team: Team) -> (n: usize)
    ensures
        n == other_side(chars@, team),
        n <= chars@.len(),
{
    let mut n: usize = 0;
    let mut i: usize = 0;
    while i < chars.len()
        invariant
            i <= chars@.len(),
            n <= i,
            n == other_side(chars@.take(i as int), team),
        decreases chars@.len() - i,
    {
        assert(chars@.take(i + 1).drop_last() =~= chars@.take(i as int));
        if chars[i].team() != team {
            n += 1;
        }
        i += 1;
    }
    assert(chars@.take(i as int) =~= chars@);
    n
}

#[verifier::loop_isolation(false)]
fn count_opposed(
    out: &Vec<Option<usize>>,
    chars: &Vec<Character>,
    team: Team,
    c: usize,
) -> (n: usize)
    requires
        out@.len() == chars@.len(),
    ensures
        n == opposed(out@, chars@, team, c),
        n <= out@.len(),
{
    let mut n: usize = 0;
    let mut i: usize = 0;
    while i < out.len()
        invariant
            i <= out@.len(),
            n <= i,
            n == opposed(out@.take(i as int), chars@.take(i as int), team, c),
        decreases out@.len() - i,
    {
        assert(out@.take(i + 1).drop_last() =~= out@.take(i as int));
        assert(chars@.take(i + 1).drop_last() =~= chars@.take(i as int));
        let here = match out[i] {
            Some(x) => x == c,
            None => false,
        };
        if here && chars[i].team() != team {
            n += 1;
        }
        i += 1;
    }
    assert(out@.take(i as int) =~= out@);
    assert(chars@.take(i as int) =~= chars@);
    n
}

/// What a list of counts holds.
pub open spec fn counts_view(v: Seq<usize>) -> Seq<nat> {
    v.map_values(|n: usize| n as nat)
}

fn count_opposition(
    out: &Vec<Option<usize>>,
    chars: &Vec<Character>,
    team: Team,
    candidates: usize,
) -> (v:
    Vec<usize>)
    requires
        out@.len() == chars@.len(),
    ensures
        counts_view(v@) == opposition(out@, chars@, team, candidates as nat),
        v@.len() == candidates,
        forall|i: int| 0 <= i < v@.len() ==> (#[trigger] v@[i]) <= out@.len(),
{
    let mut v: Vec<usize> = Vec::new();
    let mut c: usize = 0;
    while c < candidates
        invariant
            c <= candidates,
            out@.len() == chars@.len(),
            v@.len() == c,
            forall|i: int|
                0 <= i < c ==> (#[trigger] v@[i]) == opposed(out@, chars@, team, i as usize)
                    && v@[i] <= out@.len(),
        decreases candidates - c,
    {
        v.push(count_opposed(out, chars, team, c));
        c += 1;
    }
    assert(counts_view(v@) =~= opposition(out@, chars@, team, candidates as nat));
    v
}

/// The table and the team that a row of covariances is weighed for.
struct Sides {
    out: Seq<Option<usize>>,
    chars: Seq<Character>,
    team: Team,
}

proof fn overlap_fits(row: Seq<i64>, t: Sides, k: nat)
    requires
        t.out.len() == t.chars.len(),
        t.chars.len() <= usize::MAX,
        k <= row.len() <= usize::MAX,
        forall|i: int| 0 <= i < row.len() ==> -COVARIANCE_LIMIT <= #[trigger] row[i]
            <= COVARIANCE_LIMIT,
    ensures
        size(
            overlap(
                row.take(k as int),
                opposition(t.out, t.chars, t.team, row.len()).take(k as int),
            ),
        ) <= 0x1000_0000_0000_0000_0000_0000_0000,
{
    overlap_is_bounded(row, t.out, t.chars, t.team, k);
    opposition_is_bounded(t.out, t.chars, t.team, k);
    other_side_is_bounded(t.chars, t.team);
    let n = seats_against(t.out, t.chars, t.team, k);
    assert(COVARIANCE_LIMIT * n <= 0x1000_0000_0000_0000_0000_0000_0000) by (nonlinear_arith)
        requires
            n <= 0xffff_ffff_ffff_ffff,
            COVARIANCE_LIMIT == 0x1000_0000_0000,
    ;
}

proof fn other_side_is_bounded(chars: Seq<Character>, team: Team)
    ensures
        other_side(chars, team) <= chars.len(),
    decreases chars.len(),
{
    if chars.len() > 0 {
        other_side_is_bounded(chars.drop_last(), team);
    }
}

#[verifier::loop_isolation(false)]
fn weigh_overlap(row: &Vec<i64>, against: &Vec<usize>, sides: Ghost<Sides>) -> (n: i128)
    requires
        row@.len() == against@.len(),
        forall|i: int| 0 <= i < row@.len() ==> -COVARIANCE_LIMIT <= #[trigger] row@[i]
            <= COVARIANCE_LIMIT,
        sides@.out.len() == sides@.chars.len(),
        sides@.chars.len() <= usize::MAX,
        counts_view(against@) == opposition(
            sides@.out,
            sides@.chars,
            sides@.team,
            row@.len(),
        ),
    ensures
        n == overlap(row@, counts_view(against@)),
        size(n as int) <= 0x1000_0000_0000_0000_0000_0000_0000,
{
    let ghost counts = counts_view(against@);
    let mut n: i128 = 0;
    let mut i: usize = 0;
    while i < row.len()
        invariant
            i <= row@.len(),
            n == overlap(row@.take(i as int), counts.take(i as int)),
            size(n as int) <= 0x1000_0000_0000_0000_0000_0000_0000,
        decreases row@.len() - i,
    {
        assert(row@.take(i + 1).drop_last() =~= row@.take(i as int));
        assert(counts.take(i + 1).drop_last() =~= counts.take(i as int));
        assert(counts[i as int] == against@[i as int]);
        let x = row[i];
        let k = against[i];
        assert(size(x * k) <= 0x1000_0000_0000_0000_0000_0000_0000) by (nonlinear_arith)
            requires
                -17_592_186_044_416 <= x <= 17_592_186_044_416,
                0 <= k <= 0xffff_ffff_ffff_ffff,
        ;
        proof {
            overlap_fits(row@, sides@, (i + 1) as nat);
        }
        n = n + (x as i128) * (k as i128);
        i += 1;
    }
    assert(row@.take(i as int) =~= row@);
    assert(counts.take(i as int) =~= counts);
    n
}

// ---------------------------------------------------------------------------
// Bidding
// ---------------------------------------------------------------------------

/// What seating a candidate costs.
struct Bid {
    matchup: i128,
    cost: Cost,
}

impl View for Bid {
    type V = BidView;

    closed spec fn view(&self) -> BidView {
        BidView { matchup: self.matchup as int, cost: self.cost }
    }
}

fn absolute(n: i128) -> (r: i128)
    requires
        n > i128::MIN,
    ensures
        r == size(n as int),
{
    if n < 0 { -n } else { n }
}

/// The widest that a match-up can be.
spec fn matchup_fits(n: i128) -> bool {
    size(n as int) <= 0x2000_0000_0000_0000_0000_0000_0000_0000
}

fn is_better(a: &Bid, b: &Bid, total: usize) -> (r: bool)
    requires
        matchup_fits(a.matchup),
        matchup_fits(b.matchup),
    ensures
        r == better(a@, b@, total as int),
{
    let wide_a = absolute(a.matchup);
    let wide_b = absolute(b.matchup);
    let wide = if wide_a > wide_b { wide_a } else { wide_b };
    let gap = absolute(a.matchup - b.matchup);
    assert(0 <= UNIT * total <= 0x1_0000_0000_0000_0000_0000_0000_0000) by (nonlinear_arith)
        requires
            UNIT == 0x100_0000_0000,
            0 <= total <= 0xffff_ffff_ffff_ffff,
    ;
    let slack = UNIT * (total as i128) + wide;
    // The gap exceeds a billionth of the slack.
    let share: i128 = (slack as u128 / 1_000_000_000) as i128;
    assert(gap > share <==> gap * 1_000_000_000 > slack) by (nonlinear_arith)
        requires
            share == slack / 1_000_000_000,
            slack >= 0,
            gap >= 0,
    ;
    if gap > share {
        a.matchup < b.matchup
    } else {
        cost_less(a.cost, b.cost)
    }
}

/// What bids say.
spec fn bids_view(v: Seq<Bid>) -> Seq<BidView> {
    v.map_values(|b: Bid| b@)
}

/// The bids are within bounds.
spec fn bids_fit(v: Seq<Bid>) -> bool {
    forall|i: int| 0 <= i < v.len() ==> matchup_fits((#[trigger] v[i]).matchup)
}

#[verifier::loop_isolation(false)]
fn find_best(order: &Vec<usize>, bids: &Vec<Bid>, total: usize) -> (best: usize)
    requires
        order@.len() > 0,
        is_order(order@, bids@.len()),
        bids_fit(bids@),
    ensures
        best == best_bid(order@, bids_view(bids@), total as int),
        best < bids@.len(),
{
    let mut best = order[0];
    assert(order@[0] < bids@.len());
    let mut i: usize = 1;
    assert(order@.take(1)[0] == order@[0]);
    while i < order.len()
        invariant
            1 <= i <= order@.len(),
            best < bids@.len(),
            best == best_bid(order@.take(i as int), bids_view(bids@), total as int),
        decreases order@.len() - i,
    {
        assert(order@.take(i + 1).drop_last() =~= order@.take(i as int));
        let c = order[i];
        assert(order@[i as int] < bids@.len());
        assert(bids_view(bids@)[c as int] == bids@[c as int]@);
        assert(bids_view(bids@)[best as int] == bids@[best as int]@);
        if is_better(&bids[c], &bids[best], total) {
            best = c;
        }
        i += 1;
    }
    assert(order@.take(i as int) =~= order@);
    best
}

/// What records say.
pub open spec fn records_view(v: Seq<ModelStats>) -> Seq<StatsView> {
    v.map_values(|s: ModelStats| s@)
}

#[verifier::loop_isolation(false)]
fn collect_bids(
    out: &Vec<Option<usize>>,
    live: &Vec<ModelStats>,
    chars: &Vec<Character>,
    sigma: &Vec<Vec<i64>>,
    seat: usize,
    total: usize,
    rng: Ghost<Substream>,
) -> (bids: Vec<Bid>)
    requires
        out@.len() == chars@.len(),
        seat < chars@.len(),
        is_covariance(matrix_view(sigma@), live@.len()),
        total == weight(chars@, team_of(chars@[seat as int])),
    ensures
        bids_view(bids@) == (SelectionView {
            out: out@,
            live: records_view(live@),
            rng: rng@,
        }).bids(chars@, matrix_view(sigma@), seat),
        bids_fit(bids@),
        bids@.len() == live@.len(),
{
    let ghost s = SelectionView { out: out@, live: records_view(live@), rng: rng@ };
    let ghost m = matrix_view(sigma@);
    let who = chars[seat];
    let against = count_opposition(out, chars, who.team(), live.len());
    let mut bids: Vec<Bid> = Vec::new();
    let mut c: usize = 0;
    while c < live.len()
        invariant
            c <= live@.len(),
            bids@.len() == c,
            bids_fit(bids@),
            forall|k: int| 0 <= k < c ==> (#[trigger] bids@[k])@ == s.bids(chars@, m, seat)[k],
        decreases live@.len() - c,
    {
        assert(m[c as int] == sigma@[c as int]@);
        assert forall|i: int| 0 <= i < sigma@[c as int]@.len() implies -COVARIANCE_LIMIT
            <= #[trigger] sigma@[c as int]@[i] <= COVARIANCE_LIMIT by {
            assert(m[c as int][i] == sigma@[c as int]@[i]);
        }
        assert(chars@.len() == chars.len());
        let seen = weigh_overlap(
            &sigma[c],
            &against,
            Ghost(Sides { out: out@, chars: chars@, team: team_of(who) }),
        );
        assert(0 <= SAME_MODEL_PENALTY * total <= 0x1000_0000_0000_0000_0000_0000_0000_0000)
            by (nonlinear_arith)
            requires
                SAME_MODEL_PENALTY == 0x1000_0000_0000_0000,
                0 <= total <= 0xffff_ffff_ffff_ffff,
        ;
        // A candidate already opposite itself resolves nothing and is ranked out.
        let penalty: i128 = if against[c] > 0 { SAME_MODEL_PENALTY * (total as i128) } else { 0 };
        assert(counts_view(against@)[c as int] == against@[c as int]);
        assert(records_view(live@)[c as int] == live@[c as int]@);
        bids.push(Bid { matchup: seen + penalty, cost: cost_of(&live[c], who) });
        c += 1;
    }
    assert(bids_view(bids@) =~= s.bids(chars@, m, seat));
    bids
}

// ---------------------------------------------------------------------------
// Seating
// ---------------------------------------------------------------------------

proof fn team_seats_are_listed(order: Seq<usize>, chars: Seq<Character>, team: Team)
    ensures
        of_team(order, chars, team).len() <= order.len(),
        forall|i: int|
            0 <= i < of_team(order, chars, team).len() ==> order.contains(
                #[trigger] of_team(order, chars, team)[i],
            ),
        forall|k: int|
            0 <= k < order.len() && team_of(chars[#[trigger] order[k] as int]) == team ==> of_team(
                order,
                chars,
                team,
            ).contains(order[k]),
    decreases order.len(),
{
    if order.len() > 0 {
        let front = order.drop_last();
        team_seats_are_listed(front, chars, team);
        let a = of_team(front, chars, team);
        let b = of_team(order, chars, team);
        assert forall|i: int| 0 <= i < b.len() implies order.contains(#[trigger] b[i]) by {
            if i < a.len() {
                assert(b[i] == a[i]);
                assert(front.contains(a[i]));
                assert(order[front.index_of(a[i])] == b[i]);
            } else {
                assert(order[order.len() - 1] == b[i]);
            }
        }
        assert forall|k: int|
            0 <= k < order.len() && team_of(chars[#[trigger] order[k] as int])
                == team implies b.contains(order[k]) by {
            if k < front.len() {
                assert(front[k] == order[k]);
                assert(a.contains(front[k]));
                assert(b[a.index_of(front[k])] == order[k]);
            } else {
                assert(b.last() == order[k]);
            }
        }
    }
}

#[verifier::loop_isolation(false)]
fn team_seats(order: &Vec<usize>, chars: &Vec<Character>, team: Team) -> (v: Vec<usize>)
    requires
        forall|i: int| 0 <= i < order@.len() ==> (#[trigger] order@[i]) < chars@.len(),
    ensures
        v@ == of_team(order@, chars@, team),
{
    let mut v: Vec<usize> = Vec::new();
    let mut i: usize = 0;
    while i < order.len()
        invariant
            i <= order@.len(),
            v@ == of_team(order@.take(i as int), chars@, team),
        decreases order@.len() - i,
    {
        assert(order@.take(i + 1).drop_last() =~= order@.take(i as int));
        let seat = order[i];
        assert(order@[i as int] < chars@.len());
        if chars[seat].team() == team {
            v.push(seat);
        }
        i += 1;
    }
    assert(order@.take(i as int) =~= order@);
    v
}

fn list_records(candidates: &Vec<String>, hist: &History) -> (live: Vec<ModelStats>)
    ensures
        records_view(live@) == starting_records(texts(candidates@), hist@.models),
        live@.len() == candidates@.len(),
{
    let mut live: Vec<ModelStats> = Vec::new();
    let mut i: usize = 0;
    while i < candidates.len()
        invariant
            i <= candidates@.len(),
            live@.len() == i,
            forall|k: int|
                0 <= k < i ==> (#[trigger] live@[k])@ == starting_records(
                    texts(candidates@),
                    hist@.models,
                )[k],
        decreases candidates@.len() - i,
    {
        assert(texts(candidates@)[i as int] == candidates@[i as int]@);
        let record = match stats_of(&hist.models, candidates[i].as_str()) {
            Some(s) => s.clone(),
            None => ModelStats::default(),
        };
        live.push(record);
        i += 1;
    }
    assert(records_view(live@) =~= starting_records(texts(candidates@), hist@.models));
    live
}

/// Give a seat to the best bid.
fn seat_one(
    out: &mut Vec<Option<usize>>,
    live: &mut Vec<ModelStats>,
    rng: &mut Substream,
    chars: &Vec<Character>,
    sigma: &Vec<Vec<i64>>,
    seat: usize,
)
    requires
        old(out)@.len() == chars@.len(),
        seat < chars@.len(),
        0 < old(live)@.len(),
        is_covariance(matrix_view(sigma@), old(live)@.len()),
    ensures
        (SelectionView {
            out: final(out)@,
            live: records_view(final(live)@),
            rng: *final(rng),
        }) == (SelectionView {
            out: old(out)@,
            live: records_view(old(live)@),
            rng: *old(rng),
        }).seated(chars@, matrix_view(sigma@), seat),
        final(out)@.len() == old(out)@.len(),
        final(live)@.len() == old(live)@.len(),
        final(out)@[seat as int] matches Some(c) && c < old(live)@.len(),
        forall|i: int|
            0 <= i < old(out)@.len() && i != seat ==> final(out)@[i] == old(out)@[i],
{
    let who = chars[seat];
    let others = count_other_side(chars, who.team());
    let total: usize = if others == 0 { 1 } else { others };
    let bids = collect_bids(out, live, chars, sigma, seat, total, Ghost(*rng));
    // Random candidate order so equal-cost ties resolve arbitrarily.
    let order = rng.shuffled(live.len());
    let best = find_best(&order, &bids, total);
    out.set(seat, Some(best));
    let mut record = live[best].clone();
    record.note_character(who);
    live.set(best, record);
    proof {
        let s = SelectionView { out: old(out)@, live: records_view(old(live)@), rng: *old(rng) };
        assert(records_view(old(live)@)[best as int] == old(live)@[best as int]@);
        assert(records_view(live@) =~= s.seated(chars@, matrix_view(sigma@), seat).live);
    }
}

// ---------------------------------------------------------------------------
// A second model
// ---------------------------------------------------------------------------

fn is_one_model(out: &Vec<usize>) -> (b: bool)
    ensures
        b == one_model(out@),
{
    let mut i: usize = 0;
    while i < out.len()
        invariant
            i <= out@.len(),
            forall|k: int| 0 <= k < i ==> #[trigger] out@[k] == out@[0],
        decreases out@.len() - i,
    {
        if out[i] != out[0] {
            return false;
        }
        i += 1;
    }
    true
}

#[verifier::loop_isolation(false)]
fn list_others(n: usize, c: usize) -> (v: Vec<usize>)
    ensures
        v@ == candidates_but(n as nat, c),
{
    let mut v: Vec<usize> = Vec::new();
    let mut i: usize = 0;
    while i < n
        invariant
            i <= n,
            v@ == candidates_but(i as nat, c),
        decreases n - i,
    {
        if i != c {
            v.push(i);
        }
        i += 1;
    }
    v
}

proof fn others_are_others(n: nat, c: usize)
    requires
        n <= usize::MAX,
    ensures
        forall|i: int|
            0 <= i < candidates_but(n, c).len() ==> (#[trigger] candidates_but(n, c)[i]) < n
                && candidates_but(n, c)[i] != c,
        candidates_but(n, c).len() == if c < n { n - 1 } else { n as int },
    decreases n,
{
    if n > 0 {
        others_are_others((n - 1) as nat, c);
    }
}

fn list_thin_side(chars: &Vec<Character>, n: usize) -> (side: Vec<usize>)
    requires
        n == chars@.len(),
    ensures
        side@ == thin_side(chars@, n as nat),
        n > 0 ==> side@.len() > 0,
        forall|i: int| 0 <= i < side@.len() ==> (#[trigger] side@[i]) < n,
{
    let mut all: Vec<usize> = Vec::new();
    let mut i: usize = 0;
    while i < n
        invariant
            i <= n,
            all@.len() == i,
            forall|k: int| 0 <= k < i ==> (#[trigger] all@[k]) == k,
        decreases n - i,
    {
        all.push(i);
        i += 1;
    }
    assert(all@ =~= Seq::new(n as nat, |i: int| i as usize));
    let good = team_seats(&all, chars, Team::Good);
    let evil = team_seats(&all, chars, Team::Evil);
    proof {
        team_seats_are_listed(all@, chars@, Team::Good);
        team_seats_are_listed(all@, chars@, Team::Evil);
        if n > 0 {
            assert(good@.contains(all@[0]) || evil@.contains(all@[0]));
        }
        assert forall|k: int| 0 <= k < good@.len() implies (#[trigger] good@[k]) < n by {
            assert(all@.contains(good@[k]));
        }
        assert forall|k: int| 0 <= k < evil@.len() implies (#[trigger] evil@[k]) < n by {
            assert(all@.contains(evil@[k]));
        }
    }
    if evil.len() == 0 || (good.len() > 0 && evil.len() > good.len()) {
        good
    } else {
        evil
    }
}

/// Hard floor: a table must field **at least two models**, because a monolithic table
/// has zero team contrast and so contributes nothing to the leaderboard.
///
/// It is necessarily a no-op when only one model is eligible — there is then no second model to
/// field. A seat on the *smaller* side is flipped: with 5 Good / 2 Evil, a second model on one
/// Evil seat is measured against all 5 Good seats, where one on a Good seat faces 2.
#[verifier::loop_isolation(false)]
fn enforce_two_models(
    out: &mut Vec<usize>,
    chars: &Vec<Character>,
    live: &Vec<ModelStats>,
    rng: &mut Substream,
)
    requires
        old(out)@.len() == chars@.len(),
    ensures
        (final(out)@, *final(rng)) == two_models(
            old(out)@,
            chars@,
            records_view(live@),
            *old(rng),
        ),
        final(out)@.len() == old(out)@.len(),
        forall|i: int|
            0 <= i < final(out)@.len() ==> (#[trigger] final(out)@[i]) == old(out)@[i]
                || final(out)@[i] < live@.len(),
        live@.len() >= 2 && old(out)@.len() >= 2 ==> !one_model(final(out)@),
{
    if live.len() < 2 || out.len() == 0 {
        return;
    }
    if !is_one_model(out) {
        return;
    }
    let incumbent = out[0];
    let side = list_thin_side(chars, out.len());
    let at = rng.pick(side.len());
    let seat = side[at];
    assert(side@[at as int] < out@.len());
    let others = list_others(live.len(), incumbent);
    proof {
        others_are_others(live@.len(), incumbent);
    }
    let order = rng.shuffled(others.len());
    let mut asked: Vec<usize> = Vec::new();
    let mut costs: Vec<Cost> = Vec::new();
    let mut i: usize = 0;
    while i < order.len()
        invariant
            i <= order@.len(),
            asked@.len() == i,
            costs@.len() == i,
            forall|k: int|
                0 <= k < i ==> (#[trigger] asked@[k]) == others@[order@[k] as int] && asked@[k]
                    < live@.len(),
            forall|k: int|
                0 <= k < i ==> (#[trigger] costs@[k]) == cost_on(
                    live@[asked@[k] as int]@,
                    chars@[seat as int],
                ),
        decreases order@.len() - i,
    {
        assert(order@[i as int] < others@.len());
        let c = others[order[i]];
        assert(others@[order@[i as int] as int] < live@.len());
        asked.push(c);
        costs.push(cost_of(&live[c], chars[seat]));
        i += 1;
    }
    assert(asked@ =~= order@.map_values(|k: usize| others@[k as int]));
    assert(costs@ =~= costs_for(asked@, records_view(live@), chars@[seat as int]));
    // The first minimum wins, so the shuffle is the tie-break.
    let best = find_min(&costs);
    let second = asked[best];
    let ghost first = out@;
    out.set(seat, second);
    proof {
        assert(second == others@[order@[best as int] as int]);
        assert(second != incumbent);
        if first.len() >= 2 {
            let other: int = if seat == 0 { 1 } else { 0 };
            assert(first[other] == first[0]);
            assert(out@[other] == incumbent);
            assert(out@[seat as int] == second);
            assert(!one_model(out@)) by {
                if one_model(out@) {
                    assert(out@[other] == out@[0]);
                    assert(out@[seat as int] == out@[0]);
                }
            }
        }
    }
}

/// **Choose which models play**, given the drawn roles — the counterpart to
/// [`crate::harness::balance::balanced_assignment`]. This does NOT permute a hand-picked set: it
/// *selects* from `candidates` (the models offered in the pickers that already have a completed
/// game) so the corpus improves. Returns `out[seat_i]` = index into `candidates`.
///
/// There are usually fewer eligible models than seats, so a candidate may take several
/// seats and some may go unused — repeats **within** a side are free, since only the
/// Good-vs-Evil contrast carries rating signal.
///
/// `sigma` is the posterior covariance of the candidates over the games already played, in
/// fixed point ([`UNIT`] is one).
#[verifier::loop_isolation(false)]
pub fn select_balanced_models(
    seat_chars: &Vec<Character>,
    candidates: &Vec<String>,
    hist: &History,
    sigma: &Vec<Vec<i64>>,
    rng: &mut Substream,
) -> (out: Vec<usize>)
    requires
        0 < candidates@.len(),
        is_covariance(matrix_view(sigma@), candidates@.len()),
    ensures
        (out@, *final(rng)) == selected(
            seat_chars@,
            texts(candidates@),
            hist@,
            matrix_view(sigma@),
            *old(rng),
        ),
        out@.len() == seat_chars@.len(),
        forall|i: int| 0 <= i < out@.len() ==> (#[trigger] out@[i]) < candidates@.len(),
        // A table never fields a single model where a second one is eligible.
        candidates@.len() >= 2 && out@.len() >= 2 ==> !one_model(out@),
{
    let n = seat_chars.len();
    let ghost m = matrix_view(sigma@);
    let mut live = list_records(candidates, hist);
    let order = rng.shuffled(n);
    let mut seats = team_seats(&order, seat_chars, Team::Evil);
    let mut good = team_seats(&order, seat_chars, Team::Good);
    seats.append(&mut good);
    assert(seats@ == evil_first(order@, seat_chars@));
    let mut placed: Vec<Option<usize>> = Vec::new();
    while placed.len() < n
        invariant
            placed@.len() <= n,
            forall|k: int| 0 <= k < placed@.len() ==> (#[trigger] placed@[k]) is None,
        decreases n - placed@.len(),
    {
        placed.push(None);
    }
    assert(placed@ =~= unassigned(n as nat));
    let ghost start = SelectionView { out: placed@, live: records_view(live@), rng: *rng };
    proof {
        team_seats_are_listed(order@, seat_chars@, Team::Evil);
        team_seats_are_listed(order@, seat_chars@, Team::Good);
    }
    let ghost evil = of_team(order@, seat_chars@, Team::Evil);
    let ghost fair = of_team(order@, seat_chars@, Team::Good);
    assert forall|k: int| 0 <= k < seats@.len() implies (#[trigger] seats@[k]) < n by {
        if k < evil.len() {
            assert(order@.contains(evil[k]));
        } else {
            assert(order@.contains(fair[k - evil.len()]));
        }
    }
    let mut i: usize = 0;
    assert(seats@.take(0) =~= seq![]);
    while i < seats.len()
        invariant
            i <= seats@.len(),
            placed@.len() == n,
            live@.len() == candidates@.len(),
            (SelectionView { out: placed@, live: records_view(live@), rng: *rng })
                == start.all_seated(seat_chars@, m, seats@.take(i as int)),
            forall|k: int|
                0 <= k < i ==> placed@[(#[trigger] seats@[k]) as int] is Some,
            forall|k: int|
                0 <= k < n ==> ((#[trigger] placed@[k]) matches Some(c) ==> c < candidates@.len()),
        decreases seats@.len() - i,
    {
        assert(seats@.take(i + 1).drop_last() =~= seats@.take(i as int));
        assert(seats@[i as int] < n);
        seat_one(&mut placed, &mut live, rng, seat_chars, sigma, seats[i]);
        i += 1;
    }
    assert(seats@.take(i as int) =~= seats@);
    assert forall|k: int| 0 <= k < n implies (#[trigger] placed@[k]) is Some by {
        order_reaches_all(order@, n as nat, k);
        let at = choose|at: int| 0 <= at < n && #[trigger] order@[at] == k;
        let team = team_of(seat_chars@[k]);
        if team == Team::Evil {
            assert(evil.contains(order@[at]));
            let j = evil.index_of(order@[at]);
            assert(seats@[j] == k);
        } else {
            assert(fair.contains(order@[at]));
            let j = fair.index_of(order@[at]);
            assert(seats@[evil.len() + j] == k);
        }
    }
    let mut out: Vec<usize> = Vec::new();
    let mut k: usize = 0;
    while k < n
        invariant
            k <= n,
            out@.len() == k,
            forall|j: int|
                0 <= j < k ==> Some(#[trigger] out@[j]) == placed@[j] && out@[j]
                    < candidates@.len(),
        decreases n - k,
    {
        assert(placed@[k as int] is Some);
        let c = match placed[k] {
            Some(c) => c,
            None => 0,
        };
        out.push(c);
        k += 1;
    }
    assert(out@ =~= values_of(placed@));
    enforce_two_models(&mut out, seat_chars, &live, rng);
    out
}

// ---------------------------------------------------------------------------
// Laws
// ---------------------------------------------------------------------------

/// How many opposing seats the first `k` candidates have together.
spec fn seats_against(out: Seq<Option<usize>>, chars: Seq<Character>, team: Team, k: nat) -> nat
    decreases k,
{
    if k == 0 {
        0
    } else {
        seats_against(out, chars, team, (k - 1) as nat)
            + opposed(out, chars, team, (k - 1) as usize)
    }
}

proof fn one_seat_counts_once(out: Seq<Option<usize>>, chars: Seq<Character>, team: Team, k: nat)
    requires
        out.len() == chars.len(),
        out.len() > 0,
        k <= usize::MAX,
    ensures
        seats_against(out, chars, team, k) == seats_against(
            out.drop_last(),
            chars.drop_last(),
            team,
            k,
        ) + (if team_of(chars.last()) != team && (out.last() matches Some(c) && c < k) {
            1nat
        } else {
            0nat
        }),
    decreases k,
{
    if k > 0 {
        one_seat_counts_once(out, chars, team, (k - 1) as nat);
    }
}

proof fn opposition_is_bounded(out: Seq<Option<usize>>, chars: Seq<Character>, team: Team, k: nat)
    requires
        out.len() == chars.len(),
        k <= usize::MAX,
    ensures
        seats_against(out, chars, team, k) <= other_side(chars, team),
    decreases out.len(),
{
    if out.len() > 0 {
        one_seat_counts_once(out, chars, team, k);
        opposition_is_bounded(out.drop_last(), chars.drop_last(), team, k);
    } else {
        nobody_opposes_nobody(out, chars, team, k);
    }
}

proof fn nobody_opposes_nobody(out: Seq<Option<usize>>, chars: Seq<Character>, team: Team, k: nat)
    requires
        out.len() == 0,
    ensures
        seats_against(out, chars, team, k) == 0,
    decreases k,
{
    if k > 0 {
        nobody_opposes_nobody(out, chars, team, (k - 1) as nat);
    }
}

proof fn overlap_is_bounded(
    row: Seq<i64>,
    out: Seq<Option<usize>>,
    chars: Seq<Character>,
    team: Team,
    k: nat,
)
    requires
        k <= row.len() <= usize::MAX,
        forall|i: int| 0 <= i < row.len() ==> -COVARIANCE_LIMIT <= #[trigger] row[i]
            <= COVARIANCE_LIMIT,
    ensures
        ({
            let against = opposition(out, chars, team, row.len());
            size(overlap(row.take(k as int), against.take(k as int))) <= COVARIANCE_LIMIT
                * seats_against(out, chars, team, k)
        }),
    decreases k,
{
    let against = opposition(out, chars, team, row.len());
    if k > 0 {
        overlap_is_bounded(row, out, chars, team, (k - 1) as nat);
        assert(row.take(k as int).drop_last() =~= row.take(k - 1));
        assert(against.take(k as int).drop_last() =~= against.take(k - 1));
        let x = row[k - 1] as int;
        let w = against[k - 1];
        assert(-COVARIANCE_LIMIT <= x <= COVARIANCE_LIMIT);
        assert(-(COVARIANCE_LIMIT * w) <= x * w <= COVARIANCE_LIMIT * w) by (nonlinear_arith)
            requires
                -COVARIANCE_LIMIT <= x <= COVARIANCE_LIMIT,
                w >= 0,
        ;
        let before = seats_against(out, chars, team, (k - 1) as nat);
        assert(COVARIANCE_LIMIT * (before + w) == COVARIANCE_LIMIT * before + COVARIANCE_LIMIT * w)
            by (nonlinear_arith);
    }
}

/// A candidate that is not seated opposite beats one that is.
proof fn free_beats_split(a: BidView, b: BidView, x: int, y: int, total: int)
    requires
        total >= 1,
        a.matchup == x,
        b.matchup == y + SAME_MODEL_PENALTY * total,
        size(x) <= COVARIANCE_LIMIT * total,
        size(y) <= COVARIANCE_LIMIT * total,
    ensures
        better(a, b, total),
        !better(b, a, total),
{
    assert(size(a.matchup - b.matchup) >= (SAME_MODEL_PENALTY - 2 * COVARIANCE_LIMIT) * total)
        by (nonlinear_arith)
        requires
            total >= 1,
            a.matchup == x,
            b.matchup == y + SAME_MODEL_PENALTY * total,
            size(x) <= COVARIANCE_LIMIT * total,
            size(y) <= COVARIANCE_LIMIT * total,
    ;
    assert(size(a.matchup) <= (SAME_MODEL_PENALTY + COVARIANCE_LIMIT) * total && size(b.matchup)
        <= (SAME_MODEL_PENALTY + COVARIANCE_LIMIT) * total) by (nonlinear_arith)
        requires
            total >= 1,
            a.matchup == x,
            b.matchup == y + SAME_MODEL_PENALTY * total,
            size(x) <= COVARIANCE_LIMIT * total,
            size(y) <= COVARIANCE_LIMIT * total,
    ;
    assert((SAME_MODEL_PENALTY - 2 * COVARIANCE_LIMIT) * total * 1_000_000_000 > UNIT * total + (
    SAME_MODEL_PENALTY + COVARIANCE_LIMIT) * total) by (nonlinear_arith)
        requires
            total >= 1,
    ;
    assert(a.matchup < b.matchup) by (nonlinear_arith)
        requires
            total >= 1,
            a.matchup == x,
            b.matchup == y + SAME_MODEL_PENALTY * total,
            size(x) <= COVARIANCE_LIMIT * total,
            size(y) <= COVARIANCE_LIMIT * total,
    ;
}

/// The bids, told apart by whether the candidate is already seated opposite.
spec fn bids_split(bids: Seq<BidView>, against: Seq<nat>, total: int) -> bool {
    &&& bids.len() == against.len()
    &&& forall|a: int, b: int|
        0 <= a < bids.len() && 0 <= b < bids.len() && #[trigger] against[a] == 0
            && #[trigger] against[b] > 0 ==> better(bids[a], bids[b], total) && !better(
            bids[b],
            bids[a],
            total,
        )
}

proof fn free_candidates_win(order: Seq<usize>, bids: Seq<BidView>, against: Seq<nat>, total: int)
    requires
        bids_split(bids, against, total),
        order.len() > 0,
        forall|i: int| 0 <= i < order.len() ==> (#[trigger] order[i]) < bids.len(),
    ensures
        order.contains(best_bid(order, bids, total)),
        against[best_bid(order, bids, total) as int] > 0 ==> forall|i: int|
            0 <= i < order.len() ==> against[(#[trigger] order[i]) as int] > 0,
    decreases order.len(),
{
    if order.len() > 1 {
        let front = order.drop_last();
        assert forall|i: int| 0 <= i < front.len() implies (#[trigger] front[i]) < bids.len() by {
            assert(front[i] == order[i]);
        }
        free_candidates_win(front, bids, against, total);
        let best = best_bid(front, bids, total);
        let j = front.index_of(best);
        assert(order[j] == best);
        assert(order[order.len() - 1] == order.last());
        assert forall|i: int|
            0 <= i < order.len() && against[best_bid(order, bids, total) as int]
                > 0 implies against[(#[trigger] order[i]) as int] > 0 by {
            if i < front.len() {
                assert(front[i] == order[i]);
            }
        }
    } else {
        assert(order[0] == best_bid(order, bids, total));
    }
}

/// A model is not put on both sides of the table while some candidate sits on neither that side
/// nor the opposing one: whoever gets a seat is already seated opposite only if everybody is.
pub proof fn nobody_faces_itself_needlessly(
    s: SelectionView,
    chars: Seq<Character>,
    sigma: Seq<Seq<i64>>,
    seat: usize,
    other: usize,
)
    requires
        s.out.len() == chars.len(),
        seat < chars.len(),
        other < s.live.len() <= usize::MAX,
        is_covariance(sigma, s.live.len()),
        is_order(s.rng.order(s.live.len()).0, s.live.len()),
        opposed(s.out, chars, team_of(chars[seat as int]), other) == 0,
    ensures
        opposed(
            s.out,
            chars,
            team_of(chars[seat as int]),
            s.winner(chars, sigma, seat),
        ) == 0,
{
    let team = team_of(chars[seat as int]);
    let n = s.live.len();
    let total = weight(chars, team);
    let against = opposition(s.out, chars, team, n);
    let bids = s.bids(chars, sigma, seat);
    let order = s.rng.order(n).0;
    opposition_is_bounded(s.out, chars, team, n);
    assert forall|a: int| 0 <= a < n implies size(overlap(#[trigger] sigma[a], against))
        <= COVARIANCE_LIMIT * total by {
        let row = sigma[a];
        assert forall|i: int| 0 <= i < row.len() implies -COVARIANCE_LIMIT <= #[trigger] row[i]
            <= COVARIANCE_LIMIT by {
            assert(row[i] == sigma[a][i]);
        }
        overlap_is_bounded(row, s.out, chars, team, n);
        assert(row.take(n as int) =~= row);
        assert(against.take(n as int) =~= against);
        assert(COVARIANCE_LIMIT * seats_against(s.out, chars, team, n) <= COVARIANCE_LIMIT * total)
            by (nonlinear_arith)
            requires
                seats_against(s.out, chars, team, n) <= total,
        ;
    }
    assert forall|a: int, b: int|
        0 <= a < bids.len() && 0 <= b < bids.len() && #[trigger] against[a] == 0
            && #[trigger] against[b] > 0 implies better(bids[a], bids[b], total) && !better(
        bids[b],
        bids[a],
        total,
    ) by {
        let x = overlap(sigma[a], against);
        let y = overlap(sigma[b], against);
        free_beats_split(bids[a], bids[b], x, y, total);
    }
    free_candidates_win(order, bids, against, total);
    order_reaches_all(order, n, other as int);
    let at = choose|at: int| 0 <= at < n && #[trigger] order[at] == other;
    assert(against[other as int] == 0);
    let won = s.winner(chars, sigma, seat);
    assert(order.contains(won));
    let i = order.index_of(won);
    assert(order[i] < n);
    assert(against[won as int] == opposed(s.out, chars, team, won));
}

} // verus!
