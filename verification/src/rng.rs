//! Seeded RNG with labeled substreams for deterministic evals.

use rand::seq::SliceRandom;
use rand::{Rng, RngCore, SeedableRng};
use rand_chacha::ChaCha8Rng;
use std::collections::hash_map::DefaultHasher;
use std::hash::Hasher;
use vstd::bytes::{spec_u64_to_le_bytes, u64_to_le_bytes};
use vstd::prelude::*;
use vstd::std_specs::hash::DefaultHasherAdditionalSpecFns;
use vstd::string::*;
use vstd::utf8::encode_utf8;

verus! {

/// What `ChaCha8Rng::next_u64` gives for a generator made by `seed_from_u64(seed)` and moved
/// to word `pos`: the number, and the word position after it.
pub uninterp spec fn word_draw(seed: u64, pos: u128) -> (u64, u128);

/// What `Rng::gen_ratio(num, den)` gives for a `ChaCha8Rng` made by `seed_from_u64(seed)` and
/// moved to word `pos`: the coin, and the word position after it.
pub uninterp spec fn ratio_draw(seed: u64, pos: u128, num: u32, den: u32) -> (bool, u128);

/// What `Rng::gen_range(0..n)` on `u64` gives for a `ChaCha8Rng` made by `seed_from_u64(seed)`
/// and moved to word `pos`: the number, and the word position after it.
pub uninterp spec fn range_draw(seed: u64, pos: u128, n: u64) -> (u64, u128);

/// Which index `SliceRandom::choose` picks out of `n` items with a `ChaCha8Rng` made by
/// `seed_from_u64(seed)` and moved to word `pos`, and the word position after it.
pub uninterp spec fn choice_draw(seed: u64, pos: u128, n: nat) -> (nat, u128);

/// Into which order `SliceRandom::shuffle` brings the indices `0..n` with a `ChaCha8Rng` made
/// by `seed_from_u64(seed)` and moved to word `pos`, and the word position after it.
pub uninterp spec fn shuffle_draw(seed: u64, pos: u128, n: nat) -> (Seq<usize>, u128);

/// `order` lists each of `0..n` exactly once.
pub open spec fn is_order(order: Seq<usize>, n: nat) -> bool {
    &&& order.len() == n
    &&& forall|i: int| 0 <= i < n ==> (#[trigger] order[i]) < n
    &&& order.no_duplicates()
}

/// Calls `ChaCha8Rng::next_u64`. Claimed: the number and the position after it depend on the
/// seed and the position alone.
#[verifier::external_body]
fn chacha_word(seed: u64, pos: u128) -> (r: (u64, u128))
    ensures
        r == word_draw(seed, pos),
{
    let mut rng = ChaCha8Rng::seed_from_u64(seed);
    rng.set_word_pos(pos);
    let value = rng.next_u64();
    (value, rng.get_word_pos())
}

/// Calls `Rng::gen_ratio` on a `ChaCha8Rng`. Claimed: the coin and the position after it depend
/// on the seed, the position and the odds alone.
#[verifier::external_body]
fn chacha_ratio(seed: u64, pos: u128, num: u32, den: u32) -> (r: (bool, u128))
    requires
        num <= den,
        0 < den,
    ensures
        r == ratio_draw(seed, pos, num, den),
{
    let mut rng = ChaCha8Rng::seed_from_u64(seed);
    rng.set_word_pos(pos);
    let value = rng.gen_ratio(num, den);
    (value, rng.get_word_pos())
}

/// Calls `Rng::gen_range(0..n)` on a `ChaCha8Rng`. Claimed: the number is below `n`, and it and
/// the position after it depend on the seed, the position and `n` alone.
#[verifier::external_body]
fn chacha_range(seed: u64, pos: u128, n: u64) -> (r: (u64, u128))
    requires
        0 < n,
    ensures
        r == range_draw(seed, pos, n),
        r.0 < n,
{
    let mut rng = ChaCha8Rng::seed_from_u64(seed);
    rng.set_word_pos(pos);
    let value = rng.gen_range(0..n);
    (value, rng.get_word_pos())
}

/// Calls `SliceRandom::choose` on the indices `0..n` with a `ChaCha8Rng`. Claimed: the index is
/// below `n`, and it and the position after it depend on the seed, the position and `n` alone.
#[verifier::external_body]
fn chacha_choice(seed: u64, pos: u128, n: usize) -> (r: (usize, u128))
    requires
        0 < n,
    ensures
        (r.0 as nat, r.1) == choice_draw(seed, pos, n as nat),
        r.0 < n,
{
    let mut rng = ChaCha8Rng::seed_from_u64(seed);
    rng.set_word_pos(pos);
    let indices: Vec<usize> = (0..n).collect();
    let value = *indices.choose(&mut rng).unwrap();
    (value, rng.get_word_pos())
}

/// Calls `SliceRandom::shuffle` on the indices `0..n` with a `ChaCha8Rng`. Claimed: what comes
/// out lists each index once, and it and the position after it depend on the seed, the position
/// and `n` alone.
#[verifier::external_body]
fn chacha_shuffle(seed: u64, pos: u128, n: usize) -> (r: (Vec<usize>, u128))
    ensures
        (r.0@, r.1) == shuffle_draw(seed, pos, n as nat),
        is_order(r.0@, n as nat),
{
    let mut rng = ChaCha8Rng::seed_from_u64(seed);
    rng.set_word_pos(pos);
    let mut indices: Vec<usize> = (0..n).collect();
    indices.shuffle(&mut rng);
    (indices, rng.get_word_pos())
}

/// Calls `rand::random`. Nothing is claimed of the number: it comes from the thread's generator.
#[verifier::external_body]
pub(crate) fn random_u64() -> (r: u64) {
    rand::random()
}

/// A ChaCha stream: the seed it was made from and how many 32-bit words were drawn.
#[derive(Debug, Clone, Copy, PartialEq, Eq, Structural)]
pub struct Substream {
    pub seed: u64,
    pub pos: u128,
}

impl Substream {
    pub open spec fn start(seed: u64) -> Substream {
        Substream { seed, pos: 0 }
    }

    /// A coin with `num` in `den` odds, and the stream after it.
    pub open spec fn coin(self, num: u32, den: u32) -> (bool, Substream) {
        let d = ratio_draw(self.seed, self.pos, num, den);
        (d.0, Substream { pos: d.1, ..self })
    }

    /// A number below `n`, and the stream after it. (The draw is always in range.)
    pub open spec fn below(self, n: nat) -> (int, Substream) {
        let d = range_draw(self.seed, self.pos, n as u64);
        (if d.0 < n { d.0 as int } else { 0 }, Substream { pos: d.1, ..self })
    }

    /// The index of one of `n` items, and the stream after it. (The draw is always in range.)
    pub open spec fn choice(self, n: nat) -> (int, Substream) {
        let d = choice_draw(self.seed, self.pos, n);
        (if d.0 < n { d.0 as int } else { 0 }, Substream { pos: d.1, ..self })
    }

    /// An order of `0..n`, and the stream after it. (The draw always lists each index once.)
    pub open spec fn order(self, n: nat) -> (Seq<usize>, Substream) {
        let d = shuffle_draw(self.seed, self.pos, n);
        (
            if is_order(d.0, n) { d.0 } else { Seq::new(n, |i: int| i as usize) },
            Substream { pos: d.1, ..self },
        )
    }

    /// The next 64-bit number of the stream.
    pub fn gen(&mut self) -> (r: u64)
        ensures
            (r, final(self).pos) == word_draw(old(self).seed, old(self).pos),
            final(self).seed == old(self).seed,
    {
        let (value, pos) = chacha_word(self.seed, self.pos);
        self.pos = pos;
        value
    }

    /// A coin that shows `true` with `num` in `den` odds.
    pub fn gen_ratio(&mut self, num: u32, den: u32) -> (r: bool)
        requires
            num <= den,
            0 < den,
        ensures
            (r, *final(self)) == old(self).coin(num, den),
    {
        let (value, pos) = chacha_ratio(self.seed, self.pos, num, den);
        self.pos = pos;
        value
    }

    /// A number below `n`.
    pub fn gen_below(&mut self, n: usize) -> (r: usize)
        requires
            0 < n,
        ensures
            (r as int, *final(self)) == old(self).below(n as nat),
            r < n,
    {
        let (value, pos) = chacha_range(self.seed, self.pos, n as u64);
        self.pos = pos;
        value as usize
    }

    /// The index of one of `n` items.
    pub fn pick(&mut self, n: usize) -> (r: usize)
        requires
            0 < n,
        ensures
            (r as int, *final(self)) == old(self).choice(n as nat),
            r < n,
    {
        let (value, pos) = chacha_choice(self.seed, self.pos, n);
        self.pos = pos;
        value
    }

    /// An order of `0..n`.
    pub fn shuffled(&mut self, n: usize) -> (r: Vec<usize>)
        ensures
            (r@, *final(self)) == old(self).order(n as nat),
            is_order(r@, n as nat),
    {
        let (value, pos) = chacha_shuffle(self.seed, self.pos, n);
        self.pos = pos;
        value
    }
}

/// Master seeded RNG. Labeled [`Self::substream`]s are deterministic and independent of draw
/// order.
///
/// Substreams mix **seed + secret_salt + label** so public labels alone cannot reproduce draws
/// without the host-only salt.
#[derive(Debug, Clone, Copy, PartialEq, Eq, Structural)]
pub struct SeededRng {
    seed: u64,
    /// Per-game secret; host-only. Mixed into every substream.
    salt: u64,
}

/// The hash of `seed || salt || label` that starts a labeled substream.
pub open spec fn mixed_seed(seed: u64, salt: u64, label: Seq<char>) -> u64 {
    DefaultHasher::spec_finish(
        seq![
            spec_u64_to_le_bytes(seed),
            spec_u64_to_le_bytes(salt),
            encode_utf8(label),
            seq![0xffu8],
        ],
    )
}

impl SeededRng {
    pub closed spec fn the_seed(self) -> u64 {
        self.seed
    }

    pub closed spec fn the_salt(self) -> u64 {
        self.salt
    }

    /// The substream of a label.
    pub open spec fn stream(self, label: Seq<char>) -> Substream {
        Substream::start(mixed_seed(self.the_seed(), self.the_salt(), label))
    }

    /// Build with `salt = 0` (tests / direct bag sampling that only care about `seed`).
    pub fn from_seed(seed: u64) -> (r: SeededRng)
        ensures
            r.the_seed() == seed,
            r.the_salt() == 0,
    {
        Self::from_seed_and_salt(seed, 0)
    }

    /// Build with an explicit per-game secret salt.
    pub fn from_seed_and_salt(seed: u64, salt: u64) -> (r: SeededRng)
        ensures
            r.the_seed() == seed,
            r.the_salt() == salt,
    {
        SeededRng { seed, salt }
    }

    pub fn seed(&self) -> (r: u64)
        ensures
            r == self.the_seed(),
    {
        self.seed
    }

    pub fn salt(&self) -> (r: u64)
        ensures
            r == self.the_salt(),
    {
        self.salt
    }

    /// Derive a fresh stream from `seed || salt || label` so ability draws are replay-stable
    /// for a given (seed, salt) pair but not from public labels alone.
    pub fn substream(&self, label: &str) -> (r: Substream)
        ensures
            r == self.stream(label@),
    {
        let mut hasher = DefaultHasher::new();
        hasher.write(u64_to_le_bytes(self.seed).as_slice());
        hasher.write(u64_to_le_bytes(self.salt).as_slice());
        hasher.write(label.as_bytes());
        let terminator = vec![0xffu8];
        assert(terminator@ =~= seq![0xffu8]);
        hasher.write(terminator.as_slice());
        assert(hasher@ =~= seq![
            spec_u64_to_le_bytes(self.seed),
            spec_u64_to_le_bytes(self.salt),
            encode_utf8(label@),
            seq![0xffu8],
        ]);
        Substream { seed: hasher.finish(), pos: 0 }
    }
}

/// Two generators with one seed and one salt draw alike under every label.
pub proof fn same_seed_same_substreams(a: SeededRng, b: SeededRng, label: Seq<char>)
    requires
        a.the_seed() == b.the_seed(),
        a.the_salt() == b.the_salt(),
    ensures
        a.stream(label) == b.stream(label),
        a == b,
{
}

/// Draws are in range: a number below `n` and the index of one of `n` items are below `n`, and an
/// order of `n` lists each index once.
pub proof fn draws_are_in_range(rng: Substream, n: nat)
    ensures
        n > 0 ==> 0 <= rng.below(n).0 < n,
        n > 0 ==> 0 <= rng.choice(n).0 < n,
        n <= usize::MAX ==> is_order(rng.order(n).0, n),
{
}

} // verus!
