//! The order in which a batch of questions is published.
//!
//! The order comes from the inverse riffle shuffle of the `shuffle` crate, fed
//! by a generator that steps through an arithmetic sequence. Nothing is drawn
//! from the clock, the environment or the machine's entropy, and every
//! shuffle starts the generator anew: its start and step are configuration.
//!
//! Every batch comes out as a rearrangement of what went in. The order is
//! the same in every run, and after any number of earlier shuffles,
//! wherever the shuffle settles within the bits that it draws from the
//! generator at its start; it then depends on the number of questions and
//! the configuration alone, never on the texts. A batch of at most
//! `REPEATABLE_LEN` questions always settles so.

use vstd::prelude::*;
use crate::question::{texts, Question};

verus! {

/// Start of the generator's sequence unless configured otherwise.
pub const DEFAULT_SEED: u64 = 2;

/// Step of the generator's sequence unless configured otherwise.
pub const DEFAULT_INCREMENT: u64 = 13;

/// A batch of at most this many questions settles with every
/// configuration: the shuffle makes at most 128 rounds of one bit per
/// question, and 256 bits are what it draws at its start.
pub const REPEATABLE_LEN: usize = 2;

/// Whether the inverse riffle shuffle of `len` items settles: whether its
/// rounds end, or are given up after the 128th, within the 256 bits that it
/// draws at its start from a generator that begins at `seed` and steps by
/// `increment`.
pub uninterp spec fn irs_settles(len: nat, seed: u64, increment: u64) -> bool;

/// Where the inverse riffle shuffle of `len` items takes each item from,
/// if it settles: the item that comes out at place `i` went in at place
/// `irs_places(len, seed, increment)[i]`.
pub uninterp spec fn irs_places(len: nat, seed: u64, increment: u64) -> Seq<int>;

/// Whether `places` names every place of a batch of `len` items once.
pub open spec fn is_placement(places: Seq<int>, len: nat) -> bool {
    &&& places.len() == len
    &&& forall|i: int| 0 <= i < len ==> 0 <= #[trigger] places[i] < len
    &&& forall|i: int, j: int| 0 <= i < j < len ==> #[trigger] places[i] != #[trigger] places[j]
}

/// The batch that holds at each place the text that `before` holds at the
/// place named for it.
pub open spec fn placed(before: Seq<Seq<char>>, places: Seq<int>) -> Seq<Seq<char>> {
    Seq::new(places.len(), |i: int| before[places[i]])
}

/// Configuration of the shuffle: the arithmetic sequence that stands in for
/// randomness.
#[derive(Clone, Copy, Debug, PartialEq, Eq, Structural)]
pub struct Shuffler {
    pub seed: u64,
    pub increment: u64,
}

/// The configuration with the default seed and increment.
pub open spec fn fixed_shuffler() -> Shuffler {
    Shuffler { seed: DEFAULT_SEED, increment: DEFAULT_INCREMENT }
}

impl Shuffler {
    /// A shuffler whose generator starts at `seed` and steps by `increment`.
    pub fn new(seed: u64, increment: u64) -> (shuffler: Shuffler)
        ensures
            shuffler == (Shuffler { seed, increment }),
    {
        Shuffler { seed, increment }
    }

    /// The shuffler with the default seed and increment.
    pub fn fixed() -> (shuffler: Shuffler)
        ensures
            shuffler == fixed_shuffler(),
    {
        Shuffler { seed: DEFAULT_SEED, increment: DEFAULT_INCREMENT }
    }

    /// Whether a shuffle of `len` questions settles with this
    /// configuration.
    pub open spec fn settles(self, len: nat) -> bool {
        irs_settles(len, self.seed, self.increment)
    }

    /// Where a shuffle of `len` questions that settles takes each question
    /// from.
    pub open spec fn places(self, len: nat) -> Seq<int> {
        irs_places(len, self.seed, self.increment)
    }

    /// What `shuffle` returns for a batch with the texts `before`: the same
    /// texts, each as often as before; and wherever the shuffle settles,
    /// which it does for every batch of at most `REPEATABLE_LEN` texts, in
    /// the one order that the number of texts and the configuration fix.
    pub open spec fn arranges(self, before: Seq<Seq<char>>, after: Seq<Seq<char>>) -> bool {
        &&& after.len() == before.len()
        &&& after.to_multiset() == before.to_multiset()
        &&& before.len() <= REPEATABLE_LEN ==> self.settles(before.len())
        &&& self.settles(before.len()) ==> is_placement(self.places(before.len()), before.len())
            && after == placed(before, self.places(before.len()))
    }

    /// Reorders a batch of questions. No question is dropped, added or
    /// changed.
    pub fn shuffle(&self, questions: Vec<Question>) -> (shuffled: Vec<Question>)
        ensures
            self.arranges(texts(questions@), texts(shuffled@)),
    {
        let mut shuffled = questions;
        irs_shuffle(&mut shuffled, self.seed, self.increment);
        proof {
            texts(questions@).to_multiset_ensures();
            texts(shuffled@).to_multiset_ensures();
        }
        shuffled
    }
}

/// Reorders a batch of questions with the default seed and increment.
pub fn shuffle_questions(questions: Vec<Question>) -> (shuffled: Vec<Question>)
    ensures
        fixed_shuffler().arranges(texts(questions@), texts(shuffled@)),
{
    Shuffler::fixed().shuffle(questions)
}

/// A shuffle is a rearrangement: the batch keeps its length, every text
/// occurs as often afterwards as before, every text that comes out went
/// in and every text that went in comes out. A batch of no question or
/// of one comes out as it went in.
pub proof fn lemma_shuffle_rearranges(
    shuffler: Shuffler,
    before: Seq<Seq<char>>,
    after: Seq<Seq<char>>,
)
    requires
        shuffler.arranges(before, after),
    ensures
        after.len() == before.len(),
        forall|text: Seq<char>| after.to_multiset().count(text) == before.to_multiset().count(text),
        forall|i: int| 0 <= i < after.len() ==> before.contains(#[trigger] after[i]),
        forall|i: int| 0 <= i < before.len() ==> after.contains(#[trigger] before[i]),
        before.len() <= 1 ==> after == before,
{
    assert forall|i: int| 0 <= i < after.len() implies before.contains(#[trigger] after[i]) by {
        assert(after.contains(after[i]));
        vstd::seq_lib::to_multiset_contains(after, after[i]);
        vstd::seq_lib::to_multiset_contains(before, after[i]);
    }
    assert forall|i: int| 0 <= i < before.len() implies after.contains(#[trigger] before[i]) by {
        assert(before.contains(before[i]));
        vstd::seq_lib::to_multiset_contains(before, before[i]);
        vstd::seq_lib::to_multiset_contains(after, before[i]);
    }
    if before.len() == 1 {
        assert(before.contains(after[0]));
    }
    if before.len() <= 1 {
        assert(after =~= before);
    }
}

/// The shuffle is repeatable wherever it settles: two shuffles of the
/// same texts with the same configuration give the same order, whatever
/// was shuffled before or between them.
pub proof fn lemma_shuffle_repeatable(
    shuffler: Shuffler,
    before: Seq<Seq<char>>,
    first: Seq<Seq<char>>,
    second: Seq<Seq<char>>,
)
    requires
        shuffler.settles(before.len()),
        shuffler.arranges(before, first),
        shuffler.arranges(before, second),
    ensures
        first == second,
{
}

/// A batch of at most `REPEATABLE_LEN` questions is shuffled repeatably
/// with every configuration.
pub proof fn lemma_small_shuffle_repeatable(
    shuffler: Shuffler,
    before: Seq<Seq<char>>,
    first: Seq<Seq<char>>,
    second: Seq<Seq<char>>,
)
    requires
        before.len() <= REPEATABLE_LEN,
        shuffler.arranges(before, first),
        shuffler.arranges(before, second),
    ensures
        first == second,
{
}

/// The shuffle goes by place, not by text: wherever it settles, two
/// batches of one length are moved by one rearrangement of their places.
pub proof fn lemma_shuffle_goes_by_place(
    shuffler: Shuffler,
    one: Seq<Seq<char>>,
    other: Seq<Seq<char>>,
    one_shuffled: Seq<Seq<char>>,
    other_shuffled: Seq<Seq<char>>,
)
    requires
        one.len() == other.len(),
        shuffler.settles(one.len()),
        shuffler.arranges(one, one_shuffled),
        shuffler.arranges(other, other_shuffled),
    ensures
        is_placement(shuffler.places(one.len()), one.len()),
        forall|i: int|
            0 <= i < one.len() ==> #[trigger] one_shuffled[i] == one[shuffler.places(one.len())[i]],
        forall|i: int|
            0 <= i < one.len() ==> #[trigger] other_shuffled[i] == other[shuffler.places(
                one.len(),
            )[i]],
{
}

/// Calls `Irs::shuffle` of the `shuffle` crate on the batch, with a fresh
/// `Irs` and a fresh `rand::rngs::mock::StepRng` made from `seed` and
/// `increment`. The call's `Result` only tells whether the rounds ended
/// early and is dropped.
///
/// Trusted: every round of the shuffle moves each item to a place of its
/// own, so the batch holds the same questions afterwards. A round reads one
/// bit per item and nothing of the items themselves; as long as all bits
/// are among the 256 that the shuffle draws from the generator at its
/// start, which is so for at most `REPEATABLE_LEN` items in at most 128
/// rounds, the places are a function of the number of items, the seed and
/// the increment. Where the shuffle does not settle within those bits, the
/// crate goes on reading behind the bytes that it drew, and nothing is
/// claimed of the order.
#[verifier::external_body]
fn irs_shuffle(questions: &mut Vec<Question>, seed: u64, increment: u64)
    ensures
        texts(final(questions)@).to_multiset() == texts(old(questions)@).to_multiset(),
        old(questions)@.len() <= REPEATABLE_LEN ==> irs_settles(
            old(questions)@.len(),
            seed,
            increment,
        ),
        irs_settles(old(questions)@.len(), seed, increment) ==> is_placement(
            irs_places(old(questions)@.len(), seed, increment),
            old(questions)@.len(),
        ) && texts(final(questions)@) == placed(
            texts(old(questions)@),
            irs_places(old(questions)@.len(), seed, increment),
        ),
{
    let mut rng = ::rand::rngs::mock::StepRng::new(seed, increment);
    let mut irs = ::shuffle::irs::Irs::default();
    let _ = ::shuffle::shuffler::Shuffler::shuffle(&mut irs, questions, &mut rng);
}

} // verus!
