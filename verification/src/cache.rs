//! The exchange-rate cache and what a fetch cycle does to it.
//!
//! The cache holds one rate. A cycle that fetched and decoded a value
//! replaces it; a cycle that failed, in transport or in decoding, leaves it as
//! it was. Nothing else ever writes it.

use vstd::prelude::*;
use crate::rate::Rate;

verus! {

/// How one fetch cycle ended.
#[derive(Clone, Copy, Debug, PartialEq, Eq, Structural)]
pub enum FetchOutcome {
    /// The upstream answered and the answer held this rate.
    Refreshed(Rate),
    /// The request did not get an answer.
    TransportFailure,
    /// An answer came, but not in the expected shape.
    DecodeFailure,
}

/// The cached rate after a cycle that ended in `outcome`, given the rate
/// cached before it.
pub open spec fn rate_after(before: Rate, outcome: FetchOutcome) -> Rate {
    match outcome {
        FetchOutcome::Refreshed(rate) => rate,
        FetchOutcome::TransportFailure => before,
        FetchOutcome::DecodeFailure => before,
    }
}

/// The cached rate after a run of cycles, oldest first, that started from
/// `initial`.
pub open spec fn rate_after_all(initial: Rate, outcomes: Seq<FetchOutcome>) -> Rate
    decreases outcomes.len(),
{
    if outcomes.len() == 0 {
        initial
    } else {
        rate_after(rate_after_all(initial, outcomes.drop_last()), outcomes.last())
    }
}

/// The latest known exchange rate.
///
/// A cache starts at positive zero and changes only through
/// [`RateCache::record`]. It remembers, for the proofs alone, every outcome
/// it was told of, and at all times holds the rate that this history leads
/// to.
#[derive(Clone, Copy)]
pub struct RateCache {
    rate: Rate,
    seen: Ghost<Seq<FetchOutcome>>,
}

impl View for RateCache {
    type V = Rate;

    closed spec fn view(&self) -> Rate {
        self.rate
    }
}

impl RateCache {
    /// The outcomes recorded so far, oldest first.
    pub closed spec fn history(&self) -> Seq<FetchOutcome> {
        self.seen@
    }

    #[verifier::type_invariant]
    spec fn follows_history(&self) -> bool {
        self.rate == rate_after_all(Rate::zero_rate(), self.seen@)
    }

    /// A cache that has seen no fetch yet: it holds positive zero.
    pub fn new() -> (cache: RateCache)
        ensures
            cache@ == Rate::zero_rate(),
            cache.history() == Seq::<FetchOutcome>::empty(),
    {
        RateCache { rate: Rate::zero(), seen: Ghost(Seq::empty()) }
    }

    /// The rate held now: the one the recorded outcomes lead to.
    pub fn rate(&self) -> (rate: Rate)
        ensures
            rate == self@,
            rate == rate_after_all(Rate::zero_rate(), self.history()),
    {
        proof {
            use_type_invariant(self);
        }
        self.rate
    }

    /// Takes note of how a fetch cycle ended: a refreshed rate replaces the
    /// cached one, a failure changes nothing.
    pub fn record(&mut self, outcome: &FetchOutcome)
        ensures
            final(self)@ == rate_after(old(self)@, *outcome),
            final(self).history() == old(self).history().push(*outcome),
    {
        proof {
            use_type_invariant(&*self);
        }
        let ghost longer = self.seen@.push(*outcome);
        assert(longer.drop_last() =~= self.seen@);
        let rate = match outcome {
            FetchOutcome::Refreshed(fetched) => *fetched,
            FetchOutcome::TransportFailure => self.rate,
            FetchOutcome::DecodeFailure => self.rate,
        };
        *self = RateCache { rate, seen: Ghost(longer) };
    }
}

/// Cycle by cycle: after the cycle at position `k` of any run, the cache holds
/// that cycle's rate if it was refreshed, and otherwise what it held before
/// that cycle.
pub proof fn lemma_each_cycle(initial: Rate, outcomes: Seq<FetchOutcome>, k: int)
    requires
        0 <= k < outcomes.len(),
    ensures
        outcomes[k] matches FetchOutcome::Refreshed(rate) ==> rate_after_all(
            initial,
            outcomes.take(k + 1),
        ) == rate,
        !(outcomes[k] is Refreshed) ==> rate_after_all(initial, outcomes.take(k + 1))
            == rate_after_all(initial, outcomes.take(k)),
{
    assert(outcomes.take(k + 1).drop_last() =~= outcomes.take(k));
}

/// After any run of cycles the cache holds the rate of the latest refreshed
/// cycle: the one at position `latest`, after which every cycle failed.
pub proof fn lemma_holds_latest_refresh(initial: Rate, outcomes: Seq<FetchOutcome>, latest: int)
    requires
        0 <= latest < outcomes.len(),
        outcomes[latest] is Refreshed,
        forall|k: int| latest < k < outcomes.len() ==> !(#[trigger] outcomes[k] is Refreshed),
    ensures
        rate_after_all(initial, outcomes) == outcomes[latest]->Refreshed_0,
    decreases outcomes.len(),
{
    if latest < outcomes.len() - 1 {
        lemma_holds_latest_refresh(initial, outcomes.drop_last(), latest);
    }
}

/// While no cycle has been refreshed, the cache holds what it started with.
pub proof fn lemma_failures_keep_initial(initial: Rate, outcomes: Seq<FetchOutcome>)
    requires
        forall|k: int| 0 <= k < outcomes.len() ==> !(#[trigger] outcomes[k] is Refreshed),
    ensures
        rate_after_all(initial, outcomes) == initial,
    decreases outcomes.len(),
{
    if outcomes.len() > 0 {
        lemma_failures_keep_initial(initial, outcomes.drop_last());
    }
}

} // verus!
