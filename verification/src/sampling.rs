//! Percentile sampling over a block's sorted fee rates, and the blending of
//! a fresh sample against the prior estimate.

use vstd::prelude::*;
use vstd::relations::{sorted_by, total_ordering};
use vstd::seq_lib::*;

use crate::FeeRateEstimate;

verus! {

/// Percentiles are fractions of this scale: a percentile `p` stands for the
/// fraction `p / PERCENTILE_SCALE` of the sample set.
pub const PERCENTILE_SCALE: u64 = 10000;

/// Default percentile of the "slow" tier: the 5th.
pub const SLOW_PERCENTILE: u64 = 500;

/// Default percentile of the "medium" tier: the 50th.
pub const MEDIUM_PERCENTILE: u64 = 5000;

/// Default percentile of the "fast" tier: the 95th.
pub const FAST_PERCENTILE: u64 = 9500;

/// The rank sampled for `percentile` in an ascending-sorted sample set of
/// size `n`: `min(n - 1, floor(percentile * n / PERCENTILE_SCALE))`.
pub open spec fn spec_percentile_index(percentile: u64, n: nat) -> int {
    let raw = (percentile * n) / (PERCENTILE_SCALE as int);
    if raw > n - 1 {
        n - 1
    } else {
        raw as int
    }
}

/// Every sampled rank is in bounds: `0 <= index <= n - 1` for every
/// percentile and every non-empty sample set, so sampling can never read
/// outside the sorted sequence.
pub proof fn lemma_percentile_index_in_bounds(percentile: u64, n: nat)
    requires
        n >= 1,
    ensures
        0 <= spec_percentile_index(percentile, n) < n,
{
}

pub fn percentile_index(percentile: u64, n: usize) -> (i: usize)
    requires
        n >= 1,
        percentile <= PERCENTILE_SCALE,
    ensures
        i == spec_percentile_index(percentile, n as nat),
        i < n,
{
    proof {
        assert((percentile as int) * (n as int) <= (PERCENTILE_SCALE as int) * (usize::MAX
            as int)) by (nonlinear_arith)
            requires
                percentile <= PERCENTILE_SCALE,
                n <= usize::MAX,
        ;
    }
    let raw: u128 = (percentile as u128) * (n as u128) / (PERCENTILE_SCALE as u128);
    if raw > (n - 1) as u128 {
        n - 1
    } else {
        raw as usize
    }
}

/// One smoothing step of a tier: the floor average of the prior value and
/// the freshly sampled value.  Intentionally integer-truncating: repeated
/// updates toward a fixed target can stay one unit below it for good.
pub open spec fn spec_blend(prior: u64, sampled: u64) -> u64 {
    (((prior + sampled) / 2) as u64)
}

pub fn blend(prior: u64, sampled: u64) -> (r: u64)
    ensures
        r == spec_blend(prior, sampled),
{
    (((prior as u128) + (sampled as u128)) / 2) as u64
}

/// The estimate after one observation: the first ever sample is taken as
/// is; afterwards each tier is blended independently with its prior value.
pub open spec fn spec_next_estimate(
    prior: Option<FeeRateEstimate>,
    sampled: FeeRateEstimate,
) -> FeeRateEstimate {
    match prior {
        None => sampled,
        Some(p) => (FeeRateEstimate {
            fast: spec_blend(p.fast, sampled.fast),
            medium: spec_blend(p.medium, sampled.medium),
            slow: spec_blend(p.slow, sampled.slow),
        }),
    }
}

pub fn next_estimate(prior: &Option<FeeRateEstimate>, sampled: &FeeRateEstimate) -> (r:
    FeeRateEstimate)
    ensures
        r == spec_next_estimate(*prior, *sampled),
{
    match prior {
        None => *sampled,
        Some(p) => FeeRateEstimate {
            fast: blend(p.fast, sampled.fast),
            medium: blend(p.medium, sampled.medium),
            slow: blend(p.slow, sampled.slow),
        },
    }
}

/// The ascending order in which a block's fee rates are ranked before
/// sampling.
pub open spec fn rate_leq() -> spec_fn(u64, u64) -> bool {
    |x: u64, y: u64| x <= y
}

/// A block's fee rates, ranked ascending.
pub open spec fn spec_sorted_ascending(s: Seq<u64>) -> Seq<u64> {
    s.sort_by(rate_leq())
}

pub proof fn lemma_rate_leq_total_ordering()
    ensures
        total_ordering(rate_leq()),
{
    assert(total_ordering(rate_leq()));
}

/// Insert `x` into an ascending vector, keeping it ascending.
fn insert_sorted(out: &mut Vec<u64>, x: u64)
    requires
        sorted_by(old(out)@, rate_leq()),
        old(out)@.len() < usize::MAX,
    ensures
        sorted_by(final(out)@, rate_leq()),
        final(out)@.to_multiset() == old(out)@.to_multiset().insert(x),
        final(out)@.len() == old(out)@.len() + 1,
{
    let ghost s = out@;
    let mut i: usize = 0;
    while i < out.len() && out[i] <= x
        invariant
            out@ == s,
            i <= s.len(),
            s.len() < usize::MAX,
            forall|j: int| 0 <= j < i ==> s[j] <= x,
        decreases s.len() - i,
    {
        i += 1;
    }
    proof {
        s.insert_ensures(i as int, x);
        to_multiset_insert(s, i as int, x);
        let t = s.insert(i as int, x);
        let leq = rate_leq();
        assert forall|p: int, q: int| 0 <= p < q < t.len() implies leq(t[p], t[q]) by {
            assert(t.len() == s.len() + 1);
            if q < i {
                assert(leq(s[p], s[q]));
                assert(t[p] == s[p] && t[q] == s[q]);
            } else if q == i {
                assert(t[p] == s[p] && t[q] == x);
                assert(s[p] <= x);
            } else {
                assert(t[q] == s[q - 1]);
                if p < i {
                    assert(t[p] == s[p]);
                    assert(leq(s[p], s[q - 1]));
                } else if p == i {
                    assert(t[p] == x);
                    assert(i < s.len());
                    assert(!(s[i as int] <= x));
                    if q - 1 > i {
                        assert(leq(s[i as int], s[q - 1]));
                    }
                    assert(x <= s[q - 1]);
                } else {
                    assert(t[p] == s[p - 1]);
                    assert(leq(s[p - 1], s[q - 1]));
                }
            }
            assert(t[p] <= t[q]);
        }
        assert(sorted_by(t, rate_leq()));
    }
    out.insert(i, x);
}

/// Rank a block's fee rates ascending.
pub fn sort_fee_rates(rates: &Vec<u64>) -> (r: Vec<u64>)
    ensures
        r@ == spec_sorted_ascending(rates@),
        r@.len() == rates@.len(),
{
    let mut out: Vec<u64> = Vec::new();
    let n = rates.len();
    proof {
        assert(out@ =~= rates@.take(0));
    }
    let mut k: usize = 0;
    while k < n
        invariant
            k <= n == rates@.len(),
            sorted_by(out@, rate_leq()),
            out@.len() == k,
            out@.to_multiset() == rates@.take(k as int).to_multiset(),
        decreases n - k,
    {
        let x = rates[k];
        proof {
            assert(rates@.take(k as int + 1) =~= rates@.take(k as int).push(rates@[k as int]));
            rates@.take(k as int).to_multiset_ensures();
        }
        insert_sorted(&mut out, x);
        k += 1;
    }
    proof {
        assert(rates@.take(n as int) =~= rates@);
        lemma_rate_leq_total_ordering();
        rates@.lemma_sort_by_ensures(rate_leq());
        lemma_sorted_unique(out@, rates@.sort_by(rate_leq()), rate_leq());
    }
    out
}

/// The three-tier sample a block contributes: for each tier, the fee rate
/// at that tier's percentile rank within the ascending-sorted eligible
/// rates.  With a single rate, all three tiers sample it.
pub open spec fn spec_sample_estimate(sorted: Seq<u64>) -> FeeRateEstimate
    recommends
        sorted.len() >= 1,
{
    FeeRateEstimate {
        fast: sorted[spec_percentile_index(FAST_PERCENTILE, sorted.len())],
        medium: sorted[spec_percentile_index(MEDIUM_PERCENTILE, sorted.len())],
        slow: sorted[spec_percentile_index(SLOW_PERCENTILE, sorted.len())],
    }
}

pub fn sample_estimate(sorted: &Vec<u64>) -> (r: FeeRateEstimate)
    requires
        sorted@.len() >= 1,
    ensures
        r == spec_sample_estimate(sorted@),
{
    let n = sorted.len();
    let fast_index = percentile_index(FAST_PERCENTILE, n);
    let medium_index = percentile_index(MEDIUM_PERCENTILE, n);
    let slow_index = percentile_index(SLOW_PERCENTILE, n);
    FeeRateEstimate {
        fast: sorted[fast_index],
        medium: sorted[medium_index],
        slow: sorted[slow_index],
    }
}

/// Blending determinism: against a prior estimate, a block whose sampled
/// tier values are all `s` moves every tier to exactly
/// `floor((prior_tier + s) / 2)`.
pub proof fn lemma_blending_deterministic(prior: FeeRateEstimate, s: u64)
    ensures
        ({
            let next = spec_next_estimate(
                Some(prior),
                FeeRateEstimate { fast: s, medium: s, slow: s },
            );
            &&& next.fast == (prior.fast + s) / 2
            &&& next.medium == (prior.medium + s) / 2
            &&& next.slow == (prior.slow + s) / 2
        }),
{
}

} // verus!
