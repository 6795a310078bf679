use vstd::prelude::*;
use crate::price::{bits_less, is_nan, less, less_or_equal};

verus! {

/// Whether `candidate` replaces `held` in a scan for the smallest
/// (`smallest`) or for the largest sample: it must be strictly beyond it.
pub open spec fn beats(smallest: bool, candidate: u64, held: u64) -> bool {
    if smallest {
        less(candidate, held)
    } else {
        less(held, candidate)
    }
}

/// What a scan from the first sample to the last holds at its end: the first
/// sample, replaced by each later one that beats what is held.
pub open spec fn extreme_of(series: Seq<u64>, smallest: bool) -> u64
    recommends
        series.len() > 0,
    decreases series.len(),
{
    if series.len() <= 1 {
        series[0]
    } else {
        let held = extreme_of(series.drop_last(), smallest);
        if beats(smallest, series.last(), held) {
            series.last()
        } else {
            held
        }
    }
}

/// The smallest sample of the series, none for an empty series.
pub open spec fn min_of(series: Seq<u64>) -> Option<u64> {
    if series.len() == 0 {
        None
    } else {
        Some(extreme_of(series, true))
    }
}

/// The largest sample of the series, none for an empty series.
pub open spec fn max_of(series: Seq<u64>) -> Option<u64> {
    if series.len() == 0 {
        None
    } else {
        Some(extreme_of(series, false))
    }
}

/// How many rolling averages a window of `n` samples yields over a series of
/// `len` samples: one per position of the window, none where the window is
/// empty or longer than the series.
pub open spec fn window_count_of(n: int, len: int) -> Option<int> {
    if 0 < n <= len {
        Some(len - n + 1)
    } else {
        None
    }
}

/// The positions of the two samples that a change is measured between, the
/// first and the last; none for a series of fewer than two samples.
pub open spec fn change_endpoints_of(len: int) -> Option<(int, int)> {
    if len >= 2 {
        Some((0, len - 1))
    } else {
        None
    }
}

fn get_extreme(series: &[u64], smallest: bool) -> (r: Option<u64>)
    ensures
        r == if series@.len() == 0 {
            None
        } else {
            Some(extreme_of(series@, smallest))
        },
{
    if series.len() == 0 {
        return None;
    }
    let mut held: u64 = series[0];
    let mut i: usize = 1;
    assert(series@.subrange(0, 1).len() == 1);
    while i < series.len()
        invariant
            1 <= i <= series.len(),
            held == extreme_of(series@.subrange(0, i as int), smallest),
        decreases series.len() - i,
    {
        let value = series[i];
        proof {
            let upto = series@.subrange(0, i + 1);
            assert(upto.drop_last() =~= series@.subrange(0, i as int));
            assert(upto.last() == value);
        }
        let replaces = if smallest {
            bits_less(value, held)
        } else {
            bits_less(held, value)
        };
        if replaces {
            held = value;
        }
        i += 1;
    }
    assert(series@.subrange(0, i as int) =~= series@);
    Some(held)
}

/// The smallest sample of the series; none for an empty series.
///
/// A sample that is NaN never replaces another and is never replaced.
pub fn min(series: &[u64]) -> (r: Option<u64>)
    ensures
        r == min_of(series@),
{
    get_extreme(series, true)
}

/// The largest sample of the series; none for an empty series.
///
/// A sample that is NaN never replaces another and is never replaced.
pub fn max(series: &[u64]) -> (r: Option<u64>)
    ensures
        r == max_of(series@),
{
    get_extreme(series, false)
}

/// How many rolling averages a window of `n` samples yields over `len`
/// samples. The averages are defined exactly where `0 < n <= len`.
pub fn window_count(n: usize, len: usize) -> (r: Option<usize>)
    ensures
        r.is_some() == (0 < n <= len),
        match r {
            Some(count) => window_count_of(n as int, len as int) == Some(count as int),
            None => window_count_of(n as int, len as int).is_none(),
        },
{
    if n == 0 || n > len {
        None
    } else {
        Some(len - n + 1)
    }
}

/// The positions of the first and the last sample of a series of `len`
/// samples, between which its change is measured; none where the series has
/// fewer than two samples.
pub fn change_endpoints(len: usize) -> (r: Option<(usize, usize)>)
    ensures
        r.is_some() == (len >= 2),
        match r {
            Some((first, last)) => change_endpoints_of(len as int) == Some(
                (first as int, last as int),
            ),
            None => change_endpoints_of(len as int).is_none(),
        },
{
    if len < 2 {
        None
    } else {
        Some((0, len - 1))
    }
}

/// The outcome of a scan is one of the samples.
pub proof fn lemma_extreme_is_a_sample(series: Seq<u64>, smallest: bool)
    requires
        series.len() > 0,
    ensures
        exists|i: int| 0 <= i < series.len() && series[i] == extreme_of(series, smallest),
    decreases series.len(),
{
    if series.len() <= 1 {
        assert(series[0] == extreme_of(series, smallest));
    } else {
        let front = series.drop_last();
        lemma_extreme_is_a_sample(front, smallest);
        let i = choose|i: int| 0 <= i < front.len() && front[i] == extreme_of(front, smallest);
        assert(series[i] == front[i]);
        if beats(smallest, series.last(), extreme_of(front, smallest)) {
            assert(series[series.len() - 1] == extreme_of(series, smallest));
        } else {
            assert(series[i] == extreme_of(series, smallest));
        }
    }
}

/// In a series without NaN the outcome of a scan is a number that no sample beats.
pub proof fn lemma_extreme_is_unbeaten(series: Seq<u64>, smallest: bool)
    requires
        series.len() > 0,
        forall|i: int| 0 <= i < series.len() ==> !is_nan(#[trigger] series[i]),
    ensures
        !is_nan(extreme_of(series, smallest)),
        forall|i: int|
            0 <= i < series.len() ==> !beats(
                smallest,
                #[trigger] series[i],
                extreme_of(series, smallest),
            ),
    decreases series.len(),
{
    if series.len() <= 1 {
    } else {
        let front = series.drop_last();
        assert forall|i: int| 0 <= i < front.len() implies !is_nan(#[trigger] front[i]) by {
            assert(front[i] == series[i]);
        }
        lemma_extreme_is_unbeaten(front, smallest);
        assert forall|i: int| 0 <= i < series.len() implies !beats(
            smallest,
            #[trigger] series[i],
            extreme_of(series, smallest),
        ) by {
            if i < front.len() {
                assert(front[i] == series[i]);
            }
        }
    }
}

/// For every non-empty series without NaN, the minimum is at most every
/// sample and every sample is at most the maximum; both are samples.
pub proof fn lemma_min_and_max_bound_the_series(series: Seq<u64>)
    requires
        series.len() > 0,
        forall|i: int| 0 <= i < series.len() ==> !is_nan(#[trigger] series[i]),
    ensures
        min_of(series).is_some(),
        max_of(series).is_some(),
        series.contains(min_of(series).unwrap()),
        series.contains(max_of(series).unwrap()),
        forall|i: int|
            0 <= i < series.len() ==> less_or_equal(min_of(series).unwrap(), #[trigger] series[i])
                && less_or_equal(series[i], max_of(series).unwrap()),
{
    lemma_extreme_is_a_sample(series, true);
    lemma_extreme_is_a_sample(series, false);
    lemma_extreme_is_unbeaten(series, true);
    lemma_extreme_is_unbeaten(series, false);
}

} // verus!
