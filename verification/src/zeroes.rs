//! Discrete search for the near-zero points of a sampled curve, and the
//! period that the first and third of them span.
//!
//! A curve is handed over as the sequence of the magnitudes `|y|` of its
//! samples, each as an integer key with the same order as the magnitude.

use vstd::prelude::*;

verus! {

/// Samples `j..k` all carry the magnitude of sample `j`, and sample `k`
/// rises strictly above it.
pub open spec fn plateau_then_rise(mags: Seq<u64>, j: int, k: int) -> bool {
    &&& 0 <= j < k < mags.len()
    &&& forall|i: int| j <= i < k ==> mags[i] == mags[j]
    &&& mags[k] > mags[j]
}

/// Sample `j` is reported as near zero, the rise that ends its plateau being
/// sample `k`: the plateau starts at `j` (first sample, or reached by a strict
/// descent), or it starts on a rise and lasts at least two samples.
pub open spec fn zero_witness(mags: Seq<u64>, j: int, k: int) -> bool {
    &&& plateau_then_rise(mags, j, k)
    &&& (j == 0 || mags[j - 1] > mags[j] || (mags[j - 1] < mags[j] && k >= j + 2))
}

/// Sample `j` is a near zero whose closing rise comes before sample `bound`.
pub open spec fn near_zero_before(mags: Seq<u64>, j: int, bound: int) -> bool {
    exists|k: int| k < bound && #[trigger] zero_witness(mags, j, k)
}

/// Sample `j` is a near zero of the curve.
pub open spec fn is_near_zero(mags: Seq<u64>, j: int) -> bool {
    near_zero_before(mags, j, mags.len() as int)
}

/// The sequence strictly increases.
pub open spec fn strictly_increasing(s: Seq<usize>) -> bool {
    forall|a: int, b: int| 0 <= a < b < s.len() ==> s[a] < s[b]
}

/// `zeroes` lists, in increasing order, exactly the near zeros of the curve.
pub open spec fn lists_near_zeroes(mags: Seq<u64>, zeroes: Seq<usize>) -> bool {
    &&& strictly_increasing(zeroes)
    &&& forall|i: int| 0 <= i < zeroes.len() ==> is_near_zero(mags, #[trigger] zeroes[i] as int)
    &&& forall|j: int| is_near_zero(mags, j) ==> zeroes.contains(j as usize)
}

/// Finds the near zeros of a sampled curve: the bottom of each descent of
/// the magnitude (the first sample of its lowest plateau) that a strict rise
/// follows. A run that starts on a rise counts only if it is at least two
/// samples long; a descent still under way at the last sample is not
/// reported. Returns the indices of those samples, in increasing order.
pub fn search_near_zeroes(mags: &[u64]) -> (zeroes: Vec<usize>)
    requires
        mags.len() > 0,
    ensures
        lists_near_zeroes(mags@, zeroes@),
{
    let n = mags.len();
    let mut zeroes: Vec<usize> = Vec::new();
    let mut curr: usize = 0;
    let mut decrease = false;
    let ghost mut s: int = 0;
    let mut k: usize = 0;
    while k < n
        invariant
            n == mags.len(),
            0 <= s <= curr <= k <= n,
            k > 0 ==> curr < k,
            k == 0 ==> curr == 0,
            s == 0 || mags@[s - 1] < mags@[s],
            forall|a: int, b: int| s <= a <= b < k ==> mags@[b] <= mags@[a],
            forall|i: int| curr <= i < k ==> mags@[i] == mags@[curr as int],
            curr == s || mags@[curr - 1] > mags@[curr as int],
            decrease == (k > 0 && (s == 0 || k >= s + 2)),
            strictly_increasing(zeroes@),
            forall|i: int| 0 <= i < zeroes.len() ==> zeroes[i] < s,
            forall|j: int| #![trigger near_zero_before(mags@, j, k as int)]
                0 <= j < n ==> (zeroes@.contains(j as usize) <==> near_zero_before(mags@, j, k as int)),
        decreases n - k,
    {
        let y = mags[k];
        let ghost old_zeroes = zeroes@;
        let ghost old_curr = curr as int;
        let ghost old_decrease = decrease;
        if k > 0 {
            assert(mags@[k - 1] == mags@[old_curr]);
        }
        if y < mags[curr] {
            curr = k;
        }
        if y > mags[curr] {
            // a strict rise closes the current run
            assert forall|j: int| #[trigger] zero_witness(mags@, j, k as int) implies j == old_curr && old_decrease by {
                if j < old_curr {
                    if j < s {
                        assert(mags@[s - 1] == mags@[j]);
                        assert(mags@[s] == mags@[j]);
                    } else {
                        assert(mags@[old_curr - 1] == mags@[j]);
                    }
                } else if j > old_curr {
                    assert(mags@[j - 1] == mags@[j]);
                }
            }
            if decrease {
                assert(zero_witness(mags@, old_curr, k as int));
                zeroes.push(curr);
            }
            decrease = false;
            curr = k;
            proof {
                assert forall|j: int| 0 <= j < n implies (zeroes@.contains(j as usize)
                    <==> #[trigger] near_zero_before(mags@, j, k + 1)) by {
                    if near_zero_before(mags@, j, k + 1) {
                        let w = choose|w: int| w < k + 1 && zero_witness(mags@, j, w);
                        if w < k {
                            assert(near_zero_before(mags@, j, k as int));
                            assert(old_zeroes.contains(j as usize));
                            let t = choose|t: int| 0 <= t < old_zeroes.len() && old_zeroes[t] == j as usize;
                            assert(zeroes@[t] == j as usize);
                        } else {
                            assert(zeroes@[zeroes@.len() - 1] == j as usize);
                        }
                    }
                    if zeroes@.contains(j as usize) {
                        let t = choose|t: int| 0 <= t < zeroes@.len() && zeroes@[t] == j as usize;
                        if t < old_zeroes.len() {
                            assert(old_zeroes[t] == j as usize);
                            assert(old_zeroes.contains(j as usize));
                            assert(near_zero_before(mags@, j, k as int));
                            let w = choose|w: int| w < k && zero_witness(mags@, j, w);
                            assert(w < k + 1 && zero_witness(mags@, j, w));
                        } else {
                            assert(j == old_curr);
                            assert(zero_witness(mags@, j, k as int));
                        }
                    }
                }
                s = k as int;
            }
        } else {
            decrease = true;
            proof {
                assert forall|j: int| !(#[trigger] zero_witness(mags@, j, k as int)) by {
                    if zero_witness(mags@, j, k as int) {
                        assert(mags@[k - 1] == mags@[j]);
                    }
                }
                assert forall|j: int| 0 <= j < n implies (zeroes@.contains(j as usize)
                    <==> #[trigger] near_zero_before(mags@, j, k + 1)) by {
                    if near_zero_before(mags@, j, k + 1) {
                        let w = choose|w: int| w < k + 1 && zero_witness(mags@, j, w);
                        assert(w < k);
                        assert(near_zero_before(mags@, j, k as int));
                    }
                    if zeroes@.contains(j as usize) {
                        assert(near_zero_before(mags@, j, k as int));
                        let w = choose|w: int| w < k && zero_witness(mags@, j, w);
                        assert(w < k + 1 && zero_witness(mags@, j, w));
                    }
                }
            }
        }
        k = k + 1;
    }
    proof {
        assert forall|i: int| 0 <= i < zeroes.len() implies is_near_zero(mags@, #[trigger] zeroes[i] as int) by {
            assert(zeroes@.contains(zeroes[i]));
            assert(near_zero_before(mags@, zeroes[i] as int, n as int));
        }
        assert forall|j: int| is_near_zero(mags@, j) implies zeroes@.contains(j as usize) by {
            assert(near_zero_before(mags@, j, n as int));
            let w = choose|w: int| w < n && zero_witness(mags@, j, w);
            assert(0 <= j < n);
        }
    }
    zeroes
}

/// The curve has at least three near zeros.
pub open spec fn has_three_near_zeroes(mags: Seq<u64>) -> bool {
    exists|a: int, b: int, c: int|
        #![trigger is_near_zero(mags, a), is_near_zero(mags, b), is_near_zero(mags, c)]
        a < b < c && is_near_zero(mags, a) && is_near_zero(mags, b) && is_near_zero(mags, c)
}

/// `first` is the earliest near zero and `third` the third one: exactly one
/// near zero lies strictly between them.
pub open spec fn first_and_third_near_zeroes(mags: Seq<u64>, first: int, third: int) -> bool {
    &&& is_near_zero(mags, first)
    &&& is_near_zero(mags, third)
    &&& first < third
    &&& forall|j: int| j < first ==> !#[trigger] is_near_zero(mags, j)
    &&& exists|m: int| first < m < third && #[trigger] is_near_zero(mags, m)
        && forall|j: int| first < j < third && #[trigger] is_near_zero(mags, j) ==> j == m
}

/// A sequence of distinct values that holds three given distinct values has
/// at least three elements.
proof fn lemma_three_distinct_members(s: Seq<usize>, a: usize, b: usize, c: usize)
    requires
        s.contains(a),
        s.contains(b),
        s.contains(c),
        a != b,
        b != c,
        a != c,
    ensures
        s.len() >= 3,
{
    let ia = choose|i: int| 0 <= i < s.len() && s[i] == a;
    let ib = choose|i: int| 0 <= i < s.len() && s[i] == b;
    let ic = choose|i: int| 0 <= i < s.len() && s[i] == c;
    assert(ia != ib && ib != ic && ia != ic);
}

/// The samples that bound one period of an oscillating curve: the first
/// near zero and the third one (a period spans two half-swings). The period
/// itself is the distance between the abscissas of these two samples.
pub fn search_period(mags: &[u64]) -> (bounds: (usize, usize))
    requires
        mags.len() > 0,
        has_three_near_zeroes(mags@),
    ensures
        first_and_third_near_zeroes(mags@, bounds.0 as int, bounds.1 as int),
{
    let zeroes = search_near_zeroes(mags);
    proof {
        let (a, b, c) = choose|a: int, b: int, c: int|
            #![trigger is_near_zero(mags@, a), is_near_zero(mags@, b), is_near_zero(mags@, c)]
            a < b < c && is_near_zero(mags@, a) && is_near_zero(mags@, b) && is_near_zero(mags@, c);
        assert(is_near_zero(mags@, a));
        assert(is_near_zero(mags@, b));
        assert(is_near_zero(mags@, c));
        assert(a >= 0 && b >= 0 && c >= 0) by {
            let wa = choose|w: int| w < mags.len() && zero_witness(mags@, a, w);
        }
        lemma_three_distinct_members(zeroes@, a as usize, b as usize, c as usize);
    }
    let first = zeroes[0];
    let third = zeroes[2];
    proof {
        assert(is_near_zero(mags@, zeroes[0] as int));
        assert(is_near_zero(mags@, zeroes[1] as int));
        assert(is_near_zero(mags@, zeroes[2] as int));
        assert forall|j: int| j < first implies !#[trigger] is_near_zero(mags@, j) by {
            if is_near_zero(mags@, j) {
                assert(zeroes@.contains(j as usize));
                let t = choose|t: int| 0 <= t < zeroes@.len() && zeroes@[t] == j as usize;
                if t > 0 {
                    assert(zeroes@[0] < zeroes@[t]);
                }
                let w = choose|w: int| w < mags.len() && zero_witness(mags@, j, w);
            }
        }
        let m = zeroes[1] as int;
        assert forall|j: int| first < j < third && #[trigger] is_near_zero(mags@, j) implies j == m by {
            assert(zeroes@.contains(j as usize));
            let t = choose|t: int| 0 <= t < zeroes@.len() && zeroes@[t] == j as usize;
            if t == 0 || t >= 2 {
                if t > 2 {
                    assert(zeroes@[2] < zeroes@[t]);
                }
            }
        }
        assert(first < m < third && is_near_zero(mags@, m));
    }
    (first, third)
}

/// Two magnitude sequences of one length compare alike at every pair of
/// samples.
pub open spec fn same_order(m1: Seq<u64>, m2: Seq<u64>) -> bool {
    &&& m1.len() == m2.len()
    &&& forall|a: int, b: int| #![trigger m1[a], m2[b]]
        0 <= a < m1.len() && 0 <= b < m1.len() ==> (m1[a] < m1[b] <==> m2[a] < m2[b])
}

/// Law: which samples are near zeros depends only on how the magnitudes
/// compare with one another. Any order-preserving encoding of the
/// magnitudes (such as the bit patterns of non-negative floats) yields the
/// same near zeros as the magnitudes themselves.
pub proof fn law_near_zeroes_depend_only_on_order(m1: Seq<u64>, m2: Seq<u64>, j: int)
    requires
        same_order(m1, m2),
    ensures
        is_near_zero(m1, j) <==> is_near_zero(m2, j),
{
    assert forall|a: int, b: int| 0 <= a < m1.len() && 0 <= b < m1.len()
        implies (m1[a] == m1[b] <==> m2[a] == m2[b]) && (m1[a] < m1[b] <==> m2[a] < m2[b]) by {
        assert(m1[a] < m1[b] <==> m2[a] < m2[b]);
        assert(m1[b] < m1[a] <==> m2[b] < m2[a]);
    }
    if is_near_zero(m1, j) {
        let k = choose|k: int| k < m1.len() && zero_witness(m1, j, k);
        assert forall|i: int| j <= i < k implies m2[i] == m2[j] by {
            assert(m1[i] == m1[j]);
        }
        if j > 0 {
            assert(m1[j - 1] > m1[j] <==> m2[j - 1] > m2[j]);
            assert(m1[j - 1] < m1[j] <==> m2[j - 1] < m2[j]);
        }
        assert(zero_witness(m2, j, k));
    }
    if is_near_zero(m2, j) {
        let k = choose|k: int| k < m2.len() && zero_witness(m2, j, k);
        assert forall|i: int| j <= i < k implies m1[i] == m1[j] by {
            assert(m2[i] == m2[j]);
        }
        if j > 0 {
            assert(m1[j - 1] > m1[j] <==> m2[j - 1] > m2[j]);
            assert(m1[j - 1] < m1[j] <==> m2[j - 1] < m2[j]);
        }
        assert(zero_witness(m1, j, k));
    }
}

/// Law: the samples that bound a period are the first and the third entries
/// of the list of near zeros.
pub proof fn law_period_bounds_are_listed_zeroes(mags: Seq<u64>, zeroes: Seq<usize>, first: int, third: int)
    requires
        mags.len() <= usize::MAX,
        lists_near_zeroes(mags, zeroes),
        first_and_third_near_zeroes(mags, first, third),
    ensures
        zeroes.len() >= 3,
        zeroes[0] == first,
        zeroes[2] == third,
{
    let m = choose|m: int| first < m < third && #[trigger] is_near_zero(mags, m)
        && forall|j: int| first < j < third && #[trigger] is_near_zero(mags, j) ==> j == m;
    let wf = choose|w: int| w < mags.len() && zero_witness(mags, first, w);
    let wm = choose|w: int| w < mags.len() && zero_witness(mags, m, w);
    let wt = choose|w: int| w < mags.len() && zero_witness(mags, third, w);
    assert(zeroes.contains(first as usize));
    assert(zeroes.contains(m as usize));
    assert(zeroes.contains(third as usize));
    let ia = choose|i: int| 0 <= i < zeroes.len() && zeroes[i] == first as usize;
    let ib = choose|i: int| 0 <= i < zeroes.len() && zeroes[i] == m as usize;
    let ic = choose|i: int| 0 <= i < zeroes.len() && zeroes[i] == third as usize;
    assert(ia < ib < ic) by {
        if ib <= ia {
            assert(zeroes[ib] <= zeroes[ia]);
        }
        if ic <= ib {
            assert(zeroes[ic] <= zeroes[ib]);
        }
    }
    assert(ia == 0) by {
        if ia > 0 {
            assert(is_near_zero(mags, zeroes[0] as int));
            assert(zeroes[0] < zeroes[ia]);
        }
    }
    assert(ib == 1) by {
        if ib > 1 {
            assert(is_near_zero(mags, zeroes[1] as int));
            assert(zeroes[0] < zeroes[1] < zeroes[ib]);
        }
    }
    assert(ic == 2) by {
        if ic > 2 {
            assert(is_near_zero(mags, zeroes[2] as int));
            assert(zeroes[1] < zeroes[2] < zeroes[ic]);
        }
    }
}

} // verus!
