//! Peaks of an amplitude spectrum.
//!
//! Amplitudes are handed over as non-negative integer keys that order as the
//! amplitudes do; peaks are found by the `find_peaks` crate and kept when
//! they reach a noise threshold.

use vstd::prelude::*;

verus! {

/// The positions that `find_peaks::PeakFinder` (default settings) reports
/// for a data slice: the middle index of each peak plateau, in the order in
/// which `find_peaks` returns the peaks.
pub uninterp spec fn found_peaks(values: Seq<i64>) -> Seq<usize>;

/// Every value is non-negative.
pub open spec fn all_non_negative(values: Seq<i64>) -> bool {
    forall|i: int| 0 <= i < values.len() ==> 0 <= #[trigger] values[i]
}

/// The positions are indices into `values` whose values never increase
/// along the sequence.
pub open spec fn sorted_by_value_desc(values: Seq<i64>, positions: Seq<usize>) -> bool {
    &&& forall|k: int| 0 <= k < positions.len() ==> #[trigger] positions[k] < values.len()
    &&& forall|a: int, b: int| 0 <= a < b < positions.len()
        ==> values[#[trigger] positions[a] as int] >= values[#[trigger] positions[b] as int]
}

/// Position `p` is inside the data, not at either end, and no lower than
/// either neighbour.
pub open spec fn is_local_peak(values: Seq<i64>, p: int) -> bool {
    &&& 0 < p < values.len() - 1
    &&& values[p - 1] <= values[p]
    &&& values[p] >= values[p + 1]
}

/// Position `p` is inside the data, not at either end, and strictly higher
/// than both neighbours.
pub open spec fn is_strict_local_max(values: Seq<i64>, p: int) -> bool {
    &&& 0 < p < values.len() - 1
    &&& values[p - 1] < values[p]
    &&& values[p] > values[p + 1]
}

/// Calls `find_peaks::PeakFinder::new(values).find_peaks()` and hands out
/// the middle position of each peak.
///
/// Trusted: the result is the named `found_peaks` of the data; the source
/// returns no peak for fewer than three values, every middle position lies
/// inside its plateau (an index into the data whose value is the plateau's
/// height), the peaks come sorted by height, highest first (ties in the
/// order `sort_unstable_by` leaves them), each one is an interior position
/// no lower than its neighbours, no position comes twice (the plateaus do
/// not overlap), and every interior position strictly higher than both
/// neighbours is reported. Non-negative values keep every difference that
/// the crate computes inside `i64`.
#[verifier::external_body]
fn find_peak_positions(values: &[i64]) -> (positions: Vec<usize>)
    requires
        all_non_negative(values@),
    ensures
        positions@ == found_peaks(values@),
        values.len() < 3 ==> positions.len() == 0,
        sorted_by_value_desc(values@, positions@),
        forall|k: int| 0 <= k < positions.len() ==> is_local_peak(values@, #[trigger] positions[k] as int),
        positions@.no_duplicates(),
        forall|p: int| #[trigger] is_strict_local_max(values@, p) ==> positions@.contains(p as usize),
{
    let finder = find_peaks::PeakFinder::new(values);
    finder.find_peaks().iter().map(|p| p.middle_position()).collect()
}

/// The position indexes `values` and its value reaches `threshold`.
pub open spec fn reaches(values: Seq<i64>, threshold: i64) -> spec_fn(usize) -> bool {
    |p: usize| p < values.len() && values[p as int] >= threshold
}

/// The peak positions that reach the noise threshold, in their order.
pub open spec fn strong_peaks(values: Seq<i64>, positions: Seq<usize>, threshold: i64) -> Seq<usize> {
    positions.filter(reaches(values, threshold))
}

/// Filtering keeps a sequence whole when every element passes.
proof fn lemma_filter_all_pass(s: Seq<usize>, pred: spec_fn(usize) -> bool)
    requires
        forall|i: int| 0 <= i < s.len() ==> pred(#[trigger] s[i]),
    ensures
        s.filter(pred) == s,
    decreases s.len(),
{
    reveal(Seq::filter);
    if s.len() > 0 {
        lemma_filter_all_pass(s.drop_last(), pred);
        assert(s.drop_last().push(s.last()) =~= s);
    }
}

/// Law: raising the noise threshold only drops the weakest peaks. As the
/// peaks come strongest first, the peaks kept under a higher threshold are
/// the first ones of those kept under a lower threshold.
pub proof fn law_higher_threshold_keeps_a_prefix(values: Seq<i64>, positions: Seq<usize>, low: i64, high: i64)
    requires
        low <= high,
        sorted_by_value_desc(values, positions),
    ensures
        strong_peaks(values, positions, high).is_prefix_of(strong_peaks(values, positions, low)),
    decreases positions.len(),
{
    reveal(Seq::filter);
    if positions.len() > 0 {
        let rest = positions.drop_last();
        let x = positions.last();
        assert(sorted_by_value_desc(values, rest)) by {
            assert forall|k: int| 0 <= k < rest.len() implies #[trigger] rest[k] < values.len() by {
                assert(rest[k] == positions[k]);
            }
            assert forall|a: int, b: int| 0 <= a < b < rest.len()
                implies values[#[trigger] rest[a] as int] >= values[#[trigger] rest[b] as int] by {
                assert(rest[a] == positions[a] && rest[b] == positions[b]);
            }
        }
        law_higher_threshold_keeps_a_prefix(values, rest, low, high);
        assert(positions.len() - 1 < positions.len());
        assert(x == positions[positions.len() - 1]);
        assert(x < values.len());
        if values[x as int] >= high {
            assert forall|i: int| 0 <= i < rest.len() implies reaches(values, high)(#[trigger] rest[i]) by {
                assert(rest[i] == positions[i]);
                assert(values[positions[i] as int] >= values[positions[positions.len() - 1] as int]);
            }
            assert forall|i: int| 0 <= i < rest.len() implies reaches(values, low)(#[trigger] rest[i]) by {
                assert(rest[i] == positions[i]);
                assert(values[positions[i] as int] >= values[positions[positions.len() - 1] as int]);
            }
            lemma_filter_all_pass(rest, reaches(values, high));
            lemma_filter_all_pass(rest, reaches(values, low));
        }
    }
}

/// Keeps the peak positions whose amplitude reaches `threshold` (weaker
/// ones are noise), in their order; a position outside the spectrum is
/// dropped.
pub fn keep_strong_peaks(amplitudes: &[i64], positions: &[usize], threshold: i64) -> (peaks: Vec<usize>)
    ensures
        peaks@ == strong_peaks(amplitudes@, positions@, threshold),
        forall|k: int| 0 <= k < peaks.len() ==> #[trigger] peaks[k] < amplitudes.len()
            && amplitudes[peaks[k] as int] >= threshold,
        sorted_by_value_desc(amplitudes@, positions@) ==> sorted_by_value_desc(amplitudes@, peaks@),
        forall|k: int| 0 <= k < peaks.len() ==> positions@.contains(#[trigger] peaks[k]),
        forall|p: usize| positions@.contains(p) && p < amplitudes.len() && amplitudes[p as int] >= threshold
            ==> #[trigger] peaks@.contains(p),
        positions@.no_duplicates() ==> peaks@.no_duplicates(),
{
    let mut peaks: Vec<usize> = Vec::new();
    let mut i: usize = 0;
    while i < positions.len()
        invariant
            0 <= i <= positions.len(),
            peaks@ == positions@.take(i as int).filter(reaches(amplitudes@, threshold)),
            forall|k: int| 0 <= k < peaks.len() ==> #[trigger] peaks[k] < amplitudes.len()
                && amplitudes[peaks[k] as int] >= threshold,
            sorted_by_value_desc(amplitudes@, positions@) ==> sorted_by_value_desc(amplitudes@, peaks@),
            sorted_by_value_desc(amplitudes@, positions@) ==> forall|a: int, b: int|
                0 <= a < peaks.len() && i <= b < positions.len()
                ==> amplitudes@[#[trigger] peaks@[a] as int] >= amplitudes@[#[trigger] positions@[b] as int],
            forall|k: int| 0 <= k < peaks.len()
                ==> exists|j: int| 0 <= j < i && positions@[j] == #[trigger] peaks@[k],
            forall|j: int| 0 <= j < i && positions@[j] < amplitudes.len() && amplitudes@[positions@[j] as int] >= threshold
                ==> peaks@.contains(#[trigger] positions@[j]),
            positions@.no_duplicates() ==> peaks@.no_duplicates(),
        decreases positions.len() - i,
    {
        let p = positions[i];
        let ghost old_peaks = peaks@;
        proof {
            assert(positions@.take(i + 1) =~= positions@.take(i as int).push(p));
            positions@.take(i as int).lemma_filter_push(p, reaches(amplitudes@, threshold));
        }
        if p < amplitudes.len() && amplitudes[p] >= threshold {
            peaks.push(p);
            proof {
                assert(peaks@[peaks.len() - 1] == p);
                assert forall|k: int| 0 <= k < peaks.len()
                    implies exists|j: int| 0 <= j < i + 1 && positions@[j] == #[trigger] peaks@[k] by {
                    if k < old_peaks.len() {
                        assert(peaks@[k] == old_peaks[k]);
                    } else {
                        assert(positions@[i as int] == peaks@[k]);
                    }
                }
                assert forall|j: int| 0 <= j < i + 1 && positions@[j] < amplitudes.len()
                    && amplitudes@[positions@[j] as int] >= threshold
                    implies peaks@.contains(#[trigger] positions@[j]) by {
                    if j < i {
                        let t = choose|t: int| 0 <= t < old_peaks.len() && old_peaks[t] == positions@[j];
                        assert(peaks@[t] == positions@[j]);
                    } else {
                        assert(peaks@[peaks.len() - 1] == positions@[j]);
                    }
                }
                if positions@.no_duplicates() {
                    assert forall|a: int, b: int| 0 <= a < peaks.len() && 0 <= b < peaks.len() && a != b
                        implies peaks@[a] != peaks@[b] by {
                        if a < old_peaks.len() && b < old_peaks.len() {
                            assert(peaks@[a] == old_peaks[a] && peaks@[b] == old_peaks[b]);
                        } else if a < old_peaks.len() {
                            let j = choose|j: int| 0 <= j < i && positions@[j] == #[trigger] old_peaks[a];
                            assert(peaks@[a] == old_peaks[a]);
                            assert(positions@[j] != positions@[i as int]);
                        } else {
                            let j = choose|j: int| 0 <= j < i && positions@[j] == #[trigger] old_peaks[b];
                            assert(peaks@[b] == old_peaks[b]);
                            assert(positions@[j] != positions@[i as int]);
                        }
                    }
                }
            }
        }
        i = i + 1;
    }
    assert(positions@.take(positions.len() as int) =~= positions@);
    proof {
        assert forall|k: int| 0 <= k < peaks.len() implies positions@.contains(#[trigger] peaks[k]) by {
            let j = choose|j: int| 0 <= j < positions.len() && positions@[j] == #[trigger] peaks@[k];
        }
        assert forall|p: usize| positions@.contains(p) && p < amplitudes.len() && amplitudes[p as int] >= threshold
            implies #[trigger] peaks@.contains(p) by {
            let j = choose|j: int| 0 <= j < positions.len() && positions@[j] == p;
            assert(peaks@.contains(positions@[j]));
        }
    }
    peaks
}

/// Finds the peaks of an amplitude spectrum and keeps those whose amplitude
/// reaches `threshold`. Returns their indices, strongest first.
pub fn extract_peaks(amplitudes: &[i64], threshold: i64) -> (peaks: Vec<usize>)
    requires
        all_non_negative(amplitudes@),
    ensures
        peaks@ == strong_peaks(amplitudes@, found_peaks(amplitudes@), threshold),
        sorted_by_value_desc(amplitudes@, peaks@),
        forall|k: int| 0 <= k < peaks.len() ==> amplitudes[#[trigger] peaks[k] as int] >= threshold,
        forall|k: int| 0 <= k < peaks.len() ==> is_local_peak(amplitudes@, #[trigger] peaks[k] as int),
        peaks@.no_duplicates(),
        forall|p: int| #[trigger] is_strict_local_max(amplitudes@, p) && amplitudes@[p] >= threshold
            ==> peaks@.contains(p as usize),
{
    let found = find_peak_positions(amplitudes);
    let peaks = keep_strong_peaks(amplitudes, &found, threshold);
    proof {
        assert forall|k: int| 0 <= k < peaks.len() implies is_local_peak(amplitudes@, #[trigger] peaks[k] as int) by {
            assert(found@.contains(peaks[k]));
            let j = choose|j: int| 0 <= j < found.len() && found@[j] == peaks@[k];
            assert(is_local_peak(amplitudes@, found@[j] as int));
        }
        assert forall|p: int| #[trigger] is_strict_local_max(amplitudes@, p) && amplitudes@[p] >= threshold
            implies peaks@.contains(p as usize) by {
            assert(found@.contains(p as usize));
            assert(peaks@.contains(p as usize));
        }
    }
    peaks
}

/// Number of spectrum bins kept from an FFT of `sampling_nb` samples: the
/// lower half of the spectrum without its last bin.
pub fn half_spectrum_len(sampling_nb: usize) -> (bins: usize)
    requires
        sampling_nb >= 2,
    ensures
        bins == sampling_nb / 2 - 1,
{
    sampling_nb / 2 - 1
}

/// A float as it compares for equality: `None` stands for a value that is
/// not a number, which equals nothing; `Some` holds a key that two floats
/// share exactly when they are equal.
pub open spec fn same_float(a: Option<u64>, b: Option<u64>) -> bool {
    a is Some && a == b
}

/// Two spectrum points `(frequency, amplitude)` are equal.
pub open spec fn same_point(p: (Option<u64>, Option<u64>), q: (Option<u64>, Option<u64>)) -> bool {
    same_float(p.0, q.0) && same_float(p.1, q.1)
}

/// The point equals one of the peak points.
pub open spec fn equals_a_peak(p: (Option<u64>, Option<u64>), peaks: Seq<(Option<u64>, Option<u64>)>) -> bool {
    exists|k: int| 0 <= k < peaks.len() && #[trigger] same_point(p, peaks[k])
}

/// The amplitudes with every bin whose point equals no peak point set to
/// `zero`.
pub open spec fn unnoised<T>(
    amplitudes: Seq<T>,
    points: Seq<(Option<u64>, Option<u64>)>,
    peaks: Seq<(Option<u64>, Option<u64>)>,
    zero: T,
) -> Seq<T> {
    Seq::new(
        amplitudes.len(),
        |i: int| if i < points.len() && equals_a_peak(points[i], peaks) { amplitudes[i] } else { zero },
    )
}

/// Whether two float keys stand for equal floats.
fn same_float_key(a: Option<u64>, b: Option<u64>) -> (same: bool)
    ensures
        same == same_float(a, b),
{
    match (a, b) {
        (Some(x), Some(y)) => x == y,
        _ => false,
    }
}

/// Whether the point equals one of the peak points.
fn matches_a_peak(point: (Option<u64>, Option<u64>), peaks: &[(Option<u64>, Option<u64>)]) -> (found: bool)
    ensures
        found == equals_a_peak(point, peaks@),
{
    let mut k: usize = 0;
    while k < peaks.len()
        invariant
            0 <= k <= peaks.len(),
            forall|j: int| 0 <= j < k ==> !#[trigger] same_point(point, peaks@[j]),
        decreases peaks.len() - k,
    {
        let q = peaks[k];
        if same_float_key(point.0, q.0) && same_float_key(point.1, q.1) {
            assert(same_point(point, peaks@[k as int]));
            return true;
        }
        k = k + 1;
    }
    false
}

/// Removes the noise from a spectrum: keeps the amplitude of every bin whose
/// point `(frequency, amplitude)` equals the point of a peak, and sets every
/// other bin to `zero`. Points are given as equality keys of their floats.
pub fn unnoise_amplitudes<T: Copy>(
    amplitudes: &[T],
    points: &[(Option<u64>, Option<u64>)],
    peaks: &[(Option<u64>, Option<u64>)],
    zero: T,
) -> (clean: Vec<T>)
    ensures
        clean@ == unnoised(amplitudes@, points@, peaks@, zero),
        clean.len() == amplitudes.len(),
        forall|i: int| 0 <= i < amplitudes.len() ==> #[trigger] clean@[i] == if i < points.len() && exists|k: int|
            0 <= k < peaks.len() && points@[i].0 is Some && points@[i].0 == #[trigger] peaks@[k].0
                && points@[i].1 is Some && points@[i].1 == peaks@[k].1 {
            amplitudes@[i]
        } else {
            zero
        },
{
    let mut clean: Vec<T> = Vec::new();
    let mut i: usize = 0;
    while i < amplitudes.len()
        invariant
            0 <= i <= amplitudes.len(),
            clean@ =~= unnoised(amplitudes@, points@, peaks@, zero).take(i as int),
        decreases amplitudes.len() - i,
    {
        if i < points.len() && matches_a_peak(points[i], peaks) {
            clean.push(amplitudes[i]);
        } else {
            clean.push(zero);
        }
        i = i + 1;
    }
    proof {
        assert forall|i: int| 0 <= i < points.len() implies
            (equals_a_peak(points@[i], peaks@) <==> exists|k: int| 0 <= k < peaks.len()
                && points@[i].0 is Some && points@[i].0 == #[trigger] peaks@[k].0
                && points@[i].1 is Some && points@[i].1 == peaks@[k].1) by {
            law_same_point_is_equality_of_both_coordinates(points@[i], points@[i]);
            if equals_a_peak(points@[i], peaks@) {
                let k = choose|k: int| 0 <= k < peaks.len() && #[trigger] same_point(points@[i], peaks@[k]);
                law_same_point_is_equality_of_both_coordinates(points@[i], peaks@[k]);
            }
            if exists|k: int| 0 <= k < peaks.len()
                && points@[i].0 is Some && points@[i].0 == #[trigger] peaks@[k].0
                && points@[i].1 is Some && points@[i].1 == peaks@[k].1 {
                let k = choose|k: int| 0 <= k < peaks.len()
                    && points@[i].0 is Some && points@[i].0 == #[trigger] peaks@[k].0
                    && points@[i].1 is Some && points@[i].1 == peaks@[k].1;
                law_same_point_is_equality_of_both_coordinates(points@[i], peaks@[k]);
                assert(same_point(points@[i], peaks@[k]));
            }
        }
    }
    clean
}

/// Law: two points match exactly when their frequencies are equal numbers
/// and their amplitudes are equal numbers; a point whose coordinate is not a
/// number matches nothing, itself included.
pub proof fn law_same_point_is_equality_of_both_coordinates(
    p: (Option<u64>, Option<u64>),
    q: (Option<u64>, Option<u64>),
)
    ensures
        same_point(p, q) <==> (p.0 is Some && p.0 == q.0 && p.1 is Some && p.1 == q.1),
        same_point(p, q) ==> same_point(q, p),
        p.0 != q.0 ==> !same_point(p, q),
        p.1 != q.1 ==> !same_point(p, q),
{
}

/// Law: removing the noise twice with the same peaks changes nothing more
/// than removing it once.
pub proof fn law_unnoise_idempotent<T>(
    amplitudes: Seq<T>,
    points: Seq<(Option<u64>, Option<u64>)>,
    peaks: Seq<(Option<u64>, Option<u64>)>,
    zero: T,
)
    ensures
        unnoised(unnoised(amplitudes, points, peaks, zero), points, peaks, zero)
            == unnoised(amplitudes, points, peaks, zero),
{
    assert(unnoised(unnoised(amplitudes, points, peaks, zero), points, peaks, zero)
        =~= unnoised(amplitudes, points, peaks, zero));
}

} // verus!
