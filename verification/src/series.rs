//! Shaping of plotted series: pairing abscissas with ordinates, and drawing
//! a spectrum as vertical bars.

use vstd::prelude::*;

verus! {

/// The pairs `(xs[i], ys[i])` for the indices that both sequences have.
pub open spec fn zipped<T>(xs: Seq<T>, ys: Seq<T>) -> Seq<(T, T)> {
    Seq::new(
        if xs.len() <= ys.len() { xs.len() } else { ys.len() },
        |i: int| (xs[i], ys[i]),
    )
}

/// Pairs two data columns into points: the `i`-th point is made of the
/// `i`-th element of each column; the longer column is cut to the shorter.
pub fn vec_of_couple<T>(couple: (Vec<T>, Vec<T>)) -> (points: Vec<(T, T)>)
    ensures
        points@ == zipped(couple.0@, couple.1@),
{
    let (mut xs, mut ys) = couple;
    let ghost xs0 = xs@;
    let ghost ys0 = ys@;
    let m = if xs.len() <= ys.len() { xs.len() } else { ys.len() };
    xs.truncate(m);
    ys.truncate(m);
    // the points are collected from the last one, then put back in order
    let mut reversed: Vec<(T, T)> = Vec::new();
    while xs.len() > 0
        invariant
            xs.len() == ys.len(),
            xs.len() <= m,
            m <= xs0.len(),
            m <= ys0.len(),
            xs@ == xs0.take(xs.len() as int),
            ys@ == ys0.take(ys.len() as int),
            reversed.len() == m - xs.len(),
            forall|i: int| 0 <= i < reversed.len()
                ==> #[trigger] reversed@[i] == (xs0[m - 1 - i], ys0[m - 1 - i]),
        decreases xs.len(),
    {
        let x = xs.pop().unwrap();
        let y = ys.pop().unwrap();
        reversed.push((x, y));
    }
    let mut points: Vec<(T, T)> = Vec::new();
    while reversed.len() > 0
        invariant
            reversed.len() + points.len() == m,
            m <= xs0.len(),
            m <= ys0.len(),
            forall|i: int| 0 <= i < reversed.len()
                ==> #[trigger] reversed@[i] == (xs0[m - 1 - i], ys0[m - 1 - i]),
            forall|i: int| 0 <= i < points.len() ==> #[trigger] points@[i] == (xs0[i], ys0[i]),
        decreases reversed.len(),
    {
        let p = reversed.pop().unwrap();
        points.push(p);
    }
    assert(points@ =~= zipped(xs0, ys0));
    points
}

/// Each spectrum point `(f, amp)` drawn as a vertical bar: the three points
/// `(f, zero)`, `(f, amp)`, `(f, zero)`.
pub open spec fn vertical_lines<T>(points: Seq<(T, T)>, zero: T) -> Seq<(T, T)> {
    Seq::new(
        3 * points.len(),
        |i: int|
            if i % 3 == 1 {
                points[i / 3]
            } else {
                (points[i / 3].0, zero)
            },
    )
}

/// Turns spectrum points into a polyline that draws each of them as a
/// vertical bar rising from `zero` on the axis and falling back to it.
pub fn fft_points_to_vertical_lines<T: Copy>(fft_points: &[(T, T)], zero: T) -> (out: Vec<(T, T)>)
    ensures
        out@ == vertical_lines(fft_points@, zero),
        out.len() == 3 * fft_points.len(),
        forall|k: int| 0 <= k < fft_points.len() ==> {
            &&& out@[3 * k] == (fft_points@[k].0, zero)
            &&& out@[3 * k + 1] == #[trigger] fft_points@[k]
            &&& out@[3 * k + 2] == (fft_points@[k].0, zero)
        },
{
    let mut out: Vec<(T, T)> = Vec::new();
    let mut i: usize = 0;
    while i < fft_points.len()
        invariant
            0 <= i <= fft_points.len(),
            out@ =~= vertical_lines(fft_points@, zero).take(3 * i),
        decreases fft_points.len() - i,
    {
        let (f, amp) = fft_points[i];
        out.push((f, zero));
        out.push((f, amp));
        out.push((f, zero));
        i = i + 1;
    }
    assert(out@ =~= vertical_lines(fft_points@, zero).take(3 * fft_points.len()));
    proof {
        assert(vertical_lines(fft_points@, zero).take(3 * fft_points.len()) =~= vertical_lines(fft_points@, zero));
        law_vertical_lines_bar_per_point(fft_points@, zero);
    }
    out
}

/// Law: every spectrum point gets its own bar, in the order of the points:
/// three polyline points per spectrum point, the middle one the spectrum
/// point itself and the outer ones its frequency at `zero`.
pub proof fn law_vertical_lines_bar_per_point<T>(points: Seq<(T, T)>, zero: T)
    ensures
        vertical_lines(points, zero).len() == 3 * points.len(),
        forall|k: int| 0 <= k < points.len() ==> {
            &&& vertical_lines(points, zero)[3 * k] == (points[k].0, zero)
            &&& vertical_lines(points, zero)[3 * k + 1] == #[trigger] points[k]
            &&& vertical_lines(points, zero)[3 * k + 2] == (points[k].0, zero)
        },
{
    assert forall|k: int| 0 <= k < points.len() implies {
        &&& vertical_lines(points, zero)[3 * k] == (points[k].0, zero)
        &&& vertical_lines(points, zero)[3 * k + 1] == #[trigger] points[k]
        &&& vertical_lines(points, zero)[3 * k + 2] == (points[k].0, zero)
    } by {
        assert((3 * k) / 3 == k && (3 * k) % 3 == 0) by (nonlinear_arith);
        assert((3 * k + 1) / 3 == k && (3 * k + 1) % 3 == 1) by (nonlinear_arith);
        assert((3 * k + 2) / 3 == k && (3 * k + 2) % 3 == 2) by (nonlinear_arith);
        assert(3 * k + 2 < 3 * points.len()) by (nonlinear_arith)
            requires
                0 <= k < points.len(),
        ;
    }
}

/// A sample of a plotted series: the `index`-th point of series `series`.
#[derive(Debug, Clone, Copy, PartialEq, Eq, Structural)]
pub struct SamplePos {
    pub series: usize,
    pub index: usize,
}

/// The position names a sample of the series.
pub open spec fn valid_pos(ys: Seq<Seq<i64>>, p: SamplePos) -> bool {
    p.series < ys.len() && p.index < ys[p.series as int].len()
}

/// The ordinate key of the sample at `p`.
pub open spec fn key_at(ys: Seq<Seq<i64>>, p: SamplePos) -> i64 {
    ys[p.series as int][p.index as int]
}

/// Sample `(s, i)` comes before position `p` when the series are read one
/// after the other.
pub open spec fn comes_before(s: int, i: int, p: SamplePos) -> bool {
    s < p.series || (s == p.series && i < p.index)
}

/// The ordinate keys of a list of series, each series viewed as a sequence.
pub open spec fn keys_of(series: Seq<Vec<i64>>) -> Seq<Seq<i64>> {
    series.map_values(|v: Vec<i64>| v@)
}

/// `top` is the first highest sample and `bottom` the first lowest sample
/// of all the series, read one after the other.
pub open spec fn is_extent(ys: Seq<Seq<i64>>, top: SamplePos, bottom: SamplePos) -> bool {
    &&& valid_pos(ys, top)
    &&& valid_pos(ys, bottom)
    &&& forall|s: int, i: int| 0 <= s < ys.len() && 0 <= i < ys[s].len()
        ==> key_at(ys, bottom) <= #[trigger] ys[s][i] <= key_at(ys, top)
    &&& forall|s: int, i: int| 0 <= s < ys.len() && 0 <= i < ys[s].len() && comes_before(s, i, top)
        ==> #[trigger] ys[s][i] < key_at(ys, top)
    &&& forall|s: int, i: int| 0 <= s < ys.len() && 0 <= i < ys[s].len() && comes_before(s, i, bottom)
        ==> #[trigger] ys[s][i] > key_at(ys, bottom)
}

/// Finds the vertical extent of the curves of a plot: the highest and the
/// lowest sample over all the series, from the ordinate keys of each series
/// (integers ordered as the ordinates are). Returns `None` when a series is
/// empty, as its height cannot be measured.
pub fn y_bounds(series: &Vec<Vec<i64>>) -> (r: Option<(SamplePos, SamplePos)>)
    requires
        series.len() > 0,
    ensures
        r is None <==> exists|s: int| 0 <= s < series.len() && (#[trigger] series@[s]).len() == 0,
        r matches Some((top, bottom)) ==> is_extent(keys_of(series@), top, bottom),
{
    let ghost ys = keys_of(series@);
    let mut top = SamplePos { series: 0, index: 0 };
    let mut bottom = SamplePos { series: 0, index: 0 };
    let mut s: usize = 0;
    while s < series.len()
        invariant
            ys == keys_of(series@),
            ys.len() == series.len(),
            0 <= s <= series.len(),
            forall|t: int| 0 <= t < s ==> (#[trigger] series@[t]).len() > 0,
            s > 0 ==> valid_pos(ys, top) && valid_pos(ys, bottom) && top.series < s && bottom.series < s,
            forall|t: int, i: int| 0 <= t < s && 0 <= i < ys[t].len()
                ==> key_at(ys, bottom) <= #[trigger] ys[t][i] <= key_at(ys, top),
            forall|t: int, i: int| 0 <= t < s && 0 <= i < ys[t].len() && comes_before(t, i, top)
                ==> #[trigger] ys[t][i] < key_at(ys, top),
            forall|t: int, i: int| 0 <= t < s && 0 <= i < ys[t].len() && comes_before(t, i, bottom)
                ==> #[trigger] ys[t][i] > key_at(ys, bottom),
        decreases series.len() - s,
    {
        let line = &series[s];
        if line.len() == 0 {
            assert(series@[s as int].len() == 0);
            return None;
        }
        assert(ys[s as int] == line@);
        let mut i: usize = 0;
        while i < line.len()
            invariant
                ys == keys_of(series@),
                ys.len() == series.len(),
                0 <= s < series.len(),
                ys[s as int] == line@,
                line.len() > 0,
                0 <= i <= line.len(),
                s > 0 || i > 0 ==> valid_pos(ys, top) && valid_pos(ys, bottom),
                s > 0 || i > 0 ==> top.series < s || (top.series == s && top.index < i),
                s > 0 || i > 0 ==> bottom.series < s || (bottom.series == s && bottom.index < i),
                forall|t: int, j: int| ((0 <= t < s && 0 <= j < ys[t].len()) || (t == s && 0 <= j < i))
                    ==> key_at(ys, bottom) <= #[trigger] ys[t][j] <= key_at(ys, top),
                forall|t: int, j: int| ((0 <= t < s && 0 <= j < ys[t].len()) || (t == s && 0 <= j < i))
                    && comes_before(t, j, top) ==> #[trigger] ys[t][j] < key_at(ys, top),
                forall|t: int, j: int| ((0 <= t < s && 0 <= j < ys[t].len()) || (t == s && 0 <= j < i))
                    && comes_before(t, j, bottom) ==> #[trigger] ys[t][j] > key_at(ys, bottom),
            decreases line.len() - i,
        {
            let y = line[i];
            if (s == 0 && i == 0) || y > series[top.series][top.index] {
                top = SamplePos { series: s, index: i };
            }
            if (s == 0 && i == 0) || y < series[bottom.series][bottom.index] {
                bottom = SamplePos { series: s, index: i };
            }
            i = i + 1;
        }
        s = s + 1;
    }
    Some((top, bottom))
}

} // verus!
