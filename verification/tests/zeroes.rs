use numsim::zeroes::{search_near_zeroes, search_period};

/// Order keys of non-negative magnitudes, as the application derives them.
fn keys(values: &[f64]) -> Vec<u64> {
    values.iter().map(|v| v.abs().to_bits()).collect()
}

#[test]
fn near_zeroes_of_a_sampled_oscillation() {
    // |sin| sampled: dips near 0 at indices 3 and 7
    let ys = [0.9, 0.6, 0.3, 0.05, 0.2, 0.5, 0.3, 0.01, 0.4, 0.8];
    assert_eq!(search_near_zeroes(&keys(&ys)), vec![3, 7]);
}

#[test]
fn descent_still_running_at_the_end_is_not_reported() {
    let mags = [5, 4, 3, 2, 1];
    assert_eq!(search_near_zeroes(&mags), Vec::<usize>::new());
}

#[test]
fn first_sample_counts_as_reached_by_a_descent() {
    assert_eq!(search_near_zeroes(&[1, 3]), vec![0]);
}

#[test]
fn plateau_reports_its_first_sample() {
    assert_eq!(search_near_zeroes(&[5, 1, 1, 3]), vec![1]);
}

#[test]
fn plateau_after_a_rise_is_reported() {
    // 1 then rise to the plateau 3, 3, then rise again
    assert_eq!(search_near_zeroes(&[1, 3, 3, 4]), vec![0, 1]);
}

#[test]
fn single_step_after_a_rise_is_not_reported() {
    assert_eq!(search_near_zeroes(&[1, 3, 4]), vec![0]);
}

#[test]
fn single_sample() {
    assert_eq!(search_near_zeroes(&[7]), Vec::<usize>::new());
}

#[test]
fn same_zeroes_for_order_preserving_encodings() {
    let a = [9, 4, 1, 6, 8, 2, 2, 9];
    let b = [900, 41, 10, 60, 61, 3, 3, 1000];
    assert_eq!(search_near_zeroes(&a), search_near_zeroes(&b));
    assert_eq!(search_near_zeroes(&a), vec![2, 5]);
}

#[test]
fn period_spans_first_and_third_near_zero() {
    let mags = [2, 0, 2, 1, 0, 1, 3, 0, 3, 0, 4];
    assert_eq!(search_near_zeroes(&mags), vec![1, 4, 7, 9]);
    assert_eq!(search_period(&mags), (1, 7));
}

#[test]
fn period_of_a_sampled_cosine() {
    // cos(t) on t = 0, 0.1, ..., 12.9: zeros near pi/2, 3pi/2, 5pi/2
    let xs: Vec<f64> = (0..130).map(|i| i as f64 * 0.1).collect();
    let ys: Vec<f64> = xs.iter().map(|x| x.cos()).collect();
    let (first, third) = search_period(&keys(&ys));
    assert_eq!((first, third), (16, 79));
    let period = xs[third] - xs[first];
    assert!((period - 2.0 * std::f64::consts::PI).abs() < 0.1);
}
