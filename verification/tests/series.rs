use numsim::series::{fft_points_to_vertical_lines, vec_of_couple, y_bounds, SamplePos};

#[test]
fn couples_pair_columns() {
    assert_eq!(vec_of_couple((vec![1, 2, 3], vec![4, 5, 6])), vec![(1, 4), (2, 5), (3, 6)]);
}

#[test]
fn couples_cut_to_shorter_column() {
    assert_eq!(vec_of_couple((vec![1.0, 2.0, 3.0], vec![4.0])), vec![(1.0, 4.0)]);
    assert_eq!(vec_of_couple((vec![1], vec![4, 5])), vec![(1, 4)]);
    assert_eq!(vec_of_couple((Vec::<u8>::new(), vec![4, 5])), vec![]);
}

#[test]
fn couples_move_owned_values() {
    let xs = vec![String::from("a"), String::from("b")];
    let ys = vec![String::from("c"), String::from("d")];
    assert_eq!(
        vec_of_couple((xs, ys)),
        vec![(String::from("a"), String::from("c")), (String::from("b"), String::from("d"))]
    );
}

#[test]
fn spectrum_points_become_bars() {
    let pts = [(200.0, 1.0), (1800.0, 0.5)];
    assert_eq!(
        fft_points_to_vertical_lines(&pts, 0.0),
        vec![(200.0, 0.0), (200.0, 1.0), (200.0, 0.0), (1800.0, 0.0), (1800.0, 0.5), (1800.0, 0.0)]
    );
    assert_eq!(fft_points_to_vertical_lines::<f64>(&[], 0.0), vec![]);
}

#[test]
fn extent_over_all_series() {
    let series = vec![vec![3, 1, 4], vec![1, 5, -9, 2]];
    let (top, bottom) = y_bounds(&series).unwrap();
    assert_eq!(top, SamplePos { series: 1, index: 1 });
    assert_eq!(bottom, SamplePos { series: 1, index: 2 });
}

#[test]
fn extent_picks_first_extreme() {
    let series = vec![vec![2, 7, 7], vec![7, 0]];
    let (top, bottom) = y_bounds(&series).unwrap();
    assert_eq!(top, SamplePos { series: 0, index: 1 });
    assert_eq!(bottom, SamplePos { series: 1, index: 1 });
}

#[test]
fn extent_of_an_empty_series_is_unknown() {
    assert_eq!(y_bounds(&vec![vec![1, 2], vec![]]), None);
}
