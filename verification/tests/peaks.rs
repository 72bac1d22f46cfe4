use numsim::peaks::{extract_peaks, half_spectrum_len, keep_strong_peaks, unnoise_amplitudes};

#[test]
fn peaks_come_strongest_first() {
    let amps = [0, 5, 0, 3, 0, 9, 1];
    assert_eq!(extract_peaks(&amps, 0), vec![5, 1, 3]);
}

#[test]
fn weak_peaks_are_noise() {
    let amps = [0, 5, 0, 3, 0, 9, 1];
    assert_eq!(extract_peaks(&amps, 4), vec![5, 1]);
    assert_eq!(extract_peaks(&amps, 10), Vec::<usize>::new());
}

#[test]
fn threshold_is_inclusive() {
    let amps = [0, 5, 0, 3, 0];
    assert_eq!(extract_peaks(&amps, 3), vec![1, 3]);
}

#[test]
fn plateau_peak_reported_at_its_middle() {
    let amps = [0, 4, 4, 4, 0];
    assert_eq!(extract_peaks(&amps, 0), vec![2]);
}

#[test]
fn shelf_on_a_descent_counts_as_peak() {
    // find_peaks reports the flat step of a descent
    let amps = [3, 2, 2, 1];
    assert_eq!(extract_peaks(&amps, 0), vec![2]);
}

#[test]
fn too_short_for_a_peak() {
    assert_eq!(extract_peaks(&[0, 7], 0), Vec::<usize>::new());
    assert_eq!(extract_peaks(&[], 0), Vec::<usize>::new());
}

#[test]
fn peaks_of_float_amplitudes() {
    let amps = [0.0_f64, 0.5, 0.0004, 1e-3, 0.0001, 2.0, 0.0];
    let keys: Vec<i64> = amps.iter().map(|a| a.to_bits() as i64).collect();
    let threshold = 1e-3_f64.to_bits() as i64;
    assert_eq!(extract_peaks(&keys, threshold), vec![5, 1, 3]);
}

fn key(v: f64) -> Option<u64> {
    if v.is_nan() {
        None
    } else if v == 0.0 {
        Some(0)
    } else {
        Some(v.to_bits())
    }
}

fn point(p: (f64, f64)) -> (Option<u64>, Option<u64>) {
    (key(p.0), key(p.1))
}

#[test]
fn noise_removed_outside_peaks() {
    let spectrum = [(0.0, 0.1), (1.0, 0.9), (2.0, 0.2), (3.0, 0.7), (4.0, 0.05)];
    let points: Vec<_> = spectrum.iter().map(|&p| point(p)).collect();
    let peaks = vec![point((3.0, 0.7)), point((1.0, 0.9))];
    let amps: Vec<f64> = spectrum.iter().map(|p| p.1).collect();
    assert_eq!(unnoise_amplitudes(&amps, &points, &peaks, 0.0), vec![0.0, 0.9, 0.0, 0.7, 0.0]);
}

#[test]
fn bins_equal_to_a_peak_point_are_kept() {
    // a zero-width window makes every frequency but the first infinite
    let spectrum = [(f64::NAN, 0.5), (f64::INFINITY, 0.5), (f64::INFINITY, 0.5), (f64::INFINITY, 0.2)];
    let points: Vec<_> = spectrum.iter().map(|&p| point(p)).collect();
    let peaks = vec![point((f64::INFINITY, 0.5)), point((f64::NAN, 0.5))];
    let amps: Vec<f64> = spectrum.iter().map(|p| p.1).collect();
    assert_eq!(unnoise_amplitudes(&amps, &points, &peaks, 0.0), vec![0.0, 0.5, 0.5, 0.0]);
}

#[test]
fn noise_removal_twice_changes_nothing() {
    let points = vec![(Some(0), Some(1)), (Some(1), Some(2)), (Some(2), Some(3)), (Some(3), Some(4))];
    let amps = [1, 2, 3, 4];
    let peaks = vec![(Some(2), Some(3))];
    let once = unnoise_amplitudes(&amps, &points, &peaks, 0);
    assert_eq!(unnoise_amplitudes(&once, &points, &peaks, 0), once);
    assert_eq!(once, vec![0, 0, 3, 0]);
}

#[test]
fn spectrum_keeps_lower_half_minus_one() {
    assert_eq!(half_spectrum_len(16384), 8191);
    assert_eq!(half_spectrum_len(16383), 8190);
    assert_eq!(half_spectrum_len(2), 0);
}

#[test]
fn strong_peaks_kept_in_order() {
    let amps = [0, 5, 0, 3, 0, 9, 1];
    assert_eq!(keep_strong_peaks(&amps, &[5, 1, 3], 4), vec![5, 1]);
    assert_eq!(keep_strong_peaks(&amps, &[3, 1], 0), vec![3, 1]);
    assert_eq!(keep_strong_peaks(&amps, &[42, 1], 0), vec![1]);
    assert_eq!(keep_strong_peaks(&amps, &[], 0), Vec::<usize>::new());
}

#[test]
fn higher_threshold_keeps_the_strongest_peaks() {
    let amps = [0, 5, 0, 3, 0, 9, 1, 7, 0];
    let low = extract_peaks(&amps, 1);
    let high = extract_peaks(&amps, 6);
    assert_eq!(low, vec![5, 7, 1, 3]);
    assert_eq!(high, vec![5, 7]);
    assert_eq!(&low[..high.len()], &high[..]);
}

#[test]
fn every_sharp_peak_is_found() {
    let amps = [1, 4, 2, 6, 6, 3, 8, 0, 5, 5];
    let peaks = extract_peaks(&amps, 0);
    for p in [1, 6] {
        assert!(peaks.contains(&p));
    }
    for &p in &peaks {
        assert!(p > 0 && p < amps.len() - 1);
        assert!(amps[p - 1] <= amps[p] && amps[p] >= amps[p + 1]);
    }
    let mut sorted = peaks.clone();
    sorted.sort();
    sorted.dedup();
    assert_eq!(sorted.len(), peaks.len());
    assert_eq!(peaks, vec![6, 4, 1]);
}
