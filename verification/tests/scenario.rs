use numsim::filtre::FiltreType;
use numsim::scenario::{
    fft_basic_test, fft_square_test, fft_triangle_test, filtrage_sinus_signal, filtrage_square_wave,
    filtrage_triangle_wave, plot_gain_phase, pow_usize, Curve, Decimal, SignalSpec, Sinusoid,
};

fn d(mantissa: i64, scale: u32) -> Decimal {
    Decimal { mantissa, scale }
}

#[test]
fn powers() {
    assert_eq!(pow_usize(2, 14), 16384);
    assert_eq!(pow_usize(10, 3), 1000);
    assert_eq!(pow_usize(0, 0), 1);
    assert_eq!(pow_usize(0, 3), 0);
}

#[test]
fn triangle_through_band_pass() {
    let plan = filtrage_triangle_wave();
    assert_eq!(plan.n, 16383);
    assert!(matches!(plan.signal, SignalSpec::Triangle { frequency, low, high }
        if frequency == d(1000, 0) && low == d(0, 0) && high == d(2, 0)));
    assert_eq!(plan.filter.kind, FiltreType::PasseBande);
    assert_eq!((plan.filter.h0, plan.filter.f0, plan.filter.q), (d(1, 0), d(25000, 0), d(2, 1)));
    assert_eq!((plan.width_graph.start, plan.width_graph.end), (d(0, 0), d(2, 3)));
    assert_eq!((plan.width_frequence.start, plan.width_frequence.end), (d(0, 0), d(50000, 0)));
    assert_eq!(plan.offset, None);
}

#[test]
fn square_through_notch() {
    let plan = filtrage_square_wave();
    assert!(matches!(plan.signal, SignalSpec::Square { frequency, low, high }
        if frequency == d(1000, 0) && low == d(-2, 0) && high == d(4, 0)));
    assert_eq!(plan.filter.kind, FiltreType::CoupeBande);
    assert_eq!((plan.filter.h0, plan.filter.f0, plan.filter.q), (d(1, 0), d(40, 0), d(20, 0)));
    assert_eq!(plan.offset, Some(d(1, 0)));
    assert_eq!(plan.n, 16383);
}

#[test]
fn two_sines_through_band_pass() {
    let plan = filtrage_sinus_signal();
    match plan.signal {
        SignalSpec::Sum { components, offset } => {
            assert_eq!(components, vec![
                Sinusoid { frequency: d(200, 0), amplitude: d(1, 0), phase: d(0, 0) },
                Sinusoid { frequency: d(1800, 0), amplitude: d(1, 0), phase: d(0, 0) },
            ]);
            assert_eq!(offset, None);
        }
        _ => panic!("expected a sum of sines"),
    }
    assert_eq!((plan.filter.kind, plan.filter.f0, plan.filter.q), (FiltreType::PasseBande, d(200, 0), d(20, 0)));
    assert_eq!(plan.width_graph.end, d(10, 3));
    assert_eq!(plan.width_frequence.end, d(2000, 0));
}

#[test]
fn eight_response_plots() {
    let plan = plot_gain_phase();
    assert_eq!(plan.n, 5000);
    assert_eq!(plan.width.end, d(5000, 0));
    let kinds: Vec<FiltreType> = plan.filters.iter().map(|f| f.kind).collect();
    assert_eq!(kinds, vec![FiltreType::PasseHaut2nd, FiltreType::PasseBas2nd, FiltreType::PasseBande, FiltreType::CoupeBande]);
    assert!(plan.filters.iter().all(|f| f.h0 == d(1, 0) && f.f0 == d(1000, 0) && f.q == d(10, 0)));
    let files: Vec<&str> = plan.plots.iter().map(|p| p.filename).collect();
    assert_eq!(files, vec![
        "gain/passe_haut.png", "gain/passe_bas.png", "gain/passe_bande.png", "gain/coupe_bande.png",
        "phase/passe_haut.png", "phase/passe_bas.png", "phase/passe_bande.png", "phase/coupe_bande.png",
    ]);
    assert_eq!(plan.plots[5].caption, "phase passe bas");
    assert_eq!(plan.plots[5].y_legend, "phase");
    assert_eq!(plan.plots[5].filter, 1);
    assert_eq!(plan.plots[5].curve, Curve::Phase);
    assert_eq!(plan.plots[2].curve, Curve::Gain);
}

#[test]
fn spectrum_demos() {
    let tri = fft_triangle_test();
    assert_eq!((tri.time_file, tri.fft_file), ("triangle_time_input.png", "triangle_fft_result.png"));
    assert_eq!(tri.fft_width.end, d(100, 0));
    assert_eq!(tri.width.end, d(10, 0));
    let sq = fft_square_test();
    assert!(matches!(sq.signal, SignalSpec::Square { frequency, .. } if frequency == d(5, 0)));
    assert_eq!(sq.time_caption, "Time input function");
    let sin = fft_basic_test();
    assert_eq!(sin.fft_caption, "Frequency response");
    assert_eq!(sin.width.end, d(10, 3));
    match sin.signal {
        SignalSpec::Sum { components, .. } => assert_eq!(components[1].phase, d(-322, 2)),
        _ => panic!("expected a sum of sines"),
    }
    assert_eq!(sin.n, 16383);
}
