//! The experiments of the filtering study, each stated as the plan that it
//! runs: which signal is sampled, how finely and over which window, which
//! filter acts on it, and what is drawn.

use vstd::prelude::*;
use vstd::arithmetic::power::pow;
use vstd::arithmetic::power::lemma_pow_increases;

use crate::filtre::FiltreType;

verus! {

/// An exact decimal number: `mantissa / 10^scale`.
#[derive(Debug, Clone, Copy, PartialEq, Eq, Structural)]
pub struct Decimal {
    pub mantissa: i64,
    pub scale: u32,
}

impl Decimal {
    /// The decimal `mantissa / 10^scale`.
    pub fn new(mantissa: i64, scale: u32) -> (d: Decimal)
        ensures
            d.mantissa == mantissa,
            d.scale == scale,
    {
        Decimal { mantissa, scale }
    }

    /// The whole number `value`.
    pub fn whole(value: i64) -> (d: Decimal)
        ensures
            d.mantissa == value,
            d.scale == 0,
    {
        Decimal { mantissa: value, scale: 0 }
    }
}

/// A window `start..end` of time or of frequency.
#[derive(Debug, Clone, Copy, PartialEq, Eq, Structural)]
pub struct Window {
    pub start: Decimal,
    pub end: Decimal,
}

/// One sine component: frequency (Hz), amplitude and initial phase (rad).
#[derive(Debug, Clone, Copy, PartialEq, Eq, Structural)]
pub struct Sinusoid {
    pub frequency: Decimal,
    pub amplitude: Decimal,
    pub phase: Decimal,
}

/// A periodic input signal.
pub enum SignalSpec {
    /// A sum of sine components plus an optional constant offset.
    Sum { components: Vec<Sinusoid>, offset: Option<Decimal> },
    /// A square wave of the given frequency between `low` and `high`.
    Square { frequency: Decimal, low: Decimal, high: Decimal },
    /// A triangle wave of the given frequency between `low` and `high`.
    Triangle { frequency: Decimal, low: Decimal, high: Decimal },
}

/// A filter of a given kind, with its static gain `h0`, its characteristic
/// frequency `f0` (Hz) and its quality factor `q`.
#[derive(Debug, Clone, Copy, PartialEq, Eq, Structural)]
pub struct FilterSpec {
    pub kind: FiltreType,
    pub h0: Decimal,
    pub f0: Decimal,
    pub q: Decimal,
}

/// A filtering experiment: `signal` sampled at `n + 1` points over
/// `width_graph`, its spectrum passed through `filter`, with `offset` added
/// to the rebuilt output signal, and the filter's response drawn over
/// `width_frequence`.
pub struct FiltragePlan {
    pub signal: SignalSpec,
    pub filter: FilterSpec,
    pub n: usize,
    pub width_graph: Window,
    pub width_frequence: Window,
    pub offset: Option<Decimal>,
}

/// A spectrum experiment: `signal` sampled at `n + 1` points over `width`,
/// drawn to `time_file`, and its spectrum peaks drawn over `fft_width` to
/// `fft_file`.
pub struct FftDemoPlan {
    pub signal: SignalSpec,
    pub n: usize,
    pub width: Window,
    pub time_file: &'static str,
    pub time_caption: &'static str,
    pub fft_file: &'static str,
    pub fft_caption: &'static str,
    pub fft_width: Window,
}

/// Which response of a filter a plot shows.
#[derive(Debug, Clone, Copy, PartialEq, Eq, Structural)]
pub enum Curve {
    Gain,
    Phase,
}

/// One plot of a filter response: the filter is `filters[filter]` of the
/// enclosing plan.
pub struct ResponsePlot {
    pub filename: &'static str,
    pub caption: &'static str,
    pub y_legend: &'static str,
    pub filter: usize,
    pub curve: Curve,
}

/// Response curves of several filters, each sampled at `n + 1` frequencies
/// over `width`.
pub struct ResponsePlan {
    pub n: usize,
    pub width: Window,
    pub filters: Vec<FilterSpec>,
    pub plots: Vec<ResponsePlot>,
}

/// `base` raised to the power `exp`.
pub fn pow_usize(base: usize, exp: u32) -> (r: usize)
    requires
        pow(base as int, exp as nat) <= usize::MAX,
    ensures
        r == pow(base as int, exp as nat),
{
    let mut r: usize = 1;
    let mut i: u32 = 0;
    proof {
        reveal(pow);
    }
    while i < exp
        invariant
            0 <= i <= exp,
            r == pow(base as int, i as nat),
            pow(base as int, exp as nat) <= usize::MAX,
        decreases exp - i,
    {
        proof {
            reveal(pow);
            assert(pow(base as int, (i + 1) as nat) == base * pow(base as int, i as nat));
            if base > 0 {
                lemma_pow_increases(base as nat, (i + 1) as nat, exp as nat);
            }
        }
        r = base * r;
        i = i + 1;
    }
    r
}

/// Number of sampling intervals of the spectrum experiments: `2^14 - 1`.
fn fft_sampling_intervals() -> (n: usize)
    ensures
        n == 16383,
{
    proof {
        reveal_with_fuel(pow, 15);
    }
    pow_usize(2, 14) - 1
}

/// The window from `start` to `mantissa / 10^scale`, `start` a whole number.
pub open spec fn window_spec(start: i64, mantissa: i64, scale: u32) -> Window {
    Window { start: Decimal { mantissa: start, scale: 0 }, end: Decimal { mantissa, scale } }
}

/// The window `0..end`, `end` being `mantissa / 10^scale`.
fn window_from_zero(mantissa: i64, scale: u32) -> (w: Window)
    ensures
        w == window_spec(0, mantissa, scale),
{
    Window { start: Decimal::whole(0), end: Decimal::new(mantissa, scale) }
}

/// A triangle wave at 1 kHz between 0 and 2, through a band-pass filter
/// centred on 25 kHz with `q = 0.2`, over 2 ms.
pub fn filtrage_triangle_wave() -> (plan: FiltragePlan)
    ensures
        plan.signal == (SignalSpec::Triangle {
            frequency: Decimal { mantissa: 1000, scale: 0 },
            low: Decimal { mantissa: 0, scale: 0 },
            high: Decimal { mantissa: 2, scale: 0 },
        }),
        plan.filter == (FilterSpec {
            kind: FiltreType::PasseBande,
            h0: Decimal { mantissa: 1, scale: 0 },
            f0: Decimal { mantissa: 25000, scale: 0 },
            q: Decimal { mantissa: 2, scale: 1 },
        }),
        plan.n == 16383,
        plan.width_graph == window_spec(0, 2, 3),
        plan.width_frequence == window_spec(0, 50000, 0),
        plan.offset.is_none(),
{
    FiltragePlan {
        signal: SignalSpec::Triangle { frequency: Decimal::whole(1000), low: Decimal::whole(0), high: Decimal::whole(2) },
        filter: FilterSpec {
            kind: FiltreType::PasseBande,
            h0: Decimal::whole(1),
            f0: Decimal::whole(25000),
            q: Decimal::new(2, 1),
        },
        n: fft_sampling_intervals(),
        width_graph: window_from_zero(2, 3),
        width_frequence: window_from_zero(50000, 0),
        offset: None,
    }
}

/// A square wave at 1 kHz between -2 and 4, through a notch filter at
/// 40 Hz with `q = 20`, over 2 ms; the output signal is shifted by 1.
pub fn filtrage_square_wave() -> (plan: FiltragePlan)
    ensures
        plan.signal == (SignalSpec::Square {
            frequency: Decimal { mantissa: 1000, scale: 0 },
            low: Decimal { mantissa: -2i64, scale: 0 },
            high: Decimal { mantissa: 4, scale: 0 },
        }),
        plan.filter == (FilterSpec {
            kind: FiltreType::CoupeBande,
            h0: Decimal { mantissa: 1, scale: 0 },
            f0: Decimal { mantissa: 40, scale: 0 },
            q: Decimal { mantissa: 20, scale: 0 },
        }),
        plan.n == 16383,
        plan.width_graph == window_spec(0, 2, 3),
        plan.width_frequence == window_spec(0, 50000, 0),
        plan.offset == Some(Decimal { mantissa: 1, scale: 0 }),
{
    FiltragePlan {
        signal: SignalSpec::Square { frequency: Decimal::whole(1000), low: Decimal::whole(-2), high: Decimal::whole(4) },
        filter: FilterSpec {
            kind: FiltreType::CoupeBande,
            h0: Decimal::whole(1),
            f0: Decimal::whole(40),
            q: Decimal::whole(20),
        },
        n: fft_sampling_intervals(),
        width_graph: window_from_zero(2, 3),
        width_frequence: window_from_zero(50000, 0),
        offset: Some(Decimal::whole(1)),
    }
}

/// The sine component of frequency `f` (Hz), unit amplitude and phase
/// `phase` (rad).
fn unit_sinusoid(f: i64, phase: Decimal) -> (s: Sinusoid)
    ensures
        s == (Sinusoid { frequency: Decimal { mantissa: f, scale: 0 }, amplitude: Decimal { mantissa: 1, scale: 0 }, phase }),
{
    Sinusoid { frequency: Decimal::whole(f), amplitude: Decimal::whole(1), phase }
}

/// Two unit sines at 200 Hz and 1800 Hz, through a band-pass filter centred
/// on 200 Hz with `q = 20`, over 10 ms.
pub fn filtrage_sinus_signal() -> (plan: FiltragePlan)
    ensures
        plan.signal matches SignalSpec::Sum { components, offset }
            && components@ == seq![
                Sinusoid { frequency: Decimal { mantissa: 200, scale: 0 }, amplitude: Decimal { mantissa: 1, scale: 0 }, phase: Decimal { mantissa: 0, scale: 0 } },
                Sinusoid { frequency: Decimal { mantissa: 1800, scale: 0 }, amplitude: Decimal { mantissa: 1, scale: 0 }, phase: Decimal { mantissa: 0, scale: 0 } },
            ]
            && offset.is_none(),
        plan.filter == (FilterSpec {
            kind: FiltreType::PasseBande,
            h0: Decimal { mantissa: 1, scale: 0 },
            f0: Decimal { mantissa: 200, scale: 0 },
            q: Decimal { mantissa: 20, scale: 0 },
        }),
        plan.n == 16383,
        plan.width_graph == window_spec(0, 10, 3),
        plan.width_frequence == window_spec(0, 2000, 0),
        plan.offset.is_none(),
{
    let components = vec![unit_sinusoid(200, Decimal::whole(0)), unit_sinusoid(1800, Decimal::whole(0))];
    FiltragePlan {
        signal: SignalSpec::Sum { components, offset: None },
        filter: FilterSpec {
            kind: FiltreType::PasseBande,
            h0: Decimal::whole(1),
            f0: Decimal::whole(200),
            q: Decimal::whole(20),
        },
        n: fft_sampling_intervals(),
        width_graph: window_from_zero(10, 3),
        width_frequence: window_from_zero(2000, 0),
        offset: None,
    }
}

/// The filter of the given kind with unit gain, `f0 = 1000 Hz` and `q = 10`.
pub open spec fn response_filter_spec(kind: FiltreType) -> FilterSpec {
    FilterSpec {
        kind,
        h0: Decimal { mantissa: 1, scale: 0 },
        f0: Decimal { mantissa: 1000, scale: 0 },
        q: Decimal { mantissa: 10, scale: 0 },
    }
}

/// The filter of the given kind with unit gain, `f0 = 1000 Hz` and `q = 10`.
fn response_filter(kind: FiltreType) -> (f: FilterSpec)
    ensures
        f == response_filter_spec(kind),
{
    FilterSpec { kind, h0: Decimal::whole(1), f0: Decimal::whole(1000), q: Decimal::whole(10) }
}

/// The plot draws `curve` of filter `filter` to `filename`, with that
/// caption and y legend.
pub open spec fn plot_is(
    p: ResponsePlot,
    filename: Seq<char>,
    caption: Seq<char>,
    y_legend: Seq<char>,
    filter: usize,
    curve: Curve,
) -> bool {
    &&& p.filename@ == filename
    &&& p.caption@ == caption
    &&& p.y_legend@ == y_legend
    &&& p.filter == filter
    &&& p.curve == curve
}

/// The gain and the phase of a second-order high-pass, a second-order
/// low-pass, a band-pass and a notch filter (unit gain, `f0 = 1000 Hz`,
/// `q = 10`), each sampled at 5001 frequencies over `0..5000 Hz`: eight
/// plots, the four gains then the four phases.
pub fn plot_gain_phase() -> (plan: ResponsePlan)
    ensures
        plan.n == 5000,
        plan.width == window_spec(0, 5000, 0),
        plan.filters@ == seq![
            response_filter_spec(FiltreType::PasseHaut2nd),
            response_filter_spec(FiltreType::PasseBas2nd),
            response_filter_spec(FiltreType::PasseBande),
            response_filter_spec(FiltreType::CoupeBande),
        ],
        plan.plots@.len() == 8,
        plot_is(plan.plots@[0], "gain/passe_haut.png"@, "gain passe haut"@, "gain"@, 0, Curve::Gain),
        plot_is(plan.plots@[1], "gain/passe_bas.png"@, "gain passe bas"@, "gain"@, 1, Curve::Gain),
        plot_is(plan.plots@[2], "gain/passe_bande.png"@, "gain passe bande"@, "gain"@, 2, Curve::Gain),
        plot_is(plan.plots@[3], "gain/coupe_bande.png"@, "gain coupe bande"@, "gain"@, 3, Curve::Gain),
        plot_is(plan.plots@[4], "phase/passe_haut.png"@, "phase passe haut"@, "phase"@, 0, Curve::Phase),
        plot_is(plan.plots@[5], "phase/passe_bas.png"@, "phase passe bas"@, "phase"@, 1, Curve::Phase),
        plot_is(plan.plots@[6], "phase/passe_bande.png"@, "phase passe bande"@, "phase"@, 2, Curve::Phase),
        plot_is(plan.plots@[7], "phase/coupe_bande.png"@, "phase coupe bande"@, "phase"@, 3, Curve::Phase),
{
    let filters = vec![
        response_filter(FiltreType::PasseHaut2nd),
        response_filter(FiltreType::PasseBas2nd),
        response_filter(FiltreType::PasseBande),
        response_filter(FiltreType::CoupeBande),
    ];
    let plots = vec![
        ResponsePlot { filename: "gain/passe_haut.png", caption: "gain passe haut", y_legend: "gain", filter: 0, curve: Curve::Gain },
        ResponsePlot { filename: "gain/passe_bas.png", caption: "gain passe bas", y_legend: "gain", filter: 1, curve: Curve::Gain },
        ResponsePlot { filename: "gain/passe_bande.png", caption: "gain passe bande", y_legend: "gain", filter: 2, curve: Curve::Gain },
        ResponsePlot { filename: "gain/coupe_bande.png", caption: "gain coupe bande", y_legend: "gain", filter: 3, curve: Curve::Gain },
        ResponsePlot { filename: "phase/passe_haut.png", caption: "phase passe haut", y_legend: "phase", filter: 0, curve: Curve::Phase },
        ResponsePlot { filename: "phase/passe_bas.png", caption: "phase passe bas", y_legend: "phase", filter: 1, curve: Curve::Phase },
        ResponsePlot { filename: "phase/passe_bande.png", caption: "phase passe bande", y_legend: "phase", filter: 2, curve: Curve::Phase },
        ResponsePlot { filename: "phase/coupe_bande.png", caption: "phase coupe bande", y_legend: "phase", filter: 3, curve: Curve::Phase },
    ];
    ResponsePlan { n: 5000, width: window_from_zero(5000, 0), filters, plots }
}

/// A triangle wave at 1 Hz between 0 and 1, sampled over 10 s; its
/// spectrum drawn over `0..100 Hz`.
pub fn fft_triangle_test() -> (plan: FftDemoPlan)
    ensures
        plan.signal == (SignalSpec::Triangle {
            frequency: Decimal { mantissa: 1, scale: 0 },
            low: Decimal { mantissa: 0, scale: 0 },
            high: Decimal { mantissa: 1, scale: 0 },
        }),
        plan.n == 16383,
        plan.width == window_spec(0, 10, 0),
        plan.time_file@ == "triangle_time_input.png"@,
        plan.time_caption@ == "Time input function"@,
        plan.fft_file@ == "triangle_fft_result.png"@,
        plan.fft_caption@ == "Frequency response"@,
        plan.fft_width == window_spec(0, 100, 0),
{
    FftDemoPlan {
        signal: SignalSpec::Triangle { frequency: Decimal::whole(1), low: Decimal::whole(0), high: Decimal::whole(1) },
        n: fft_sampling_intervals(),
        width: window_from_zero(10, 0),
        time_file: "triangle_time_input.png",
        time_caption: "Time input function",
        fft_file: "triangle_fft_result.png",
        fft_caption: "Frequency response",
        fft_width: window_from_zero(100, 0),
    }
}

/// A square wave at 5 Hz between 0 and 1, sampled over 10 s; its spectrum
/// drawn over `0..100 Hz`.
pub fn fft_square_test() -> (plan: FftDemoPlan)
    ensures
        plan.signal == (SignalSpec::Square {
            frequency: Decimal { mantissa: 5, scale: 0 },
            low: Decimal { mantissa: 0, scale: 0 },
            high: Decimal { mantissa: 1, scale: 0 },
        }),
        plan.n == 16383,
        plan.width == window_spec(0, 10, 0),
        plan.time_file@ == "square_time_input.png"@,
        plan.time_caption@ == "Time input function"@,
        plan.fft_file@ == "square_fft_result.png"@,
        plan.fft_caption@ == "Frequency response"@,
        plan.fft_width == window_spec(0, 100, 0),
{
    FftDemoPlan {
        signal: SignalSpec::Square { frequency: Decimal::whole(5), low: Decimal::whole(0), high: Decimal::whole(1) },
        n: fft_sampling_intervals(),
        width: window_from_zero(10, 0),
        time_file: "square_time_input.png",
        time_caption: "Time input function",
        fft_file: "square_fft_result.png",
        fft_caption: "Frequency response",
        fft_width: window_from_zero(100, 0),
    }
}

/// A unit sine at 200 Hz plus a unit sine at 1800 Hz of phase -3.22 rad,
/// sampled over 10 ms; the spectrum drawn over `0..2000 Hz`.
pub fn fft_basic_test() -> (plan: FftDemoPlan)
    ensures
        plan.signal matches SignalSpec::Sum { components, offset }
            && components@ == seq![
                Sinusoid { frequency: Decimal { mantissa: 200, scale: 0 }, amplitude: Decimal { mantissa: 1, scale: 0 }, phase: Decimal { mantissa: 0, scale: 0 } },
                Sinusoid { frequency: Decimal { mantissa: 1800, scale: 0 }, amplitude: Decimal { mantissa: 1, scale: 0 }, phase: Decimal { mantissa: -322i64, scale: 2 } },
            ]
            && offset.is_none(),
        plan.n == 16383,
        plan.width == window_spec(0, 10, 3),
        plan.time_file@ == "sin_time_input.png"@,
        plan.time_caption@ == "Time input function"@,
        plan.fft_file@ == "sin_fft_result.png"@,
        plan.fft_caption@ == "Frequency response"@,
        plan.fft_width == window_spec(0, 2000, 0),
{
    let components = vec![unit_sinusoid(200, Decimal::whole(0)), unit_sinusoid(1800, Decimal::new(-322, 2))];
    FftDemoPlan {
        signal: SignalSpec::Sum { components, offset: None },
        n: fft_sampling_intervals(),
        width: window_from_zero(10, 3),
        time_file: "sin_time_input.png",
        time_caption: "Time input function",
        fft_file: "sin_fft_result.png",
        fft_caption: "Frequency response",
        fft_width: window_from_zero(2000, 0),
    }
}

} // verus!
