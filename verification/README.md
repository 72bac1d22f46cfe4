# numsim

Numerical experiments of an electronics course (a pendulum, RC/RLC circuits,
the effect of analog filters on periodic signals), with their discrete logic
verified by Verus.

- `src/` is the verified library. Real-valued samples never enter it: a
  magnitude or an amplitude is handed over as an integer key with the same
  order, and experiment parameters are exact decimals.
  - `zeroes`: near zeros of a sampled curve and the samples that bound one
    period.
  - `peaks`: spectrum peaks (through the `find_peaks` crate), noise
    threshold, noise removal.
  - `series`: pairing of data columns, spectrum bars, vertical extent of a
    plot.
  - `filtre`, `scenario`: filter kinds and the planned experiments.
- `app/` runs the experiments: floating-point signals and filters, the FFT
  (`rustfft`), the ODE solvers (`ode_solvers`) and the drawing (`plotters`).
  `numsim pendule | filtrage | euler <n> <f> <periods> <tau> <y0> | rlc`.
- `tests/` exercises the library on concrete data.
