# IteraScope core

IteraScope is a laboratory for complex dynamics: linked parameter and
dynamical planes for the quadratic family and two dozen further escape-time,
convergence-time and root-finding instruments, deep zooms past the reach of
`f64` by perturbation around arbitrary-precision reference orbits, layered
colouring, and still and animation export.

This crate is its core, written in Verus: every function under `src/` carries
a contract that Verus proves, and the properties that span functions are
stated and proved as proof functions.

## Layout

- `src/family.rs` — the family catalogue: document identifiers, shader flags,
  which settings, tests and precision paths apply to each family, and the
  validation of family settings.
- `src/arbitrary.rs` — the precision policy for deep zooms and decimal
  arithmetic on `dashu-float` values: deep reals and complex numbers, deep
  locations, initial orbit states and one reference-orbit step per family
  (for the Mandelbox, the decimal arithmetic of its folds, with the fold
  decisions taken on real projections by the caller).
- `src/decimal.rs` — the calls into `dashu-float`, each with the contract it
  is trusted to meet, and the range of decimal texts and precisions they are
  handed: exponents stay within a third of the `isize` range through any one
  call, so no call overflows. An arithmetic result that would leave that
  range is `None`.
- `src/colouring.rs` — the colouring catalogue, the layer stack, the upload
  plan of visible layers, random-gradient draws, and the validation of
  colourings, layers and detached layer scenes.
- `src/palette.rs` — reading Ultra Fractal `.ugr` and Fractint `.map` palette
  text.
- `src/animation.rs` — tiled still export (tile geometry, pasting tiles into
  the image), camera-path anchors, animatable family settings and animation
  validation.
- `src/precision.rs` — the choice between `f32` and double-single arithmetic
  and the verdict on double-single rendering.
- `src/experiment.rs` — the rules an experiment document must satisfy.
- `src/inspector.rs` — the orbit tail the inspector overlay draws.
- `src/cache.rs` — a cache that keeps a result while its input is unchanged.
- `app/` — a command-line front end: JSON documents, files, and the
  computations that run in floating point (orbit diagnostics, gradients,
  deep-view navigation, camera paths and frame sampling, Lyapunov exponents).
- `tests/` — tests of the library on concrete values.

Real-valued settings are range-checked where they are read (in `app/`); the
library receives the outcome of each check and decides which rule applies,
in which order, and what a refused input is told.
