//! Fractal family catalogue: every instrument's document identity, the
//! shader code that selects its branch, and the properties that decide which
//! controls, precision paths and colourings apply to it.

use vstd::prelude::*;

use crate::text::{chars_equal, chars_of};

verus! {

/// Largest iteration budget of the escape-time instruments.
pub const MAX_ITERATIONS: u32 = 50_000;
/// Iteration cap of the Newton instrument, matching its shader loop.
pub const MAX_NEWTON_ITERATIONS: u32 = 2_048;
/// Maximum length of a Lyapunov forcing sequence (it is packed into a `u32`).
pub const MAX_LYAPUNOV_SEQUENCE: usize = 32;
/// Smallest Multibrot exponent / Nova degree.
pub const MIN_DEGREE: u32 = 2;
/// Largest Multibrot exponent / Nova degree.
pub const MAX_DEGREE: u32 = 8;

#[derive(Clone, Copy, Debug, Default, PartialEq, Eq, Hash, Structural)]
pub enum FractalFamily {
    #[default]
    Quadratic,
    NewtonCubic,
    Multibrot,
    Tricorn,
    PerpendicularMandelbrot,
    BurningShip,
    PerpendicularBurningShip,
    Celtic,
    PerpendicularCeltic,
    Buffalo,
    PerpendicularBuffalo,
    Lambda,
    Phoenix,
    Manowar,
    Spider,
    MagnetOne,
    MagnetTwo,
    Exponential,
    Sine,
    Cosine,
    Collatz,
    Lyapunov,
    Nova,
    BarnsleyOne,
    BarnsleyTwo,
    Mandelbox,
}

/// How the two panes of an instrument relate.
#[derive(Clone, Copy, Debug, PartialEq, Eq, Structural)]
pub enum Linkage {
    /// Left pane is a parameter plane; clicking selects the parameter shown
    /// in the right-hand dynamical plane.
    ParameterDynamical,
    /// Both panes show the same plane; the left pane is an overview and the
    /// right pane a linked detail region around the selected point.
    OverviewDetail,
}

/// The family a document identifier names, if any.
pub open spec fn spec_family_of_document_id(id: Seq<char>) -> Option<FractalFamily> {
    if exists|family: FractalFamily| family.spec_document_id() == id {
        Some(choose|family: FractalFamily| family.spec_document_id() == id)
    } else {
        None
    }
}

/// Inverse of [`FractalFamily::spec_id_key`].
pub open spec fn spec_family_of_key(key: (nat, char)) -> FractalFamily {
        if key == (9nat, 'c') { FractalFamily::Quadratic } else
        if key == (12nat, 'c') { FractalFamily::NewtonCubic } else
        if key == (9nat, 't') { FractalFamily::Multibrot } else
        if key == (7nat, 'n') { FractalFamily::Tricorn } else
        if key == (24nat, 't') { FractalFamily::PerpendicularMandelbrot } else
        if key == (12nat, 'p') { FractalFamily::BurningShip } else
        if key == (26nat, 'p') { FractalFamily::PerpendicularBurningShip } else
        if key == (6nat, 'c') { FractalFamily::Celtic } else
        if key == (20nat, 'c') { FractalFamily::PerpendicularCeltic } else
        if key == (7nat, 'o') { FractalFamily::Buffalo } else
        if key == (21nat, 'o') { FractalFamily::PerpendicularBuffalo } else
        if key == (6nat, 'a') { FractalFamily::Lambda } else
        if key == (7nat, 'x') { FractalFamily::Phoenix } else
        if key == (7nat, 'r') { FractalFamily::Manowar } else
        if key == (6nat, 'r') { FractalFamily::Spider } else
        if key == (8nat, '1') { FractalFamily::MagnetOne } else
        if key == (8nat, '2') { FractalFamily::MagnetTwo } else
        if key == (11nat, 'l') { FractalFamily::Exponential } else
        if key == (4nat, 'e') { FractalFamily::Sine } else
        if key == (6nat, 'e') { FractalFamily::Cosine } else
        if key == (7nat, 'z') { FractalFamily::Collatz } else
        if key == (8nat, 'v') { FractalFamily::Lyapunov } else
        if key == (4nat, 'a') { FractalFamily::Nova } else
        if key == (10nat, '1') { FractalFamily::BarnsleyOne } else
        if key == (10nat, '2') { FractalFamily::BarnsleyTwo } else
        { FractalFamily::Mandelbox }
}

impl FractalFamily {
    /// Every family, in shader-flag order.
    pub const ALL: [FractalFamily; 26] = [
        FractalFamily::Quadratic,
        FractalFamily::NewtonCubic,
        FractalFamily::Multibrot,
        FractalFamily::Tricorn,
        FractalFamily::PerpendicularMandelbrot,
        FractalFamily::BurningShip,
        FractalFamily::PerpendicularBurningShip,
        FractalFamily::Celtic,
        FractalFamily::PerpendicularCeltic,
        FractalFamily::Buffalo,
        FractalFamily::PerpendicularBuffalo,
        FractalFamily::Lambda,
        FractalFamily::Phoenix,
        FractalFamily::Manowar,
        FractalFamily::Spider,
        FractalFamily::MagnetOne,
        FractalFamily::MagnetTwo,
        FractalFamily::Exponential,
        FractalFamily::Sine,
        FractalFamily::Cosine,
        FractalFamily::Collatz,
        FractalFamily::Lyapunov,
        FractalFamily::Nova,
        FractalFamily::BarnsleyOne,
        FractalFamily::BarnsleyTwo,
        FractalFamily::Mandelbox,
    ];

    /// Position of the family in [`FractalFamily::ALL`].
    pub open spec fn spec_index(self) -> nat {
        match self {
            FractalFamily::Quadratic => 0,
            FractalFamily::NewtonCubic => 1,
            FractalFamily::Multibrot => 2,
            FractalFamily::Tricorn => 3,
            FractalFamily::PerpendicularMandelbrot => 4,
            FractalFamily::BurningShip => 5,
            FractalFamily::PerpendicularBurningShip => 6,
            FractalFamily::Celtic => 7,
            FractalFamily::PerpendicularCeltic => 8,
            FractalFamily::Buffalo => 9,
            FractalFamily::PerpendicularBuffalo => 10,
            FractalFamily::Lambda => 11,
            FractalFamily::Phoenix => 12,
            FractalFamily::Manowar => 13,
            FractalFamily::Spider => 14,
            FractalFamily::MagnetOne => 15,
            FractalFamily::MagnetTwo => 16,
            FractalFamily::Exponential => 17,
            FractalFamily::Sine => 18,
            FractalFamily::Cosine => 19,
            FractalFamily::Collatz => 20,
            FractalFamily::Lyapunov => 21,
            FractalFamily::Nova => 22,
            FractalFamily::BarnsleyOne => 23,
            FractalFamily::BarnsleyTwo => 24,
            FractalFamily::Mandelbox => 25,
        }
    }

    /// Length and last character of the document identifier.
    pub open spec fn spec_id_key(self) -> (nat, char) {
        match self {
            FractalFamily::Quadratic => (9, 'c'),
            FractalFamily::NewtonCubic => (12, 'c'),
            FractalFamily::Multibrot => (9, 't'),
            FractalFamily::Tricorn => (7, 'n'),
            FractalFamily::PerpendicularMandelbrot => (24, 't'),
            FractalFamily::BurningShip => (12, 'p'),
            FractalFamily::PerpendicularBurningShip => (26, 'p'),
            FractalFamily::Celtic => (6, 'c'),
            FractalFamily::PerpendicularCeltic => (20, 'c'),
            FractalFamily::Buffalo => (7, 'o'),
            FractalFamily::PerpendicularBuffalo => (21, 'o'),
            FractalFamily::Lambda => (6, 'a'),
            FractalFamily::Phoenix => (7, 'x'),
            FractalFamily::Manowar => (7, 'r'),
            FractalFamily::Spider => (6, 'r'),
            FractalFamily::MagnetOne => (8, '1'),
            FractalFamily::MagnetTwo => (8, '2'),
            FractalFamily::Exponential => (11, 'l'),
            FractalFamily::Sine => (4, 'e'),
            FractalFamily::Cosine => (6, 'e'),
            FractalFamily::Collatz => (7, 'z'),
            FractalFamily::Lyapunov => (8, 'v'),
            FractalFamily::Nova => (4, 'a'),
            FractalFamily::BarnsleyOne => (10, '1'),
            FractalFamily::BarnsleyTwo => (10, '2'),
            FractalFamily::Mandelbox => (9, 'x'),
        }
    }

    /// Value of `dynamics_lo.z` selecting the shader branch: the family's position in [`FractalFamily::ALL`].
    pub fn shader_flag(self) -> (flag: u32)
        ensures
            flag as nat == self.spec_index(),
    {
        match self {
            FractalFamily::Quadratic => 0,
            FractalFamily::NewtonCubic => 1,
            FractalFamily::Multibrot => 2,
            FractalFamily::Tricorn => 3,
            FractalFamily::PerpendicularMandelbrot => 4,
            FractalFamily::BurningShip => 5,
            FractalFamily::PerpendicularBurningShip => 6,
            FractalFamily::Celtic => 7,
            FractalFamily::PerpendicularCeltic => 8,
            FractalFamily::Buffalo => 9,
            FractalFamily::PerpendicularBuffalo => 10,
            FractalFamily::Lambda => 11,
            FractalFamily::Phoenix => 12,
            FractalFamily::Manowar => 13,
            FractalFamily::Spider => 14,
            FractalFamily::MagnetOne => 15,
            FractalFamily::MagnetTwo => 16,
            FractalFamily::Exponential => 17,
            FractalFamily::Sine => 18,
            FractalFamily::Cosine => 19,
            FractalFamily::Collatz => 20,
            FractalFamily::Lyapunov => 21,
            FractalFamily::Nova => 22,
            FractalFamily::BarnsleyOne => 23,
            FractalFamily::BarnsleyTwo => 24,
            FractalFamily::Mandelbox => 25,
        }
    }

    /// The identifier written to experiment documents.
    pub open spec fn spec_document_id(self) -> Seq<char> {
        match self {
            FractalFamily::Quadratic => "quadratic"@,
            FractalFamily::NewtonCubic => "newton-cubic"@,
            FractalFamily::Multibrot => "multibrot"@,
            FractalFamily::Tricorn => "tricorn"@,
            FractalFamily::PerpendicularMandelbrot => "perpendicular-mandelbrot"@,
            FractalFamily::BurningShip => "burning-ship"@,
            FractalFamily::PerpendicularBurningShip => "perpendicular-burning-ship"@,
            FractalFamily::Celtic => "celtic"@,
            FractalFamily::PerpendicularCeltic => "perpendicular-celtic"@,
            FractalFamily::Buffalo => "buffalo"@,
            FractalFamily::PerpendicularBuffalo => "perpendicular-buffalo"@,
            FractalFamily::Lambda => "lambda"@,
            FractalFamily::Phoenix => "phoenix"@,
            FractalFamily::Manowar => "manowar"@,
            FractalFamily::Spider => "spider"@,
            FractalFamily::MagnetOne => "magnet-1"@,
            FractalFamily::MagnetTwo => "magnet-2"@,
            FractalFamily::Exponential => "exponential"@,
            FractalFamily::Sine => "sine"@,
            FractalFamily::Cosine => "cosine"@,
            FractalFamily::Collatz => "collatz"@,
            FractalFamily::Lyapunov => "lyapunov"@,
            FractalFamily::Nova => "nova"@,
            FractalFamily::BarnsleyOne => "barnsley-1"@,
            FractalFamily::BarnsleyTwo => "barnsley-2"@,
            FractalFamily::Mandelbox => "mandelbox"@,
        }
    }

    /// Stable identifier written to experiment documents.
    pub fn document_id(self) -> (text: &'static str)
        ensures
            text@ == self.spec_document_id(),
    {
        match self {
            FractalFamily::Quadratic => "quadratic",
            FractalFamily::NewtonCubic => "newton-cubic",
            FractalFamily::Multibrot => "multibrot",
            FractalFamily::Tricorn => "tricorn",
            FractalFamily::PerpendicularMandelbrot => "perpendicular-mandelbrot",
            FractalFamily::BurningShip => "burning-ship",
            FractalFamily::PerpendicularBurningShip => "perpendicular-burning-ship",
            FractalFamily::Celtic => "celtic",
            FractalFamily::PerpendicularCeltic => "perpendicular-celtic",
            FractalFamily::Buffalo => "buffalo",
            FractalFamily::PerpendicularBuffalo => "perpendicular-buffalo",
            FractalFamily::Lambda => "lambda",
            FractalFamily::Phoenix => "phoenix",
            FractalFamily::Manowar => "manowar",
            FractalFamily::Spider => "spider",
            FractalFamily::MagnetOne => "magnet-1",
            FractalFamily::MagnetTwo => "magnet-2",
            FractalFamily::Exponential => "exponential",
            FractalFamily::Sine => "sine",
            FractalFamily::Cosine => "cosine",
            FractalFamily::Collatz => "collatz",
            FractalFamily::Lyapunov => "lyapunov",
            FractalFamily::Nova => "nova",
            FractalFamily::BarnsleyOne => "barnsley-1",
            FractalFamily::BarnsleyTwo => "barnsley-2",
            FractalFamily::Mandelbox => "mandelbox",
        }
    }

    /// Display name of the instrument.
    pub open spec fn spec_name(self) -> Seq<char> {
        match self {
            FractalFamily::Quadratic => "Quadratic"@,
            FractalFamily::NewtonCubic => "Newton cubic"@,
            FractalFamily::Multibrot => "Multibrot"@,
            FractalFamily::Tricorn => "Tricorn"@,
            FractalFamily::PerpendicularMandelbrot => "Perpendicular Mandelbrot"@,
            FractalFamily::BurningShip => "Burning Ship"@,
            FractalFamily::PerpendicularBurningShip => "Perpendicular Burning Ship"@,
            FractalFamily::Celtic => "Celtic"@,
            FractalFamily::PerpendicularCeltic => "Perpendicular Celtic"@,
            FractalFamily::Buffalo => "Buffalo"@,
            FractalFamily::PerpendicularBuffalo => "Perpendicular Buffalo"@,
            FractalFamily::Lambda => "Lambda (logistic)"@,
            FractalFamily::Phoenix => "Phoenix"@,
            FractalFamily::Manowar => "Manowar"@,
            FractalFamily::Spider => "Spider"@,
            FractalFamily::MagnetOne => "Magnet I"@,
            FractalFamily::MagnetTwo => "Magnet II"@,
            FractalFamily::Exponential => "Exponential"@,
            FractalFamily::Sine => "Sine"@,
            FractalFamily::Cosine => "Cosine"@,
            FractalFamily::Collatz => "Collatz"@,
            FractalFamily::Lyapunov => "Lyapunov (Markus)"@,
            FractalFamily::Nova => "Nova"@,
            FractalFamily::BarnsleyOne => "Barnsley 1"@,
            FractalFamily::BarnsleyTwo => "Barnsley 2"@,
            FractalFamily::Mandelbox => "Mandelbox (2D)"@,
        }
    }

    /// Display name of the instrument.
    pub fn name(self) -> (text: &'static str)
        ensures
            text@ == self.spec_name(),
    {
        match self {
            FractalFamily::Quadratic => "Quadratic",
            FractalFamily::NewtonCubic => "Newton cubic",
            FractalFamily::Multibrot => "Multibrot",
            FractalFamily::Tricorn => "Tricorn",
            FractalFamily::PerpendicularMandelbrot => "Perpendicular Mandelbrot",
            FractalFamily::BurningShip => "Burning Ship",
            FractalFamily::PerpendicularBurningShip => "Perpendicular Burning Ship",
            FractalFamily::Celtic => "Celtic",
            FractalFamily::PerpendicularCeltic => "Perpendicular Celtic",
            FractalFamily::Buffalo => "Buffalo",
            FractalFamily::PerpendicularBuffalo => "Perpendicular Buffalo",
            FractalFamily::Lambda => "Lambda (logistic)",
            FractalFamily::Phoenix => "Phoenix",
            FractalFamily::Manowar => "Manowar",
            FractalFamily::Spider => "Spider",
            FractalFamily::MagnetOne => "Magnet I",
            FractalFamily::MagnetTwo => "Magnet II",
            FractalFamily::Exponential => "Exponential",
            FractalFamily::Sine => "Sine",
            FractalFamily::Cosine => "Cosine",
            FractalFamily::Collatz => "Collatz",
            FractalFamily::Lyapunov => "Lyapunov (Markus)",
            FractalFamily::Nova => "Nova",
            FractalFamily::BarnsleyOne => "Barnsley 1",
            FractalFamily::BarnsleyTwo => "Barnsley 2",
            FractalFamily::Mandelbox => "Mandelbox (2D)",
        }
    }

    /// Catalogue group the instrument is listed under.
    pub open spec fn spec_group(self) -> Seq<char> {
        match self {
            FractalFamily::Quadratic => "Polynomial"@,
            FractalFamily::NewtonCubic => "Root finding"@,
            FractalFamily::Multibrot => "Polynomial"@,
            FractalFamily::Tricorn => "Absolute-value variants"@,
            FractalFamily::PerpendicularMandelbrot => "Absolute-value variants"@,
            FractalFamily::BurningShip => "Absolute-value variants"@,
            FractalFamily::PerpendicularBurningShip => "Absolute-value variants"@,
            FractalFamily::Celtic => "Absolute-value variants"@,
            FractalFamily::PerpendicularCeltic => "Absolute-value variants"@,
            FractalFamily::Buffalo => "Absolute-value variants"@,
            FractalFamily::PerpendicularBuffalo => "Absolute-value variants"@,
            FractalFamily::Lambda => "Polynomial"@,
            FractalFamily::Phoenix => "Memory and drifting maps"@,
            FractalFamily::Manowar => "Memory and drifting maps"@,
            FractalFamily::Spider => "Memory and drifting maps"@,
            FractalFamily::MagnetOne => "Rational (magnet)"@,
            FractalFamily::MagnetTwo => "Rational (magnet)"@,
            FractalFamily::Exponential => "Transcendental"@,
            FractalFamily::Sine => "Transcendental"@,
            FractalFamily::Cosine => "Transcendental"@,
            FractalFamily::Collatz => "Transcendental"@,
            FractalFamily::Lyapunov => "Real forced maps"@,
            FractalFamily::Nova => "Root finding"@,
            FractalFamily::BarnsleyOne => "Piecewise"@,
            FractalFamily::BarnsleyTwo => "Piecewise"@,
            FractalFamily::Mandelbox => "Folding"@,
        }
    }

    /// Catalogue group the instrument is listed under.
    pub fn group(self) -> (text: &'static str)
        ensures
            text@ == self.spec_group(),
    {
        match self {
            FractalFamily::Quadratic => "Polynomial",
            FractalFamily::NewtonCubic => "Root finding",
            FractalFamily::Multibrot => "Polynomial",
            FractalFamily::Tricorn => "Absolute-value variants",
            FractalFamily::PerpendicularMandelbrot => "Absolute-value variants",
            FractalFamily::BurningShip => "Absolute-value variants",
            FractalFamily::PerpendicularBurningShip => "Absolute-value variants",
            FractalFamily::Celtic => "Absolute-value variants",
            FractalFamily::PerpendicularCeltic => "Absolute-value variants",
            FractalFamily::Buffalo => "Absolute-value variants",
            FractalFamily::PerpendicularBuffalo => "Absolute-value variants",
            FractalFamily::Lambda => "Polynomial",
            FractalFamily::Phoenix => "Memory and drifting maps",
            FractalFamily::Manowar => "Memory and drifting maps",
            FractalFamily::Spider => "Memory and drifting maps",
            FractalFamily::MagnetOne => "Rational (magnet)",
            FractalFamily::MagnetTwo => "Rational (magnet)",
            FractalFamily::Exponential => "Transcendental",
            FractalFamily::Sine => "Transcendental",
            FractalFamily::Cosine => "Transcendental",
            FractalFamily::Collatz => "Transcendental",
            FractalFamily::Lyapunov => "Real forced maps",
            FractalFamily::Nova => "Root finding",
            FractalFamily::BarnsleyOne => "Piecewise",
            FractalFamily::BarnsleyTwo => "Piecewise",
            FractalFamily::Mandelbox => "Folding",
        }
    }

    /// Recurrence shown beside the instrument.
    pub open spec fn spec_formula(self) -> Seq<char> {
        match self {
            FractalFamily::Quadratic => "f₍c₎(z) = z² + c"@,
            FractalFamily::NewtonCubic => "N(z) = z - (z³ - 1) / (3z²)"@,
            FractalFamily::Multibrot => "z ← zᵈ + c"@,
            FractalFamily::Tricorn => "z ← z̄² + c"@,
            FractalFamily::PerpendicularMandelbrot => "z ← (|x| - iy)² + c"@,
            FractalFamily::BurningShip => "z ← (|x| + i|y|)² + c"@,
            FractalFamily::PerpendicularBurningShip => "z ← (x - i|y|)² + c"@,
            FractalFamily::Celtic => "z ← |Re z²| + i Im z² + c"@,
            FractalFamily::PerpendicularCeltic => "z ← |x² - y²| - 2i|x|y + c"@,
            FractalFamily::Buffalo => "z ← |Re z²| + i|Im z²| + c"@,
            FractalFamily::PerpendicularBuffalo => "z ← |x² - y²| - 2ix|y| + c"@,
            FractalFamily::Lambda => "z ← λ z (1 - z)"@,
            FractalFamily::Phoenix => "zₙ₊₁ = zₙ² + Re c + (Im c) zₙ₋₁"@,
            FractalFamily::Manowar => "zₙ₊₁ = zₙ² + zₙ₋₁ + c"@,
            FractalFamily::Spider => "z ← z² + c,  c ← c/2 + z"@,
            FractalFamily::MagnetOne => "z ← ((z² + c - 1) / (2z + c - 2))²"@,
            FractalFamily::MagnetTwo => "z ← ((z³ + 3(c-1)z + (c-1)(c-2)) / (3z² + 3(c-2)z + (c-1)(c-2) + 1))²"@,
            FractalFamily::Exponential => "z ← c eᶻ"@,
            FractalFamily::Sine => "z ← c sin z"@,
            FractalFamily::Cosine => "z ← c cos z"@,
            FractalFamily::Collatz => "z ← ¼(2 + 7z - (2 + 5z) cos πz)"@,
            FractalFamily::Lyapunov => "xₙ₊₁ = rₙ xₙ (1 - xₙ),  rₙ ∈ {a, b}"@,
            FractalFamily::Nova => "z ← z - R (zᵖ - 1) / (p zᵖ⁻¹) + c"@,
            FractalFamily::BarnsleyOne => "z ← (z ∓ 1) c  by sign of Re z"@,
            FractalFamily::BarnsleyTwo => "z ← (z ∓ 1) c  by sign of Im(zc)"@,
            FractalFamily::Mandelbox => "v ← s · ballfold(boxfold(v)) + c"@,
        }
    }

    /// Recurrence shown beside the instrument.
    pub fn formula(self) -> (text: &'static str)
        ensures
            text@ == self.spec_formula(),
    {
        match self {
            FractalFamily::Quadratic => "f₍c₎(z) = z² + c",
            FractalFamily::NewtonCubic => "N(z) = z - (z³ - 1) / (3z²)",
            FractalFamily::Multibrot => "z ← zᵈ + c",
            FractalFamily::Tricorn => "z ← z̄² + c",
            FractalFamily::PerpendicularMandelbrot => "z ← (|x| - iy)² + c",
            FractalFamily::BurningShip => "z ← (|x| + i|y|)² + c",
            FractalFamily::PerpendicularBurningShip => "z ← (x - i|y|)² + c",
            FractalFamily::Celtic => "z ← |Re z²| + i Im z² + c",
            FractalFamily::PerpendicularCeltic => "z ← |x² - y²| - 2i|x|y + c",
            FractalFamily::Buffalo => "z ← |Re z²| + i|Im z²| + c",
            FractalFamily::PerpendicularBuffalo => "z ← |x² - y²| - 2ix|y| + c",
            FractalFamily::Lambda => "z ← λ z (1 - z)",
            FractalFamily::Phoenix => "zₙ₊₁ = zₙ² + Re c + (Im c) zₙ₋₁",
            FractalFamily::Manowar => "zₙ₊₁ = zₙ² + zₙ₋₁ + c",
            FractalFamily::Spider => "z ← z² + c,  c ← c/2 + z",
            FractalFamily::MagnetOne => "z ← ((z² + c - 1) / (2z + c - 2))²",
            FractalFamily::MagnetTwo => "z ← ((z³ + 3(c-1)z + (c-1)(c-2)) / (3z² + 3(c-2)z + (c-1)(c-2) + 1))²",
            FractalFamily::Exponential => "z ← c eᶻ",
            FractalFamily::Sine => "z ← c sin z",
            FractalFamily::Cosine => "z ← c cos z",
            FractalFamily::Collatz => "z ← ¼(2 + 7z - (2 + 5z) cos πz)",
            FractalFamily::Lyapunov => "xₙ₊₁ = rₙ xₙ (1 - xₙ),  rₙ ∈ {a, b}",
            FractalFamily::Nova => "z ← z - R (zᵖ - 1) / (p zᵖ⁻¹) + c",
            FractalFamily::BarnsleyOne => "z ← (z ∓ 1) c  by sign of Re z",
            FractalFamily::BarnsleyTwo => "z ← (z ∓ 1) c  by sign of Im(zc)",
            FractalFamily::Mandelbox => "v ← s · ballfold(boxfold(v)) + c",
        }
    }

    /// One-line description of the instrument.
    pub open spec fn spec_description(self) -> Seq<char> {
        match self {
            FractalFamily::Quadratic => "Select c in the parameter plane to inspect its dynamical plane."@,
            FractalFamily::NewtonCubic => "Compare root basins with a linked convergence-detail view."@,
            FractalFamily::Multibrot => "Degree-d generalisation of the Mandelbrot set; critical orbit starts at 0."@,
            FractalFamily::Tricorn => "Anti-holomorphic conjugate square; the Mandelbar has three-fold symmetry."@,
            FractalFamily::PerpendicularMandelbrot => "Absolute value on Re z only; mirror conventions follow Kalles Fraktaler."@,
            FractalFamily::BurningShip => "Componentwise absolute value before squaring."@,
            FractalFamily::PerpendicularBurningShip => "Absolute value on Im z only."@,
            FractalFamily::Celtic => "Absolute value applied to the real part of z²."@,
            FractalFamily::PerpendicularCeltic => "Celtic real part with the perpendicular imaginary part."@,
            FractalFamily::Buffalo => "Componentwise absolute value applied to z²."@,
            FractalFamily::PerpendicularBuffalo => "Celtic real part with the perpendicular burning-ship imaginary part."@,
            FractalFamily::Lambda => "Logistic map in the complex λ plane; critical orbit starts at ½."@,
            FractalFamily::Phoenix => "Two-step memory map; the parameter plane is (p, q) = (Re c, Im c)."@,
            FractalFamily::Manowar => "Two-step memory map started from z₀ = z₋₁ = c."@,
            FractalFamily::Spider => "The parameter drifts with the orbit."@,
            FractalFamily::MagnetOne => "Orbits escape or converge to the superattracting point z = 1."@,
            FractalFamily::MagnetTwo => "Higher-order magnet renormalisation map."@,
            FractalFamily::Exponential => "Orbit of the singular value 0; escape when Re z > 50. f32 only."@,
            FractalFamily::Sine => "Orbit of the critical point π/2; escape when |Im z| > 50. f32 only."@,
            FractalFamily::Cosine => "Orbit of the critical point 0; escape when |Im z| > 50. f32 only."@,
            FractalFamily::Collatz => "Complex interpolation of the Collatz map on the same plane in both panes. f32 only."@,
            FractalFamily::Lyapunov => "Lyapunov exponent of the forced logistic map over (a, b). f32 only."@,
            FractalFamily::Nova => "Relaxed Newton iteration with an additive parameter; orbits converge or escape."@,
            FractalFamily::BarnsleyOne => "Piecewise-linear map switching on the sign of Re z."@,
            FractalFamily::BarnsleyTwo => "Piecewise-linear map switching on the sign of Im(z·c)."@,
            FractalFamily::Mandelbox => "Box fold, ball fold and scale in the plane; escape radius is 4 × bailout."@,
        }
    }

    /// One-line description of the instrument.
    pub fn description(self) -> (text: &'static str)
        ensures
            text@ == self.spec_description(),
    {
        match self {
            FractalFamily::Quadratic => "Select c in the parameter plane to inspect its dynamical plane.",
            FractalFamily::NewtonCubic => "Compare root basins with a linked convergence-detail view.",
            FractalFamily::Multibrot => "Degree-d generalisation of the Mandelbrot set; critical orbit starts at 0.",
            FractalFamily::Tricorn => "Anti-holomorphic conjugate square; the Mandelbar has three-fold symmetry.",
            FractalFamily::PerpendicularMandelbrot => "Absolute value on Re z only; mirror conventions follow Kalles Fraktaler.",
            FractalFamily::BurningShip => "Componentwise absolute value before squaring.",
            FractalFamily::PerpendicularBurningShip => "Absolute value on Im z only.",
            FractalFamily::Celtic => "Absolute value applied to the real part of z².",
            FractalFamily::PerpendicularCeltic => "Celtic real part with the perpendicular imaginary part.",
            FractalFamily::Buffalo => "Componentwise absolute value applied to z².",
            FractalFamily::PerpendicularBuffalo => "Celtic real part with the perpendicular burning-ship imaginary part.",
            FractalFamily::Lambda => "Logistic map in the complex λ plane; critical orbit starts at ½.",
            FractalFamily::Phoenix => "Two-step memory map; the parameter plane is (p, q) = (Re c, Im c).",
            FractalFamily::Manowar => "Two-step memory map started from z₀ = z₋₁ = c.",
            FractalFamily::Spider => "The parameter drifts with the orbit.",
            FractalFamily::MagnetOne => "Orbits escape or converge to the superattracting point z = 1.",
            FractalFamily::MagnetTwo => "Higher-order magnet renormalisation map.",
            FractalFamily::Exponential => "Orbit of the singular value 0; escape when Re z > 50. f32 only.",
            FractalFamily::Sine => "Orbit of the critical point π/2; escape when |Im z| > 50. f32 only.",
            FractalFamily::Cosine => "Orbit of the critical point 0; escape when |Im z| > 50. f32 only.",
            FractalFamily::Collatz => "Complex interpolation of the Collatz map on the same plane in both panes. f32 only.",
            FractalFamily::Lyapunov => "Lyapunov exponent of the forced logistic map over (a, b). f32 only.",
            FractalFamily::Nova => "Relaxed Newton iteration with an additive parameter; orbits converge or escape.",
            FractalFamily::BarnsleyOne => "Piecewise-linear map switching on the sign of Re z.",
            FractalFamily::BarnsleyTwo => "Piecewise-linear map switching on the sign of Im(z·c).",
            FractalFamily::Mandelbox => "Box fold, ball fold and scale in the plane; escape radius is 4 × bailout.",
        }
    }

    /// Label for the selected value in the control panel.
    pub open spec fn spec_parameter_symbol(self) -> Seq<char> {
        match self {
            FractalFamily::Quadratic => "c"@,
            FractalFamily::NewtonCubic => "z₀"@,
            FractalFamily::Multibrot => "c"@,
            FractalFamily::Tricorn => "c"@,
            FractalFamily::PerpendicularMandelbrot => "c"@,
            FractalFamily::BurningShip => "c"@,
            FractalFamily::PerpendicularBurningShip => "c"@,
            FractalFamily::Celtic => "c"@,
            FractalFamily::PerpendicularCeltic => "c"@,
            FractalFamily::Buffalo => "c"@,
            FractalFamily::PerpendicularBuffalo => "c"@,
            FractalFamily::Lambda => "λ"@,
            FractalFamily::Phoenix => "c = p + iq"@,
            FractalFamily::Manowar => "c"@,
            FractalFamily::Spider => "c"@,
            FractalFamily::MagnetOne => "c"@,
            FractalFamily::MagnetTwo => "c"@,
            FractalFamily::Exponential => "c"@,
            FractalFamily::Sine => "c"@,
            FractalFamily::Cosine => "c"@,
            FractalFamily::Collatz => "z₀"@,
            FractalFamily::Lyapunov => "(a, b)"@,
            FractalFamily::Nova => "c"@,
            FractalFamily::BarnsleyOne => "c"@,
            FractalFamily::BarnsleyTwo => "c"@,
            FractalFamily::Mandelbox => "c"@,
        }
    }

    /// Label for the selected value in the control panel.
    pub fn parameter_symbol(self) -> (text: &'static str)
        ensures
            text@ == self.spec_parameter_symbol(),
    {
        match self {
            FractalFamily::Quadratic => "c",
            FractalFamily::NewtonCubic => "z₀",
            FractalFamily::Multibrot => "c",
            FractalFamily::Tricorn => "c",
            FractalFamily::PerpendicularMandelbrot => "c",
            FractalFamily::BurningShip => "c",
            FractalFamily::PerpendicularBurningShip => "c",
            FractalFamily::Celtic => "c",
            FractalFamily::PerpendicularCeltic => "c",
            FractalFamily::Buffalo => "c",
            FractalFamily::PerpendicularBuffalo => "c",
            FractalFamily::Lambda => "λ",
            FractalFamily::Phoenix => "c = p + iq",
            FractalFamily::Manowar => "c",
            FractalFamily::Spider => "c",
            FractalFamily::MagnetOne => "c",
            FractalFamily::MagnetTwo => "c",
            FractalFamily::Exponential => "c",
            FractalFamily::Sine => "c",
            FractalFamily::Cosine => "c",
            FractalFamily::Collatz => "z₀",
            FractalFamily::Lyapunov => "(a, b)",
            FractalFamily::Nova => "c",
            FractalFamily::BarnsleyOne => "c",
            FractalFamily::BarnsleyTwo => "c",
            FractalFamily::Mandelbox => "c",
        }
    }

    /// Looks a family up by its document identifier.
    pub fn from_document_id(value: &str) -> (found: Option<FractalFamily>)
        ensures
            found == spec_family_of_document_id(value@),
    {
        let wanted = chars_of(value);
        let mut position: usize = 0;
        while position < 26
            invariant
                position <= 26,
                wanted@ == value@,
                forall|j: int| 0 <= j < position ==> (#[trigger] Self::ALL[j]).spec_document_id() != value@,
            decreases 26 - position,
        {
            let family = Self::ALL[position];
            let id = chars_of(family.document_id());
            if chars_equal(&id, &wanted) {
                proof {
                    lemma_document_id_injective_at(family, value@);
                }
                return Some(family);
            }
            position += 1;
        }
        proof {
            assert forall|family: FractalFamily| family.spec_document_id() != value@ by {
                lemma_all_lists_every_family(family);
            }
        }
        None
    }

    pub open spec fn spec_linkage(self) -> Linkage {
        match self {
            FractalFamily::NewtonCubic | FractalFamily::Collatz | FractalFamily::Lyapunov => Linkage::OverviewDetail,
            _ => Linkage::ParameterDynamical,
        }
    }

    pub fn linkage(self) -> (linkage: Linkage)
        ensures
            linkage == self.spec_linkage(),
    {
        match self {
            Self::NewtonCubic | Self::Collatz | Self::Lyapunov => Linkage::OverviewDetail,
            _ => Linkage::ParameterDynamical,
        }
    }

    pub fn is_quadratic(self) -> (quadratic: bool)
        ensures
            quadratic == (self == FractalFamily::Quadratic),
    {
        matches!(self, Self::Quadratic)
    }

    pub fn is_newton(self) -> (newton: bool)
        ensures
            newton == (self == FractalFamily::NewtonCubic),
    {
        matches!(self, Self::NewtonCubic)
    }

    /// Everything except the Newton instrument is coloured by escape or
    /// convergence time (the Lyapunov plane by its exponent).
    pub fn is_escape_time(self) -> (escape_time: bool)
        ensures
            escape_time == (self != FractalFamily::NewtonCubic),
    {
        !matches!(self, Self::NewtonCubic)
    }

    /// Families without an exact perturbation recurrence: the transcendental
    /// maps and the Lyapunov plane, which stay in `f32`.
    pub open spec fn spec_f32_only(self) -> bool {
        ||| self == FractalFamily::Exponential
        ||| self == FractalFamily::Sine
        ||| self == FractalFamily::Cosine
        ||| self == FractalFamily::Collatz
        ||| self == FractalFamily::Lyapunov
    }

    /// Families with an exact perturbation recurrence and an
    /// arbitrary-precision reference orbit, so they can continue past the
    /// double-single handoff into deep zoom.
    pub fn supports_deep_zoom(self) -> (deep: bool)
        ensures
            deep == !self.spec_f32_only(),
    {
        !matches!(self, Self::Exponential | Self::Sine | Self::Cosine | Self::Collatz | Self::Lyapunov)
    }

    /// Families whose orbits are iterated in compensated double-single
    /// arithmetic when the f32 coordinate grid becomes too coarse.
    pub fn supports_double_single(self) -> (double_single: bool)
        ensures
            double_single == !self.spec_f32_only(),
    {
        !matches!(self, Self::Exponential | Self::Sine | Self::Cosine | Self::Collatz | Self::Lyapunov)
    }

    /// Families whose orbits end by converging to a root or a fixed point,
    /// so the argument of the limit separates their basins.
    pub fn converges(self) -> (converging: bool)
        ensures
            converging == (self == FractalFamily::NewtonCubic || self == FractalFamily::Nova
                || self == FractalFamily::MagnetOne || self == FractalFamily::MagnetTwo),
    {
        matches!(self, Self::NewtonCubic | Self::Nova | Self::MagnetOne | Self::MagnetTwo)
    }

    /// Families whose derivative the shader tracks, so the distance-estimate
    /// colouring is exact.
    pub fn has_distance_estimate(self) -> (exact: bool)
        ensures
            exact == (self == FractalFamily::Quadratic || self == FractalFamily::Multibrot
                || self == FractalFamily::Lambda),
    {
        matches!(self, Self::Quadratic | Self::Multibrot | Self::Lambda)
    }

    pub open spec fn spec_uses_bailout(self) -> bool {
        !(self == FractalFamily::NewtonCubic || self.spec_f32_only())
    }

    /// Whether the escape radius applies to the family.
    pub fn uses_bailout(self) -> (uses: bool)
        ensures
            uses == self.spec_uses_bailout(),
    {
        !matches!(
            self,
            Self::NewtonCubic | Self::Exponential | Self::Sine | Self::Cosine | Self::Collatz | Self::Lyapunov
        )
    }

    pub open spec fn spec_uses_degree(self) -> bool {
        self == FractalFamily::Multibrot || self == FractalFamily::Nova
    }

    pub fn uses_degree(self) -> (uses: bool)
        ensures
            uses == self.spec_uses_degree(),
    {
        matches!(self, Self::Multibrot | Self::Nova)
    }

    pub open spec fn spec_uses_relaxation(self) -> bool {
        self == FractalFamily::Nova
    }

    pub fn uses_relaxation(self) -> (uses: bool)
        ensures
            uses == self.spec_uses_relaxation(),
    {
        matches!(self, Self::Nova)
    }

    pub open spec fn spec_uses_lyapunov_sequence(self) -> bool {
        self == FractalFamily::Lyapunov
    }

    pub fn uses_lyapunov_sequence(self) -> (uses: bool)
        ensures
            uses == self.spec_uses_lyapunov_sequence(),
    {
        matches!(self, Self::Lyapunov)
    }

    pub open spec fn spec_uses_mandelbox(self) -> bool {
        self == FractalFamily::Mandelbox
    }

    pub fn uses_mandelbox(self) -> (uses: bool)
        ensures
            uses == self.spec_uses_mandelbox(),
    {
        matches!(self, Self::Mandelbox)
    }

    pub open spec fn spec_has_family_parameters(self) -> bool {
        self.spec_uses_degree() || self.spec_uses_lyapunov_sequence() || self.spec_uses_mandelbox()
    }

    /// Whether the family has settings of its own beyond the shared ones.
    pub fn has_family_parameters(self) -> (has: bool)
        ensures
            has == self.spec_has_family_parameters(),
    {
        self.uses_degree() || self.uses_lyapunov_sequence() || self.uses_mandelbox()
    }

    pub open spec fn spec_min_iterations(self) -> u32 {
        if self == FractalFamily::NewtonCubic { 8 } else { 32 }
    }

    pub fn min_iterations(self) -> (minimum: u32)
        ensures
            minimum == self.spec_min_iterations(),
    {
        if self.is_newton() { 8 } else { 32 }
    }

    pub open spec fn spec_max_iterations(self) -> u32 {
        if self == FractalFamily::NewtonCubic { MAX_NEWTON_ITERATIONS } else { MAX_ITERATIONS }
    }

    pub fn max_iterations(self) -> (maximum: u32)
        ensures
            maximum == self.spec_max_iterations(),
    {
        if self.is_newton() {
            MAX_NEWTON_ITERATIONS
        } else {
            MAX_ITERATIONS
        }
    }

    /// Titles of the two panes: the pane heading and its subtitle.
    pub open spec fn spec_pane_titles(self, pane: usize) -> (Seq<char>, Seq<char>) {
        let first = pane == 0;
        match self {
            FractalFamily::Quadratic => if first {
                ("PARAMETER PLANE"@, "c -> bounded critical orbit"@)
            } else {
                ("DYNAMICAL PLANE"@, "z -> z^2 + c"@)
            },
            FractalFamily::NewtonCubic => if first {
                ("ROOT BASINS"@, "z^3 - 1: attracting root"@)
            } else {
                ("CONVERGENCE DETAIL"@, "iterations and boundary sensitivity"@)
            },
            FractalFamily::Collatz => if first {
                ("COLLATZ PLANE"@, "escape time of the interpolated map"@)
            } else {
                ("COLLATZ DETAIL"@, "linked region around z0"@)
            },
            FractalFamily::Lyapunov => if first {
                ("LYAPUNOV PLANE"@, "(a, b): exponent of the forced map"@)
            } else {
                ("LYAPUNOV DETAIL"@, "linked region around (a, b)"@)
            },
            FractalFamily::Lambda => if first {
                ("PARAMETER PLANE"@, "lambda -> bounded critical orbit"@)
            } else {
                ("DYNAMICAL PLANE"@, "z -> lambda z (1 - z)"@)
            },
            FractalFamily::MagnetOne | FractalFamily::MagnetTwo => if first {
                ("PARAMETER PLANE"@, "c -> escape or convergence to 1"@)
            } else {
                ("DYNAMICAL PLANE"@, "escape / convergence time"@)
            },
            FractalFamily::Nova => if first {
                ("PARAMETER PLANE"@, "c -> convergence of z0 = 1"@)
            } else {
                ("DYNAMICAL PLANE"@, "convergence time and attracting root"@)
            },
            _ => if first {
                ("PARAMETER PLANE"@, "c -> bounded critical orbit"@)
            } else {
                ("DYNAMICAL PLANE"@, "escape time of z0"@)
            },
        }
    }

    /// Heading and subtitle of pane `pane` (0 is the left pane).
    pub fn pane_titles(self, pane: usize) -> (titles: (&'static str, &'static str))
        ensures
            titles.0@ == self.spec_pane_titles(pane).0,
            titles.1@ == self.spec_pane_titles(pane).1,
    {
        match (self, pane) {
            (Self::Quadratic, 0) => ("PARAMETER PLANE", "c -> bounded critical orbit"),
            (Self::Quadratic, _) => ("DYNAMICAL PLANE", "z -> z^2 + c"),
            (Self::NewtonCubic, 0) => ("ROOT BASINS", "z^3 - 1: attracting root"),
            (Self::NewtonCubic, _) => ("CONVERGENCE DETAIL", "iterations and boundary sensitivity"),
            (Self::Collatz, 0) => ("COLLATZ PLANE", "escape time of the interpolated map"),
            (Self::Collatz, _) => ("COLLATZ DETAIL", "linked region around z0"),
            (Self::Lyapunov, 0) => ("LYAPUNOV PLANE", "(a, b): exponent of the forced map"),
            (Self::Lyapunov, _) => ("LYAPUNOV DETAIL", "linked region around (a, b)"),
            (Self::Lambda, 0) => ("PARAMETER PLANE", "lambda -> bounded critical orbit"),
            (Self::Lambda, _) => ("DYNAMICAL PLANE", "z -> lambda z (1 - z)"),
            (Self::MagnetOne | Self::MagnetTwo, 0) => ("PARAMETER PLANE", "c -> escape or convergence to 1"),
            (Self::MagnetOne | Self::MagnetTwo, _) => ("DYNAMICAL PLANE", "escape / convergence time"),
            (Self::Nova, 0) => ("PARAMETER PLANE", "c -> convergence of z0 = 1"),
            (Self::Nova, _) => ("DYNAMICAL PLANE", "convergence time and attracting root"),
            (_, 0) => ("PARAMETER PLANE", "c -> bounded critical orbit"),
            (_, _) => ("DYNAMICAL PLANE", "escape time of z0"),
        }
    }
}

/// A value an orbit's state starts from: a constant, the pixel's point, or
/// the selected parameter.
#[derive(Clone, Copy, Debug, PartialEq, Eq, Structural)]
pub enum StartValue {
    Zero,
    /// One half.
    Half,
    One,
    /// Half of pi, on the real axis.
    HalfPi,
    /// The point of the pixel being iterated.
    Pixel,
    /// The parameter selected in the parameter plane.
    Parameter,
}

/// Where each part of an orbit's state (`z`, the previous `z`, and `c`)
/// starts for one pixel.
#[derive(Clone, Copy, Debug, PartialEq, Eq, Structural)]
pub struct OrbitStart {
    pub z: StartValue,
    pub z_prev: StartValue,
    pub c: StartValue,
}

/// Which test ends an orbit by escape.
#[derive(Clone, Copy, Debug, PartialEq, Eq, Structural)]
pub enum EscapeTest {
    /// `|z|` beyond the escape radius.
    Bailout,
    /// `|v|` beyond four times the escape radius.
    MandelboxBailout,
    /// `|z|` beyond the fixed Nova radius.
    NovaRadius,
    /// `Re z` beyond its limit.
    RealPart,
    /// `|Im z|` beyond its limit.
    ImaginaryPart,
    /// `|Im z|` or `|z|` beyond the Collatz limits.
    Collatz,
}

/// Which test ends an orbit by convergence.
#[derive(Clone, Copy, Debug, PartialEq, Eq, Structural)]
pub enum ConvergenceTest {
    Never,
    /// `z` close to the fixed point 1.
    NearOne,
    /// Successive points close together.
    SmallStep,
    /// `z³ − 1` small: `z` close to a cube root of unity.
    CubeRootOfUnity,
}

impl FractalFamily {
    pub open spec fn spec_orbit_start(self, dynamical: bool) -> OrbitStart {
        if dynamical {
            OrbitStart {
                z: StartValue::Pixel,
                z_prev: if self == FractalFamily::Manowar { StartValue::Pixel } else { StartValue::Zero },
                c: StartValue::Parameter,
            }
        } else {
            let (z, z_prev) = match self {
                FractalFamily::Lambda => (StartValue::Half, StartValue::Zero),
                FractalFamily::Manowar => (StartValue::Pixel, StartValue::Pixel),
                FractalFamily::Sine => (StartValue::HalfPi, StartValue::Zero),
                FractalFamily::Nova => (StartValue::One, StartValue::Zero),
                FractalFamily::BarnsleyOne | FractalFamily::BarnsleyTwo => (StartValue::Pixel, StartValue::Zero),
                _ => (StartValue::Zero, StartValue::Zero),
            };
            OrbitStart { z, z_prev, c: StartValue::Pixel }
        }
    }

    /// The starting state of a pixel's orbit: on the dynamical plane the
    /// pixel is `z` under the selected parameter; on the parameter plane the
    /// pixel is `c` and `z` starts at the family's distinguished point.
    pub fn orbit_start(self, dynamical: bool) -> (start: OrbitStart)
        ensures
            start == self.spec_orbit_start(dynamical),
    {
        if dynamical {
            return OrbitStart {
                z: StartValue::Pixel,
                z_prev: if matches!(self, Self::Manowar) { StartValue::Pixel } else { StartValue::Zero },
                c: StartValue::Parameter,
            };
        }
        let (z, z_prev) = match self {
            Self::Lambda => (StartValue::Half, StartValue::Zero),
            Self::Manowar => (StartValue::Pixel, StartValue::Pixel),
            Self::Sine => (StartValue::HalfPi, StartValue::Zero),
            Self::Nova => (StartValue::One, StartValue::Zero),
            Self::BarnsleyOne | Self::BarnsleyTwo => (StartValue::Pixel, StartValue::Zero),
            _ => (StartValue::Zero, StartValue::Zero),
        };
        OrbitStart { z, z_prev, c: StartValue::Pixel }
    }

    pub open spec fn spec_escape_test(self) -> EscapeTest {
        match self {
            FractalFamily::Mandelbox => EscapeTest::MandelboxBailout,
            FractalFamily::Nova => EscapeTest::NovaRadius,
            FractalFamily::Exponential => EscapeTest::RealPart,
            FractalFamily::Sine | FractalFamily::Cosine => EscapeTest::ImaginaryPart,
            FractalFamily::Collatz => EscapeTest::Collatz,
            _ => EscapeTest::Bailout,
        }
    }

    /// The test that ends an orbit by escape.
    pub fn escape_test(self) -> (test: EscapeTest)
        ensures
            test == self.spec_escape_test(),
    {
        match self {
            Self::Mandelbox => EscapeTest::MandelboxBailout,
            Self::Nova => EscapeTest::NovaRadius,
            Self::Exponential => EscapeTest::RealPart,
            Self::Sine | Self::Cosine => EscapeTest::ImaginaryPart,
            Self::Collatz => EscapeTest::Collatz,
            _ => EscapeTest::Bailout,
        }
    }

    pub open spec fn spec_convergence_test(self) -> ConvergenceTest {
        match self {
            FractalFamily::MagnetOne | FractalFamily::MagnetTwo => ConvergenceTest::NearOne,
            FractalFamily::Nova => ConvergenceTest::SmallStep,
            FractalFamily::NewtonCubic => ConvergenceTest::CubeRootOfUnity,
            _ => ConvergenceTest::Never,
        }
    }

    /// The test that ends an orbit by convergence.
    pub fn convergence_test(self) -> (test: ConvergenceTest)
        ensures
            test == self.spec_convergence_test(),
    {
        match self {
            Self::MagnetOne | Self::MagnetTwo => ConvergenceTest::NearOne,
            Self::Nova => ConvergenceTest::SmallStep,
            Self::NewtonCubic => ConvergenceTest::CubeRootOfUnity,
            _ => ConvergenceTest::Never,
        }
    }
}

/// The families whose basins are coloured by their limit are exactly those
/// whose orbits can end by converging.
pub proof fn convergent_families_have_a_convergence_test(family: FractalFamily)
    ensures
        (family == FractalFamily::NewtonCubic || family == FractalFamily::Nova
            || family == FractalFamily::MagnetOne || family == FractalFamily::MagnetTwo)
            <==> family.spec_convergence_test() != ConvergenceTest::Never,
{
}

/// Each escape test belongs to the families the catalogue names for it: the
/// sine and cosine families escape through the imaginary part, the
/// exponential family through the real part, Collatz, Nova and the Mandelbox
/// through limits of their own, and every other family through the escape
/// radius.
pub proof fn escape_tests_follow_the_catalogue(family: FractalFamily)
    ensures
        (family.spec_escape_test() == EscapeTest::ImaginaryPart) <==> (family == FractalFamily::Sine
            || family == FractalFamily::Cosine),
        (family.spec_escape_test() == EscapeTest::RealPart) <==> (family == FractalFamily::Exponential),
        (family.spec_escape_test() == EscapeTest::Collatz) <==> (family == FractalFamily::Collatz),
        (family.spec_escape_test() == EscapeTest::NovaRadius) <==> (family == FractalFamily::Nova),
        (family.spec_escape_test() == EscapeTest::MandelboxBailout) <==> (family == FractalFamily::Mandelbox),
        (family.spec_escape_test() == EscapeTest::Bailout) <==> !(family == FractalFamily::Sine
            || family == FractalFamily::Cosine || family == FractalFamily::Exponential
            || family == FractalFamily::Collatz || family == FractalFamily::Nova
            || family == FractalFamily::Mandelbox),
{
}

/// Each convergence test belongs to the families the catalogue names for
/// it: the Magnet maps converge near their fixed point 1, Nova by small
/// steps, the cubic Newton map near a cube root of unity, and no other
/// family converges.
pub proof fn convergence_tests_follow_the_catalogue(family: FractalFamily)
    ensures
        (family.spec_convergence_test() == ConvergenceTest::NearOne) <==> (family == FractalFamily::MagnetOne
            || family == FractalFamily::MagnetTwo),
        (family.spec_convergence_test() == ConvergenceTest::SmallStep) <==> (family == FractalFamily::Nova),
        (family.spec_convergence_test() == ConvergenceTest::CubeRootOfUnity) <==> (family == FractalFamily::NewtonCubic),
{
}

/// Where the orbits of the parameter plane start, as the catalogue describes
/// the instruments: Lambda from `z₀ = 1/2`, Sine from `π/2`, Nova from
/// `z₀ = 1`, Manowar with `z₀ = z_prev = c`, the Barnsley maps from the
/// pixel, every other family from 0 with `z_prev = 0`; and `c` is the pixel.
pub proof fn parameter_plane_orbits_start_at_each_instruments_point(family: FractalFamily)
    ensures
        family.spec_orbit_start(false).c == StartValue::Pixel,
        (family.spec_orbit_start(false).z == StartValue::Half) <==> (family == FractalFamily::Lambda),
        (family.spec_orbit_start(false).z == StartValue::HalfPi) <==> (family == FractalFamily::Sine),
        (family.spec_orbit_start(false).z == StartValue::One) <==> (family == FractalFamily::Nova),
        (family.spec_orbit_start(false).z == StartValue::Pixel) <==> (family == FractalFamily::Manowar
            || family == FractalFamily::BarnsleyOne || family == FractalFamily::BarnsleyTwo),
        (family.spec_orbit_start(false).z_prev == StartValue::Pixel) <==> (family == FractalFamily::Manowar),
        family != FractalFamily::Manowar ==> family.spec_orbit_start(false).z_prev == StartValue::Zero,
{
}

/// On the dynamical plane every family iterates the pixel under the
/// selected parameter; on the parameter plane the pixel is the parameter.
pub proof fn orbits_start_at_the_pixel_on_the_plane_it_varies(family: FractalFamily, dynamical: bool)
    ensures
        dynamical ==> family.spec_orbit_start(dynamical).z == StartValue::Pixel
            && family.spec_orbit_start(dynamical).c == StartValue::Parameter,
        !dynamical ==> family.spec_orbit_start(dynamical).c == StartValue::Pixel,
{
}

/// Whether `character` is a symbol of a Lyapunov forcing sequence.
pub open spec fn is_lyapunov_symbol(character: char) -> bool {
    character == 'A' || character == 'B' || character == 'a' || character == 'b'
}

/// Whether `character` selects the second parameter of the forced map.
pub open spec fn is_b_symbol(character: char) -> bool {
    character == 'B' || character == 'b'
}

/// A forcing sequence is valid when it holds 1 to 32 symbols, each `A` or `B`
/// in either case.
pub open spec fn spec_valid_lyapunov_sequence(sequence: Seq<char>) -> bool {
    &&& 1 <= sequence.len() <= MAX_LYAPUNOV_SEQUENCE
    &&& forall|i: int| 0 <= i < sequence.len() ==> is_lyapunov_symbol(#[trigger] sequence[i])
}

pub fn validate_lyapunov_sequence(sequence: &str) -> (result: Result<(), String>)
    ensures
        result is Ok <==> spec_valid_lyapunov_sequence(sequence@),
        result matches Err(message) ==> message@ == (if 1 <= sequence@.len() <= MAX_LYAPUNOV_SEQUENCE {
            "lyapunov_sequence may only contain the symbols A and B"@
        } else {
            "lyapunov_sequence must contain between 1 and 32 symbols"@
        }),
{
    let symbols = chars_of(sequence);
    if symbols.len() == 0 || symbols.len() > MAX_LYAPUNOV_SEQUENCE {
        return Err("lyapunov_sequence must contain between 1 and 32 symbols".to_owned());
    }
    let mut i: usize = 0;
    while i < symbols.len()
        invariant
            symbols@ == sequence@,
            1 <= symbols.len() <= MAX_LYAPUNOV_SEQUENCE,
            i <= symbols.len(),
            forall|j: int| 0 <= j < i ==> is_lyapunov_symbol(#[trigger] symbols@[j]),
        decreases symbols.len() - i,
    {
        let character = symbols[i];
        if !(character == 'A' || character == 'B' || character == 'a' || character == 'b') {
            return Err("lyapunov_sequence may only contain the symbols A and B".to_owned());
        }
        i += 1;
    }
    Ok(())
}

/// Whether bit `index` of `bits` is set.
pub open spec fn bit_set(bits: u32, index: u32) -> bool {
    (bits >> index) & 1u32 == 1u32
}

proof fn lemma_set_bit(bits: u32, index: u32, probe: u32)
    requires
        index < 32,
        probe < 32,
    ensures
        bit_set(bits | (1u32 << index), probe) == (probe == index || bit_set(bits, probe)),
{
    assert(((bits | (1u32 << index)) >> probe) & 1u32 == 1u32 <==> (probe == index || (bits >> probe) & 1u32 == 1u32))
        by (bit_vector)
        requires
            index < 32,
            probe < 32,
    ;
}

proof fn lemma_no_bits()
    ensures
        forall|probe: u32| probe < 32 ==> !bit_set(0u32, probe),
{
    assert forall|probe: u32| probe < 32 implies !bit_set(0u32, probe) by {
        assert((0u32 >> probe) & 1u32 != 1u32) by (bit_vector);
    }
}

/// Packs a Lyapunov sequence into a bit mask (bit `n` set means `B` at
/// position `n`) and its length. Only the first 32 symbols count; symbols
/// other than `B`/`b` count as `A`, and the length is at least 1.
pub fn lyapunov_bits(sequence: &str) -> (packed: (u32, u32))
    ensures
        forall|n: u32| n < 32 ==> (bit_set(packed.0, n) <==> (n < sequence@.len()
            && is_b_symbol(#[trigger] sequence@[n as int]))),
        packed.1 as int == if sequence@.len() == 0 {
            1
        } else if sequence@.len() > MAX_LYAPUNOV_SEQUENCE {
            MAX_LYAPUNOV_SEQUENCE as int
        } else {
            sequence@.len() as int
        },
{
    let symbols = chars_of(sequence);
    let limit = if symbols.len() < MAX_LYAPUNOV_SEQUENCE { symbols.len() } else { MAX_LYAPUNOV_SEQUENCE };
    let mut bits: u32 = 0;
    let mut index: usize = 0;
    proof {
        lemma_no_bits();
    }
    while index < limit
        invariant
            symbols@ == sequence@,
            limit <= symbols.len(),
            limit <= MAX_LYAPUNOV_SEQUENCE,
            limit == symbols.len() || limit == MAX_LYAPUNOV_SEQUENCE,
            index <= limit,
            forall|n: u32| #![trigger bit_set(bits, n)] n < 32 ==> (bit_set(bits, n) <==> (n < index && is_b_symbol(symbols@[n as int]))),
        decreases limit - index,
    {
        let character = symbols[index];
        if character == 'B' || character == 'b' {
            let previous = bits;
            bits = bits | (1u32 << (index as u32));
            proof {
                assert forall|n: u32| #![trigger bit_set(bits, n)] n < 32 implies (bit_set(bits, n) <==> (n < index + 1 && is_b_symbol(symbols@[n as int]))) by {
                    lemma_set_bit(previous, index as u32, n);
                    assert(bit_set(previous, n) <==> (n < index && is_b_symbol(symbols@[n as int])));
                }
            }
        }
        index += 1;
    }
    proof {
        assert forall|n: u32| n < 32 implies (bit_set(bits, n) <==> (n < sequence@.len()
            && is_b_symbol(#[trigger] sequence@[n as int]))) by {
            assert(bit_set(bits, n) <==> (n < index && is_b_symbol(symbols@[n as int])));
        }
    }
    let length = if limit == 0 { 1 } else { limit as u32 };
    (bits, length)
}

/// Whether `degree` is an accepted Multibrot exponent / Nova degree.
pub fn valid_degree(degree: u32) -> (valid: bool)
    ensures
        valid == (MIN_DEGREE <= degree <= MAX_DEGREE),
{
    MIN_DEGREE <= degree && degree <= MAX_DEGREE
}

/// The settings of [`FamilyParameterChecks`] in the order they are checked,
/// and the message of the first that fails.
pub open spec fn spec_family_parameters_error(checks: FamilyParameterChecks) -> Option<Seq<char>> {
    if !(MIN_DEGREE <= checks.degree <= MAX_DEGREE) {
        Some("degree must be between 2 and 8"@)
    } else if !checks.nova_relaxation_in_range {
        Some("nova_relaxation must be finite and between 0.1 and 4"@)
    } else if !spec_valid_lyapunov_sequence(checks.lyapunov_sequence@) {
        Some(
            if 1 <= checks.lyapunov_sequence@.len() <= MAX_LYAPUNOV_SEQUENCE {
                "lyapunov_sequence may only contain the symbols A and B"@
            } else {
                "lyapunov_sequence must contain between 1 and 32 symbols"@
            },
        )
    } else if !checks.mandelbox_scale_in_range {
        Some("mandelbox_scale must be finite and between -4 and 4"@)
    } else if !checks.mandelbox_min_radius_in_range {
        Some("mandelbox_min_radius must be finite and between 0.01 and 2"@)
    } else if !checks.mandelbox_fixed_radius_in_range {
        Some("mandelbox_fixed_radius must be finite and between 0.1 and 4"@)
    } else {
        None
    }
}

/// The family settings as the validation reads them: the integer and text
/// settings themselves, and for each real-valued setting whether it is
/// finite and inside its range (nova relaxation in [0.1, 4], Mandelbox scale
/// in [-4, 4], minimum radius in [0.01, 2], fixed radius in [0.1, 4]).
#[derive(Clone, Debug)]
pub struct FamilyParameterChecks {
    pub degree: u32,
    pub nova_relaxation_in_range: bool,
    pub lyapunov_sequence: String,
    pub mandelbox_scale_in_range: bool,
    pub mandelbox_min_radius_in_range: bool,
    pub mandelbox_fixed_radius_in_range: bool,
}

impl FamilyParameterChecks {
    /// Accepts the settings, or names the first one out of range.
    pub fn validate(&self) -> (result: Result<(), String>)
        ensures
            result is Ok <==> spec_family_parameters_error(*self) is None,
            result matches Err(message) ==> spec_family_parameters_error(*self) == Some(message@),
    {
        if !valid_degree(self.degree) {
            return Err("degree must be between 2 and 8".to_owned());
        }
        if !self.nova_relaxation_in_range {
            return Err("nova_relaxation must be finite and between 0.1 and 4".to_owned());
        }
        let sequence = validate_lyapunov_sequence(self.lyapunov_sequence.as_str());
        if let Err(message) = sequence {
            return Err(message);
        }
        if !self.mandelbox_scale_in_range {
            return Err("mandelbox_scale must be finite and between -4 and 4".to_owned());
        }
        if !self.mandelbox_min_radius_in_range {
            return Err("mandelbox_min_radius must be finite and between 0.01 and 2".to_owned());
        }
        if !self.mandelbox_fixed_radius_in_range {
            return Err("mandelbox_fixed_radius must be finite and between 0.1 and 4".to_owned());
        }
        Ok(())
    }
}

/// Every family sits in [`FractalFamily::ALL`] at its own index.
pub proof fn lemma_all_lists_every_family(family: FractalFamily)
    ensures
        family.spec_index() < 26,
        FractalFamily::ALL[family.spec_index() as int] == family,
{
    match family {
        FractalFamily::Quadratic => {},
        FractalFamily::NewtonCubic => {},
        FractalFamily::Multibrot => {},
        FractalFamily::Tricorn => {},
        FractalFamily::PerpendicularMandelbrot => {},
        FractalFamily::BurningShip => {},
        FractalFamily::PerpendicularBurningShip => {},
        FractalFamily::Celtic => {},
        FractalFamily::PerpendicularCeltic => {},
        FractalFamily::Buffalo => {},
        FractalFamily::PerpendicularBuffalo => {},
        FractalFamily::Lambda => {},
        FractalFamily::Phoenix => {},
        FractalFamily::Manowar => {},
        FractalFamily::Spider => {},
        FractalFamily::MagnetOne => {},
        FractalFamily::MagnetTwo => {},
        FractalFamily::Exponential => {},
        FractalFamily::Sine => {},
        FractalFamily::Cosine => {},
        FractalFamily::Collatz => {},
        FractalFamily::Lyapunov => {},
        FractalFamily::Nova => {},
        FractalFamily::BarnsleyOne => {},
        FractalFamily::BarnsleyTwo => {},
        FractalFamily::Mandelbox => {},
    }
}

/// The length and last character of each document identifier.
proof fn lemma_document_id_key(family: FractalFamily)
    ensures
        family.spec_document_id().len() == family.spec_id_key().0,
        family.spec_document_id().len() > 0,
        family.spec_document_id()[family.spec_document_id().len() - 1] == family.spec_id_key().1,
        spec_family_of_key(family.spec_id_key()) == family,
{
    reveal_strlit("quadratic");
    reveal_strlit("newton-cubic");
    reveal_strlit("multibrot");
    reveal_strlit("tricorn");
    reveal_strlit("perpendicular-mandelbrot");
    reveal_strlit("burning-ship");
    reveal_strlit("perpendicular-burning-ship");
    reveal_strlit("celtic");
    reveal_strlit("perpendicular-celtic");
    reveal_strlit("buffalo");
    reveal_strlit("perpendicular-buffalo");
    reveal_strlit("lambda");
    reveal_strlit("phoenix");
    reveal_strlit("manowar");
    reveal_strlit("spider");
    reveal_strlit("magnet-1");
    reveal_strlit("magnet-2");
    reveal_strlit("exponential");
    reveal_strlit("sine");
    reveal_strlit("cosine");
    reveal_strlit("collatz");
    reveal_strlit("lyapunov");
    reveal_strlit("nova");
    reveal_strlit("barnsley-1");
    reveal_strlit("barnsley-2");
    reveal_strlit("mandelbox");
}

/// A family is the only one carrying its document identifier.
proof fn lemma_document_id_injective_at(family: FractalFamily, id: Seq<char>)
    requires
        family.spec_document_id() == id,
    ensures
        spec_family_of_document_id(id) == Some(family),
{
    let chosen = choose|other: FractalFamily| other.spec_document_id() == id;
    lemma_document_id_key(family);
    lemma_document_id_key(chosen);
}

/// Document identifiers are pairwise distinct.
pub proof fn document_ids_are_distinct(a: FractalFamily, b: FractalFamily)
    requires
        a != b,
    ensures
        a.spec_document_id() != b.spec_document_id(),
{
    lemma_document_id_key(a);
    lemma_document_id_key(b);
}

/// Reading back the identifier a family writes gives that family.
pub proof fn document_id_round_trips(family: FractalFamily)
    ensures
        spec_family_of_document_id(family.spec_document_id()) == Some(family),
{
    lemma_document_id_injective_at(family, family.spec_document_id());
}

/// Shader flags are the positions in [`FractalFamily::ALL`]: each family's
/// flag selects that family, and distinct families get distinct flags.
pub proof fn shader_flags_index_the_catalogue(a: FractalFamily, b: FractalFamily)
    ensures
        a.spec_index() < 26,
        FractalFamily::ALL[a.spec_index() as int] == a,
        a != b ==> a.spec_index() != b.spec_index(),
{
    lemma_all_lists_every_family(a);
    lemma_all_lists_every_family(b);
}

/// What becomes of each layer's outside colouring when the family changes:
/// kept, or reset to the basin colouring of convergent families or to the
/// default escape colouring.
#[derive(Clone, Copy, Debug, PartialEq, Eq, Structural)]
pub enum OutsideColouringReset {
    Keep,
    Basins,
    Escape,
}

/// What switching families changes: the iteration budget and the outside
/// colourings.
#[derive(Clone, Copy, Debug, PartialEq, Eq, Structural)]
pub struct FamilySwitch {
    pub iterations: u32,
    pub outside: OutsideColouringReset,
}

/// Whether the family's orbits converge to roots or fixed points.
pub open spec fn spec_converges(family: FractalFamily) -> bool {
    family == FractalFamily::NewtonCubic || family == FractalFamily::Nova || family == FractalFamily::MagnetOne
        || family == FractalFamily::MagnetTwo
}

/// Switching from `previous` to `next` with `iterations` set: nothing changes
/// when the family stays; otherwise the budget is clamped to the new
/// family's range, and the outside colourings reset when the two families
/// differ in whether they converge (to basins for a convergent family).
pub open spec fn spec_family_switch(previous: FractalFamily, next: FractalFamily, iterations: u32) -> FamilySwitch {
    if previous == next {
        FamilySwitch { iterations, outside: OutsideColouringReset::Keep }
    } else {
        let low = next.spec_min_iterations();
        let high = next.spec_max_iterations();
        FamilySwitch {
            iterations: if iterations < low { low } else if iterations > high { high } else { iterations },
            outside: if spec_converges(next) == spec_converges(previous) {
                OutsideColouringReset::Keep
            } else if spec_converges(next) {
                OutsideColouringReset::Basins
            } else {
                OutsideColouringReset::Escape
            },
        }
    }
}

/// What switching from `previous` to `next` changes (see
/// [`spec_family_switch`]).
pub fn family_switch(previous: FractalFamily, next: FractalFamily, iterations: u32) -> (switch: FamilySwitch)
    ensures
        switch == spec_family_switch(previous, next, iterations),
{
    if previous == next {
        return FamilySwitch { iterations, outside: OutsideColouringReset::Keep };
    }
    let low = next.min_iterations();
    let high = next.max_iterations();
    let clamped = if iterations < low { low } else if iterations > high { high } else { iterations };
    let outside = if next.converges() == previous.converges() {
        OutsideColouringReset::Keep
    } else if next.converges() {
        OutsideColouringReset::Basins
    } else {
        OutsideColouringReset::Escape
    };
    FamilySwitch { iterations: clamped, outside }
}

/// Switching families keeps the budget and the colourings when the family
/// stays; otherwise the budget lands in the new family's range, unchanged
/// when it already was, and the outside colourings are reset exactly when
/// the two families differ in whether they converge, to basins when the new
/// family converges.
pub proof fn family_switches_keep_settings_the_new_family_accepts(
    previous: FractalFamily,
    next: FractalFamily,
    iterations: u32,
)
    ensures
        ({
            let switch = spec_family_switch(previous, next, iterations);
            &&& previous == next ==> switch.iterations == iterations && switch.outside == OutsideColouringReset::Keep
            &&& previous != next ==> next.spec_min_iterations() <= switch.iterations <= next.spec_max_iterations()
            &&& previous != next && next.spec_min_iterations() <= iterations <= next.spec_max_iterations()
                ==> switch.iterations == iterations
            &&& previous != next && iterations < next.spec_min_iterations() ==> switch.iterations == next.spec_min_iterations()
            &&& previous != next && iterations > next.spec_max_iterations() ==> switch.iterations == next.spec_max_iterations()
            &&& previous != next ==> ((switch.outside == OutsideColouringReset::Keep) <==> ((next.spec_convergence_test() != ConvergenceTest::Never)
                == (previous.spec_convergence_test() != ConvergenceTest::Never)))
            &&& previous != next && (next.spec_convergence_test() != ConvergenceTest::Never) && !(previous.spec_convergence_test() != ConvergenceTest::Never) ==> switch.outside
                == OutsideColouringReset::Basins
            &&& previous != next && !(next.spec_convergence_test() != ConvergenceTest::Never) && (previous.spec_convergence_test() != ConvergenceTest::Never) ==> switch.outside
                == OutsideColouringReset::Escape
        }),
{
}

} // verus!
