//! The colouring catalogue: gradient interpolation modes, colouring
//! algorithms, transfer curves, trap shapes and layer merge modes, with the
//! codes the shader reads for each; the layer stack and the plan of what its
//! visible layers upload; the draws of random gradients; and the rules
//! colourings, layers and their detached scenes are validated by.

use vstd::prelude::*;

use crate::family::{spec_family_parameters_error, FamilyParameterChecks, FractalFamily};
use crate::text::{concat, joined, spec_decimal, with_number};

verus! {

/// How colours between two control points are blended.
#[derive(Clone, Copy, Debug, Default, PartialEq, Eq, Structural)]
pub enum Interpolation {
    /// Straight lines in RGB.
    #[default]
    Rgb,
    /// Hue, saturation and lightness, taking the shorter way round the hue circle.
    HslShort,
    /// Hue, saturation and lightness, taking the longer way round.
    HslLong,
}

impl Interpolation {
    pub const ALL: [Interpolation; 3] = [
        Interpolation::Rgb,
        Interpolation::HslShort,
        Interpolation::HslLong,
    ];

    pub open spec fn spec_name(self) -> Seq<char> {
        match self {
            Interpolation::Rgb => "RGB"@,
            Interpolation::HslShort => "HSL (short)"@,
            Interpolation::HslLong => "HSL (long)"@,
        }
    }

    /// Name shown in the gradient editor.
    pub fn name(self) -> (text: &'static str)
        ensures
            text@ == self.spec_name(),
    {
        match self {
            Self::Rgb => "RGB",
            Self::HslShort => "HSL (short)",
            Self::HslLong => "HSL (long)",
        }
    }

}

/// What a pixel's orbit statistics are reduced to before the gradient lookup.
#[derive(Clone, Copy, Debug, Default, PartialEq, Eq, Structural)]
pub enum ColouringAlgorithm {
    /// Escape or convergence time, fractional when smoothing is on.
    #[default]
    Iteration,
    /// Argument of the final `z`: continuous, or quantised into sectors.
    Decomposition,
    /// Triangle-inequality average of the orbit.
    TriangleInequality,
    /// Average of a sine of the orbit's arguments (stripe average colouring).
    Stripes,
    /// Exterior distance estimate in pixels (polynomial families).
    DistanceEstimate,
    /// Smallest distance from the orbit to a trap shape.
    OrbitTrap,
    /// A single colour.
    Solid,
}

impl ColouringAlgorithm {
    pub const ALL: [ColouringAlgorithm; 7] = [
        ColouringAlgorithm::Iteration,
        ColouringAlgorithm::Decomposition,
        ColouringAlgorithm::TriangleInequality,
        ColouringAlgorithm::Stripes,
        ColouringAlgorithm::DistanceEstimate,
        ColouringAlgorithm::OrbitTrap,
        ColouringAlgorithm::Solid,
    ];

    pub open spec fn spec_name(self) -> Seq<char> {
        match self {
            ColouringAlgorithm::Iteration => "Iteration count"@,
            ColouringAlgorithm::Decomposition => "Decomposition (angle)"@,
            ColouringAlgorithm::TriangleInequality => "Triangle inequality average"@,
            ColouringAlgorithm::Stripes => "Stripe average"@,
            ColouringAlgorithm::DistanceEstimate => "Distance estimate"@,
            ColouringAlgorithm::OrbitTrap => "Orbit trap"@,
            ColouringAlgorithm::Solid => "Solid colour"@,
        }
    }

    /// Name shown in the colouring controls.
    pub fn name(self) -> (text: &'static str)
        ensures
            text@ == self.spec_name(),
    {
        match self {
            Self::Iteration => "Iteration count",
            Self::Decomposition => "Decomposition (angle)",
            Self::TriangleInequality => "Triangle inequality average",
            Self::Stripes => "Stripe average",
            Self::DistanceEstimate => "Distance estimate",
            Self::OrbitTrap => "Orbit trap",
            Self::Solid => "Solid colour",
        }
    }

    pub open spec fn spec_description(self) -> Seq<char> {
        match self {
            ColouringAlgorithm::Iteration => "Gradient position advances with the (smoothed) iteration count."@,
            ColouringAlgorithm::Decomposition => "Colour by the argument of the final z; sectors = 0 is continuous, 2 is binary decomposition. Separates Newton and Nova basins."@,
            ColouringAlgorithm::TriangleInequality => "Average over the orbit of where |z| falls between the triangle-inequality bounds; a large bailout gives the smoothest result."@,
            ColouringAlgorithm::Stripes => "Average of a sine of the orbit's argument; the frequency sets the number of stripes per turn."@,
            ColouringAlgorithm::DistanceEstimate => "Exterior distance to the set in pixels, from the orbit's derivative. Exact for the quadratic, Multibrot and lambda families; others fall back to the iteration count."@,
            ColouringAlgorithm::OrbitTrap => "Closest approach of the orbit to a trap shape in the dynamical plane."@,
            ColouringAlgorithm::Solid => "A single colour, independent of the orbit."@,
        }
    }

    /// Explanation shown with the algorithm.
    pub fn description(self) -> (text: &'static str)
        ensures
            text@ == self.spec_description(),
    {
        match self {
            Self::Iteration => "Gradient position advances with the (smoothed) iteration count.",
            Self::Decomposition => "Colour by the argument of the final z; sectors = 0 is continuous, 2 is binary decomposition. Separates Newton and Nova basins.",
            Self::TriangleInequality => "Average over the orbit of where |z| falls between the triangle-inequality bounds; a large bailout gives the smoothest result.",
            Self::Stripes => "Average of a sine of the orbit's argument; the frequency sets the number of stripes per turn.",
            Self::DistanceEstimate => "Exterior distance to the set in pixels, from the orbit's derivative. Exact for the quadratic, Multibrot and lambda families; others fall back to the iteration count.",
            Self::OrbitTrap => "Closest approach of the orbit to a trap shape in the dynamical plane.",
            Self::Solid => "A single colour, independent of the orbit.",
        }
    }

    /// Position in `ALL`, which is also the shader's code.
    pub open spec fn spec_code(self) -> nat {
        match self {
            ColouringAlgorithm::Iteration => 0,
            ColouringAlgorithm::Decomposition => 1,
            ColouringAlgorithm::TriangleInequality => 2,
            ColouringAlgorithm::Stripes => 3,
            ColouringAlgorithm::DistanceEstimate => 4,
            ColouringAlgorithm::OrbitTrap => 5,
            ColouringAlgorithm::Solid => 6,
        }
    }

    /// Code of the algorithm in the colouring uniform block.
    pub fn code(self) -> (code: u32)
        ensures
            code as nat == self.spec_code(),
    {
        match self {
            Self::Iteration => 0,
            Self::Decomposition => 1,
            Self::TriangleInequality => 2,
            Self::Stripes => 3,
            Self::DistanceEstimate => 4,
            Self::OrbitTrap => 5,
            Self::Solid => 6,
        }
    }


    /// The transfer curve an algorithm starts with when it is selected.
    pub open spec fn spec_default_transfer(self) -> Transfer {
        match self {
            ColouringAlgorithm::DistanceEstimate => Transfer::Log,
            ColouringAlgorithm::OrbitTrap => Transfer::Sqrt,
            _ => Transfer::Linear,
        }
    }

    pub fn default_transfer(self) -> (transfer: Transfer)
        ensures
            transfer == self.spec_default_transfer(),
    {
        match self {
            Self::DistanceEstimate => Transfer::Log,
            Self::OrbitTrap => Transfer::Sqrt,
            _ => Transfer::Linear,
        }
    }
}

/// Each ColouringAlgorithm has its own shader code: its position in `ALL`.
pub proof fn colouring_algorithm_codes_are_distinct(a: ColouringAlgorithm, b: ColouringAlgorithm)
    ensures
        a.spec_code() < 7,
        ColouringAlgorithm::ALL[a.spec_code() as int] == a,
        a != b ==> a.spec_code() != b.spec_code(),
{
    match a {
        ColouringAlgorithm::Iteration => {},
        ColouringAlgorithm::Decomposition => {},
        ColouringAlgorithm::TriangleInequality => {},
        ColouringAlgorithm::Stripes => {},
        ColouringAlgorithm::DistanceEstimate => {},
        ColouringAlgorithm::OrbitTrap => {},
        ColouringAlgorithm::Solid => {},
    }
    match b {
        ColouringAlgorithm::Iteration => {},
        ColouringAlgorithm::Decomposition => {},
        ColouringAlgorithm::TriangleInequality => {},
        ColouringAlgorithm::Stripes => {},
        ColouringAlgorithm::DistanceEstimate => {},
        ColouringAlgorithm::OrbitTrap => {},
        ColouringAlgorithm::Solid => {},
    }
}

/// Curve applied to the algorithm's value before density and offset.
#[derive(Clone, Copy, Debug, Default, PartialEq, Eq, Structural)]
pub enum Transfer {
    #[default]
    Linear,
    Sqrt,
    CubeRoot,
    Log,
}

impl Transfer {
    pub const ALL: [Transfer; 4] = [
        Transfer::Linear,
        Transfer::Sqrt,
        Transfer::CubeRoot,
        Transfer::Log,
    ];

    pub open spec fn spec_name(self) -> Seq<char> {
        match self {
            Transfer::Linear => "Linear"@,
            Transfer::Sqrt => "Square root"@,
            Transfer::CubeRoot => "Cube root"@,
            Transfer::Log => "Logarithm"@,
        }
    }

    /// Name shown in the colouring controls.
    pub fn name(self) -> (text: &'static str)
        ensures
            text@ == self.spec_name(),
    {
        match self {
            Self::Linear => "Linear",
            Self::Sqrt => "Square root",
            Self::CubeRoot => "Cube root",
            Self::Log => "Logarithm",
        }
    }

    /// Position in `ALL`, which is also the shader's code.
    pub open spec fn spec_code(self) -> nat {
        match self {
            Transfer::Linear => 0,
            Transfer::Sqrt => 1,
            Transfer::CubeRoot => 2,
            Transfer::Log => 3,
        }
    }

    /// Code of the transfer curve in the colouring uniform block.
    pub fn code(self) -> (code: u32)
        ensures
            code as nat == self.spec_code(),
    {
        match self {
            Self::Linear => 0,
            Self::Sqrt => 1,
            Self::CubeRoot => 2,
            Self::Log => 3,
        }
    }

}

/// Each Transfer has its own shader code: its position in `ALL`.
pub proof fn transfer_codes_are_distinct(a: Transfer, b: Transfer)
    ensures
        a.spec_code() < 4,
        Transfer::ALL[a.spec_code() as int] == a,
        a != b ==> a.spec_code() != b.spec_code(),
{
    match a {
        Transfer::Linear => {},
        Transfer::Sqrt => {},
        Transfer::CubeRoot => {},
        Transfer::Log => {},
    }
    match b {
        Transfer::Linear => {},
        Transfer::Sqrt => {},
        Transfer::CubeRoot => {},
        Transfer::Log => {},
    }
}

/// Shape of the orbit trap.
#[derive(Clone, Copy, Debug, Default, PartialEq, Eq, Structural)]
pub enum TrapShape {
    /// Distance to the centre point.
    #[default]
    Point,
    /// Distance to the nearer of the two axes through the centre.
    Cross,
    /// Distance to a circle of the given radius.
    Circle,
    /// Distance to the boundary of an axis-aligned square.
    Square,
    /// Distance to the horizontal line through the centre.
    Horizontal,
    /// Distance to the vertical line through the centre.
    Vertical,
}

impl TrapShape {
    pub const ALL: [TrapShape; 6] = [
        TrapShape::Point,
        TrapShape::Cross,
        TrapShape::Circle,
        TrapShape::Square,
        TrapShape::Horizontal,
        TrapShape::Vertical,
    ];

    pub open spec fn spec_name(self) -> Seq<char> {
        match self {
            TrapShape::Point => "Point"@,
            TrapShape::Cross => "Cross"@,
            TrapShape::Circle => "Circle"@,
            TrapShape::Square => "Square"@,
            TrapShape::Horizontal => "Horizontal line"@,
            TrapShape::Vertical => "Vertical line"@,
        }
    }

    /// Name shown in the colouring controls.
    pub fn name(self) -> (text: &'static str)
        ensures
            text@ == self.spec_name(),
    {
        match self {
            Self::Point => "Point",
            Self::Cross => "Cross",
            Self::Circle => "Circle",
            Self::Square => "Square",
            Self::Horizontal => "Horizontal line",
            Self::Vertical => "Vertical line",
        }
    }

    /// Position in `ALL`, which is also the shader's code.
    pub open spec fn spec_code(self) -> nat {
        match self {
            TrapShape::Point => 0,
            TrapShape::Cross => 1,
            TrapShape::Circle => 2,
            TrapShape::Square => 3,
            TrapShape::Horizontal => 4,
            TrapShape::Vertical => 5,
        }
    }

    /// Code of the trap shape in the colouring uniform block.
    pub fn code(self) -> (code: u32)
        ensures
            code as nat == self.spec_code(),
    {
        match self {
            Self::Point => 0,
            Self::Cross => 1,
            Self::Circle => 2,
            Self::Square => 3,
            Self::Horizontal => 4,
            Self::Vertical => 5,
        }
    }


    /// Whether the trap's size setting applies.
    pub fn uses_size(self) -> (uses: bool)
        ensures
            uses == (self == TrapShape::Circle || self == TrapShape::Square),
    {
        matches!(self, Self::Circle | Self::Square)
    }
}

/// Each TrapShape has its own shader code: its position in `ALL`.
pub proof fn trap_shape_codes_are_distinct(a: TrapShape, b: TrapShape)
    ensures
        a.spec_code() < 6,
        TrapShape::ALL[a.spec_code() as int] == a,
        a != b ==> a.spec_code() != b.spec_code(),
{
    match a {
        TrapShape::Point => {},
        TrapShape::Cross => {},
        TrapShape::Circle => {},
        TrapShape::Square => {},
        TrapShape::Horizontal => {},
        TrapShape::Vertical => {},
    }
    match b {
        TrapShape::Point => {},
        TrapShape::Cross => {},
        TrapShape::Circle => {},
        TrapShape::Square => {},
        TrapShape::Horizontal => {},
        TrapShape::Vertical => {},
    }
}

/// How a layer combines with the layers beneath it. The bottom layer's mode is ignored.
#[derive(Clone, Copy, Debug, Default, PartialEq, Eq, Structural)]
pub enum MergeMode {
    #[default]
    Normal,
    Add,
    Multiply,
    Screen,
    Overlay,
    Darken,
    Lighten,
    Difference,
}

impl MergeMode {
    pub const ALL: [MergeMode; 8] = [
        MergeMode::Normal,
        MergeMode::Add,
        MergeMode::Multiply,
        MergeMode::Screen,
        MergeMode::Overlay,
        MergeMode::Darken,
        MergeMode::Lighten,
        MergeMode::Difference,
    ];

    pub open spec fn spec_name(self) -> Seq<char> {
        match self {
            MergeMode::Normal => "Normal"@,
            MergeMode::Add => "Add"@,
            MergeMode::Multiply => "Multiply"@,
            MergeMode::Screen => "Screen"@,
            MergeMode::Overlay => "Overlay"@,
            MergeMode::Darken => "Darken"@,
            MergeMode::Lighten => "Lighten"@,
            MergeMode::Difference => "Difference"@,
        }
    }

    /// Name shown in the layer list.
    pub fn name(self) -> (text: &'static str)
        ensures
            text@ == self.spec_name(),
    {
        match self {
            Self::Normal => "Normal",
            Self::Add => "Add",
            Self::Multiply => "Multiply",
            Self::Screen => "Screen",
            Self::Overlay => "Overlay",
            Self::Darken => "Darken",
            Self::Lighten => "Lighten",
            Self::Difference => "Difference",
        }
    }

    /// Position in `ALL`, which is also the shader's code.
    pub open spec fn spec_code(self) -> nat {
        match self {
            MergeMode::Normal => 0,
            MergeMode::Add => 1,
            MergeMode::Multiply => 2,
            MergeMode::Screen => 3,
            MergeMode::Overlay => 4,
            MergeMode::Darken => 5,
            MergeMode::Lighten => 6,
            MergeMode::Difference => 7,
        }
    }

    /// Code of the merge mode in the colouring uniform block.
    pub fn code(self) -> (code: u32)
        ensures
            code as nat == self.spec_code(),
    {
        match self {
            Self::Normal => 0,
            Self::Add => 1,
            Self::Multiply => 2,
            Self::Screen => 3,
            Self::Overlay => 4,
            Self::Darken => 5,
            Self::Lighten => 6,
            Self::Difference => 7,
        }
    }

}

/// Each MergeMode has its own shader code: its position in `ALL`.
pub proof fn merge_mode_codes_are_distinct(a: MergeMode, b: MergeMode)
    ensures
        a.spec_code() < 8,
        MergeMode::ALL[a.spec_code() as int] == a,
        a != b ==> a.spec_code() != b.spec_code(),
{
    match a {
        MergeMode::Normal => {},
        MergeMode::Add => {},
        MergeMode::Multiply => {},
        MergeMode::Screen => {},
        MergeMode::Overlay => {},
        MergeMode::Darken => {},
        MergeMode::Lighten => {},
        MergeMode::Difference => {},
    }
    match b {
        MergeMode::Normal => {},
        MergeMode::Add => {},
        MergeMode::Multiply => {},
        MergeMode::Screen => {},
        MergeMode::Overlay => {},
        MergeMode::Darken => {},
        MergeMode::Lighten => {},
        MergeMode::Difference => {},
    }
}


/// Most layers one image may composite (the shader's layer array).
pub const MAX_LAYERS: usize = 8;

/// The name a duplicated layer is given: its own name followed by ` copy`.
pub fn duplicate_layer_name(name: &str) -> (copy: String)
    ensures
        copy@ == name@ + " copy"@,
{
    concat(name, " copy")
}

/// The name a layer added on top of `count` layers is given: `Layer n`,
/// numbering layers from one. Layers are only added below the limit.
pub fn added_layer_name(count: usize) -> (name: String)
    requires
        count < MAX_LAYERS,
    ensures
        name@ == "Layer "@ + spec_decimal(count as nat + 1) + ""@,
{
    with_number("Layer ", count as u64 + 1, "")
}

/// The image's layer stack, bottom first, with the layer being edited. It
/// always holds between one and [`MAX_LAYERS`] layers, and the active index
/// names one of them.
#[derive(Debug)]
pub struct LayerStack<L> {
    layers: Vec<L>,
    active: usize,
}

impl<L> LayerStack<L> {
    /// The layers, bottom first.
    pub closed spec fn stack(self) -> Seq<L> {
        self.layers@
    }

    /// Index of the layer being edited.
    pub closed spec fn selected(self) -> nat {
        self.active as nat
    }

    /// Between one and [`MAX_LAYERS`] layers, and the active index in range.
    pub open spec fn wf(self) -> bool {
        &&& 1 <= self.stack().len() <= MAX_LAYERS
        &&& self.selected() < self.stack().len()
    }

    /// A stack of the one given layer.
    pub fn single(layer: L) -> (stack: Self)
        ensures
            stack.wf(),
            stack.stack() == seq![layer],
            stack.selected() == 0,
    {
        let mut layers: Vec<L> = Vec::new();
        layers.push(layer);
        assert(layers@ =~= seq![layer]);
        LayerStack { layers, active: 0 }
    }

    /// A stack of the given layers, bottom first: a default layer when none
    /// is given, and the bottom [`MAX_LAYERS`] when more are. The bottom
    /// layer is active.
    pub fn from_layers(layers: Vec<L>) -> (stack: Self)
        where
            L: Default,
        ensures
            stack.wf(),
            stack.selected() == 0,
            layers@.len() == 0 ==> stack.stack().len() == 1,
            layers@.len() == 0 ==> call_ensures(L::default, (), stack.stack()[0]),
            layers@.len() > 0 ==> stack.stack() == layers@.take(
                if layers@.len() < MAX_LAYERS { layers@.len() as int } else { MAX_LAYERS as int },
            ),
    {
        let mut layers = layers;
        if layers.len() == 0 {
            layers.push(L::default());
        }
        let ghost before = layers@;
        layers.truncate(MAX_LAYERS);
        assert(layers@ =~= before.take(if before.len() < MAX_LAYERS { before.len() as int } else { MAX_LAYERS as int }));
        LayerStack { layers, active: 0 }
    }

    /// The layers, bottom first.
    pub fn layers(&self) -> (layers: &Vec<L>)
        ensures
            layers@ == self.stack(),
    {
        &self.layers
    }

    /// Index of the layer being edited.
    pub fn active_index(&self) -> (index: usize)
        ensures
            index == self.selected(),
    {
        self.active
    }

    /// The layer being edited.
    pub fn active_layer(&self) -> (layer: &L)
        requires
            self.wf(),
        ensures
            *layer == self.stack()[self.selected() as int],
    {
        &self.layers[self.active]
    }

    /// The layer being edited, for changing it in place.
    pub fn active_layer_mut(&mut self) -> (layer: &mut L)
        requires
            old(self).wf(),
        ensures
            *layer == old(self).stack()[old(self).selected() as int],
            final(self).stack() == old(self).stack().update(old(self).selected() as int, *final(layer)),
            final(self).selected() == old(self).selected(),
    {
        let index = self.active;
        &mut self.layers[index]
    }

    /// Makes `index` the layer being edited; an index past the top selects
    /// the top layer.
    pub fn select(&mut self, index: usize)
        requires
            old(self).wf(),
        ensures
            final(self).wf(),
            final(self).stack() == old(self).stack(),
            final(self).selected() == if index < old(self).stack().len() {
                index as nat
            } else {
                (old(self).stack().len() - 1) as nat
            },
    {
        self.active = if index < self.layers.len() { index } else { self.layers.len() - 1 };
    }

    /// Exchanges the layers at `a` and `b`; the active layer stays selected
    /// wherever it moves.
    pub fn swap_layers(&mut self, a: usize, b: usize)
        requires
            old(self).wf(),
            a < old(self).stack().len(),
            b < old(self).stack().len(),
        ensures
            final(self).wf(),
            final(self).stack() == old(self).stack().update(a as int, old(self).stack()[b as int]).update(
                b as int,
                old(self).stack()[a as int],
            ),
            final(self).selected() == if old(self).selected() == a {
                b as nat
            } else if old(self).selected() == b {
                a as nat
            } else {
                old(self).selected()
            },
    {
        let ghost start = self.layers@;
        if a != b {
            let (low, high) = if a < b { (a, b) } else { (b, a) };
            let upper = self.layers.remove(high);
            let lower = self.layers.remove(low);
            self.layers.insert(low, upper);
            self.layers.insert(high, lower);
            assert(self.layers@ =~= start.update(a as int, start[b as int]).update(b as int, start[a as int]));
        } else {
            assert(self.layers@ =~= start.update(a as int, start[b as int]).update(b as int, start[a as int]));
        }
        if self.active == a {
            self.active = b;
        } else if self.active == b {
            self.active = a;
        }
    }

    /// Removes the layer at `index` unless it is the only one. The active
    /// index stays where it was, or drops to the new top layer.
    pub fn remove_layer(&mut self, index: usize)
        requires
            old(self).wf(),
            index < old(self).stack().len(),
        ensures
            final(self).wf(),
            old(self).stack().len() == 1 ==> *final(self) == *old(self),
            old(self).stack().len() > 1 ==> final(self).stack() == old(self).stack().remove(index as int),
            old(self).stack().len() > 1 ==> final(self).selected() == if old(self).selected() < old(
                self,
            ).stack().len() - 1 {
                old(self).selected()
            } else {
                (old(self).stack().len() - 2) as nat
            },
    {
        if self.layers.len() > 1 {
            self.layers.remove(index);
            if self.active >= self.layers.len() {
                self.active = self.layers.len() - 1;
            }
        }
    }

    /// Inserts `layer` just above the active layer and selects it, unless
    /// the stack is full.
    pub fn insert_above_active(&mut self, layer: L)
        requires
            old(self).wf(),
        ensures
            final(self).wf(),
            old(self).stack().len() >= MAX_LAYERS ==> final(self).stack() == old(self).stack()
                && final(self).selected() == old(self).selected(),
            old(self).stack().len() < MAX_LAYERS ==> final(self).stack() == old(self).stack().insert(
                old(self).selected() + 1int,
                layer,
            ) && final(self).selected() == old(self).selected() + 1,
    {
        if self.layers.len() < MAX_LAYERS {
            let at = self.active + 1;
            self.layers.insert(at, layer);
            self.active = at;
        }
    }

    /// Adds `layer` on top and selects it, unless the stack is full.
    pub fn push_layer(&mut self, layer: L)
        requires
            old(self).wf(),
        ensures
            final(self).wf(),
            old(self).stack().len() >= MAX_LAYERS ==> final(self).stack() == old(self).stack()
                && final(self).selected() == old(self).selected(),
            old(self).stack().len() < MAX_LAYERS ==> final(self).stack() == old(self).stack().push(layer)
                && final(self).selected() == old(self).stack().len(),
    {
        if self.layers.len() < MAX_LAYERS {
            self.layers.push(layer);
            self.active = self.layers.len() - 1;
        }
    }
}

impl<L: Default> Default for LayerStack<L> {
    /// A stack of one default layer.
    fn default() -> (stack: Self)
        ensures
            stack.wf(),
            stack.stack().len() == 1,
            stack.selected() == 0,
    {
        Self::single(L::default())
    }
}


/// Register slots the shader keeps for per-iteration statistics; the first
/// layers that need statistics get one each.
pub const STATS_SLOTS: usize = 4;

/// The per-iteration accumulators one layer's colouring needs.
#[derive(Clone, Copy, Debug, Default, PartialEq, Eq, Structural)]
pub struct LayerNeeds {
    pub orbit_trap: bool,
    pub triangle_inequality: bool,
    pub stripes: bool,
    pub distance_estimate: bool,
}

impl LayerNeeds {
    /// Whether the layer feeds the statistics accumulators (and so occupies
    /// a statistics slot).
    pub open spec fn spec_uses_statistics(self) -> bool {
        self.orbit_trap || self.triangle_inequality || self.stripes
    }

    pub fn uses_statistics(self) -> (uses: bool)
        ensures
            uses == self.spec_uses_statistics(),
    {
        self.orbit_trap || self.triangle_inequality || self.stripes
    }
}

/// The positions of the first `limit` set flags, in order.
pub open spec fn first_marked(flags: Seq<bool>, limit: nat) -> Seq<int>
    decreases flags.len(),
{
    if flags.len() == 0 {
        Seq::empty()
    } else {
        let before = first_marked(flags.drop_last(), limit);
        if flags.last() && before.len() < limit {
            before.push(flags.len() - 1)
        } else {
            before
        }
    }
}

proof fn lemma_first_marked_bounds(flags: Seq<bool>, limit: nat)
    ensures
        first_marked(flags, limit).len() <= limit,
        first_marked(flags, limit).len() <= flags.len(),
        forall|k: int| 0 <= k < first_marked(flags, limit).len() ==> 0 <= #[trigger] first_marked(flags, limit)[k] < flags.len(),
    decreases flags.len(),
{
    if flags.len() > 0 {
        lemma_first_marked_bounds(flags.drop_last(), limit);
    }
}

/// Whether `k` occurs in `positions`.
pub open spec fn holds_position(positions: Seq<int>, k: int) -> bool {
    exists|j: int| 0 <= j < positions.len() && #[trigger] positions[j] == k
}

/// [`first_marked`] lists marked positions in increasing order, at most
/// `limit` of them, and leaves a marked position out only when it is full
/// with earlier ones.
pub proof fn first_marked_takes_the_earliest(flags: Seq<bool>, limit: nat)
    ensures
        first_marked(flags, limit).len() <= limit,
        forall|i: int, j: int| 0 <= i < j < first_marked(flags, limit).len() ==> first_marked(flags, limit)[i] < first_marked(flags, limit)[j],
        forall|j: int| 0 <= j < first_marked(flags, limit).len() ==> 0 <= #[trigger] first_marked(flags, limit)[j] < flags.len()
            && flags[first_marked(flags, limit)[j]],
        forall|k: int| #![trigger holds_position(first_marked(flags, limit), k)] 0 <= k < flags.len() && flags[k]
            && !holds_position(first_marked(flags, limit), k) ==> first_marked(flags, limit).len() == limit
            && forall|j: int| 0 <= j < first_marked(flags, limit).len() ==> #[trigger] first_marked(flags, limit)[j] < k,
    decreases flags.len(),
{
    if flags.len() > 0 {
        let shorter = flags.drop_last();
        first_marked_takes_the_earliest(shorter, limit);
        let before = first_marked(shorter, limit);
        let result = first_marked(flags, limit);
        let last = flags.len() - 1;
        assert forall|k: int| #![trigger holds_position(result, k)] 0 <= k < flags.len() && flags[k]
            && !holds_position(result, k) implies result.len() == limit
            && forall|j: int| 0 <= j < result.len() ==> #[trigger] result[j] < k by {
            if k < last {
                assert(shorter[k] == flags[k]);
                if holds_position(before, k) {
                    let j = choose|j: int| 0 <= j < before.len() && #[trigger] before[j] == k;
                    assert(result[j] == k);
                }
                assert(!holds_position(before, k));
                if result.len() > before.len() {
                    assert(result[before.len() as int] == last);
                }
            } else {
                if !(before.len() < limit) {
                } else {
                    assert(result[before.len() as int] == last);
                }
            }
        }
    }
}

/// The upload never exceeds the shader's layer array or its statistics
/// slots; every slot goes to an uploaded layer that uses statistics, in
/// stack order, and a layer that uses statistics is left without a slot
/// only when all slots already went to layers below it.
pub proof fn upload_plans_respect_the_shader_limits(contributes: Seq<bool>, needs: Seq<LayerNeeds>, layers: Seq<int>, slots: Seq<int>)
    requires
        contributes.len() == needs.len(),
        layers == first_marked(contributes, MAX_LAYERS as nat),
        slots == first_marked(layers.map_values(|i: int| needs[i].spec_uses_statistics()), STATS_SLOTS as nat),
    ensures
        layers.len() <= MAX_LAYERS,
        slots.len() <= STATS_SLOTS,
        forall|j: int| 0 <= j < layers.len() ==> 0 <= #[trigger] layers[j] < contributes.len() && contributes[layers[j]],
        forall|j: int| 0 <= j < slots.len() ==> 0 <= #[trigger] slots[j] < layers.len()
            && needs[layers[slots[j]]].spec_uses_statistics(),
        forall|i: int, j: int| 0 <= i < j < slots.len() ==> slots[i] < slots[j],
        forall|k: int| #![trigger holds_position(slots, k)] 0 <= k < layers.len() && needs[layers[k]].spec_uses_statistics()
            && !holds_position(slots, k) ==> slots.len() == STATS_SLOTS
            && forall|j: int| 0 <= j < slots.len() ==> #[trigger] slots[j] < k,
{
    first_marked_takes_the_earliest(contributes, MAX_LAYERS as nat);
    let flags = layers.map_values(|i: int| needs[i].spec_uses_statistics());
    first_marked_takes_the_earliest(flags, STATS_SLOTS as nat);
    assert forall|k: int| 0 <= k < layers.len() implies #[trigger] flags[k] == needs[layers[k]].spec_uses_statistics() by {}
}

/// What the shader receives of a layer stack: the stack indices of the
/// layers it composites (bottom first), the upload position of the layer in
/// each statistics slot in use, and the accumulators any uploaded layer
/// needs.
#[derive(Debug)]
pub struct UploadPlan {
    pub layers: Vec<usize>,
    pub slots: Vec<usize>,
    pub needs: LayerNeeds,
}

/// Whether some uploaded layer needs the accumulator `pick` selects.
pub open spec fn any_needs(layers: Seq<usize>, needs: Seq<LayerNeeds>, pick: spec_fn(LayerNeeds) -> bool) -> bool {
    exists|k: int| 0 <= k < layers.len() && pick(#[trigger] needs[layers[k] as int])
}

/// Plans the upload of a layer stack. `contributes[i]` says whether layer
/// `i` is visible and not fully transparent, `needs[i]` what its colouring
/// accumulates. The contributing layers are uploaded in stack order, at
/// most [`MAX_LAYERS`] of them; the first [`STATS_SLOTS`] uploaded layers
/// that use statistics get the slots.
pub fn upload_plan(contributes: &Vec<bool>, needs: &Vec<LayerNeeds>) -> (plan: UploadPlan)
    requires
        contributes@.len() == needs@.len(),
    ensures
        plan.layers@.map_values(|i: usize| i as int) == first_marked(contributes@, MAX_LAYERS as nat),
        plan.slots@.map_values(|k: usize| k as int) == first_marked(
            plan.layers@.map_values(|i: usize| needs@[i as int].spec_uses_statistics()),
            STATS_SLOTS as nat,
        ),
        plan.needs.orbit_trap == any_needs(plan.layers@, needs@, |n: LayerNeeds| n.orbit_trap),
        plan.needs.triangle_inequality == any_needs(plan.layers@, needs@, |n: LayerNeeds| n.triangle_inequality),
        plan.needs.stripes == any_needs(plan.layers@, needs@, |n: LayerNeeds| n.stripes),
        plan.needs.distance_estimate == any_needs(plan.layers@, needs@, |n: LayerNeeds| n.distance_estimate),
{
    let mut layers: Vec<usize> = Vec::new();
    let mut index: usize = 0;
    while index < contributes.len()
        invariant
            index <= contributes@.len(),
            layers@.map_values(|i: usize| i as int) == first_marked(contributes@.take(index as int), MAX_LAYERS as nat),
        decreases contributes.len() - index,
    {
        proof {
            assert(contributes@.take(index as int + 1).drop_last() =~= contributes@.take(index as int));
            assert(contributes@.take(index as int + 1).last() == contributes@[index as int]);
        }
        if contributes[index] && layers.len() < MAX_LAYERS {
            layers.push(index);
            assert(layers@.map_values(|i: usize| i as int) =~= first_marked(contributes@.take(index as int), MAX_LAYERS as nat).push(index as int));
        }
        index += 1;
    }
    assert(contributes@.take(contributes@.len() as int) =~= contributes@);
    proof {
        lemma_first_marked_bounds(contributes@, MAX_LAYERS as nat);
        assert forall|k: int| 0 <= k < layers@.len() implies (#[trigger] layers@[k]) < needs@.len() by {
            assert(layers@.map_values(|i: usize| i as int)[k] == layers@[k] as int);
        }
    }
    let ghost flags = layers@.map_values(|i: usize| needs@[i as int].spec_uses_statistics());
    let mut slots: Vec<usize> = Vec::new();
    let mut union = LayerNeeds {
        orbit_trap: false,
        triangle_inequality: false,
        stripes: false,
        distance_estimate: false,
    };
    let mut position: usize = 0;
    while position < layers.len()
        invariant
            position <= layers@.len(),
            forall|k: int| 0 <= k < layers@.len() ==> (#[trigger] layers@[k]) < needs@.len(),
            flags == layers@.map_values(|i: usize| needs@[i as int].spec_uses_statistics()),
            slots@.map_values(|k: usize| k as int) == first_marked(flags.take(position as int), STATS_SLOTS as nat),
            union.orbit_trap == any_needs(layers@.take(position as int), needs@, |n: LayerNeeds| n.orbit_trap),
            union.triangle_inequality == any_needs(layers@.take(position as int), needs@, |n: LayerNeeds| n.triangle_inequality),
            union.stripes == any_needs(layers@.take(position as int), needs@, |n: LayerNeeds| n.stripes),
            union.distance_estimate == any_needs(layers@.take(position as int), needs@, |n: LayerNeeds| n.distance_estimate),
        decreases layers.len() - position,
    {
        let layer = needs[layers[position]];
        let ghost before = layers@.take(position as int);
        let ghost after = layers@.take(position as int + 1);
        proof {
            assert(flags.take(position as int + 1).drop_last() =~= flags.take(position as int));
            assert(flags.take(position as int + 1).last() == layer.spec_uses_statistics());
            assert(after =~= before.push(layers@[position as int]));
        }
        if layer.uses_statistics() && slots.len() < STATS_SLOTS {
            slots.push(position);
            assert(slots@.map_values(|k: usize| k as int) =~= first_marked(flags.take(position as int), STATS_SLOTS as nat).push(position as int));
        }
        proof {
            assert forall|pick: spec_fn(LayerNeeds) -> bool| #[trigger] any_needs(after, needs@, pick)
                == (any_needs(before, needs@, pick) || pick(layer)) by {
                if any_needs(after, needs@, pick) {
                    let k = choose|k: int| 0 <= k < after.len() && pick(#[trigger] needs@[after[k] as int]);
                    if k < before.len() {
                        assert(after[k] == before[k]);
                    }
                }
                if any_needs(before, needs@, pick) {
                    let k = choose|k: int| 0 <= k < before.len() && pick(#[trigger] needs@[before[k] as int]);
                    assert(after[k] == before[k]);
                }
                if pick(layer) {
                    assert(after[position as int] == layers@[position as int]);
                }
            }
        }
        union = LayerNeeds {
            orbit_trap: union.orbit_trap || layer.orbit_trap,
            triangle_inequality: union.triangle_inequality || layer.triangle_inequality,
            stripes: union.stripes || layer.stripes,
            distance_estimate: union.distance_estimate || layer.distance_estimate,
        };
        position += 1;
    }
    assert(flags.take(layers@.len() as int) =~= flags);
    assert(layers@.take(layers@.len() as int) =~= layers@);
    UploadPlan { layers, slots, needs: union }
}


/// The SplitMix64 increment.
pub const SPLITMIX_GAMMA: u64 = 0x9E37_79B9_7F4A_7C15;

/// The SplitMix64 output function of a state.
pub open spec fn splitmix_mix(state: u64) -> u64 {
    let z = (state ^ (state >> 30u64)).wrapping_mul(0xBF58_476D_1CE4_E5B9u64);
    let z = (z ^ (z >> 27u64)).wrapping_mul(0x94D0_49BB_1331_11EBu64);
    z ^ (z >> 31u64)
}

/// The SplitMix64 sequence a random gradient draws from: the same seed
/// always gives the same draws, so a document can record a random gradient
/// by its seed.
#[derive(Clone, Copy, Debug)]
pub struct RandomSequence {
    state: u64,
}

impl RandomSequence {
    pub closed spec fn spec_state(self) -> u64 {
        self.state
    }

    /// The sequence of a gradient seed.
    pub fn for_seed(seed: u64) -> (sequence: Self)
        ensures
            sequence.spec_state() == seed ^ SPLITMIX_GAMMA,
    {
        RandomSequence { state: seed ^ SPLITMIX_GAMMA }
    }

    /// The next draw: the top 53 bits of the next SplitMix64 output, so that
    /// dividing by 2^53 gives a fraction in [0, 1).
    pub fn next_bits(&mut self) -> (bits: u64)
        ensures
            final(self).spec_state() == old(self).spec_state().wrapping_add(SPLITMIX_GAMMA),
            bits == splitmix_mix(final(self).spec_state()) >> 11u64,
            bits < 0x20_0000_0000_0000u64,
    {
        self.state = self.state.wrapping_add(SPLITMIX_GAMMA);
        let mut z = self.state;
        z = (z ^ (z >> 30u64)).wrapping_mul(0xBF58_476D_1CE4_E5B9u64);
        z = (z ^ (z >> 27u64)).wrapping_mul(0x94D0_49BB_1331_11EBu64);
        z = z ^ (z >> 31u64);
        let bits = z >> 11u64;
        assert(z >> 11u64 < 0x20_0000_0000_0000u64) by (bit_vector);
        bits
    }
}

/// Most sectors a decomposition colouring may split a turn into.
pub const MAX_SECTORS: u32 = 4096;

/// Most control points one gradient may hold.
pub const MAX_GRADIENT_STOPS: usize = 4096;

/// Most iterations a detached layer scene may run.
pub const MAX_SCENE_ITERATIONS: u32 = 50_000;

/// The iterations a layer's accumulators skip stay below this.
pub const MAX_SKIP_ITERATIONS: u32 = 50_000;

/// One colouring side as its validation reads it: the sector count itself,
/// and for each real-valued setting whether it is finite and in range
/// (density in [1e-6, 1e6]; the offset finite; stripe frequency in
/// [0, 1000]; the trap centre finite and the trap size finite and
/// non-negative; shading and every solid colour component in [0, 1]).
#[derive(Clone, Copy, Debug)]
pub struct ColouringSideChecks {
    pub density_in_range: bool,
    pub offset_finite: bool,
    pub sectors: u32,
    pub stripe_frequency_in_range: bool,
    pub trap_in_range: bool,
    pub shading_in_range: bool,
    pub solid_in_range: bool,
}

/// The settings of a colouring side in the order they are checked, and the
/// message of the first that fails, behind the side's `name`.
pub open spec fn colouring_side_error(name: Seq<char>, side: ColouringSideChecks) -> Option<Seq<char>> {
    if !side.density_in_range {
        Some(name + ".density must be finite and between 1e-6 and 1e6"@)
    } else if !side.offset_finite {
        Some(name + ".offset must be finite"@)
    } else if side.sectors > MAX_SECTORS {
        Some(name + ".sectors must be at most 4096"@)
    } else if !side.stripe_frequency_in_range {
        Some(name + ".stripe_frequency must be between 0 and 1000"@)
    } else if !side.trap_in_range {
        Some(name + ".trap_centre and trap_size must be finite and non-negative"@)
    } else if !side.shading_in_range {
        Some(name + ".shading must be between 0 and 1"@)
    } else if !side.solid_in_range {
        Some(name + ".solid components must be between 0 and 1"@)
    } else {
        None
    }
}

impl ColouringSideChecks {
    /// Accepts the side, or names the first setting out of range behind
    /// `name` (`outside` or `inside`).
    pub fn validate(&self, name: &str) -> (result: Result<(), String>)
        ensures
            result is Ok <==> colouring_side_error(name@, *self) is None,
            result matches Err(message) ==> colouring_side_error(name@, *self) == Some(message@),
    {
        if !self.density_in_range {
            return Err(concat(name, ".density must be finite and between 1e-6 and 1e6"));
        }
        if !self.offset_finite {
            return Err(concat(name, ".offset must be finite"));
        }
        if self.sectors > MAX_SECTORS {
            return Err(concat(name, ".sectors must be at most 4096"));
        }
        if !self.stripe_frequency_in_range {
            return Err(concat(name, ".stripe_frequency must be between 0 and 1000"));
        }
        if !self.trap_in_range {
            return Err(concat(name, ".trap_centre and trap_size must be finite and non-negative"));
        }
        if !self.shading_in_range {
            return Err(concat(name, ".shading must be between 0 and 1"));
        }
        if !self.solid_in_range {
            return Err(concat(name, ".solid components must be between 0 and 1"));
        }
        Ok(())
    }
}

/// A colouring as its validation reads it: how many stops its gradient
/// holds, whether every stop has a finite position and colour components in
/// [0, 1], whether the gradient rotation is finite, and its two sides.
#[derive(Clone, Copy, Debug)]
pub struct ColouringChecks {
    pub stop_count: usize,
    pub stops_in_range: bool,
    pub rotation_finite: bool,
    pub outside: ColouringSideChecks,
    pub inside: ColouringSideChecks,
}

/// The gradient first, then the outside and the inside side; the message of
/// the first check that fails.
pub open spec fn spec_colouring_error(colouring: ColouringChecks) -> Option<Seq<char>> {
    if colouring.stop_count == 0 {
        Some("gradient needs at least one stop"@)
    } else if colouring.stop_count > MAX_GRADIENT_STOPS {
        Some("gradient has too many stops (maximum 4096)"@)
    } else if !colouring.stops_in_range {
        Some("gradient stops need finite positions and colours between 0 and 1"@)
    } else if !colouring.rotation_finite {
        Some("gradient rotation must be finite"@)
    } else if colouring_side_error("outside"@, colouring.outside) is Some {
        colouring_side_error("outside"@, colouring.outside)
    } else {
        colouring_side_error("inside"@, colouring.inside)
    }
}

impl ColouringChecks {
    /// Accepts the colouring, or names the first setting out of range.
    pub fn validate(&self) -> (result: Result<(), String>)
        ensures
            result is Ok <==> spec_colouring_error(*self) is None,
            result matches Err(message) ==> spec_colouring_error(*self) == Some(message@),
    {
        if self.stop_count == 0 {
            return Err("gradient needs at least one stop".to_owned());
        }
        if self.stop_count > MAX_GRADIENT_STOPS {
            return Err("gradient has too many stops (maximum 4096)".to_owned());
        }
        if !self.stops_in_range {
            return Err("gradient stops need finite positions and colours between 0 and 1".to_owned());
        }
        if !self.rotation_finite {
            return Err("gradient rotation must be finite".to_owned());
        }
        let outside = self.outside.validate("outside");
        if outside.is_err() {
            return outside;
        }
        self.inside.validate("inside")
    }
}

/// What the messages about the layer at `index` begin with.
pub open spec fn layer_prefix(index: nat) -> Seq<char> {
    "layer "@ + spec_decimal(index) + ": "@
}

/// A detached layer scene as its validation reads it: its family and
/// iteration budget, whether its centre and Julia parameter are finite,
/// whether its half-height is finite and between 1.45 / 1.14e14 and 1e6,
/// whether its escape radius is finite and between 2 and 1e10, its family
/// settings where it records them, and the outcome of parsing its
/// arbitrary-precision location where it records one.
#[derive(Clone, Debug)]
pub struct LayerSceneChecks {
    pub family: FractalFamily,
    pub coordinates_finite: bool,
    pub half_height_in_range: bool,
    pub iterations: u32,
    pub bailout_in_range: bool,
    pub family_parameters: Option<FamilyParameterChecks>,
    pub deep_location: Option<Result<(), String>>,
}

/// The checks on the scene of the layer at `index`, in order, and the
/// message of the first that fails.
pub open spec fn layer_scene_error(index: nat, scene: LayerSceneChecks) -> Option<Seq<char>> {
    let prefix = layer_prefix(index);
    if !scene.coordinates_finite {
        Some(prefix + "scene coordinates must be finite"@)
    } else if !scene.half_height_in_range {
        Some(
            prefix
                + "scene half_height must be between 1.272e-14 and 1e6 (detached layers stop at the arbitrary-precision handoff)"@,
        )
    } else if !(1 <= scene.iterations <= MAX_SCENE_ITERATIONS) {
        Some(prefix + "scene iterations must be between 1 and 50000"@)
    } else if !scene.bailout_in_range {
        Some(prefix + "scene bailout must be between 2 and 1e10"@)
    } else if scene.family_parameters matches Some(parameters)
        && spec_family_parameters_error(parameters) is Some {
        Some(
            prefix + "family_parameters: "@ + spec_family_parameters_error(
                scene.family_parameters->0,
            )->0,
        )
    } else {
        match scene.deep_location {
            None => None,
            Some(outcome) => if scene.family.spec_f32_only() {
                Some(prefix + scene.family.spec_name() + " scenes cannot go beyond f32/f64 range"@)
            } else {
                match outcome {
                    Err(message) => Some(prefix + "deep location: "@ + message@),
                    Ok(_) => None,
                }
            },
        }
    }
}

impl LayerSceneChecks {
    /// Accepts the scene of the layer at `index`, or refuses it with a
    /// message that names the layer.
    pub fn validate(&self, index: usize) -> (result: Result<(), String>)
        ensures
            result is Ok <==> layer_scene_error(index as nat, *self) is None,
            result matches Err(message) ==> layer_scene_error(index as nat, *self) == Some(message@),
    {
        let prefix = with_number("layer ", index as u64, ": ");
        if !self.coordinates_finite {
            return Err(concat(prefix.as_str(), "scene coordinates must be finite"));
        }
        if !self.half_height_in_range {
            return Err(
                concat(
                    prefix.as_str(),
                    "scene half_height must be between 1.272e-14 and 1e6 (detached layers stop at the arbitrary-precision handoff)",
                ),
            );
        }
        if !(1 <= self.iterations && self.iterations <= MAX_SCENE_ITERATIONS) {
            return Err(concat(prefix.as_str(), "scene iterations must be between 1 and 50000"));
        }
        if !self.bailout_in_range {
            return Err(concat(prefix.as_str(), "scene bailout must be between 2 and 1e10"));
        }
        if let Some(parameters) = &self.family_parameters {
            if let Err(message) = parameters.validate() {
                return Err(joined(prefix.as_str(), "family_parameters: ", message.as_str()));
            }
        }
        if let Some(outcome) = &self.deep_location {
            if !self.family.supports_deep_zoom() {
                return Err(joined(prefix.as_str(), self.family.name(), " scenes cannot go beyond f32/f64 range"));
            }
            if let Err(message) = outcome {
                return Err(joined(prefix.as_str(), "deep location: ", message.as_str()));
            }
        }
        Ok(())
    }
}

/// One layer as its validation reads it: whether its opacity is finite and
/// in [0, 1], the iterations its accumulators skip, its detached scene where
/// it has one, and its colouring.
#[derive(Clone, Debug)]
pub struct LayerChecks {
    pub opacity_in_range: bool,
    pub skip_iterations: u32,
    pub scene: Option<LayerSceneChecks>,
    pub colouring: ColouringChecks,
}

/// The checks on the layer at `index`, in order, and the message of the
/// first that fails.
pub open spec fn layer_error(index: nat, layer: LayerChecks) -> Option<Seq<char>> {
    let prefix = layer_prefix(index);
    if !layer.opacity_in_range {
        Some(prefix + "opacity must be between 0 and 1"@)
    } else if layer.skip_iterations >= MAX_SKIP_ITERATIONS {
        Some(prefix + "skip_iterations must be below 50000"@)
    } else if layer.scene matches Some(scene) && layer_scene_error(index, scene) is Some {
        layer_scene_error(index, layer.scene->0)
    } else if spec_colouring_error(layer.colouring) is Some {
        Some(prefix + spec_colouring_error(layer.colouring)->0)
    } else {
        None
    }
}

impl LayerChecks {
    /// Accepts the layer at `index`, or refuses it with a message that names
    /// the layer.
    pub fn validate(&self, index: usize) -> (result: Result<(), String>)
        ensures
            result is Ok <==> layer_error(index as nat, *self) is None,
            result matches Err(message) ==> layer_error(index as nat, *self) == Some(message@),
    {
        let prefix = with_number("layer ", index as u64, ": ");
        if !self.opacity_in_range {
            return Err(concat(prefix.as_str(), "opacity must be between 0 and 1"));
        }
        if self.skip_iterations >= MAX_SKIP_ITERATIONS {
            return Err(concat(prefix.as_str(), "skip_iterations must be below 50000"));
        }
        if let Some(scene) = &self.scene {
            let outcome = scene.validate(index);
            if outcome.is_err() {
                return outcome;
            }
        }
        match self.colouring.validate() {
            Err(message) => Err(concat(prefix.as_str(), message.as_str())),
            Ok(()) => Ok(()),
        }
    }
}

/// The message of the first layer from `start` on that is refused, with
/// each layer checked at its own index.
pub open spec fn first_layer_error(layers: Seq<LayerChecks>, start: int) -> Option<Seq<char>>
    decreases layers.len() - start,
{
    if start < 0 || start >= layers.len() {
        None
    } else if layer_error(start as nat, layers[start]) is Some {
        layer_error(start as nat, layers[start])
    } else {
        first_layer_error(layers, start + 1)
    }
}

/// The stack's size first, then its layers bottom first.
pub open spec fn layer_stack_error(layers: Seq<LayerChecks>) -> Option<Seq<char>> {
    if layers.len() == 0 {
        Some("the layer stack needs at least one layer"@)
    } else if layers.len() > MAX_LAYERS {
        Some("at most 8 layers are supported"@)
    } else {
        first_layer_error(layers, 0)
    }
}

/// The message of the first refused layer, each checked at its own index.
pub(crate) fn first_layer_message(layers: &Vec<LayerChecks>) -> (message: Option<String>)
    ensures
        match message {
            Some(text) => first_layer_error(layers@, 0) == Some(text@),
            None => first_layer_error(layers@, 0) is None,
        },
{
    let mut index: usize = 0;
    while index < layers.len()
        invariant
            index <= layers.len(),
            first_layer_error(layers@, 0) == first_layer_error(layers@, index as int),
        decreases layers.len() - index,
    {
        if let Err(error) = layers[index].validate(index) {
            return Some(error);
        }
        index += 1;
    }
    None
}

/// Accepts a layer stack of one to [`MAX_LAYERS`] layers that are each
/// accepted at their own index, or refuses it with the first message.
pub fn validate_layer_stack(layers: &Vec<LayerChecks>) -> (result: Result<(), String>)
    ensures
        result is Ok <==> layer_stack_error(layers@) is None,
        result matches Err(message) ==> layer_stack_error(layers@) == Some(message@),
{
    if layers.len() == 0 {
        return Err("the layer stack needs at least one layer".to_owned());
    }
    if layers.len() > MAX_LAYERS {
        return Err("at most 8 layers are supported".to_owned());
    }
    match first_layer_message(layers) {
        Some(message) => Err(message),
        None => Ok(()),
    }
}


/// From `start` on, no layer is refused exactly when each is accepted at its
/// own index; and a refusal is that of the first refused layer.
#[verifier::spinoff_prover]
#[verifier::rlimit(40)]
proof fn lemma_first_layer_error(layers: Seq<LayerChecks>, start: int)
    requires
        0 <= start <= layers.len(),
    ensures
        first_layer_error(layers, start) is None <==> forall|i: int|
            start <= i < layers.len() ==> (#[trigger] layer_error(i as nat, layers[i])) is None,
        first_layer_error(layers, start) is Some ==> exists|i: int|
            start <= i < layers.len() && layer_error(i as nat, layers[i]) == first_layer_error(layers, start)
                && forall|j: int| start <= j < i ==> (#[trigger] layer_error(j as nat, layers[j])) is None,
    decreases layers.len() - start,
{
    if start < layers.len() {
        lemma_first_layer_error(layers, start + 1);
        if first_layer_error(layers, start + 1) is Some && layer_error(start as nat, layers[start]) is None {
            let i = choose|i: int|
                start + 1 <= i < layers.len() && layer_error(i as nat, layers[i]) == first_layer_error(layers, start + 1)
                    && forall|j: int| start + 1 <= j < i ==> (#[trigger] layer_error(j as nat, layers[j])) is None;
            assert(forall|j: int| start <= j < i ==> (#[trigger] layer_error(j as nat, layers[j])) is None);
        }
    }
}

/// A layer stack is accepted exactly when it holds one to [`MAX_LAYERS`]
/// layers and each layer is accepted at its own index; a stack of a valid
/// size that is refused gets the message of its lowest refused layer.
pub proof fn layer_stacks_are_accepted_exactly_when_every_layer_is(layers: Seq<LayerChecks>)
    ensures
        layer_stack_error(layers) is None <==> {
            &&& 1 <= layers.len() <= MAX_LAYERS
            &&& forall|i: int| 0 <= i < layers.len() ==> (#[trigger] layer_error(i as nat, layers[i])) is None
        },
        1 <= layers.len() <= MAX_LAYERS && layer_stack_error(layers) is Some ==> exists|i: int|
            0 <= i < layers.len() && layer_error(i as nat, layers[i]) == layer_stack_error(layers)
                && forall|j: int| 0 <= j < i ==> (#[trigger] layer_error(j as nat, layers[j])) is None,
{
    lemma_first_layer_error(layers, 0);
}

/// Every message that refuses the layer at `index` begins with
/// `layer {index}: `, so that a refusal names the layer it is about.
pub proof fn layer_refusals_name_the_layer(index: nat, layer: LayerChecks)
    ensures
        layer_error(index, layer) matches Some(message) ==> {
            &&& layer_prefix(index).len() <= message.len()
            &&& message.subrange(0, layer_prefix(index).len() as int) == layer_prefix(index)
        },
{
    let prefix = layer_prefix(index);
    if let Some(message) = layer_error(index, layer) {
        if let Some(scene) = layer.scene {
            if layer_scene_error(index, scene) is Some {
                if let Some(parameters) = scene.family_parameters {
                    if let Some(error) = spec_family_parameters_error(parameters) {
                        assert((prefix + "family_parameters: "@ + error).subrange(0, prefix.len() as int) =~= prefix);
                    }
                }
                if let Some(Err(error)) = scene.deep_location {
                    assert((prefix + "deep location: "@ + error@).subrange(0, prefix.len() as int) =~= prefix);
                }
                assert((prefix + scene.family.spec_name() + " scenes cannot go beyond f32/f64 range"@).subrange(
                    0,
                    prefix.len() as int,
                ) =~= prefix);
            }
        }
        assert(message.subrange(0, prefix.len() as int) =~= prefix);
    }
}

} // verus!
