//! Experiment documents: the rules a versioned document must satisfy before
//! an experiment is restored from it.
//!
//! The checks on real-valued fields (finite coordinates, plane sizes, the
//! escape radius, the palette phase, and those inside colourings and layers)
//! and the parses of deep decimal coordinates arrive as their outcomes in
//! [`DocumentChecks`]; which rule applies, in which order, and what a
//! refused document is told is decided here.

use vstd::prelude::*;

use crate::arbitrary::MAX_DECIMAL_ZOOM_EXPONENT;
use crate::colouring::{
    first_layer_error, first_layer_message, spec_colouring_error, ColouringChecks, LayerChecks, MAX_LAYERS,
};
use crate::family::{
    spec_family_of_document_id, spec_family_parameters_error, FamilyParameterChecks,
    FractalFamily, Linkage,
};
use crate::text::{
    chars_equal, chars_of, concat, debug_quoted, joined, number_text, quoted, spec_decimal, with_number,
};

verus! {

/// The newest document format version.
pub const FORMAT_VERSION: u32 = 7;

/// The default of display switches that older documents leave out.
pub fn default_true() -> (value: bool)
    ensures
        value,
{
    true
}

/// Whether an exponent holds its default, so that a document leaves it out.
pub fn is_zero(value: &u32) -> (zero: bool)
    ensures
        zero == (*value == 0),
{
    *value == 0
}

/// Outcome of the checks on a plane: a finite centre, and a half-height that
/// is finite and between 1e-14 and 1e6.
#[derive(Clone, Copy, Debug, PartialEq, Eq, Structural)]
pub enum PlaneCheck {
    Valid,
    CentreNotFinite,
    HalfHeightOutOfRange,
}

/// A document as its validation reads it. `Option` fields are `None` where
/// the document leaves the entry out; a present point holds whether its
/// coordinates are finite, a present colouring, layer stack or family
/// settings their own checks, and a present deep location the outcome of
/// parsing it.
#[derive(Debug)]
pub struct DocumentChecks {
    pub format: String,
    pub version: u32,
    pub family: String,
    pub parameter_plane: PlaneCheck,
    pub dynamical_plane: PlaneCheck,
    pub parameter_c_finite: bool,
    pub newton_initial_z: Option<bool>,
    pub initial_z: Option<bool>,
    pub iterations: u32,
    /// Escape radius finite and between 2 and 1e10.
    pub bailout_in_range: bool,
    pub colouring: Option<ColouringChecks>,
    pub layers: Option<Vec<LayerChecks>>,
    /// Palette phase finite and between -1 and 1.
    pub palette_phase_in_range: bool,
    pub progressive_julia_zoom_target_exponent: u32,
    pub family_parameters: Option<FamilyParameterChecks>,
    pub deep_parameter_plane: Option<Result<(), String>>,
    pub deep_dynamical_plane: Option<Result<(), String>>,
    pub deep_parameter_c: Option<Result<(), String>>,
}

/// The first of two outcomes that is an error.
pub open spec fn first_error(first: Option<Seq<char>>, then: Option<Seq<char>>) -> Option<Seq<char>> {
    if first is Some {
        first
    } else {
        then
    }
}

/// The message of a failed nested check, behind `prefix`.
pub open spec fn nested_error(prefix: Seq<char>, outcome: Option<Result<(), String>>) -> Option<Seq<char>> {
    match outcome {
        Some(Err(message)) => Some(prefix + message@),
        _ => None,
    }
}

pub open spec fn plane_error(name: Seq<char>, check: PlaneCheck) -> Option<Seq<char>> {
    match check {
        PlaneCheck::Valid => None,
        PlaneCheck::CentreNotFinite => Some(name + ".centre coordinates must be finite"@),
        PlaneCheck::HalfHeightOutOfRange => Some(
            name + ".half_height must be finite and between 1e-14 and 1e6"@,
        ),
    }
}

pub open spec fn point_error(name: Seq<char>, finite: Option<bool>) -> Option<Seq<char>> {
    if finite == Some(false) {
        Some(name + " coordinates must be finite"@)
    } else {
        None
    }
}

/// The format identifier, the version and the family name.
pub open spec fn header_error(checks: DocumentChecks) -> Option<Seq<char>> {
    if checks.format@ != "iterascope-experiment"@ {
        Some("unsupported document format "@ + debug_quoted(checks.format@))
    } else if !(1 <= checks.version <= FORMAT_VERSION) {
        Some(
            "unsupported document version "@ + spec_decimal(checks.version as nat)
                + "; supported versions are 1 through 7"@,
        )
    } else if spec_family_of_document_id(checks.family@) is None {
        Some("unsupported fractal family "@ + debug_quoted(checks.family@))
    } else {
        None
    }
}

/// Planes and points, in document order.
pub open spec fn coordinates_error(checks: DocumentChecks) -> Option<Seq<char>> {
    first_error(
        plane_error("parameter_plane"@, checks.parameter_plane),
        first_error(
            plane_error("dynamical_plane"@, checks.dynamical_plane),
            first_error(
                point_error("parameter_c"@, Some(checks.parameter_c_finite)),
                first_error(
                    point_error("newton_initial_z"@, checks.newton_initial_z),
                    point_error("initial_z"@, checks.initial_z),
                ),
            ),
        ),
    )
}

/// The iteration budget and the escape radius.
pub open spec fn computation_error(checks: DocumentChecks, family: FractalFamily) -> Option<Seq<char>> {
    if !(family.spec_min_iterations() <= checks.iterations <= family.spec_max_iterations()) {
        Some(
            "iterations must be between "@ + spec_decimal(family.spec_min_iterations() as nat)
                + " and "@ + spec_decimal(family.spec_max_iterations() as nat),
        )
    } else if !checks.bailout_in_range {
        Some("bailout must be finite and between 2 and 1e10"@)
    } else {
        None
    }
}

/// A single-layer colouring: valid itself, and not older than version 5.
pub open spec fn colouring_error(checks: DocumentChecks) -> Option<Seq<char>> {
    match checks.colouring {
        None => None,
        Some(colouring) => match spec_colouring_error(colouring) {
            Some(message) => Some("colouring: "@ + message),
            None => if checks.version < 5 {
                Some("colouring requires document version 5"@)
            } else {
                None
            },
        },
    }
}

/// Whether some layer of the stack carries a detached scene.
pub open spec fn any_scene(layers: Seq<LayerChecks>) -> bool {
    exists|i: int| 0 <= i < layers.len() && (#[trigger] layers[i]).scene is Some
}

/// A layer stack: its size, its layers, their version and no colouring
/// beside it.
pub open spec fn layers_error(checks: DocumentChecks) -> Option<Seq<char>> {
    match checks.layers {
        None => None,
        Some(layers) => {
            let stack = layers@;
            if stack.len() == 0 || stack.len() > MAX_LAYERS {
                Some("layers must hold between 1 and 8 layers"@)
            } else if first_layer_error(stack, 0) is Some {
                first_layer_error(stack, 0)
            } else if checks.version < 6 {
                Some("layers require document version 6"@)
            } else if checks.version < 7 && any_scene(stack) {
                Some("per-layer scenes require document version 7"@)
            } else if checks.colouring is Some {
                Some("a document records either layers or colouring, not both"@)
            } else {
                None
            }
        },
    }
}

/// Whether the document carries arbitrary-precision state.
pub open spec fn has_deep_state(checks: DocumentChecks) -> bool {
    ||| checks.progressive_julia_zoom_target_exponent != 0
    ||| checks.deep_parameter_plane is Some
    ||| checks.deep_dynamical_plane is Some
    ||| checks.deep_parameter_c is Some
}

/// The palette phase, the deep-zoom target and where deep state may appear.
pub open spec fn display_error(checks: DocumentChecks, family: FractalFamily) -> Option<Seq<char>> {
    if !checks.palette_phase_in_range {
        Some("palette_phase must be finite and between -1 and 1"@)
    } else if checks.progressive_julia_zoom_target_exponent > MAX_DECIMAL_ZOOM_EXPONENT {
        Some("progressive_julia_zoom_target_exponent must be between 0 and 5000"@)
    } else if family.spec_f32_only() && has_deep_state(checks) {
        Some(
            "deep arbitrary-precision state is not valid for "@ + family.spec_name()
                + " experiments"@,
        )
    } else {
        None
    }
}

/// The selected points each instrument records.
pub open spec fn points_error(checks: DocumentChecks, family: FractalFamily) -> Option<Seq<char>> {
    let newton = family == FractalFamily::NewtonCubic;
    let uses_initial_z = !newton && family.spec_linkage() == Linkage::OverviewDetail;
    if newton && checks.newton_initial_z is None {
        Some("Newton experiments require newton_initial_z"@)
    } else if !newton && checks.newton_initial_z is Some {
        Some("newton_initial_z is only valid for Newton experiments"@)
    } else if uses_initial_z && checks.initial_z is None {
        Some(family.spec_name() + " experiments require initial_z"@)
    } else if !uses_initial_z && checks.initial_z is Some {
        Some("initial_z is only valid for overview/detail experiments"@)
    } else {
        None
    }
}

/// Family settings: only for families that have them, and in range.
pub open spec fn parameters_error(checks: DocumentChecks, family: FractalFamily) -> Option<Seq<char>> {
    match checks.family_parameters {
        None => None,
        Some(parameters) => if !family.spec_has_family_parameters() {
            Some(
                "family_parameters are not valid for "@ + family.spec_name() + " experiments"@,
            )
        } else {
            match spec_family_parameters_error(parameters) {
                Some(message) => Some("family_parameters: "@ + message),
                None => None,
            }
        },
    }
}

/// The deep planes and parameter, each parsed at its own precision.
pub open spec fn deep_error(checks: DocumentChecks) -> Option<Seq<char>> {
    first_error(
        nested_error("deep_parameter_plane: "@, checks.deep_parameter_plane),
        first_error(
            nested_error("deep_dynamical_plane: "@, checks.deep_dynamical_plane),
            nested_error("deep_parameter_c: "@, checks.deep_parameter_c),
        ),
    )
}

/// What older format versions cannot record.
pub open spec fn version_error(checks: DocumentChecks, family: FractalFamily) -> Option<Seq<char>> {
    if checks.version == 1 && has_deep_state(checks) {
        Some("deep arbitrary-precision state requires document version 2"@)
    } else if checks.version < 3 && checks.newton_initial_z is Some {
        Some("Newton state requires document version 3"@)
    } else if checks.version < 4 && (!(family == FractalFamily::Quadratic || family
        == FractalFamily::NewtonCubic) || checks.initial_z is Some
        || checks.family_parameters is Some) {
        Some(family.spec_name() + " experiments require document version 4"@)
    } else {
        None
    }
}

/// The message a document is refused with, or `None` when it is accepted:
/// the first rule it breaks, in the order the rules are listed here.
pub open spec fn document_error(checks: DocumentChecks) -> Option<Seq<char>> {
    let family = spec_family_of_document_id(checks.family@)->0;
    first_error(
        header_error(checks),
        first_error(
            coordinates_error(checks),
            first_error(
                computation_error(checks, family),
                first_error(
                    colouring_error(checks),
                    first_error(
                        layers_error(checks),
                        first_error(
                            display_error(checks, family),
                            first_error(
                                points_error(checks, family),
                                first_error(
                                    parameters_error(checks, family),
                                    first_error(deep_error(checks), version_error(checks, family)),
                                ),
                            ),
                        ),
                    ),
                ),
            ),
        ),
    )
}

/// The view of an optional message.
pub open spec fn message_view(message: Option<String>) -> Option<Seq<char>> {
    match message {
        Some(text) => Some(text@),
        None => None,
    }
}

fn header_message(checks: &DocumentChecks) -> (message: Option<String>)
    ensures
        message_view(message) == header_error(*checks),
{
    if !chars_equal(&chars_of(checks.format.as_str()), &chars_of("iterascope-experiment")) {
        return Some(concat("unsupported document format ", quoted(checks.format.as_str()).as_str()));
    }
    if !(1 <= checks.version && checks.version <= FORMAT_VERSION) {
        return Some(
            with_number(
                "unsupported document version ",
                checks.version as u64,
                "; supported versions are 1 through 7",
            ),
        );
    }
    if FractalFamily::from_document_id(checks.family.as_str()).is_none() {
        return Some(concat("unsupported fractal family ", quoted(checks.family.as_str()).as_str()));
    }
    None
}

fn plane_message(name: &str, check: PlaneCheck) -> (message: Option<String>)
    ensures
        message_view(message) == plane_error(name@, check),
{
    match check {
        PlaneCheck::Valid => None,
        PlaneCheck::CentreNotFinite => Some(concat(name, ".centre coordinates must be finite")),
        PlaneCheck::HalfHeightOutOfRange => Some(
            concat(name, ".half_height must be finite and between 1e-14 and 1e6"),
        ),
    }
}

fn point_message(name: &str, finite: Option<bool>) -> (message: Option<String>)
    ensures
        message_view(message) == point_error(name@, finite),
{
    if finite == Some(false) {
        Some(concat(name, " coordinates must be finite"))
    } else {
        None
    }
}

fn coordinates_message(checks: &DocumentChecks) -> (message: Option<String>)
    ensures
        message_view(message) == coordinates_error(*checks),
{
    let parameter_plane = plane_message("parameter_plane", checks.parameter_plane);
    if parameter_plane.is_some() {
        return parameter_plane;
    }
    let dynamical_plane = plane_message("dynamical_plane", checks.dynamical_plane);
    if dynamical_plane.is_some() {
        return dynamical_plane;
    }
    let parameter_c = point_message("parameter_c", Some(checks.parameter_c_finite));
    if parameter_c.is_some() {
        return parameter_c;
    }
    let newton = point_message("newton_initial_z", checks.newton_initial_z);
    if newton.is_some() {
        return newton;
    }
    point_message("initial_z", checks.initial_z)
}

fn computation_message(checks: &DocumentChecks, family: FractalFamily) -> (message: Option<String>)
    ensures
        message_view(message) == computation_error(*checks, family),
{
    let minimum = family.min_iterations();
    let maximum = family.max_iterations();
    if !(minimum <= checks.iterations && checks.iterations <= maximum) {
        let lower = with_number("iterations must be between ", minimum as u64, " and ");
        return Some(number_text(lower.as_str(), maximum as u64));
    }
    if !checks.bailout_in_range {
        return Some("bailout must be finite and between 2 and 1e10".to_owned());
    }
    None
}

fn colouring_message(checks: &DocumentChecks) -> (message: Option<String>)
    ensures
        message_view(message) == colouring_error(*checks),
{
    match &checks.colouring {
        None => None,
        Some(colouring) => match colouring.validate() {
            Err(error) => Some(concat("colouring: ", error.as_str())),
            Ok(()) => if checks.version < 5 {
                Some("colouring requires document version 5".to_owned())
            } else {
                None
            },
        },
    }
}

fn any_layer_scene(layers: &Vec<LayerChecks>) -> (found: bool)
    ensures
        found == any_scene(layers@),
{
    let mut index: usize = 0;
    while index < layers.len()
        invariant
            index <= layers.len(),
            forall|i: int| 0 <= i < index ==> (#[trigger] layers@[i]).scene is None,
        decreases layers.len() - index,
    {
        if layers[index].scene.is_some() {
            return true;
        }
        index += 1;
    }
    false
}

fn layers_message(checks: &DocumentChecks) -> (message: Option<String>)
    ensures
        message_view(message) == layers_error(*checks),
{
    match &checks.layers {
        None => None,
        Some(layers) => {
            if layers.len() == 0 || layers.len() > MAX_LAYERS {
                return Some("layers must hold between 1 and 8 layers".to_owned());
            }
            let layer = first_layer_message(layers);
            if layer.is_some() {
                return layer;
            }
            if checks.version < 6 {
                return Some("layers require document version 6".to_owned());
            }
            if checks.version < 7 && any_layer_scene(layers) {
                return Some("per-layer scenes require document version 7".to_owned());
            }
            if checks.colouring.is_some() {
                return Some("a document records either layers or colouring, not both".to_owned());
            }
            None
        },
    }
}

fn deep_state_present(checks: &DocumentChecks) -> (present: bool)
    ensures
        present == has_deep_state(*checks),
{
    checks.progressive_julia_zoom_target_exponent != 0 || checks.deep_parameter_plane.is_some()
        || checks.deep_dynamical_plane.is_some() || checks.deep_parameter_c.is_some()
}

fn display_message(checks: &DocumentChecks, family: FractalFamily) -> (message: Option<String>)
    ensures
        message_view(message) == display_error(*checks, family),
{
    if !checks.palette_phase_in_range {
        return Some("palette_phase must be finite and between -1 and 1".to_owned());
    }
    if checks.progressive_julia_zoom_target_exponent > MAX_DECIMAL_ZOOM_EXPONENT {
        return Some("progressive_julia_zoom_target_exponent must be between 0 and 5000".to_owned());
    }
    if !family.supports_deep_zoom() && deep_state_present(checks) {
        return Some(joined("deep arbitrary-precision state is not valid for ", family.name(), " experiments"));
    }
    None
}

fn points_message(checks: &DocumentChecks, family: FractalFamily) -> (message: Option<String>)
    ensures
        message_view(message) == points_error(*checks, family),
{
    let newton = family.is_newton();
    let uses_initial_z = !newton && family.linkage() == Linkage::OverviewDetail;
    if newton && checks.newton_initial_z.is_none() {
        return Some("Newton experiments require newton_initial_z".to_owned());
    }
    if !newton && checks.newton_initial_z.is_some() {
        return Some("newton_initial_z is only valid for Newton experiments".to_owned());
    }
    if uses_initial_z && checks.initial_z.is_none() {
        return Some(concat(family.name(), " experiments require initial_z"));
    }
    if !uses_initial_z && checks.initial_z.is_some() {
        return Some("initial_z is only valid for overview/detail experiments".to_owned());
    }
    None
}

fn parameters_message(checks: &DocumentChecks, family: FractalFamily) -> (message: Option<String>)
    ensures
        message_view(message) == parameters_error(*checks, family),
{
    match &checks.family_parameters {
        None => None,
        Some(parameters) => {
            if !family.has_family_parameters() {
                return Some(joined("family_parameters are not valid for ", family.name(), " experiments"));
            }
            match parameters.validate() {
                Err(error) => Some(concat("family_parameters: ", error.as_str())),
                Ok(()) => None,
            }
        },
    }
}

fn nested_message(prefix: &str, outcome: &Option<Result<(), String>>) -> (message: Option<String>)
    ensures
        message_view(message) == nested_error(prefix@, *outcome),
{
    match outcome {
        Some(Err(error)) => Some(concat(prefix, error.as_str())),
        _ => None,
    }
}

fn deep_message(checks: &DocumentChecks) -> (message: Option<String>)
    ensures
        message_view(message) == deep_error(*checks),
{
    let parameter_plane = nested_message("deep_parameter_plane: ", &checks.deep_parameter_plane);
    if parameter_plane.is_some() {
        return parameter_plane;
    }
    let dynamical_plane = nested_message("deep_dynamical_plane: ", &checks.deep_dynamical_plane);
    if dynamical_plane.is_some() {
        return dynamical_plane;
    }
    nested_message("deep_parameter_c: ", &checks.deep_parameter_c)
}

fn version_message(checks: &DocumentChecks, family: FractalFamily) -> (message: Option<String>)
    ensures
        message_view(message) == version_error(*checks, family),
{
    if checks.version == 1 && deep_state_present(checks) {
        return Some("deep arbitrary-precision state requires document version 2".to_owned());
    }
    if checks.version < 3 && checks.newton_initial_z.is_some() {
        return Some("Newton state requires document version 3".to_owned());
    }
    if checks.version < 4 && (!(family.is_quadratic() || family.is_newton()) || checks.initial_z.is_some()
        || checks.family_parameters.is_some()) {
        return Some(concat(family.name(), " experiments require document version 4"));
    }
    None
}

impl DocumentChecks {
    /// Accepts the document, or refuses it with the message of the first
    /// rule it breaks.
    pub fn validate(&self) -> (result: Result<(), String>)
        ensures
            result is Ok <==> document_error(*self) is None,
            result matches Err(message) ==> document_error(*self) == Some(message@),
    {
        let header = header_message(self);
        if let Some(message) = header {
            return Err(message);
        }
        let family = FractalFamily::from_document_id(self.family.as_str()).unwrap();
        let coordinates = coordinates_message(self);
        if let Some(message) = coordinates {
            return Err(message);
        }
        let computation = computation_message(self, family);
        if let Some(message) = computation {
            return Err(message);
        }
        let colouring = colouring_message(self);
        if let Some(message) = colouring {
            return Err(message);
        }
        let layers = layers_message(self);
        if let Some(message) = layers {
            return Err(message);
        }
        let display = display_message(self, family);
        if let Some(message) = display {
            return Err(message);
        }
        let points = points_message(self, family);
        if let Some(message) = points {
            return Err(message);
        }
        let parameters = parameters_message(self, family);
        if let Some(message) = parameters {
            return Err(message);
        }
        let deep = deep_message(self);
        if let Some(message) = deep {
            return Err(message);
        }
        let version = version_message(self, family);
        if let Some(message) = version {
            return Err(message);
        }
        Ok(())
    }
}

/// What every accepted document holds: a known family at a supported
/// format version, an iteration budget inside that family's range, a Newton
/// starting point exactly for Newton documents, deep arbitrary-precision
/// state only for families with a reference orbit, a colouring only from
/// version 5, and a layer stack only from version 6 and never beside a
/// colouring.
pub proof fn accepted_documents_are_consistent(checks: DocumentChecks)
    requires
        document_error(checks) is None,
    ensures
        spec_family_of_document_id(checks.family@) is Some,
        1 <= checks.version <= FORMAT_VERSION,
        ({
            let family = spec_family_of_document_id(checks.family@)->0;
            &&& family.spec_min_iterations() <= checks.iterations <= family.spec_max_iterations()
            &&& (family == FractalFamily::NewtonCubic) == (checks.newton_initial_z is Some)
            &&& has_deep_state(checks) ==> !family.spec_f32_only()
        }),
        checks.colouring is Some ==> checks.version >= 5,
        checks.layers is Some ==> checks.version >= 6 && checks.colouring is None,
{
}

/// Arbitrary-precision state appears only where it is allowed: an accepted
/// document of an `f32`-only family, or of format version 1, has no deep zoom
/// target, no deep parameter plane, no deep dynamical plane and no deep
/// parameter.
pub proof fn accepted_documents_hold_deep_state_only_where_allowed(checks: DocumentChecks)
    requires
        document_error(checks) is None,
    ensures
        spec_family_of_document_id(checks.family@)->0.spec_f32_only() || checks.version == 1 ==> {
            &&& checks.progressive_julia_zoom_target_exponent == 0
            &&& checks.deep_parameter_plane is None
            &&& checks.deep_dynamical_plane is None
            &&& checks.deep_parameter_c is None
        },
{
}

/// What an accepted document records follows its instrument and its format
/// version: a selected initial `z` exactly for the non-Newton
/// overview/detail instruments; family settings only for families that have
/// them, and then valid; Newton state only from version 3; and every
/// instrument other than the quadratic and Newton ones, initial points and
/// family settings only from version 4.
pub proof fn accepted_documents_record_what_their_instrument_and_version_allow(checks: DocumentChecks)
    requires
        document_error(checks) is None,
    ensures
        ({
            let family = spec_family_of_document_id(checks.family@)->0;
            &&& (checks.initial_z is Some) <==> (family != FractalFamily::NewtonCubic && family.spec_linkage()
                == Linkage::OverviewDetail)
            &&& checks.family_parameters matches Some(parameters) ==> family.spec_has_family_parameters()
                && spec_family_parameters_error(parameters) is None
            &&& checks.newton_initial_z is Some ==> checks.version >= 3
            &&& checks.version < 4 ==> (family == FractalFamily::Quadratic || family == FractalFamily::NewtonCubic)
                && checks.initial_z is None && checks.family_parameters is None
        }),
{
}

} // verus!
