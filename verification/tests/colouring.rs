use iterascope::arbitrary::DeepComplex;
use iterascope::colouring::{
    upload_plan, validate_layer_stack, ColouringAlgorithm, ColouringChecks, ColouringSideChecks,
    Interpolation, LayerChecks, LayerNeeds, LayerSceneChecks, LayerStack, MergeMode,
    RandomSequence, Transfer, TrapShape, MAX_LAYERS, STATS_SLOTS,
};
use iterascope::family::{FamilyParameterChecks, FractalFamily};

#[derive(Clone, Debug, PartialEq)]
struct Layer {
    name: String,
}

impl Default for Layer {
    fn default() -> Self {
        Layer { name: "Layer".to_owned() }
    }
}

fn named(name: &str) -> Layer {
    Layer { name: name.to_owned() }
}

fn names(stack: &LayerStack<Layer>) -> Vec<&str> {
    stack.layers().iter().map(|layer| layer.name.as_str()).collect()
}

/// A colouring side whose settings are all in range.
fn side() -> ColouringSideChecks {
    ColouringSideChecks {
        density_in_range: true,
        offset_finite: true,
        sectors: 0,
        stripe_frequency_in_range: true,
        trap_in_range: true,
        shading_in_range: true,
        solid_in_range: true,
    }
}

/// The default colouring: a five-stop gradient and two valid sides.
fn colouring() -> ColouringChecks {
    ColouringChecks {
        stop_count: 5,
        stops_in_range: true,
        rotation_finite: true,
        outside: side(),
        inside: side(),
    }
}

/// A default layer, sharing the image's scene.
fn layer_checks() -> LayerChecks {
    LayerChecks {
        opacity_in_range: true,
        skip_iterations: 0,
        scene: None,
        colouring: colouring(),
    }
}

/// The default detached scene: the quadratic Julia set, 256 iterations.
fn scene(family: FractalFamily) -> LayerSceneChecks {
    LayerSceneChecks {
        family,
        coordinates_finite: true,
        half_height_in_range: true,
        iterations: 256,
        bailout_in_range: true,
        family_parameters: None,
        deep_location: None,
    }
}

#[test]
fn layer_stack_guards_its_shape() {
    let mut stack = LayerStack::<Layer>::from_layers(Vec::new());
    assert_eq!(stack.layers().len(), 1);
    stack.select(7);
    assert_eq!(stack.active_layer_mut().name, "Layer");
    assert_eq!(stack.active_index(), 0);
    let mut full = LayerStack::from_layers(vec![Layer::default(); MAX_LAYERS]);
    full.push_layer(Layer::default());
    full.insert_above_active(Layer::default());
    assert_eq!(full.layers().len(), MAX_LAYERS);
    let stack = LayerStack::from_layers(vec![Layer::default(); MAX_LAYERS + 2]);
    assert_eq!(stack.layers().len(), MAX_LAYERS);
    let single = LayerStack::<Layer>::default();
    assert_eq!(single.layers().len(), 1);
    assert_eq!(single.active_index(), 0);
    assert!(validate_layer_stack(&vec![layer_checks(); MAX_LAYERS + 2]).is_err());
    assert_eq!(validate_layer_stack(&vec![layer_checks(); MAX_LAYERS]), Ok(()));
}

#[test]
fn skip_iterations_stay_below_fifty_thousand() {
    let mut mask = layer_checks();
    mask.skip_iterations = 250;
    let mut stack = vec![layer_checks(), mask];
    assert_eq!(validate_layer_stack(&stack), Ok(()));
    stack[1].skip_iterations = 60_000;
    assert_eq!(
        validate_layer_stack(&stack),
        Err("layer 1: skip_iterations must be below 50000".to_owned())
    );
    stack[1].skip_iterations = 49_999;
    assert_eq!(validate_layer_stack(&stack), Ok(()));
}

#[test]
fn deep_scene_locations_round_trip_and_validate() {
    let location = DeepComplex::parse("-7.45e-1", "1.13e-1", 240).map(|_| ());
    let mut quadratic = scene(FractalFamily::Quadratic);
    quadratic.deep_location = Some(location);
    assert_eq!(quadratic.validate(0), Ok(()));

    // A corrupt decimal fails validation with the layer index.
    quadratic.deep_location = Some(DeepComplex::parse("not a number", "1.13e-1", 240).map(|_| ()));
    let error = quadratic.validate(3).unwrap_err();
    assert!(error.contains("layer 3"), "{error}");
    assert!(error.starts_with("layer 3: deep location: "), "{error}");

    // Families without deep-zoom support cannot carry deep locations.
    let mut shallow = scene(FractalFamily::Exponential);
    shallow.deep_location = Some(DeepComplex::parse("0", "0", 60).map(|_| ()));
    assert_eq!(
        shallow.validate(0),
        Err("layer 0: Exponential scenes cannot go beyond f32/f64 range".to_owned())
    );
    shallow.deep_location = None;
    assert_eq!(shallow.validate(0), Ok(()));
}

#[test]
fn colouring_refusals_follow_the_checking_order() {
    assert_eq!(colouring().validate(), Ok(()));
    let mut empty = colouring();
    empty.stop_count = 0;
    empty.rotation_finite = false;
    assert_eq!(empty.validate(), Err("gradient needs at least one stop".to_owned()));
    let mut crowded = colouring();
    crowded.stop_count = 4097;
    assert_eq!(crowded.validate(), Err("gradient has too many stops (maximum 4096)".to_owned()));
    crowded.stop_count = 4096;
    assert_eq!(crowded.validate(), Ok(()));
    let mut stops = colouring();
    stops.stops_in_range = false;
    assert_eq!(
        stops.validate(),
        Err("gradient stops need finite positions and colours between 0 and 1".to_owned())
    );
    let mut rotation = colouring();
    rotation.rotation_finite = false;
    assert_eq!(rotation.validate(), Err("gradient rotation must be finite".to_owned()));
    let mut sides = colouring();
    sides.inside.shading_in_range = false;
    assert_eq!(sides.validate(), Err("inside.shading must be between 0 and 1".to_owned()));
    sides.outside.sectors = 4097;
    assert_eq!(sides.validate(), Err("outside.sectors must be at most 4096".to_owned()));
}

#[test]
fn colouring_side_refusals_name_the_side() {
    let expected = [
        "outside.density must be finite and between 1e-6 and 1e6",
        "outside.offset must be finite",
        "outside.sectors must be at most 4096",
        "outside.stripe_frequency must be between 0 and 1000",
        "outside.trap_centre and trap_size must be finite and non-negative",
        "outside.shading must be between 0 and 1",
        "outside.solid components must be between 0 and 1",
    ];
    for (k, message) in expected.iter().enumerate() {
        let mut checks = side();
        match k {
            0 => checks.density_in_range = false,
            1 => checks.offset_finite = false,
            2 => checks.sectors = 5000,
            3 => checks.stripe_frequency_in_range = false,
            4 => checks.trap_in_range = false,
            5 => checks.shading_in_range = false,
            _ => checks.solid_in_range = false,
        }
        assert_eq!(checks.validate("outside"), Err(message.to_string()));
    }
    let mut checks = side();
    checks.sectors = 4096;
    assert_eq!(checks.validate("inside"), Ok(()));
}

#[test]
fn scene_refusals_name_the_layer_and_the_setting() {
    let mut coordinates = scene(FractalFamily::Quadratic);
    coordinates.coordinates_finite = false;
    coordinates.iterations = 0;
    assert_eq!(
        coordinates.validate(2),
        Err("layer 2: scene coordinates must be finite".to_owned())
    );
    let mut height = scene(FractalFamily::Quadratic);
    height.half_height_in_range = false;
    let smallest = format!("{:.3e}", 1.45f64 / 1.14e14);
    assert_eq!(
        height.validate(12),
        Err(format!(
            "layer 12: scene half_height must be between {smallest} and 1e6 (detached layers stop at the arbitrary-precision handoff)"
        ))
    );
    let mut iterations = scene(FractalFamily::Quadratic);
    iterations.iterations = 50_001;
    assert_eq!(
        iterations.validate(0),
        Err("layer 0: scene iterations must be between 1 and 50000".to_owned())
    );
    iterations.iterations = 50_000;
    assert_eq!(iterations.validate(0), Ok(()));
    let mut bailout = scene(FractalFamily::Quadratic);
    bailout.bailout_in_range = false;
    assert_eq!(
        bailout.validate(1),
        Err("layer 1: scene bailout must be between 2 and 1e10".to_owned())
    );
    let mut nova = scene(FractalFamily::Nova);
    nova.family_parameters = Some(FamilyParameterChecks {
        degree: 9,
        nova_relaxation_in_range: true,
        lyapunov_sequence: "AB".to_owned(),
        mandelbox_scale_in_range: true,
        mandelbox_min_radius_in_range: true,
        mandelbox_fixed_radius_in_range: true,
    });
    assert_eq!(
        nova.validate(4),
        Err("layer 4: family_parameters: degree must be between 2 and 8".to_owned())
    );
}

#[test]
fn layer_refusals_put_the_layer_before_the_colouring_message() {
    let mut opaque = layer_checks();
    opaque.opacity_in_range = false;
    opaque.skip_iterations = 60_000;
    assert_eq!(opaque.validate(5), Err("layer 5: opacity must be between 0 and 1".to_owned()));
    let mut coloured = layer_checks();
    coloured.colouring.outside.offset_finite = false;
    assert_eq!(
        coloured.validate(7),
        Err("layer 7: outside.offset must be finite".to_owned())
    );
    let mut detached = layer_checks();
    let mut bad_scene = scene(FractalFamily::Quadratic);
    bad_scene.bailout_in_range = false;
    detached.scene = Some(bad_scene);
    detached.colouring.stop_count = 0;
    assert_eq!(
        detached.validate(1),
        Err("layer 1: scene bailout must be between 2 and 1e10".to_owned())
    );
    assert_eq!(
        validate_layer_stack(&Vec::new()),
        Err("the layer stack needs at least one layer".to_owned())
    );
    assert_eq!(
        validate_layer_stack(&vec![layer_checks(); MAX_LAYERS + 1]),
        Err("at most 8 layers are supported".to_owned())
    );
    assert_eq!(
        validate_layer_stack(&vec![layer_checks(), coloured.clone(), detached]),
        Err("layer 1: outside.offset must be finite".to_owned())
    );
}

#[test]
fn swapping_layers_keeps_the_active_layer_selected() {
    let mut stack = LayerStack::from_layers(vec![named("a"), named("b"), named("c")]);
    stack.select(2);
    stack.swap_layers(2, 1);
    assert_eq!(names(&stack), vec!["a", "c", "b"]);
    assert_eq!(stack.active_index(), 1);
    assert_eq!(stack.active_layer().name, "c");
    stack.swap_layers(0, 2);
    assert_eq!(names(&stack), vec!["b", "c", "a"]);
    assert_eq!(stack.active_index(), 1);
    stack.swap_layers(1, 1);
    assert_eq!(names(&stack), vec!["b", "c", "a"]);
}

#[test]
fn removing_layers_never_empties_the_stack() {
    let mut stack = LayerStack::from_layers(vec![named("a"), named("b"), named("c")]);
    stack.select(2);
    stack.remove_layer(0);
    assert_eq!(names(&stack), vec!["b", "c"]);
    assert_eq!(stack.active_index(), 1);
    stack.remove_layer(1);
    assert_eq!(names(&stack), vec!["b"]);
    assert_eq!(stack.active_index(), 0);
    stack.remove_layer(0);
    assert_eq!(names(&stack), vec!["b"]);
}

#[test]
fn new_layers_land_above_and_become_active() {
    let mut stack = LayerStack::single(named("base"));
    stack.push_layer(named("top"));
    assert_eq!(stack.active_index(), 1);
    stack.select(0);
    stack.insert_above_active(named("copy"));
    assert_eq!(names(&stack), vec!["base", "copy", "top"]);
    assert_eq!(stack.active_index(), 1);
    stack.active_layer_mut().name.push_str(" 2");
    assert_eq!(names(&stack), vec!["base", "copy 2", "top"]);
}

#[test]
fn catalogue_codes_index_the_lists() {
    for (index, algorithm) in ColouringAlgorithm::ALL.into_iter().enumerate() {
        assert_eq!(algorithm.code(), index as u32);
    }
    for (index, transfer) in Transfer::ALL.into_iter().enumerate() {
        assert_eq!(transfer.code(), index as u32);
    }
    for (index, shape) in TrapShape::ALL.into_iter().enumerate() {
        assert_eq!(shape.code(), index as u32);
    }
    for (index, mode) in MergeMode::ALL.into_iter().enumerate() {
        assert_eq!(mode.code(), index as u32);
    }
}

#[test]
fn catalogue_names_and_defaults() {
    assert_eq!(Interpolation::HslShort.name(), "HSL (short)");
    assert_eq!(ColouringAlgorithm::Solid.name(), "Solid colour");
    assert_eq!(ColouringAlgorithm::DistanceEstimate.default_transfer(), Transfer::Log);
    assert_eq!(ColouringAlgorithm::OrbitTrap.default_transfer(), Transfer::Sqrt);
    assert_eq!(ColouringAlgorithm::Stripes.default_transfer(), Transfer::Linear);
    assert!(ColouringAlgorithm::OrbitTrap.description().starts_with("Closest approach"));
    assert_eq!(TrapShape::Horizontal.name(), "Horizontal line");
    assert!(TrapShape::Circle.uses_size());
    assert!(!TrapShape::Cross.uses_size());
    assert_eq!(MergeMode::Difference.name(), "Difference");
}

fn needs(orbit_trap: bool, triangle_inequality: bool, stripes: bool, distance_estimate: bool) -> LayerNeeds {
    LayerNeeds { orbit_trap, triangle_inequality, stripes, distance_estimate }
}

#[test]
fn gpu_words_encode_the_visible_layers_and_the_needs_union() {
    // Bottom: inside orbit trap; a hidden layer with a distance estimate;
    // top: outside stripes.
    let contributes = vec![true, false, true];
    let layer_needs = vec![
        needs(true, false, false, false),
        needs(false, false, false, true),
        needs(false, false, true, false),
    ];
    let plan = upload_plan(&contributes, &layer_needs);
    // Two visible layers, packed bottom first.
    assert_eq!(plan.layers, vec![0, 2]);
    // Needs union: traps (bottom) and stripes (top); no distance, because
    // that layer is hidden.
    assert_eq!(plan.needs, needs(true, false, true, false));
    assert_eq!(plan.slots, vec![0, 1]);
}

#[test]
fn hidden_layers_take_no_word_and_no_slot() {
    let contributes = vec![true, false, true, true];
    let layer_needs = vec![
        needs(false, false, false, true),
        needs(true, false, false, false),
        needs(false, true, false, false),
        needs(false, false, true, false),
    ];
    let plan = upload_plan(&contributes, &layer_needs);
    assert_eq!(plan.layers, vec![0, 2, 3]);
    assert_eq!(plan.slots, vec![1, 2]);
    assert_eq!(plan.needs, needs(false, true, true, true));
}

#[test]
fn statistics_slots_go_to_the_lowest_layers_and_run_out() {
    let contributes = vec![true; 10];
    let layer_needs: Vec<LayerNeeds> = (0..10).map(|i| needs(i % 2 == 0, false, false, false)).collect();
    let plan = upload_plan(&contributes, &layer_needs);
    assert_eq!(plan.layers, (0..MAX_LAYERS).collect::<Vec<_>>());
    assert_eq!(plan.slots, vec![0, 2, 4, 6]);
    assert_eq!(plan.slots.len(), STATS_SLOTS);
    let nothing = upload_plan(&vec![false, false], &vec![needs(true, true, true, true); 2]);
    assert!(nothing.layers.is_empty() && nothing.slots.is_empty());
    assert_eq!(nothing.needs, LayerNeeds::default());
}

/// SplitMix64 as published: state advances by the golden gamma, then the
/// output is mixed.
fn splitmix_reference(state: &mut u64) -> u64 {
    *state = state.wrapping_add(0x9E37_79B9_7F4A_7C15);
    let mut z = *state;
    z = (z ^ (z >> 30)).wrapping_mul(0xBF58_476D_1CE4_E5B9);
    z = (z ^ (z >> 27)).wrapping_mul(0x94D0_49BB_1331_11EB);
    z ^ (z >> 31)
}

#[test]
fn random_sequences_are_splitmix_and_repeat_for_a_seed() {
    let mut sequence = RandomSequence::for_seed(11);
    let mut again = RandomSequence::for_seed(11);
    let mut state = 11u64 ^ 0x9E37_79B9_7F4A_7C15;
    for _ in 0..100 {
        let bits = sequence.next_bits();
        assert!(bits < 1u64 << 53);
        assert_eq!(bits, splitmix_reference(&mut state) >> 11);
        assert_eq!(again.next_bits(), bits);
    }
    // SplitMix64 seeded with 0 starts 0xE220A8397B1DCDAF.
    let mut zero = RandomSequence::for_seed(0x9E37_79B9_7F4A_7C15);
    assert_eq!(zero.next_bits(), 0xE220_A839_7B1D_CDAF >> 11);
    assert_ne!(RandomSequence::for_seed(12).next_bits(), RandomSequence::for_seed(11).next_bits());
}

#[test]
fn new_layers_are_named_after_their_place_or_their_original() {
    assert_eq!(iterascope::colouring::duplicate_layer_name("Glow"), "Glow copy");
    assert_eq!(iterascope::colouring::duplicate_layer_name(""), " copy");
    assert_eq!(iterascope::colouring::added_layer_name(0), "Layer 1");
    assert_eq!(iterascope::colouring::added_layer_name(7), "Layer 8");
}
