use iterascope::experiment::{default_true, is_zero, DocumentChecks, PlaneCheck, FORMAT_VERSION};
use iterascope::family::{FamilyParameterChecks, FractalFamily, MAX_ITERATIONS};
use iterascope::arbitrary::MAX_DECIMAL_ZOOM_EXPONENT;
use iterascope::colouring::{
    ColouringChecks, ColouringSideChecks, LayerChecks, LayerSceneChecks, MAX_LAYERS,
};

fn example() -> DocumentChecks {
    DocumentChecks {
        format: "iterascope-experiment".to_owned(),
        version: FORMAT_VERSION,
        family: FractalFamily::Quadratic.document_id().to_owned(),
        parameter_plane: PlaneCheck::Valid,
        dynamical_plane: PlaneCheck::Valid,
        parameter_c_finite: true,
        newton_initial_z: None,
        initial_z: None,
        iterations: 2048,
        bailout_in_range: true,
        colouring: None,
        layers: None,
        palette_phase_in_range: true,
        progressive_julia_zoom_target_exponent: 0,
        family_parameters: None,
        deep_parameter_plane: None,
        deep_dynamical_plane: None,
        deep_parameter_c: None,
    }
}

/// Family settings as a document recording `degree` and a Nova relaxation
/// leaves them, applied over the defaults.
fn nova_parameters(degree: u32) -> FamilyParameterChecks {
    FamilyParameterChecks {
        degree,
        nova_relaxation_in_range: true,
        lyapunov_sequence: "AB".to_owned(),
        mandelbox_scale_in_range: true,
        mandelbox_min_radius_in_range: true,
        mandelbox_fixed_radius_in_range: true,
    }
}

fn lyapunov_parameters(sequence: &str) -> FamilyParameterChecks {
    FamilyParameterChecks {
        lyapunov_sequence: sequence.to_owned(),
        ..nova_parameters(3)
    }
}

/// A colouring side whose settings are all in range.
fn side() -> ColouringSideChecks {
    ColouringSideChecks {
        density_in_range: true,
        offset_finite: true,
        sectors: 0,
        stripe_frequency_in_range: true,
        trap_in_range: true,
        shading_in_range: true,
        solid_in_range: true,
    }
}

/// The default colouring: a five-stop gradient and two valid sides.
fn colouring() -> ColouringChecks {
    ColouringChecks {
        stop_count: 5,
        stops_in_range: true,
        rotation_finite: true,
        outside: side(),
        inside: side(),
    }
}

/// A default layer, sharing the image's scene.
fn layer() -> LayerChecks {
    LayerChecks {
        opacity_in_range: true,
        skip_iterations: 0,
        scene: None,
        colouring: colouring(),
    }
}

/// A default layer with a detached quadratic scene.
fn detached_layer() -> LayerChecks {
    LayerChecks {
        scene: Some(LayerSceneChecks {
            family: FractalFamily::Quadratic,
            coordinates_finite: true,
            half_height_in_range: true,
            iterations: 256,
            bailout_in_range: true,
            family_parameters: None,
            deep_location: None,
        }),
        ..layer()
    }
}

#[test]
fn the_example_document_is_accepted() {
    assert_eq!(example().validate(), Ok(()));
}

#[test]
fn thousand_digit_deep_state_round_trips_as_decimal_strings() {
    let mut document = example();
    document.deep_dynamical_plane = Some(Ok(()));
    assert_eq!(document.validate(), Ok(()));
    document.deep_dynamical_plane = Some(Err("half_height: invalid decimal".to_owned()));
    assert_eq!(
        document.validate().unwrap_err(),
        "deep_dynamical_plane: half_height: invalid decimal"
    );
}

#[test]
fn colouring_round_trips_and_requires_version_five() {
    let mut document = example();
    document.colouring = Some(colouring());
    document.version = 5;
    assert!(document.validate().is_ok());

    document.version = 4;
    let error = document.validate().unwrap_err();
    assert!(error.contains("version 5"), "{error}");

    document.version = 5;
    let mut dense = colouring();
    dense.outside.density_in_range = false;
    document.colouring = Some(dense);
    let error = document.validate().unwrap_err();
    assert!(error.contains("colouring: outside.density"), "{error}");

    document.bailout_in_range = false;
    assert!(document.validate().is_err());
}

#[test]
fn layer_stacks_round_trip_and_require_version_six() {
    let mut document = example();
    document.layers = Some(vec![layer(), layer()]);
    assert!(document.validate().is_ok());

    document.version = 5;
    let error = document.validate().unwrap_err();
    assert!(error.contains("version 6"), "{error}");

    document.version = 6;
    document.layers = Some((0..MAX_LAYERS + 1).map(|_| layer()).collect());
    assert!(document.validate().is_err());
    let mut transparent = layer();
    transparent.opacity_in_range = false;
    document.layers = Some(vec![transparent]);
    let error = document.validate().unwrap_err();
    assert!(error.contains("opacity"), "{error}");
}

#[test]
fn detached_layer_scenes_round_trip_and_require_version_seven() {
    let mut document = example();
    document.layers = Some(vec![layer(), detached_layer()]);
    assert!(document.validate().is_ok());

    document.version = 6;
    let error = document.validate().unwrap_err();
    assert!(error.contains("version 7"), "{error}");

    document.version = 7;
    let mut too_deep = detached_layer();
    too_deep.scene.as_mut().unwrap().half_height_in_range = false;
    document.layers = Some(vec![layer(), too_deep]);
    let error = document.validate().unwrap_err();
    assert!(error.contains("half_height"), "{error}");
}

#[test]
fn older_documents_without_colouring_still_load() {
    let mut document = example();
    document.version = 4;
    assert!(document.validate().is_ok());
}

#[test]
fn unknown_versions_are_rejected() {
    let mut document = example();
    document.version += 1;
    let error = document.validate().unwrap_err();
    assert!(error.contains("unsupported document version"));
    assert_eq!(error, "unsupported document version 8; supported versions are 1 through 7");
    document.version = 0;
    assert!(document.validate().is_err());
}

#[test]
fn iteration_limit_accepts_fifty_thousand_and_rejects_more() {
    let mut document = example();
    document.iterations = MAX_ITERATIONS;
    assert!(document.validate().is_ok());

    document.iterations = MAX_ITERATIONS + 1;
    let error = document.validate().unwrap_err();
    assert!(error.contains("50000"));
    assert_eq!(error, "iterations must be between 32 and 50000");
}

#[test]
fn progressive_julia_target_accepts_five_thousand_and_rejects_more() {
    let mut document = example();
    document.progressive_julia_zoom_target_exponent = MAX_DECIMAL_ZOOM_EXPONENT;
    assert!(document.validate().is_ok());

    document.progressive_julia_zoom_target_exponent = MAX_DECIMAL_ZOOM_EXPONENT + 1;
    let error = document.validate().unwrap_err();
    assert!(error.contains("5000"));
}

#[test]
fn newton_experiment_round_trips_and_rejects_quadratic_deep_state() {
    let mut document = example();
    document.family = FractalFamily::NewtonCubic.document_id().to_owned();
    document.iterations = 128;
    document.newton_initial_z = Some(true);
    assert!(document.validate().is_ok());

    document.progressive_julia_zoom_target_exponent = 100;
    assert!(document.validate().is_ok());
    document.family = FractalFamily::Collatz.document_id().to_owned();
    document.newton_initial_z = None;
    document.initial_z = Some(true);
    let error = document.validate().unwrap_err();
    assert!(error.contains("not valid for Collatz"));
}

#[test]
fn escape_time_families_round_trip_with_their_parameters() {
    let mut document = example();
    document.family = FractalFamily::Nova.document_id().to_owned();
    document.family_parameters = Some(nova_parameters(4));
    assert!(document.validate().is_ok());

    document.family_parameters = Some(nova_parameters(12));
    let error = document.validate().unwrap_err();
    assert!(error.contains("degree"));

    document.family = FractalFamily::BurningShip.document_id().to_owned();
    let error = document.validate().unwrap_err();
    assert!(error.contains("family_parameters"));
    document.family_parameters = None;
    assert!(document.validate().is_ok());

    document.progressive_julia_zoom_target_exponent = 50;
    assert!(document.validate().is_ok());
    document.family = FractalFamily::Sine.document_id().to_owned();
    let error = document.validate().unwrap_err();
    assert!(error.contains("deep arbitrary-precision state"));
}

#[test]
fn overview_detail_families_record_the_selected_point() {
    let mut document = example();
    document.family = FractalFamily::Lyapunov.document_id().to_owned();
    document.family_parameters = Some(lyapunov_parameters("BBBBBBAAAAAA"));
    let error = document.validate().unwrap_err();
    assert!(error.contains("initial_z"));
    document.initial_z = Some(true);
    assert!(document.validate().is_ok());

    document.family_parameters = Some(lyapunov_parameters("ABC"));
    let error = document.validate().unwrap_err();
    assert!(error.contains("lyapunov_sequence"));
}

#[test]
fn new_families_require_document_version_four() {
    let mut document = example();
    document.family = FractalFamily::Tricorn.document_id().to_owned();
    document.version = 3;
    let error = document.validate().unwrap_err();
    assert!(error.contains("version 4"));
    document.version = 4;
    assert!(document.validate().is_ok());
}

#[test]
fn newton_iteration_limit_matches_the_shader_limit() {
    let mut document = example();
    document.family = FractalFamily::NewtonCubic.document_id().to_owned();
    document.newton_initial_z = Some(true);
    document.iterations = 2_048;
    assert!(document.validate().is_ok());

    document.iterations = 2_049;
    let error = document.validate().unwrap_err();
    assert!(error.contains("2048"));
}

#[test]
fn refusals_name_the_offending_field() {
    let mut document = example();
    document.format = "other \"format\"".to_owned();
    assert_eq!(
        document.validate().unwrap_err(),
        "unsupported document format \"other \\\"format\\\"\""
    );
    let mut document = example();
    document.family = "spiral".to_owned();
    assert_eq!(document.validate().unwrap_err(), "unsupported fractal family \"spiral\"");
    let mut document = example();
    document.dynamical_plane = PlaneCheck::HalfHeightOutOfRange;
    assert_eq!(
        document.validate().unwrap_err(),
        "dynamical_plane.half_height must be finite and between 1e-14 and 1e6"
    );
    document.parameter_plane = PlaneCheck::CentreNotFinite;
    assert_eq!(
        document.validate().unwrap_err(),
        "parameter_plane.centre coordinates must be finite"
    );
    let mut document = example();
    document.initial_z = Some(false);
    assert_eq!(document.validate().unwrap_err(), "initial_z coordinates must be finite");
    document.initial_z = Some(true);
    assert_eq!(
        document.validate().unwrap_err(),
        "initial_z is only valid for overview/detail experiments"
    );
    let mut document = example();
    document.palette_phase_in_range = false;
    assert_eq!(
        document.validate().unwrap_err(),
        "palette_phase must be finite and between -1 and 1"
    );
    let mut document = example();
    document.newton_initial_z = Some(true);
    assert_eq!(
        document.validate().unwrap_err(),
        "newton_initial_z is only valid for Newton experiments"
    );
    let mut document = example();
    document.family = FractalFamily::NewtonCubic.document_id().to_owned();
    document.iterations = 4096;
    assert_eq!(document.validate().unwrap_err(), "iterations must be between 8 and 2048");
    document.iterations = 64;
    assert_eq!(
        document.validate().unwrap_err(),
        "Newton experiments require newton_initial_z"
    );
    let mut document = example();
    document.family = FractalFamily::Collatz.document_id().to_owned();
    assert_eq!(document.validate().unwrap_err(), "Collatz experiments require initial_z");
}

#[test]
fn layers_and_colouring_exclude_each_other() {
    let mut document = example();
    document.colouring = Some(colouring());
    document.layers = Some(vec![layer()]);
    assert_eq!(
        document.validate().unwrap_err(),
        "a document records either layers or colouring, not both"
    );
    document.layers = Some(Vec::new());
    assert_eq!(document.validate().unwrap_err(), "layers must hold between 1 and 8 layers");
}

#[test]
fn older_versions_cannot_record_newer_state() {
    let mut document = example();
    document.version = 1;
    document.deep_parameter_c = Some(Ok(()));
    assert_eq!(
        document.validate().unwrap_err(),
        "deep arbitrary-precision state requires document version 2"
    );
    let mut document = example();
    document.version = 2;
    document.family = FractalFamily::NewtonCubic.document_id().to_owned();
    document.iterations = 64;
    document.newton_initial_z = Some(true);
    assert_eq!(document.validate().unwrap_err(), "Newton state requires document version 3");
    let mut document = example();
    document.version = 3;
    document.family = FractalFamily::Nova.document_id().to_owned();
    document.family_parameters = Some(nova_parameters(3));
    assert_eq!(document.validate().unwrap_err(), "Nova experiments require document version 4");
    let mut document = example();
    document.deep_parameter_c = Some(Err("re: bad".to_owned()));
    assert_eq!(document.validate().unwrap_err(), "deep_parameter_c: re: bad");
    document.deep_parameter_plane = Some(Err("centre".to_owned()));
    assert_eq!(document.validate().unwrap_err(), "deep_parameter_plane: centre");
}

#[test]
fn document_defaults_for_omitted_fields() {
    assert!(default_true());
    assert!(is_zero(&0));
    assert!(!is_zero(&5));
}
