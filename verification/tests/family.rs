use iterascope::family::{family_switch, FamilySwitch, OutsideColouringReset};
use iterascope::family::{
    lyapunov_bits, valid_degree, validate_lyapunov_sequence, ConvergenceTest, EscapeTest,
    FamilyParameterChecks, FractalFamily, Linkage, OrbitStart, StartValue, MAX_ITERATIONS,
    MAX_NEWTON_ITERATIONS,
};

fn default_checks() -> FamilyParameterChecks {
    FamilyParameterChecks {
        degree: 3,
        nova_relaxation_in_range: true,
        lyapunov_sequence: "AB".to_owned(),
        mandelbox_scale_in_range: true,
        mandelbox_min_radius_in_range: true,
        mandelbox_fixed_radius_in_range: true,
    }
}

#[test]
fn document_ids_are_unique_and_round_trip() {
    for (index, family) in FractalFamily::ALL.into_iter().enumerate() {
        assert_eq!(family.shader_flag(), index as u32);
        assert_eq!(
            FractalFamily::from_document_id(family.document_id()),
            Some(family)
        );
        for other in FractalFamily::ALL {
            if other != family {
                assert_ne!(other.document_id(), family.document_id());
            }
        }
    }
    assert_eq!(FractalFamily::Quadratic.shader_flag(), 0);
    assert_eq!(FractalFamily::NewtonCubic.shader_flag(), 1);
}

#[test]
fn lyapunov_sequence_packs_into_bits() {
    assert_eq!(lyapunov_bits("BBAAB"), (0b10011, 5));
    assert!(validate_lyapunov_sequence("").is_err());
    assert!(validate_lyapunov_sequence("ABC").is_err());
    assert!(validate_lyapunov_sequence(&"A".repeat(33)).is_err());
    assert!(validate_lyapunov_sequence("BBBBBBAAAAAA").is_ok());
}

#[test]
fn parameter_validation_rejects_out_of_range_values() {
    let mut parameters = default_checks();
    assert!(parameters.validate().is_ok());
    parameters.degree = 9;
    assert!(parameters.validate().is_err());
    parameters.degree = 3;
    parameters.mandelbox_scale_in_range = false;
    assert!(parameters.validate().is_err());
}

#[test]
fn parameter_validation_names_the_first_bad_setting() {
    let mut parameters = default_checks();
    parameters.degree = 1;
    parameters.nova_relaxation_in_range = false;
    assert_eq!(parameters.validate().unwrap_err(), "degree must be between 2 and 8");
    parameters.degree = 8;
    assert_eq!(
        parameters.validate().unwrap_err(),
        "nova_relaxation must be finite and between 0.1 and 4"
    );
    parameters.nova_relaxation_in_range = true;
    parameters.lyapunov_sequence = "AXB".to_owned();
    assert_eq!(
        parameters.validate().unwrap_err(),
        "lyapunov_sequence may only contain the symbols A and B"
    );
    parameters.lyapunov_sequence = String::new();
    assert_eq!(
        parameters.validate().unwrap_err(),
        "lyapunov_sequence must contain between 1 and 32 symbols"
    );
    parameters.lyapunov_sequence = "ab".to_owned();
    parameters.mandelbox_min_radius_in_range = false;
    assert_eq!(
        parameters.validate().unwrap_err(),
        "mandelbox_min_radius must be finite and between 0.01 and 2"
    );
    parameters.mandelbox_min_radius_in_range = true;
    parameters.mandelbox_fixed_radius_in_range = false;
    assert_eq!(
        parameters.validate().unwrap_err(),
        "mandelbox_fixed_radius must be finite and between 0.1 and 4"
    );
}

#[test]
fn lyapunov_bits_cap_the_length_and_read_lower_case() {
    assert_eq!(lyapunov_bits(""), (0, 1));
    assert_eq!(lyapunov_bits("bAb"), (0b101, 3));
    let long = "B".repeat(40);
    assert_eq!(lyapunov_bits(&long), (u32::MAX, 32));
    assert_eq!(lyapunov_bits("AXB"), (0b100, 3));
}

#[test]
fn degrees_run_from_two_to_eight() {
    assert!(!valid_degree(1));
    assert!(valid_degree(2));
    assert!(valid_degree(8));
    assert!(!valid_degree(9));
}

#[test]
fn unknown_document_ids_name_no_family() {
    assert_eq!(FractalFamily::from_document_id("quadratic "), None);
    assert_eq!(FractalFamily::from_document_id(""), None);
    assert_eq!(FractalFamily::from_document_id("Quadratic"), None);
}

#[test]
fn families_report_their_instrument_properties() {
    let newton = FractalFamily::NewtonCubic;
    assert!(newton.is_newton());
    assert!(!newton.is_escape_time());
    assert_eq!(newton.min_iterations(), 8);
    assert_eq!(newton.max_iterations(), MAX_NEWTON_ITERATIONS);
    assert_eq!(newton.linkage(), Linkage::OverviewDetail);
    assert!(newton.converges());
    let quadratic = FractalFamily::Quadratic;
    assert!(quadratic.is_quadratic());
    assert_eq!(quadratic.min_iterations(), 32);
    assert_eq!(quadratic.max_iterations(), MAX_ITERATIONS);
    assert!(quadratic.supports_deep_zoom());
    assert!(quadratic.has_distance_estimate());
    assert_eq!(quadratic.linkage(), Linkage::ParameterDynamical);
    assert!(!FractalFamily::Sine.supports_deep_zoom());
    assert!(!FractalFamily::Lyapunov.supports_double_single());
    assert!(FractalFamily::Lyapunov.uses_lyapunov_sequence());
    assert!(FractalFamily::Multibrot.uses_degree());
    assert!(FractalFamily::Nova.uses_relaxation());
    assert!(FractalFamily::Mandelbox.uses_mandelbox());
    assert!(!FractalFamily::BurningShip.has_family_parameters());
    assert!(FractalFamily::Nova.has_family_parameters());
}

#[test]
fn family_texts_come_from_the_catalogue() {
    assert_eq!(FractalFamily::Quadratic.document_id(), "quadratic");
    assert_eq!(FractalFamily::Collatz.name(), "Collatz");
    assert_eq!(FractalFamily::Quadratic.pane_titles(0).0, "PARAMETER PLANE");
    assert_eq!(FractalFamily::Quadratic.pane_titles(1), ("DYNAMICAL PLANE", "z -> z^2 + c"));
}

#[test]
fn left_pane_orbits_start_where_the_catalogue_says() {
    let parameter_plane = |family: FractalFamily| family.orbit_start(false);
    assert_eq!(
        parameter_plane(FractalFamily::Quadratic),
        OrbitStart { z: StartValue::Zero, z_prev: StartValue::Zero, c: StartValue::Pixel }
    );
    assert_eq!(parameter_plane(FractalFamily::Lambda).z, StartValue::Half);
    assert_eq!(parameter_plane(FractalFamily::Sine).z, StartValue::HalfPi);
    assert_eq!(parameter_plane(FractalFamily::Nova).z, StartValue::One);
    assert_eq!(
        parameter_plane(FractalFamily::Manowar),
        OrbitStart { z: StartValue::Pixel, z_prev: StartValue::Pixel, c: StartValue::Pixel }
    );
    assert_eq!(parameter_plane(FractalFamily::BarnsleyTwo).z, StartValue::Pixel);
    assert_eq!(parameter_plane(FractalFamily::BarnsleyTwo).z_prev, StartValue::Zero);
    for family in FractalFamily::ALL {
        let dynamical = family.orbit_start(true);
        assert_eq!(dynamical.z, StartValue::Pixel);
        assert_eq!(dynamical.c, StartValue::Parameter);
        let expected_prev = if family == FractalFamily::Manowar { StartValue::Pixel } else { StartValue::Zero };
        assert_eq!(dynamical.z_prev, expected_prev);
    }
}

#[test]
fn orbits_end_on_the_tests_the_catalogue_lists() {
    assert_eq!(FractalFamily::Quadratic.escape_test(), EscapeTest::Bailout);
    assert_eq!(FractalFamily::Mandelbox.escape_test(), EscapeTest::MandelboxBailout);
    assert_eq!(FractalFamily::Nova.escape_test(), EscapeTest::NovaRadius);
    assert_eq!(FractalFamily::Exponential.escape_test(), EscapeTest::RealPart);
    assert_eq!(FractalFamily::Cosine.escape_test(), EscapeTest::ImaginaryPart);
    assert_eq!(FractalFamily::Collatz.escape_test(), EscapeTest::Collatz);
    assert_eq!(FractalFamily::MagnetTwo.convergence_test(), ConvergenceTest::NearOne);
    assert_eq!(FractalFamily::Nova.convergence_test(), ConvergenceTest::SmallStep);
    assert_eq!(FractalFamily::NewtonCubic.convergence_test(), ConvergenceTest::CubeRootOfUnity);
    for family in FractalFamily::ALL {
        assert_eq!(family.converges(), family.convergence_test() != ConvergenceTest::Never);
    }
}

#[test]
fn switching_families_clamps_the_budget_and_resets_outside_colourings() {
    assert_eq!(
        family_switch(FractalFamily::Quadratic, FractalFamily::Quadratic, 5),
        FamilySwitch { iterations: 5, outside: OutsideColouringReset::Keep }
    );
    assert_eq!(
        family_switch(FractalFamily::Quadratic, FractalFamily::NewtonCubic, 5_000),
        FamilySwitch { iterations: 2_048, outside: OutsideColouringReset::Basins }
    );
    assert_eq!(
        family_switch(FractalFamily::Nova, FractalFamily::BurningShip, 10),
        FamilySwitch { iterations: 32, outside: OutsideColouringReset::Escape }
    );
    assert_eq!(
        family_switch(FractalFamily::Tricorn, FractalFamily::Multibrot, 700),
        FamilySwitch { iterations: 700, outside: OutsideColouringReset::Keep }
    );
}
