use iterascope::precision::{
    choose_precision, DsValidity, PrecisionMode, ProbeCounts, ValidityLevel, ValidityReason,
};

/// The verdict for a probe and the ratio of pixel spacing to the
/// double-single coordinate resolution.
fn from_probe(counts: ProbeCounts, coordinate_ratio: f64) -> DsValidity {
    DsValidity::classify(counts, coordinate_ratio >= 0.5, coordinate_ratio >= 0.0625)
}

#[test]
fn ds_validity_distinguishes_risk_and_limit() {
    assert_eq!(
        from_probe(ProbeCounts::default(), 0.0).level,
        ValidityLevel::Stable
    );
    assert_eq!(
        from_probe(
            ProbeCounts {
                classification_mismatches: 1,
                ..Default::default()
            },
            0.0,
        )
        .level,
        ValidityLevel::Risk
    );
    let coordinate_limit = from_probe(ProbeCounts::default(), 0.5);
    assert_eq!(coordinate_limit.level, ValidityLevel::Limit);
    assert_eq!(coordinate_limit.label(), "DS COORD LIMIT");
    assert!(!coordinate_limit.render_limited());

    let arithmetic_limit = from_probe(
        ProbeCounts {
            non_finite_samples: 1,
            ..Default::default()
        },
        0.0,
    );
    assert_eq!(arithmetic_limit.label(), "RENDER LIMIT");
    assert!(arithmetic_limit.render_limited());
}

#[test]
fn verdicts_follow_the_worst_disagreement() {
    let counts = |unstable, mismatches, non_finite| ProbeCounts {
        unstable_samples: unstable,
        classification_mismatches: mismatches,
        non_finite_samples: non_finite,
    };
    let verdict = DsValidity::classify(counts(0, 3, 0), false, false);
    assert_eq!(verdict.level, ValidityLevel::Limit);
    assert_eq!(verdict.reason, ValidityReason::ClassificationMismatch(3));
    assert_eq!(verdict.summary(), "3 / 9 DS classifications disagree");
    let verdict = DsValidity::classify(counts(5, 0, 0), false, false);
    assert_eq!(verdict, DsValidity { level: ValidityLevel::Limit, reason: ValidityReason::OrbitDivergence(5) });
    assert_eq!(verdict.summary(), "5 / 9 DS orbits diverge from f64");
    let verdict = DsValidity::classify(counts(2, 0, 0), false, true);
    assert_eq!(verdict.level, ValidityLevel::Risk);
    assert_eq!(verdict.reason, ValidityReason::OrbitDivergence(2));
    let verdict = DsValidity::classify(counts(1, 0, 0), false, true);
    assert_eq!(verdict.reason, ValidityReason::CoordinateRisk);
    assert_eq!(verdict.label(), "DS RISK");
    assert_eq!(verdict.summary(), "DS pixel spacing approaching limit");
    let verdict = DsValidity::classify(counts(9, 9, 9), true, true);
    assert_eq!(verdict.reason, ValidityReason::CoordinateCollapse);
    assert_eq!(verdict.summary(), "DS adjacent coordinates may collapse");
    let verdict = DsValidity::classify(counts(0, 0, 2), false, false);
    assert_eq!(verdict.summary(), "2 / 9 DS orbits non-finite");
    let stable = DsValidity::classify(counts(1, 0, 0), false, false);
    assert_eq!(stable.label(), "DS STABLE");
    assert_eq!(stable.summary(), "DS samples agree with f64");
}

#[test]
fn unstable_probes_never_read_stable() {
    for unstable in 0..10u8 {
        for mismatches in 0..4u8 {
            for non_finite in 0..3u8 {
                let counts = ProbeCounts {
                    unstable_samples: unstable,
                    classification_mismatches: mismatches,
                    non_finite_samples: non_finite,
                };
                for (collapse, risk) in [(false, false), (false, true), (true, true)] {
                    let verdict = DsValidity::classify(counts, collapse, risk);
                    if counts.unstable() {
                        assert_ne!(verdict.level, ValidityLevel::Stable);
                    }
                    assert_eq!(verdict.render_limited(), verdict.label() == "RENDER LIMIT");
                }
            }
        }
    }
}

#[test]
fn probe_summaries_report_the_worst_disagreement() {
    assert_eq!(ProbeCounts::default().summary(), "9 / 9 sampled orbits agree");
    let counts = ProbeCounts { unstable_samples: 4, classification_mismatches: 0, non_finite_samples: 0 };
    assert_eq!(counts.summary(), "4 / 9 sampled orbits unstable");
    assert!(counts.unstable());
    let counts = ProbeCounts { unstable_samples: 1, classification_mismatches: 0, non_finite_samples: 0 };
    assert!(!counts.unstable());
    let counts = ProbeCounts { unstable_samples: 4, classification_mismatches: 2, non_finite_samples: 0 };
    assert_eq!(counts.summary(), "2 / 9 classifications disagree");
    let counts = ProbeCounts { unstable_samples: 4, classification_mismatches: 2, non_finite_samples: 7 };
    assert_eq!(counts.summary(), "7 / 9 non-finite orbits");
}

#[test]
fn precision_paths_have_badges() {
    assert_eq!(PrecisionMode::F32.label(), "GPU f32");
    assert_eq!(PrecisionMode::DoubleSingle.label(), "GPU DS ~48-bit");
    assert_eq!(PrecisionMode::Perturbation.label(), "GPU PERT f64-ref");
}

/// The arithmetic for a view at `magnification`: instability of the `f32`
/// probe counts from a magnification of 256 on.
fn automatic(magnification: f64, coordinate_limited: bool, f32_probe: ProbeCounts) -> PrecisionMode {
    choose_precision(coordinate_limited, magnification >= 256.0, f32_probe)
}

#[test]
fn automatic_precision_responds_to_probe_and_coordinate_limits() {
    assert_eq!(automatic(1.0, false, ProbeCounts::default()), PrecisionMode::F32);
    assert_eq!(automatic(1.0, true, ProbeCounts::default()), PrecisionMode::DoubleSingle);
    assert_eq!(
        automatic(
            512.0,
            false,
            ProbeCounts {
                unstable_samples: 2,
                ..Default::default()
            }
        ),
        PrecisionMode::DoubleSingle
    );
}

#[test]
fn shallow_views_ignore_unstable_orbits_but_not_misclassification() {
    let unstable = ProbeCounts { unstable_samples: 3, classification_mismatches: 0, non_finite_samples: 0 };
    assert_eq!(choose_precision(false, false, unstable), PrecisionMode::F32);
    assert_eq!(choose_precision(false, true, unstable), PrecisionMode::DoubleSingle);
    let misclassified = ProbeCounts { unstable_samples: 0, classification_mismatches: 1, non_finite_samples: 0 };
    assert_eq!(choose_precision(false, false, misclassified), PrecisionMode::DoubleSingle);
}
