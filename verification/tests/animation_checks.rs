use iterascope::animation::{
    validate_julia_curve, validate_key_times, AnimationChecks, CurveCheck, FamilyCurveTarget,
    KeyCheck, WaypointCheck, MAX_CURVE_KEYS,
};

fn good() -> AnimationChecks {
    AnimationChecks {
        duration_in_range: true,
        fps: 30,
        frame_count: 360,
        width: 1920,
        height: 1080,
        magnifications_in_range: true,
        gradient_sweep_in_range: true,
        waypoints: Vec::new(),
        julia_curve: None,
        family_curves: Vec::new(),
    }
}

fn key(time_in_range: bool, value_in_range: bool) -> KeyCheck {
    KeyCheck { time_in_range, value_in_range }
}

fn waypoint(magnification_in_range: bool) -> WaypointCheck {
    WaypointCheck {
        magnification_in_range,
        centre_finite: true,
        exact: None,
    }
}

#[test]
fn validation_rejects_out_of_range_settings() {
    assert_eq!(good().validate(), Ok(()));
    let mut bad = good();
    bad.fps = 0;
    assert_eq!(bad.validate().unwrap_err(), "fps must be between 1 and 120");
    let mut bad = good();
    bad.width = 8;
    assert_eq!(bad.validate().unwrap_err(), "frame size must be between 16 and 8192 pixels");
    let mut bad = good();
    bad.duration_in_range = false;
    assert_eq!(bad.validate().unwrap_err(), "duration must be between 0.1 and 3600 seconds");
    let mut bad = good();
    bad.magnifications_in_range = false;
    assert_eq!(
        bad.validate().unwrap_err(),
        "magnification exponents must be between -3 and 5000"
    );
    let mut bad = good();
    bad.gradient_sweep_in_range = false;
    assert_eq!(bad.validate().unwrap_err(), "gradient sweep must be between -100 and 100 turns");
    let mut bad = good();
    bad.frame_count = 100_001;
    assert_eq!(bad.validate().unwrap_err(), "the sequence exceeds 100000 frames");
}

#[test]
fn curve_validation_rejects_bad_keys_and_animation_carries_them() {
    assert!(validate_julia_curve(&Vec::new()).is_err());
    assert!(validate_julia_curve(&vec![key(false, true)]).is_err());
    assert!(validate_julia_curve(&vec![key(true, false)]).is_err());
    assert!(FamilyCurveTarget::NovaRelaxation
        .validate_curve(&vec![key(true, false)])
        .is_err());
    let mut animation = good();
    animation.family_curves.push(CurveCheck {
        target: FamilyCurveTarget::MandelboxMinRadius,
        keys: vec![key(true, true)],
    });
    assert!(animation.validate().is_ok());
    animation.family_curves[0].keys[0].value_in_range = false;
    assert_eq!(
        animation.validate().unwrap_err(),
        "Mandelbox min radius curve key 0: value must be between 0.01 and 2"
    );
}

#[test]
fn path_activation_and_budgets_follow_the_waypoints() {
    let mut animation = good();
    animation.waypoints = vec![waypoint(true), waypoint(true)];
    assert!(animation.validate().is_ok());
    animation.waypoints[0].magnification_in_range = false;
    assert_eq!(
        animation.validate().unwrap_err(),
        "waypoint 0: magnification exponent must be between -3 and 5000"
    );
}

#[test]
fn waypoints_need_finite_centres_and_exact_decimals() {
    let mut animation = good();
    animation.waypoints = vec![waypoint(true), waypoint(true), waypoint(true)];
    animation.waypoints[2].exact = Some(("-0.75".to_owned(), " \t".to_owned()));
    assert_eq!(animation.validate().unwrap_err(), "waypoint 2: exact centre must not be empty");
    animation.waypoints[2].exact = Some(("-0.75".to_owned(), "0.1".to_owned()));
    assert!(animation.validate().is_ok());
    animation.waypoints[1].centre_finite = false;
    assert_eq!(animation.validate().unwrap_err(), "waypoint 1: centre must be finite");
    animation.waypoints = (0..65).map(|_| waypoint(true)).collect();
    assert_eq!(animation.validate().unwrap_err(), "a camera path may hold at most 64 waypoints");
}

#[test]
fn curve_messages_name_the_curve_and_key() {
    assert_eq!(
        validate_key_times("julia curve", &Vec::new()).unwrap_err(),
        "julia curve: a curve holds between 1 and 64 keys"
    );
    let too_many: Vec<KeyCheck> = (0..MAX_CURVE_KEYS + 1).map(|_| key(true, true)).collect();
    assert!(validate_key_times("Nova relaxation", &too_many).is_err());
    assert_eq!(
        validate_julia_curve(&vec![key(true, true), key(true, true), key(false, false)]).unwrap_err(),
        "julia curve key 2: time must be between 0 and 1"
    );
    assert_eq!(
        validate_julia_curve(&vec![key(true, true), key(true, false)]).unwrap_err(),
        "julia curve key 1: c must be finite with |re|, |im| at most 8"
    );
    assert_eq!(
        FamilyCurveTarget::MandelboxScale
            .validate_curve(&vec![key(false, true)])
            .unwrap_err(),
        "Mandelbox scale key 0: time must be between 0 and 1"
    );
    assert_eq!(
        FamilyCurveTarget::NovaRelaxation
            .validate_curve(&vec![key(true, false)])
            .unwrap_err(),
        "Nova relaxation curve key 0: value must be between 0.1 and 4"
    );
    assert_eq!(FamilyCurveTarget::MandelboxScale.range_text(), "-4 and 4");
    let mut animation = good();
    animation.julia_curve = Some(vec![key(true, false)]);
    animation.family_curves.push(CurveCheck {
        target: FamilyCurveTarget::NovaRelaxation,
        keys: Vec::new(),
    });
    assert_eq!(
        animation.validate().unwrap_err(),
        "julia curve key 0: c must be finite with |re|, |im| at most 8"
    );
    animation.julia_curve = Some(vec![key(true, true)]);
    assert_eq!(
        animation.validate().unwrap_err(),
        "Nova relaxation: a curve holds between 1 and 64 keys"
    );
}
