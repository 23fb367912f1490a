use std::str::FromStr;

use dashu_float::DBig;
use iterascope::arbitrary::{
    binary_bits_for_zoom_exponent, decimal_digits_for_zoom_exponent, MAX_DECIMAL_ZOOM_EXPONENT,
};

#[test]
fn target_precision_includes_one_thousand_digits_and_guards() {
    assert_eq!(decimal_digits_for_zoom_exponent(1_000), 1_032);
    assert!(binary_bits_for_zoom_exponent(1_000) >= 3_428);
}

#[test]
fn shallow_zooms_keep_the_minimum_precision() {
    assert_eq!(decimal_digits_for_zoom_exponent(0), 48);
    assert_eq!(decimal_digits_for_zoom_exponent(16), 48);
    assert_eq!(decimal_digits_for_zoom_exponent(17), 49);
    assert_eq!(binary_bits_for_zoom_exponent(0), 160);
    assert_eq!(binary_bits_for_zoom_exponent(1_000), 3_429);
    assert_eq!(decimal_digits_for_zoom_exponent(u32::MAX), u32::MAX as usize);
}

#[test]
fn precision_never_shrinks_with_depth() {
    let mut previous = (0usize, 0usize);
    for exponent in (0..=MAX_DECIMAL_ZOOM_EXPONENT).step_by(7) {
        let now = (
            decimal_digits_for_zoom_exponent(exponent),
            binary_bits_for_zoom_exponent(exponent),
        );
        assert!(now.0 >= previous.0 && now.1 >= previous.1);
        previous = now;
    }
}

use iterascope::arbitrary::{
    deep_step, mandelbox_ball, mandelbox_fold, BallFold, BoxFold, DecimalSetting, DeepComplex, DeepLocation,
    DeepParameters, DeepReal, DeepState, MandelboxSettings,
};
use iterascope::family::FractalFamily;

fn decimal(text: &str, zoom_exponent: u32) -> DeepReal {
    DeepReal::parse(text, zoom_exponent).unwrap()
}

fn complex(re: &str, im: &str, zoom_exponent: u32) -> DeepComplex {
    DeepComplex::parse(re, im, zoom_exponent).unwrap()
}

/// Step settings of degree `p`, with `1 / p` and a relaxation of 1 for Nova
/// in the decimal forms of the real numbers.
fn degree(p: u32) -> DeepParameters {
    let inverse = match p {
        2 => DecimalSetting { significand: 5, exponent: -1 },
        3 => DecimalSetting { significand: 333_333_333_333_333_315, exponent: -18 },
        _ => DecimalSetting { significand: 25, exponent: -2 },
    };
    DeepParameters {
        degree: p,
        inverse_degree: inverse,
        nova_relaxation: DecimalSetting { significand: 1, exponent: 0 },
    }
}

#[test]
fn target_scale_is_representable() {
    let half_height = decimal("1.45e-1000", 1_000);
    assert_eq!(half_height.exact_decimal(), "1.45e-1000");
    assert_eq!(half_height.precision(), 1_032);
}

#[test]
fn unit_scale_coordinate_retains_a_ten_to_minus_one_thousand_offset() {
    let centre = decimal("-0.745", 1_000);
    let offset = decimal("1e-1000", 1_000);
    let moved = centre.add(&offset).unwrap();
    let back = moved.sub(&centre).unwrap();
    assert_eq!(back.exact_decimal(), offset.exact_decimal());
    assert_eq!(back.precision(), offset.precision());
}

#[test]
fn quadratic_reference_step_uses_arbitrary_precision() {
    let z = complex("1e-500", "-2e-500", 1_000);
    let c = complex("-0.745", "0.113", 1_000);
    let next = z.square_add(&c).unwrap();
    assert_eq!(next.re.sub(&c.re).unwrap().exact_decimal(), "-3e-1000");
    assert_eq!(next.im.sub(&c.im).unwrap().exact_decimal(), "-4e-1000");
}

#[test]
fn parsing_reports_malformed_decimals() {
    assert!(DeepReal::parse("1.2.3", 0).is_err());
    assert!(DeepReal::parse("", 0).is_err());
    assert!(DeepComplex::parse("0.5", "x", 0).is_err());
    let parsed = decimal("+0.5000", 0);
    assert_eq!(parsed.exact_decimal(), "5e-1");
    assert_eq!(parsed.precision(), 48);
}

#[test]
fn results_round_to_the_left_operand_precision() {
    // 48 digits: a third keeps 48 significant digits.
    let third = decimal("1", 0).div(&decimal("3", 0)).unwrap();
    assert_eq!(third.precision(), 48);
    assert_eq!(third.exact_decimal(), format!("3.{}e-1", "3".repeat(47)));
    let scaled = third.mul_i32(3).unwrap();
    assert_eq!(scaled.exact_decimal(), format!("9.{}e-1", "9".repeat(47)));
    let shallow = decimal("2", 0).with_zoom_exponent(100).unwrap();
    assert_eq!(shallow.precision(), 132);
    assert_eq!(decimal("-2.5", 0).abs().unwrap().exact_decimal(), "2.5e0");
    assert_eq!(decimal("2.5", 0).neg().unwrap().exact_decimal(), "-2.5e0");
    assert!(decimal("-0", 0).is_zero());
    assert!(decimal("-1e-900", 1_000).is_negative());
    assert!(!decimal("0", 0).is_negative());
    assert_eq!(decimal("1.25", 0).scientific(1), "1.3e0");
    assert_eq!(decimal("1", 0).constant_like(5, -1).exact_decimal(), "5e-1");
    assert_eq!(decimal("1", 0).decimal_like("0.25").unwrap().exact_decimal(), "2.5e-1");
}

#[test]
fn complex_arithmetic_follows_the_textbook_formulas() {
    let a = complex("1.5", "-2", 0);
    let b = complex("0.5", "4", 0);
    let product = a.mul(&b).unwrap();
    assert_eq!((product.re.exact_decimal(), product.im.exact_decimal()), ("8.75e0".to_owned(), "5e0".to_owned()));
    let quotient = product.div(&b).unwrap();
    assert_eq!((quotient.re.exact_decimal(), quotient.im.exact_decimal()), ("1.5e0".to_owned(), "-2e0".to_owned()));
    let cube = a.pow(3).unwrap();
    let by_hand = a.mul(&a).unwrap().mul(&a).unwrap();
    assert_eq!(cube.re.exact_decimal(), by_hand.re.exact_decimal());
    assert_eq!(cube.im.exact_decimal(), by_hand.im.exact_decimal());
    assert_eq!(a.pow(0).unwrap().re.exact_decimal(), "1.5e0");
    let pole = a.div(&complex("0", "0", 0)).unwrap();
    assert_eq!(pole.re.exact_decimal(), "1.00000000000000005e300");
    assert_eq!(pole.im.exact_decimal(), "0e0");
    let doubled = a.scale_i32(2).unwrap();
    assert_eq!((doubled.re.exact_decimal(), doubled.im.exact_decimal()), ("3e0".to_owned(), "-4e0".to_owned()));
    let square = a.square().unwrap();
    assert_eq!((square.re.exact_decimal(), square.im.exact_decimal()), ("-1.75e0".to_owned(), "-6e0".to_owned()));
}

#[test]
fn deep_orbits_start_where_the_family_starts() {
    let world = complex("0.31", "-0.47", 40);
    let parameter = complex("-0.745", "0.113", 40);
    let lambda = DeepState::initial(FractalFamily::Lambda, &world, false, &parameter).unwrap();
    assert_eq!(lambda.z.re.exact_decimal(), "5e-1");
    assert_eq!(lambda.c.re.exact_decimal(), "3.1e-1");
    let julia = DeepState::initial(FractalFamily::Manowar, &world, true, &parameter).unwrap();
    assert_eq!(julia.z_prev.im.exact_decimal(), "-4.7e-1");
    assert_eq!(julia.c.re.exact_decimal(), "-7.45e-1");
    let quadratic = DeepState::initial(FractalFamily::Quadratic, &world, false, &parameter).unwrap();
    assert!(quadratic.z.re.is_zero() && quadratic.z.im.is_zero());
    assert_eq!(quadratic.z.re.precision(), 72);
}

#[test]
fn deep_steps_follow_each_recurrence() {
    let z = complex("0.5", "-0.25", 0);
    let c = complex("-1", "0.5", 0);
    let state = DeepState { z: z.clone(), z_prev: complex("0.1", "0.2", 0), c: c.clone() };
    let next = deep_step(FractalFamily::Quadratic, &degree(2), &state).unwrap();
    assert_eq!(next.z.re.exact_decimal(), "-8.125e-1");
    assert_eq!(next.z.im.exact_decimal(), "2.5e-1");
    // Burning Ship: (x² − y², 2|xy|) + c.
    let ship = deep_step(FractalFamily::BurningShip, &degree(2), &state).unwrap();
    assert_eq!(ship.z.im.exact_decimal(), "7.5e-1");
    // Tricorn: (x² − y², −2xy) + c.
    let tricorn = deep_step(FractalFamily::Tricorn, &degree(2), &state).unwrap();
    assert_eq!(tricorn.z.im.exact_decimal(), "7.5e-1");
    // Celtic: (|x² − y²|, 2xy) + c.
    let celtic = deep_step(FractalFamily::Celtic, &degree(2), &state).unwrap();
    assert_eq!(celtic.z.re.exact_decimal(), "-8.125e-1");
    // Phoenix remembers the previous z.
    let phoenix = deep_step(FractalFamily::Phoenix, &degree(2), &state).unwrap();
    assert_eq!(phoenix.z_prev.re.exact_decimal(), "5e-1");
    assert_eq!(phoenix.z.re.exact_decimal(), "-7.625e-1");
    // Multibrot of degree 2 is the quadratic step.
    let multibrot = deep_step(FractalFamily::Multibrot, &degree(2), &state).unwrap();
    assert_eq!(multibrot.z.re.exact_decimal(), next.z.re.exact_decimal());
    assert_eq!(multibrot.z.im.exact_decimal(), next.z.im.exact_decimal());
    // Spider moves c to c/2 + z'.
    let spider = deep_step(FractalFamily::Spider, &degree(2), &state).unwrap();
    assert_eq!(spider.c.re.exact_decimal(), "-1.3125e0");
    // Families without a perturbation path stay put.
    let still = deep_step(FractalFamily::Sine, &degree(2), &state).unwrap();
    assert_eq!(still.z.re.exact_decimal(), "5e-1");
}

#[test]
fn newton_steps_read_their_real_settings_as_decimals() {
    // A cube root of unity is a fixed point of the Newton step.
    let root = DeepState { z: complex("1", "0", 0), z_prev: complex("0", "0", 0), c: complex("0", "0", 0) };
    let fixed = deep_step(FractalFamily::NewtonCubic, &degree(3), &root).unwrap();
    assert_eq!((fixed.z.re.exact_decimal(), fixed.z.im.exact_decimal()), ("1e0".to_owned(), "0e0".to_owned()));
    // From 2: 2 − (2 − 1/4) · 0.333333333333333315, the reciprocal of 3 as
    // the real-valued step size has it.
    let two = DeepState { z: complex("2", "0", 0), z_prev: complex("0", "0", 0), c: complex("-1", "0.5", 0) };
    let newton = deep_step(FractalFamily::NewtonCubic, &degree(3), &two).unwrap();
    assert_eq!(newton.z.re.exact_decimal(), "1.41666666666666669875e0");
    assert_eq!(newton.c.im.exact_decimal(), "5e-1");
    // Nova adds c after the relaxed step.
    let nova = deep_step(FractalFamily::Nova, &degree(3), &two).unwrap();
    assert_eq!(nova.z.re.exact_decimal(), "4.1666666666666669875e-1");
    assert_eq!(nova.z.im.exact_decimal(), "5e-1");
    // Half the relaxation moves half as far.
    let mut relaxed = degree(3);
    relaxed.nova_relaxation = DecimalSetting { significand: 5, exponent: -1 };
    let half = deep_step(FractalFamily::Nova, &relaxed, &two).unwrap();
    assert_eq!(half.z.re.exact_decimal(), "7.08333333333333349375e-1");
}

#[test]
fn deep_locations_need_a_positive_half_height_before_their_centre() {
    let location = DeepLocation::parse("-7.45e-1", "1.13e-1", "1.45e-5000", 5_000).unwrap();
    assert_eq!(location.half_height.exact_decimal(), "1.45e-5000");
    assert_eq!(location.half_height.precision(), 5_032);
    assert_eq!(location.centre.re.exact_decimal(), "-7.45e-1");
    let refused = |half_height: &str, re: &str| DeepLocation::parse(re, "0", half_height, 20).err();
    assert_eq!(refused("0", "x").as_deref(), Some("deep half-height must be positive"));
    assert_eq!(refused("-1e-20", "0").as_deref(), Some("deep half-height must be positive"));
    let bad_height = refused("x", "x").unwrap();
    assert_eq!(Some(bad_height), DeepReal::parse("x", 20).err());
    let bad_centre = refused("1e-20", "not a number").unwrap();
    assert_eq!(Some(bad_centre), DeepReal::parse("not a number", 20).err());
    assert!(refused("1e-20", "0.5").is_none());
}

#[test]
fn newton_deep_steps_converge_to_the_real_root() {
    let mut state = DeepState { z: complex("2", "0", 0), z_prev: complex("0", "0", 0), c: complex("0", "0", 0) };
    for _ in 0..12 {
        state = deep_step(FractalFamily::NewtonCubic, &degree(3), &state).unwrap();
    }
    assert_eq!(state.z.re.scientific(10), "1.0000000000e0");
    assert!(state.z.im.is_zero());
    // Nova without a shift (c = 0) is the same relaxed Newton map.
    let mut nova = DeepState { z: complex("2", "0", 0), z_prev: complex("0", "0", 0), c: complex("0", "0", 0) };
    for _ in 0..12 {
        nova = deep_step(FractalFamily::Nova, &degree(3), &nova).unwrap();
    }
    assert_eq!(nova.z.re.exact_decimal(), state.z.re.exact_decimal());
}

#[test]
fn exponents_beyond_the_carried_range_are_refused() {
    let message = "deep decimal is out of range";
    assert_eq!(DeepReal::parse("10e9223372036854775807", 0).err().as_deref(), Some(message));
    assert_eq!(DeepReal::parse("1.5e-9223372036854775808", 0).err().as_deref(), Some(message));
    assert_eq!(decimal("1", 0).decimal_like("1e123456789012345678").err().as_deref(), Some(message));
    // Exponents of a hundred million are carried on a 64-bit target.
    let large = decimal("1e123456789", 0);
    assert_eq!(large.mul(&large).unwrap().exact_decimal(), "1e246913578");
    // A scale below 10^17 is carried; squaring doubles the exponent past
    // it, so the product is refused rather than overflowing later.
    let huge = decimal("1e99999999999999999", 0);
    assert_eq!(huge.exact_decimal(), "1e99999999999999999");
    assert!(huge.in_range());
    assert!(huge.mul(&huge).is_none());
    assert!(huge.add(&huge).is_some());
    let state =
        DeepState { z: complex("1e99999999999999999", "0", 0), z_prev: complex("0", "0", 0), c: complex("0", "0", 0) };
    assert!(deep_step(FractalFamily::Quadratic, &degree(2), &state).is_none());
}

#[test]
fn deep_values_compare_by_value_and_precision() {
    let a = complex("0.5", "-0.25", 0);
    assert!(a.re.equals(&decimal("5e-1", 0)));
    assert!(!a.re.equals(&decimal("5e-1", 100)));
    assert!(!a.re.equals(&a.im));
    assert!(a.equals(&a.clone()));
    let state = DeepState { z: a.clone(), z_prev: a.clone(), c: a.clone() };
    let next = deep_step(FractalFamily::Quadratic, &degree(2), &state).unwrap();
    assert!(state.equals(&state.clone()));
    assert!(!state.equals(&next));
    assert!(next.c.equals(&state.c));
}

#[test]
fn binary_precision_is_the_rounded_up_digit_count() {
    assert_eq!(binary_bits_for_zoom_exponent(5_000), (5_032 * 3_322 + 999) / 1_000);
}

#[test]
fn deep_arithmetic_matches_dashu_step_for_step() {
    let at = |text: &str| DBig::from_str(text).unwrap().with_precision(48).value();
    // A difference may keep one digit beyond the precision; the next
    // operation reads it as it stands.
    let (one, tiny) = (at("1"), at("3e-49"));
    let difference = (&one - &tiny).with_precision(48).value();
    let square = (&difference * &difference).with_precision(48).value();
    let quotient = (&difference / &at("7")).with_precision(48).value();
    let deep_difference = decimal("1", 0).sub(&decimal("3e-49", 0)).unwrap();
    assert_eq!(deep_difference.exact_decimal(), format!("{:e}", difference));
    assert_eq!(deep_difference.mul(&deep_difference).unwrap().exact_decimal(), format!("{:e}", square));
    assert_eq!(deep_difference.div(&decimal("7", 0)).unwrap().exact_decimal(), format!("{:e}", quotient));
}

#[test]
fn mandelbox_steps_fold_the_box_then_the_ball() {
    let state = DeepState { z: complex("1.5", "0.5", 0), z_prev: complex("0.7", "0", 0), c: complex("0.1", "0.2", 0) };
    // Minimum radius 0.5 and fixed radius 1: fixed² / min² = 4, fixed² = 1;
    // scale -1.5.
    let settings = MandelboxSettings {
        inner_factor: DecimalSetting { significand: 4, exponent: 0 },
        fixed_squared: DecimalSetting { significand: 1, exponent: 0 },
        scale: DecimalSetting { significand: -15, exponent: -1 },
    };
    let (folded, radius_squared) = mandelbox_fold(&state.z, BoxFold::Above, BoxFold::Within).unwrap();
    assert_eq!((folded.re.exact_decimal(), folded.im.exact_decimal()), ("5e-1".to_owned(), "5e-1".to_owned()));
    assert_eq!(radius_squared.exact_decimal(), "5e-1");
    // 0.25 <= 0.5 < 1: the shell scales by 1 / 0.5.
    let shell = mandelbox_ball(&state, &folded, &radius_squared, BallFold::Shell, &settings).unwrap();
    assert_eq!((shell.z.re.exact_decimal(), shell.z.im.exact_decimal()), ("-1.4e0".to_owned(), "-1.3e0".to_owned()));
    assert!(shell.z_prev.equals(&state.z_prev) && shell.c.equals(&state.c));
    let inner = mandelbox_ball(&state, &folded, &radius_squared, BallFold::Inner, &settings).unwrap();
    assert_eq!((inner.z.re.exact_decimal(), inner.z.im.exact_decimal()), ("-2.9e0".to_owned(), "-2.8e0".to_owned()));
    let outer = mandelbox_ball(&state, &folded, &radius_squared, BallFold::Outer, &settings).unwrap();
    assert_eq!(outer.z.re.exact_decimal(), "-6.5e-1");
    // Folding below -1 reflects about -1.
    let (low, _) = mandelbox_fold(&complex("-3", "0", 0), BoxFold::Below, BoxFold::Within).unwrap();
    assert_eq!(low.re.exact_decimal(), "1e0");
    // A zero radius² cannot be divided by in the shell.
    let zero = decimal("0", 0);
    assert!(mandelbox_ball(&state, &folded, &zero, BallFold::Shell, &settings).is_none());
}
