use sr::barycentric_test_result::BarycentricTestResult;
use sr::binary32::Binary32;
use sr::depth_cmp::EDepthCmpFunc;
use sr::renderer::Renderer;

fn samples() -> Vec<f32> {
    vec![
        0.0,
        -0.0,
        1.0,
        -1.0,
        0.5,
        -0.5,
        0.999_999_94,
        1.000_000_1,
        123.456,
        -123.456,
        1e-10,
        -1e-10,
        f32::MIN_POSITIVE,
        -f32::MIN_POSITIVE,
        f32::from_bits(1),
        f32::from_bits(0x8000_0001),
        f32::MAX,
        f32::MIN,
        f32::INFINITY,
        f32::NEG_INFINITY,
        f32::NAN,
        f32::from_bits(0xFFC0_0000),
        f32::from_bits(0x7F80_0001),
        f32::from_bits(0xFFFF_FFFF),
    ]
}

fn b(x: f32) -> Binary32 {
    Binary32::from_bits(x.to_bits())
}

#[test]
fn bits_round_trip() {
    for x in samples() {
        assert_eq!(b(x).to_bits(), x.to_bits());
    }
    assert_eq!(Binary32::new_one().to_bits(), 1.0f32.to_bits());
    assert_eq!(Binary32::new_zero().to_bits(), 0.0f32.to_bits());
}

#[test]
fn nan_is_told_by_the_pattern() {
    for x in samples() {
        assert_eq!(b(x).nan(), x.is_nan(), "{:?}", x);
    }
}

#[test]
fn comparisons_are_those_of_the_numbers() {
    for x in samples() {
        for y in samples() {
            assert_eq!(b(x).less_than(b(y)), x < y, "{:?} < {:?}", x, y);
            assert_eq!(b(x).less_equal(b(y)), x <= y, "{:?} <= {:?}", x, y);
            assert_eq!(b(x).equal_to(b(y)), x == y, "{:?} == {:?}", x, y);
        }
    }
}

#[test]
fn the_two_zeros_are_equal() {
    assert!(b(0.0).equal_to(b(-0.0)));
    assert!(!b(-0.0).less_than(b(0.0)));
    assert!(b(-0.0).less_equal(b(0.0)));
}

#[test]
fn depth_modes_are_the_eight_operators() {
    for x in samples() {
        for y in samples() {
            assert_eq!(EDepthCmpFunc::Never.test(b(x), b(y)), false);
            assert_eq!(EDepthCmpFunc::Less.test(b(x), b(y)), x < y);
            assert_eq!(EDepthCmpFunc::Equal.test(b(x), b(y)), x == y);
            assert_eq!(EDepthCmpFunc::LessEqual.test(b(x), b(y)), x <= y);
            assert_eq!(EDepthCmpFunc::Greater.test(b(x), b(y)), x > y);
            assert_eq!(EDepthCmpFunc::NotEqual.test(b(x), b(y)), x != y);
            assert_eq!(EDepthCmpFunc::GreaterEqual.test(b(x), b(y)), x >= y);
            assert_eq!(EDepthCmpFunc::Always.test(b(x), b(y)), true);
        }
    }
}

#[test]
fn get_func_gives_the_operator() {
    let less = EDepthCmpFunc::Less.get_func();
    assert!(less(b(0.25), b(0.5)));
    assert!(!less(b(0.5), b(0.5)));
    assert!(!less(b(0.75), b(0.5)));
    let not_equal = EDepthCmpFunc::NotEqual.get_func();
    assert!(not_equal(b(f32::NAN), b(f32::NAN)));
    assert!(!not_equal(b(0.0), b(-0.0)));
    let greater_equal = EDepthCmpFunc::GreaterEqual.get_func();
    assert!(greater_equal(b(0.5), b(0.5)));
    assert!(!greater_equal(b(-0.5), b(0.5)));
    for x in samples() {
        for y in samples() {
            assert!(EDepthCmpFunc::Always.get_func()(b(x), b(y)));
            assert!(!EDepthCmpFunc::Never.get_func()(b(x), b(y)));
        }
    }
}

#[test]
fn weights_in_the_unit_interval_are_inside() {
    let r = BarycentricTestResult::from_weights(b(0.5), b(0.25), b(0.25));
    assert!(r.is_inside_triangle);
    assert_eq!(r.w1.to_bits(), 0.5f32.to_bits());
    assert_eq!(r.w2.to_bits(), 0.25f32.to_bits());
    assert_eq!(r.w3.to_bits(), 0.25f32.to_bits());
    let w = r.weight();
    assert_eq!(w[0].to_bits(), 0.5f32.to_bits());
    assert_eq!(w[1].to_bits(), 0.25f32.to_bits());
    assert_eq!(w[2].to_bits(), 0.25f32.to_bits());
}

#[test]
fn a_vertex_and_an_edge_count_as_inside() {
    assert!(BarycentricTestResult::from_weights(b(1.0), b(0.0), b(0.0)).is_inside_triangle);
    assert!(BarycentricTestResult::from_weights(b(0.0), b(1.0), b(0.0)).is_inside_triangle);
    assert!(BarycentricTestResult::from_weights(b(0.0), b(0.0), b(1.0)).is_inside_triangle);
    assert!(BarycentricTestResult::from_weights(b(0.5), b(0.5), b(-0.0)).is_inside_triangle);
}

#[test]
fn a_weight_outside_the_unit_interval_is_outside() {
    assert!(!BarycentricTestResult::from_weights(b(-0.1), b(0.6), b(0.5)).is_inside_triangle);
    assert!(!BarycentricTestResult::from_weights(b(0.6), b(1.5), b(-1.1)).is_inside_triangle);
    assert!(!BarycentricTestResult::from_weights(b(0.2), b(0.3), b(1.000_000_1)).is_inside_triangle);
    assert!(!BarycentricTestResult::from_weights(b(f32::NAN), b(0.5), b(0.5)).is_inside_triangle);
    assert!(
        !BarycentricTestResult::from_weights(b(0.5), b(f32::INFINITY), b(0.5)).is_inside_triangle
    );
}

#[test]
fn points_outside_the_box_have_no_pixel() {
    let scaled = (3usize, 4usize);
    for x in samples() {
        for y in samples() {
            let inside = x >= -1.0 && x <= 1.0 && y >= -1.0 && y <= 1.0;
            let expected = if inside { Some(scaled) } else { None };
            assert_eq!(Renderer::ndc_to_viewport((b(x), b(y)), scaled), expected, "{:?} {:?}", x, y);
        }
    }
    assert_eq!(Renderer::ndc_to_viewport((b(-1.0), b(1.0)), (0, 0)), Some((0, 0)));
    assert_eq!(Renderer::ndc_to_viewport((b(1.0), b(-1.0)), (7, 5)), Some((7, 5)));
    assert_eq!(Renderer::ndc_to_viewport((b(1.000_000_1), b(0.0)), (7, 5)), None);
    assert_eq!(Renderer::ndc_to_viewport((b(0.0), b(-1.000_000_1)), (7, 5)), None);
}

#[test]
fn points_are_held_to_the_box() {
    let hold = |v: f32| -> f32 {
        if v > -1.0 {
            if v < 1.0 {
                v
            } else {
                1.0
            }
        } else {
            -1.0
        }
    };
    for x in samples() {
        for y in samples() {
            let r = Renderer::clamp_ndc((b(x), b(y)));
            assert_eq!(r.0.to_bits(), hold(x).to_bits(), "{:?}", x);
            assert_eq!(r.1.to_bits(), hold(y).to_bits(), "{:?}", y);
        }
    }
    let r = Renderer::clamp_ndc((b(-3.0), b(0.25)));
    assert_eq!(r.0.to_bits(), (-1.0f32).to_bits());
    assert_eq!(r.1.to_bits(), 0.25f32.to_bits());
    let r = Renderer::clamp_ndc((b(f32::NAN), b(f32::INFINITY)));
    assert_eq!(r.0.to_bits(), (-1.0f32).to_bits());
    assert_eq!(r.1.to_bits(), 1.0f32.to_bits());
}

#[test]
fn points_are_ordered_by_abscissa() {
    let p = (b(-0.5), b(9.0));
    let q = (b(0.5), b(-9.0));
    let bits_of = |v: ((Binary32, Binary32), (Binary32, Binary32))| {
        (v.0 .0.to_bits(), v.0 .1.to_bits(), v.1 .0.to_bits(), v.1 .1.to_bits())
    };
    assert_eq!(bits_of(Renderer::vector2_order(p, q)), bits_of((p, q)));
    assert_eq!(bits_of(Renderer::vector2_order(q, p)), bits_of((p, q)));
    // Equal abscissas, and a NaN: the second comes first.
    let r = (b(-0.5), b(1.0));
    assert_eq!(bits_of(Renderer::vector2_order(p, r)), bits_of((r, p)));
    let n = (b(f32::NAN), b(0.0));
    assert_eq!(bits_of(Renderer::vector2_order(n, p)), bits_of((p, n)));
    assert_eq!(bits_of(Renderer::vector2_order(p, n)), bits_of((n, p)));
}

#[test]
fn depths_that_are_one_number() {
    for x in samples() {
        for y in samples() {
            for z in [0.0f32, -0.0, 1.0, f32::NAN, f32::INFINITY] {
                assert_eq!(
                    BarycentricTestResult::same_depth(b(x), b(y), b(z)),
                    x == y && y == z,
                    "{:?} {:?} {:?}",
                    x,
                    y,
                    z
                );
            }
        }
    }
    assert!(BarycentricTestResult::same_depth(b(0.5), b(0.5), b(0.5)));
    assert!(BarycentricTestResult::same_depth(b(0.0), b(-0.0), b(0.0)));
    assert!(!BarycentricTestResult::same_depth(b(0.5), b(0.5), b(0.25)));
    assert!(!BarycentricTestResult::same_depth(b(f32::NAN), b(f32::NAN), b(f32::NAN)));
}
