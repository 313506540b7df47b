use raytracer::geometry::{sphere_root, triangle_hit};
use raytracer::scalar::{is_nan, is_positive, less, less_eq, magnitude, EPSILON, ONE};
use raytracer::scan::{is_occluded, light_brightness, nearest_hit};
use raytracer::shading::{light_terms, secondary_rays, Depth, MAX_TRANSPARENT_PASSES};

fn b(x: f32) -> u32 {
    x.to_bits()
}

#[test]
fn comparisons_follow_float_order() {
    let values = [-3.5f32, -1.0, -0.0, 0.0, 1e-30, 0.25, 1.0, 7.0, f32::INFINITY, f32::NEG_INFINITY, f32::NAN];
    for &x in values.iter() {
        for &y in values.iter() {
            assert_eq!(less(b(x), b(y)), x < y, "{} < {}", x, y);
            assert_eq!(less_eq(b(x), b(y)), x <= y, "{} <= {}", x, y);
        }
        assert_eq!(is_positive(b(x)), x > 0.0);
        assert_eq!(is_nan(b(x)), x.is_nan());
        assert_eq!(magnitude(b(x)), b(x.abs()));
    }
}

#[test]
fn named_constants_match_their_values() {
    assert_eq!(EPSILON, f32::EPSILON.to_bits());
    assert_eq!(ONE, 1.0f32.to_bits());
}

#[test]
fn sphere_negative_discriminant_misses() {
    assert_eq!(sphere_root(b(-0.5), b(2.0), b(3.0)), None);
}

#[test]
fn sphere_prefers_near_root() {
    assert_eq!(sphere_root(b(4.0), b(2.0), b(6.0)), Some(b(2.0)));
}

#[test]
fn sphere_from_inside_takes_far_root() {
    assert_eq!(sphere_root(b(9.0), b(-1.0), b(5.0)), Some(b(5.0)));
}

#[test]
fn sphere_behind_origin_misses() {
    assert_eq!(sphere_root(b(1.0), b(-4.0), b(-2.0)), None);
}

#[test]
fn sphere_tangent_hit() {
    assert_eq!(sphere_root(b(0.0), b(3.0), b(3.0)), Some(b(3.0)));
}

// Intermediate values of the ray/triangle test for A=(0,0,0), B=(1,0,0),
// C=(0,1,0) and a ray from (0.25,0.25,1).
#[test]
fn triangle_hit_from_above() {
    let (det, u, v, t) = (1.0f32, 0.25f32, 0.25f32, 1.0f32);
    let r = triangle_hit(b(det), b(u), b(v), b(u + v), b(t));
    assert_eq!(r, Some(b(1.0)));
    assert!(u + v <= 1.0 && u >= 0.0 && v >= 0.0);
}

#[test]
fn triangle_ray_pointing_away_misses() {
    let (det, u, v, t) = (-1.0f32, 0.25f32, 0.25f32, -1.0f32);
    assert_eq!(triangle_hit(b(det), b(u), b(v), b(u + v), b(t)), None);
}

#[test]
fn triangle_parallel_ray_misses() {
    assert_eq!(triangle_hit(b(1e-9), b(0.2), b(0.2), b(0.4), b(1.0)), None);
    assert_eq!(triangle_hit(b(-1e-9), b(0.2), b(0.2), b(0.4), b(1.0)), None);
}

#[test]
fn triangle_barycentric_bounds() {
    assert_eq!(triangle_hit(b(1.0), b(-0.1), b(0.2), b(0.1), b(1.0)), None);
    assert_eq!(triangle_hit(b(1.0), b(1.1), b(0.0), b(1.1), b(1.0)), None);
    assert_eq!(triangle_hit(b(1.0), b(0.5), b(-0.1), b(0.4), b(1.0)), None);
    assert_eq!(triangle_hit(b(1.0), b(0.6), b(0.5), b(1.1), b(1.0)), None);
    assert_eq!(triangle_hit(b(1.0), b(0.5), b(0.5), b(1.0), b(2.0)), Some(b(2.0)));
}

#[test]
fn triangle_hit_too_close_is_rejected() {
    assert_eq!(triangle_hit(b(1.0), b(0.2), b(0.2), b(0.4), b(f32::EPSILON)), None);
    assert_eq!(triangle_hit(b(1.0), b(0.2), b(0.2), b(0.4), b(1e-3)), Some(b(1e-3)));
}

#[test]
fn nearest_hit_picks_smallest_positive() {
    let hits = vec![Some(b(5.0)), None, Some(b(-1.0)), Some(b(2.0)), Some(b(3.0))];
    assert_eq!(nearest_hit(&hits, None), Some(3));
}

#[test]
fn nearest_hit_skips_excluded_surface() {
    let hits = vec![Some(b(5.0)), Some(b(2.0)), Some(b(3.0))];
    assert_eq!(nearest_hit(&hits, Some(1)), Some(2));
}

#[test]
fn nearest_hit_equal_distances_last_wins() {
    let hits = vec![Some(b(2.0)), Some(b(4.0)), Some(b(2.0))];
    assert_eq!(nearest_hit(&hits, None), Some(2));
}

#[test]
fn nearest_hit_none_is_background() {
    let empty: Vec<Option<u32>> = Vec::new();
    assert_eq!(nearest_hit(&empty, None), None);
    let hits = vec![None, Some(b(0.0)), Some(b(-0.0)), Some(b(-2.0)), Some(b(f32::NAN))];
    assert_eq!(nearest_hit(&hits, None), None);
    let only_self = vec![Some(b(1.0))];
    assert_eq!(nearest_hit(&only_self, Some(0)), None);
}

#[test]
fn shadow_occluder_blocks_light() {
    // Surface 0 is shaded; surface 1 sits between the point and a light 4 away.
    let hits = vec![Some(b(0.5)), Some(b(2.0))];
    assert!(is_occluded(&hits, 0, b(4.0)));
    assert_eq!(light_brightness(&hits, 0, b(4.0), b(0.8)), b(0.0));
    let removed = vec![Some(b(0.5)), None];
    assert!(!is_occluded(&removed, 0, b(4.0)));
    assert_eq!(light_brightness(&removed, 0, b(4.0), b(0.8)), b(0.8));
}

#[test]
fn shadow_surface_beyond_light_does_not_block() {
    let hits = vec![None, Some(b(6.0))];
    assert_eq!(light_brightness(&hits, 0, b(4.0), b(1.0)), b(1.0));
    let touching = vec![None, Some(b(4.0))];
    assert_eq!(light_brightness(&touching, 0, b(4.0), b(1.0)), b(0.0));
}

#[test]
fn light_terms_rules() {
    let t = light_terms(b(0.5), b(0.3));
    assert!(t.diffuse && t.specular);
    let t = light_terms(b(0.5), b(-0.3));
    assert!(t.diffuse && !t.specular);
    let t = light_terms(b(0.0), b(0.9));
    assert!(!t.diffuse && !t.specular);
    let t = light_terms(b(-0.2), b(0.9));
    assert!(!t.diffuse && !t.specular);
}

#[test]
fn depth_zero_has_no_reflection() {
    let s = secondary_rays(b(1.0), b(0.0), Depth::primary(), 0);
    assert_eq!(s.reflect, None);
    assert_eq!(s.transmit, None);
}

#[test]
fn reflection_advances_depth() {
    let d = Depth { reflections: 2, passes: 1 };
    let s = secondary_rays(b(0.6), b(0.0), d, 5);
    assert_eq!(s.reflect, Some(Depth { reflections: 3, passes: 1 }));
    assert_eq!(s.transmit, None);
    let at_max = Depth { reflections: 5, passes: 0 };
    assert_eq!(secondary_rays(b(0.6), b(0.0), at_max, 5).reflect, None);
}

#[test]
fn transparency_keeps_depth() {
    let d = Depth { reflections: 5, passes: 3 };
    let s = secondary_rays(b(0.0), b(0.5), d, 5);
    assert_eq!(s.reflect, None);
    assert_eq!(s.transmit, Some(Depth { reflections: 5, passes: 4 }));
    let spent = Depth { reflections: 0, passes: MAX_TRANSPARENT_PASSES };
    assert_eq!(secondary_rays(b(0.0), b(0.5), spent, 5).transmit, None);
}
