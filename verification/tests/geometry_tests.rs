use pathtracer::binary64::finite;
use pathtracer::binary64::negative;
use pathtracer::binary64::non_negative;
use pathtracer::binary64::positive;
use pathtracer::geometry::SphereRoots;
use pathtracer::geometry::TriangleTest;
use pathtracer::binary64::NEGATIVE_INFINITY_BITS;

type V = [f64; 3];

fn sub(a: V, b: V) -> V {
    [a[0] - b[0], a[1] - b[1], a[2] - b[2]]
}

fn dot(a: V, b: V) -> f64 {
    a[0] * b[0] + a[1] * b[1] + a[2] * b[2]
}

fn cross(a: V, b: V) -> V {
    [a[1] * b[2] - a[2] * b[1], a[2] * b[0] - a[0] * b[2], a[0] * b[1] - a[1] * b[0]]
}

fn normalize(a: V) -> V {
    let n = dot(a, a).sqrt();
    [a[0] / n, a[1] / n, a[2] / n]
}

fn along(origin: V, t: f64, direction: V) -> V {
    [origin[0] + t * direction[0], origin[1] + t * direction[1], origin[2] + t * direction[2]]
}

fn sphere(center: V, radius: f64, origin: V, direction: V) -> Option<f64> {
    let oc = sub(origin, center);
    let b = dot(direction, oc);
    let c = dot(oc, oc) - radius * radius;
    let discriminant = b * b - c;
    let roots = SphereRoots {
        discriminant: discriminant.to_bits(),
        first: (-b + discriminant.sqrt()).to_bits(),
        second: (-b - discriminant.sqrt()).to_bits(),
    };
    roots.get_intersection().map(f64::from_bits)
}

fn triangle(p: [V; 3], origin: V, direction: V) -> Option<f64> {
    let normal = normalize(cross(sub(p[1], p[0]), sub(p[2], p[0])));
    let facing = dot(normal, direction);
    let distance = dot(normal, sub(p[0], origin)) / facing;
    let r = along(origin, distance, direction);
    let test = TriangleTest {
        facing: facing.to_bits(),
        distance: distance.to_bits(),
        edge0: dot(sub(r, p[0]), cross(sub(p[0], p[1]), normal)).to_bits(),
        edge1: dot(sub(r, p[1]), cross(sub(p[1], p[2]), normal)).to_bits(),
        edge2: dot(sub(r, p[2]), cross(sub(p[2], p[0]), normal)).to_bits(),
    };
    test.get_intersection().map(f64::from_bits)
}

const FRONT: [V; 3] = [[0.0, -1.0, -1.0], [0.0, -1.0, 2.0], [0.0, 2.0, -1.0]];

#[test]
fn signs_of_special_patterns() {
    assert_eq!(NEGATIVE_INFINITY_BITS, f64::NEG_INFINITY.to_bits());
    assert!(positive(1));
    assert!(positive(f64::INFINITY.to_bits()));
    assert!(!positive(0.0f64.to_bits()));
    assert!(!positive((-0.0f64).to_bits()));
    assert!(!positive(f64::NAN.to_bits()));
    assert!(!positive((-3.0f64).to_bits()));
    assert!(negative((-3.0f64).to_bits()));
    assert!(negative(f64::NEG_INFINITY.to_bits()));
    assert!(!negative((-0.0f64).to_bits()));
    assert!(!negative(0.0f64.to_bits()));
    assert!(!negative((-f64::NAN).to_bits()));
    assert!(!negative(u64::MAX));
    assert!(non_negative(0.0f64.to_bits()));
    assert!(non_negative((-0.0f64).to_bits()));
    assert!(non_negative(2.0f64.to_bits()));
    assert!(!non_negative((-2.0f64).to_bits()));
    assert!(!non_negative(f64::NAN.to_bits()));
    assert!(finite(0.0f64.to_bits()));
    assert!(finite((-1.0e300f64).to_bits()));
    assert!(!finite(f64::INFINITY.to_bits()));
    assert!(!finite(f64::NEG_INFINITY.to_bits()));
    assert!(!finite(f64::NAN.to_bits()));
}

#[test]
fn signs_agree_with_the_numbers() {
    let samples = [
        0.0, -0.0, 1.0, -1.0, 1.0e-310, -1.0e-310, 0.5, 3.75, -2.5e10, f64::MAX, f64::MIN,
        f64::INFINITY, f64::NEG_INFINITY, f64::NAN, f64::MIN_POSITIVE,
    ];
    for x in samples {
        assert_eq!(positive(x.to_bits()), x > 0.0);
        assert_eq!(negative(x.to_bits()), x < 0.0);
        assert_eq!(non_negative(x.to_bits()), x >= 0.0);
        assert_eq!(finite(x.to_bits()), x.is_finite());
    }
}

#[test]
fn positive_patterns_order_as_their_numbers() {
    let samples = [1.0e-310, 1.0e-5, 0.5, 1.0, 1.5, 4.0, 1.0e200, f64::INFINITY];
    for a in samples {
        for b in samples {
            assert_eq!(a.to_bits() < b.to_bits(), a < b);
        }
    }
}

#[test]
fn sphere_hit_head_on_is_at_gap_to_the_surface() {
    assert_eq!(sphere([0.0, 0.0, 0.0], 1.0, [-5.0, 0.0, 0.0], [1.0, 0.0, 0.0]), Some(4.0));
    assert_eq!(sphere([0.0, 0.0, 0.0], 2.5, [0.0, 0.0, 10.0], [0.0, 0.0, -1.0]), Some(7.5));
    assert_eq!(sphere([0.0, 0.0, 0.0], 0.5, [0.0, 8.0, 0.0], [0.0, -1.0, 0.0]), Some(7.5));
}

#[test]
fn sphere_behind_the_ray_is_missed() {
    assert_eq!(sphere([0.0, 0.0, 0.0], 1.0, [-5.0, 0.0, 0.0], [-1.0, 0.0, 0.0]), None);
}

#[test]
fn sphere_around_the_origin_is_missed() {
    assert_eq!(sphere([0.0, 0.0, 0.0], 1.0, [0.25, 0.0, 0.0], [1.0, 0.0, 0.0]), None);
}

#[test]
fn sphere_passed_by_is_missed() {
    assert_eq!(sphere([0.0, 0.0, 0.0], 1.0, [-5.0, 3.0, 0.0], [1.0, 0.0, 0.0]), None);
    // a grazing ray has discriminant zero
    assert_eq!(sphere([0.0, 0.0, 0.0], 1.0, [-5.0, 1.0, 0.0], [1.0, 0.0, 0.0]), None);
}

#[test]
fn sphere_roots_report_the_smaller() {
    let roots = SphereRoots {
        discriminant: 1.0f64.to_bits(),
        first: 6.0f64.to_bits(),
        second: 4.0f64.to_bits(),
    };
    assert_eq!(roots.get_intersection(), Some(4.0f64.to_bits()));
    let swapped = SphereRoots { first: roots.second, second: roots.first, ..roots };
    assert_eq!(swapped.get_intersection(), Some(4.0f64.to_bits()));
}

#[test]
fn sphere_roots_that_are_no_numbers_are_missed() {
    let nan = f64::NAN.to_bits();
    let one = 1.0f64.to_bits();
    assert_eq!(SphereRoots { discriminant: nan, first: one, second: one }.get_intersection(), None);
    assert_eq!(SphereRoots { discriminant: one, first: nan, second: one }.get_intersection(), None);
    assert_eq!(SphereRoots { discriminant: one, first: one, second: nan }.get_intersection(), None);
    assert_eq!(SphereRoots { discriminant: one, first: one, second: 0 }.get_intersection(), None);
}

#[test]
fn triangle_hit_at_the_centroid_is_at_the_plane_distance() {
    // the normal of FRONT is -x; a ray along +x travels against it
    assert_eq!(triangle(FRONT, [-3.0, 0.0, 0.0], [1.0, 0.0, 0.0]), Some(3.0));
    assert_eq!(triangle(FRONT, [-0.5, 0.0, 0.0], [1.0, 0.0, 0.0]), Some(0.5));
}

#[test]
fn triangle_back_face_is_missed() {
    assert_eq!(triangle(FRONT, [3.0, 0.0, 0.0], [-1.0, 0.0, 0.0]), None);
}

#[test]
fn triangle_behind_the_ray_is_missed() {
    assert_eq!(triangle(FRONT, [3.0, 0.0, 0.0], [1.0, 0.0, 0.0]), None);
}

#[test]
fn triangle_parallel_to_the_ray_is_missed() {
    assert_eq!(triangle(FRONT, [-3.0, 0.0, 0.0], [0.0, 1.0, 0.0]), None);
    assert_eq!(triangle(FRONT, [0.0, -5.0, 0.0], [0.0, 1.0, 0.0]), None);
}

#[test]
fn triangle_missed_beside_an_edge() {
    assert_eq!(triangle(FRONT, [-3.0, 2.0, 2.0], [1.0, 0.0, 0.0]), None);
    assert_eq!(triangle(FRONT, [-3.0, -1.5, 0.0], [1.0, 0.0, 0.0]), None);
}

#[test]
fn triangle_hit_on_an_edge_counts() {
    assert_eq!(triangle(FRONT, [-3.0, -1.0, 0.0], [1.0, 0.0, 0.0]), Some(3.0));
}

#[test]
fn triangle_without_area_is_missed() {
    let flat: [V; 3] = [[0.0, 0.0, 0.0], [0.0, 1.0, 0.0], [0.0, 2.0, 0.0]];
    assert_eq!(triangle(flat, [-3.0, 0.5, 0.0], [1.0, 0.0, 0.0]), None);
}

#[test]
fn triangle_test_takes_each_condition() {
    let hit = TriangleTest {
        facing: (-1.0f64).to_bits(),
        distance: 2.0f64.to_bits(),
        edge0: 0.0f64.to_bits(),
        edge1: (-0.0f64).to_bits(),
        edge2: 1.0f64.to_bits(),
    };
    assert_eq!(hit.get_intersection(), Some(2.0f64.to_bits()));
    assert_eq!(TriangleTest { facing: 1.0f64.to_bits(), ..hit }.get_intersection(), None);
    assert_eq!(TriangleTest { facing: (-0.0f64).to_bits(), ..hit }.get_intersection(), None);
    assert_eq!(TriangleTest { distance: (-2.0f64).to_bits(), ..hit }.get_intersection(), None);
    assert_eq!(TriangleTest { distance: 0, ..hit }.get_intersection(), None);
    assert_eq!(TriangleTest { distance: f64::NAN.to_bits(), ..hit }.get_intersection(), None);
    assert_eq!(TriangleTest { edge0: (-1.0e-9f64).to_bits(), ..hit }.get_intersection(), None);
    assert_eq!(TriangleTest { edge1: (-1.0e-9f64).to_bits(), ..hit }.get_intersection(), None);
    assert_eq!(TriangleTest { edge2: f64::NAN.to_bits(), ..hit }.get_intersection(), None);
}
