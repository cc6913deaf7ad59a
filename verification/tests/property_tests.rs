use collideoscope::narrow::sat::{
    generate_axis, half_sat_resolution, sat_collides, sat_collision_resolution, sat_contains_point, Axis, Collidable,
    Containing, Resolution, SATable,
};
use collideoscope::narrow::shapes::aabb::AABB;
use collideoscope::narrow::shapes::capsule::Capsule;
use collideoscope::narrow::shapes::circle::Circle;
use collideoscope::narrow::shapes::p_gram::Pgram;
use collideoscope::narrow::shapes::polygon::{concave, Polygon, PolygonError};
use collideoscope::narrow::shapes::triangle::Triangle;
use collideoscope::narrow::shapes::wedge::Wedge;
use collideoscope::narrow::shapes::{contains_perpendicular, ShapeType, Shapeable};
use collideoscope::utility::{closest_vertex, project_onto, Projection};
use collideoscope::vec2::Vec2;
use collideoscope::NumTolerance;
use num::Float;

/// A machine float as a scalar of the library.
#[derive(Clone, Copy, Debug, PartialEq, PartialOrd)]
struct Fl<X: Float>(X);

// The specification twins of the operations exist for the verifier alone;
// nothing that runs ever calls them.
impl<X: Float> NumTolerance for Fl<X> {
    fn zero_spec() -> Self {
        unreachable!()
    }

    fn one_spec() -> Self {
        unreachable!()
    }

    fn max_value_spec() -> Self {
        unreachable!()
    }

    fn infinity_spec() -> Self {
        unreachable!()
    }

    fn neg_infinity_spec() -> Self {
        unreachable!()
    }

    fn from_u16_spec(_: u16) -> Self {
        unreachable!()
    }

    fn add_spec(self, _: Self) -> Self {
        unreachable!()
    }

    fn sub_spec(self, _: Self) -> Self {
        unreachable!()
    }

    fn mul_spec(self, _: Self) -> Self {
        unreachable!()
    }

    fn div_spec(self, _: Self) -> Self {
        unreachable!()
    }

    fn neg_spec(self) -> Self {
        unreachable!()
    }

    fn sqrt_spec(self) -> Self {
        unreachable!()
    }

    fn lt_spec(self, _: Self) -> bool {
        unreachable!()
    }

    fn is_sign_negative_spec(self) -> bool {
        unreachable!()
    }

    fn zero() -> Self {
        Fl(X::zero())
    }

    fn one() -> Self {
        Fl(X::one())
    }

    fn max_value() -> Self {
        Fl(X::max_value())
    }

    fn infinity() -> Self {
        Fl(X::infinity())
    }

    fn neg_infinity() -> Self {
        Fl(X::neg_infinity())
    }

    fn from_u16(n: u16) -> Self {
        Fl(X::from(n).unwrap())
    }

    fn add(self, rhs: Self) -> Self {
        Fl(self.0 + rhs.0)
    }

    fn sub(self, rhs: Self) -> Self {
        Fl(self.0 - rhs.0)
    }

    fn mul(self, rhs: Self) -> Self {
        Fl(self.0 * rhs.0)
    }

    fn div(self, rhs: Self) -> Self {
        Fl(self.0 / rhs.0)
    }

    fn neg(self) -> Self {
        Fl(-self.0)
    }

    fn sqrt(self) -> Self {
        Fl(self.0.sqrt())
    }

    fn lt(self, rhs: Self) -> bool {
        self.0 < rhs.0
    }

    fn is_sign_negative(self) -> bool {
        self.0.is_sign_negative()
    }
}

#[allow(dead_code)]
fn v<X: Float>(x: X, y: X) -> Vec2<Fl<X>> {
    Vec2::new(Fl(x), Fl(y))
}

fn unit_square() -> Polygon<Fl<f64>> {
    match Polygon::new(vec![v(-1.0, -1.0), v(1.0, -1.0), v(1.0, 1.0), v(-1.0, 1.0)]) {
        Ok(polygon) => polygon,
        Err(_) => panic!("a square is convex"),
    }
}

fn is_none(resolution: &Resolution<Fl<f64>>) -> bool {
    !resolution.colliding
        && resolution.penetration.0 == f64::MAX
        && resolution.axis.x.0 == 0.0
        && resolution.axis.y.0 == 0.0
        && resolution.axis.x.0.is_sign_positive()
        && resolution.axis.y.0.is_sign_positive()
}

fn both_ways<L: Collidable<Fl<f64>, R>, R: Collidable<Fl<f64>, L>>(
    l: &L,
    l_pos: Vec2<Fl<f64>>,
    r: &R,
    r_pos: Vec2<Fl<f64>>,
    expected: bool,
) {
    assert_eq!(l.collides(l_pos, r, r_pos), expected);
    assert_eq!(r.collides(r_pos, l, l_pos), expected);
    assert_eq!(sat_collides(l, l_pos, r, r_pos), sat_collides(r, r_pos, l, l_pos));
}

#[test]
fn collides_is_symmetric_on_every_kind_of_pair() {
    let aabb = AABB::new(Fl(2.0), Fl(4.0));
    let circle = Circle::new(Fl(1.0));
    let capsule = Capsule::new(v(0.0, 2.0), Fl(1.0));
    let pgram = Pgram::new(v(2.0, 0.0), v(1.0, 2.0));
    let triangle = Triangle::new(&[v(0.0, 0.0), v(1.0, 0.0), v(0.0, 1.0)]);
    let square = unit_square();

    both_ways(&aabb, v(0.0, 0.0), &aabb, v(1.5, 3.0), true);
    both_ways(&aabb, v(0.0, 0.0), &aabb, v(2.5, 0.0), false);
    both_ways(&aabb, v(1.0, 2.0), &circle, v(0.5, 0.4), true);
    both_ways(&aabb, v(2.0, 0.0), &circle, v(0.25, -2.75), false);
    both_ways(&circle, v(0.0, 0.0), &circle, v(1.5, 0.0), true);
    both_ways(&circle, v(0.0, 0.0), &circle, v(0.0, 2.5), false);
    both_ways(&capsule, v(0.0, 0.0), &triangle, v(0.5, 0.5), true);
    both_ways(&capsule, v(0.0, 0.0), &triangle, v(5.0, 5.0), false);
    both_ways(&pgram, v(0.0, 0.0), &square, v(1.0, 1.0), true);
    both_ways(&pgram, v(0.0, 0.0), &square, v(4.0, 0.0), false);
    both_ways(&aabb, v(0.0, 0.0), &square, v(1.5, 0.0), true);
    both_ways(&circle, v(0.0, 0.0), &pgram, v(0.0, 2.5), false);
}

fn agrees<L: Collidable<Fl<f64>, R>, R: Collidable<Fl<f64>, L>>(
    l: &L,
    l_pos: Vec2<Fl<f64>>,
    r: &R,
    r_pos: Vec2<Fl<f64>>,
) {
    let fast = l.collision_resolution(l_pos, r, r_pos);
    let generic = sat_collision_resolution(l, l_pos, r, r_pos);
    assert_eq!(l.collides(l_pos, r, r_pos), sat_collides(l, l_pos, r, r_pos));
    assert_eq!(fast.colliding, generic.colliding);
    if fast.colliding {
        assert!(fast.penetration.is_difference_trivial(generic.penetration));
        // The same line; the closed form points towards the shape that was asked,
        // the separating-axis test away from it.
        assert!(fast.axis.rotate_counter_90().perp(generic.axis));
        assert!(fast.axis.dot(generic.axis).is_sign_negative());
    }
}

#[test]
fn closed_forms_agree_with_the_separating_axis_test() {
    let box0 = AABB::new(Fl(10.0), Fl(10.0));
    let box1 = AABB::new(Fl(2.0), Fl(4.0));
    let circ0 = Circle::new(Fl(5.5));
    let circ1 = Circle::new(Fl(1.0));

    agrees(&box0, v(5.0, 5.0), &box1, v(1.0, -1.5));
    agrees(&box1, v(0.0, 0.0), &box0, v(20.0, 0.0));
    agrees(&circ0, v(0.0, 0.0), &circ1, v(6.0, 0.0));
    agrees(&circ0, v(10.0, 5.0), &circ1, v(0.0, 0.0));
    agrees(&circ1, v(0.5, 0.4), &box1, v(1.0, 2.0));
    agrees(&box1, v(1.0, 2.0), &circ1, v(0.5, 0.4));
    agrees(&circ1, v(10.0, 5.0), &box1, v(0.0, 0.0));
}

fn step_separates<L: Collidable<Fl<f64>, R>, R: Collidable<Fl<f64>, L>>(
    l: &L,
    l_pos: Vec2<Fl<f64>>,
    r: &R,
    r_pos: Vec2<Fl<f64>>,
) {
    let resolution = l.collision_resolution(l_pos, r, r_pos);
    assert!(resolution.colliding);
    let step = resolution.axis.normalized().scale(resolution.penetration);
    let closed = matches!(l.shape(), ShapeType::AABB(_) | ShapeType::Circle(_))
        && matches!(r.shape(), ShapeType::AABB(_) | ShapeType::Circle(_));
    // A closed form points at the shape that was asked, the separating-axis
    // test at the other one: the step moves the shape that the axis points at.
    let (l_after, r_after) = if closed { (l_pos + step, r_pos) } else { (l_pos, r_pos + step) };
    assert!(!l.collides(l_after, r, r_after));
    assert!(!r.collides(r_after, l, l_after));
}

#[test]
fn one_resolution_step_ends_the_collision() {
    let box0 = AABB::new(Fl(10.0), Fl(10.0));
    let box1 = AABB::new(Fl(2.0), Fl(4.0));
    let triangle = Triangle::new(&[v(0.0, 0.0), v(1.0, 0.0), v(0.0, 1.0)]);
    let square = unit_square();

    step_separates(&box0, v(5.0, 5.0), &box1, v(1.0, -1.5));
    step_separates(&box1, v(0.0, 0.0), &box1, v(1.0, 3.5));
    step_separates(&square, v(0.0, 0.0), &box1, v(1.5, 0.0));
    step_separates(&box1, v(1.5, 0.0), &square, v(0.0, 0.0));
    step_separates(&triangle, v(0.0, 0.0), &square, v(-0.5, 0.0));
}

#[test]
fn no_collision_gives_the_largest_penetration_and_the_zero_axis() {
    let box0 = AABB::new(Fl(2.0), Fl(2.0));
    let circ = Circle::new(Fl(1.0));
    let capsule = Capsule::new(v(0.0, 2.0), Fl(1.0));
    let square = unit_square();

    assert!(is_none(&Resolution::new()));
    assert!(is_none(&box0.aabb_resolution(v(0.0, 0.0), &box0, v(5.0, 0.0), true)));
    assert!(is_none(&box0.aabb_resolution(v(0.0, 0.0), &box0, v(0.0, 5.0), false)));
    assert!(is_none(&circ.circle_resolution(v(0.0, 0.0), &circ, v(5.0, 0.0), true)));
    assert!(is_none(&circ.aabb_resolution(v(0.0, 0.0), &box0, v(5.0, 0.0), true)));
    assert!(is_none(&box0.collision_resolution(v(0.0, 0.0), &circ, v(5.0, 0.0))));
    assert!(is_none(&circ.collision_resolution(v(0.0, 0.0), &box0, v(5.0, 0.0))));
    assert!(is_none(&capsule.collision_resolution(v(0.0, 0.0), &square, v(9.0, 0.0))));
    // The extents overlap on x, the first axis tried, and are apart on y.
    assert!(is_none(&half_sat_resolution(&box0, v(0.0, 0.0), &box0, v(0.5, 5.0), true)));
    assert!(is_none(&sat_collision_resolution(&box0, v(0.0, 0.0), &box0, v(0.5, 5.0))));
    assert!(is_none(&sat_collision_resolution(&square, v(0.0, 0.0), &capsule, v(0.5, 5.0))));
    assert!(is_none(&sat_collision_resolution(&capsule, v(0.5, 5.0), &square, v(0.0, 0.0))));
}

#[test]
fn touching_boxes_do_not_collide() {
    let square = AABB::new(Fl(2.0), Fl(2.0));

    both_ways(&square, v(0.0, 0.0), &square, v(2.0, 0.0), false);
    both_ways(&square, v(0.0, 0.0), &square, v(0.0, 2.0), false);
    both_ways(&square, v(-3.0, 7.0), &square, v(-5.0, 7.0), false);
    assert!(!sat_collides(&square, v(0.0, 0.0), &square, v(2.0, 0.0)));
    assert!(is_none(&square.collision_resolution(v(0.0, 0.0), &square, v(2.0, 0.0))));
    assert!(is_none(&sat_collision_resolution(&square, v(0.0, 0.0), &square, v(0.0, 2.0))));
    // Just inside the tolerance the boxes still count as touching, just beyond it they overlap.
    both_ways(&square, v(0.0, 0.0), &square, v(1.99995, 0.0), false);
    both_ways(&square, v(0.0, 0.0), &square, v(1.999, 0.0), true);
}

#[test]
fn scenario_large_box_against_small_box() {
    let large = AABB::new(Fl(10.0), Fl(10.0));
    let small = AABB::new(Fl(2.0), Fl(4.0));

    let resolution = large.collision_resolution(v(5.0, 5.0), &small, v(1.0, -1.5));
    assert!(resolution.colliding);
    assert_eq!(resolution.penetration.0, 0.5);
    assert_eq!(resolution.axis.x.0, 0.0);
    assert_eq!(resolution.axis.y.0, 1.0);
    assert!(resolution.axis.perp(v(1.0, 0.0)));

    let seen = small.collision_resolution(v(1.0, -1.5), &large, v(5.0, 5.0));
    assert!(seen.colliding);
    assert_eq!(seen.penetration.0, 0.5);
    assert_eq!(seen.axis.x.0, 0.0);
    assert_eq!(seen.axis.y.0, -1.0);

    let unresolved = large.aabb_resolution(v(5.0, 5.0), &small, v(1.0, -1.5), false);
    assert!(unresolved.colliding);
    assert_eq!(unresolved.penetration.0, f64::MAX);
    assert_eq!(unresolved.axis.x.0, 0.0);
    assert_eq!(unresolved.axis.y.0, 0.0);
}

#[test]
fn scenario_box_overlap_is_resolved_along_x_on_a_tie() {
    let square = AABB::new(Fl(2.0), Fl(2.0));

    let resolution = square.collision_resolution(v(0.0, 0.0), &square, v(1.0, 1.0));
    assert!(resolution.colliding);
    assert_eq!(resolution.penetration.0, 1.0);
    assert_eq!(resolution.axis.x.0, -1.0);
    assert_eq!(resolution.axis.y.0, 0.0);
}

#[test]
fn scenario_large_circle_against_small_circle() {
    let large = Circle::new(Fl(5.5));
    let small = Circle::new(Fl(1.0));

    let resolution = large.collision_resolution(v(0.0, 0.0), &small, v(6.0, 0.0));
    assert!(resolution.colliding);
    assert!((resolution.penetration.0 - 0.5).abs() < 1e-12);
    assert!((resolution.axis.x.0 + 1.0).abs() < 1e-12);
    assert_eq!(resolution.axis.y.0, 0.0);
}

#[test]
fn scenario_circle_beside_the_corner_of_a_box() {
    let aabb = AABB::new(Fl(2.0), Fl(4.0));
    let circ = Circle::new(Fl(1.0));

    assert!(!aabb.collides(v(2.0, 0.0), &circ, v(0.25, -2.75)));
    assert!(!circ.collides(v(0.25, -2.75), &aabb, v(2.0, 0.0)));
    assert!(!sat_collides(&aabb, v(2.0, 0.0), &circ, v(0.25, -2.75)));
    assert!(is_none(&circ.collision_resolution(v(0.25, -2.75), &aabb, v(2.0, 0.0))));
}

#[test]
fn scenario_polygon_construction() {
    let pentagon = vec![v(0.0, 1.0), v(-0.5, 0.5), v(-0.25, -0.5), v(0.25, -0.5), v(0.5, 0.5)];
    assert!(Polygon::new(pentagon.clone()).is_ok());

    assert!(matches!(Polygon::<Fl<f64>>::new(Vec::new()), Err(PolygonError::TooFewVerticesError)));
    assert!(matches!(Polygon::new(vec![v(0.0, 1.0)]), Err(PolygonError::TooFewVerticesError)));
    assert!(matches!(Polygon::new(pentagon[..2].to_vec()), Err(PolygonError::TooFewVerticesError)));

    let crossed = vec![v(0.0, 1.0), v(-0.25, -0.5), v(-0.5, 0.5), v(0.25, -0.5), v(0.5, 0.5)];
    assert!(matches!(Polygon::new(crossed), Err(PolygonError::ConcaveError)));
}

#[test]
fn polygon_keeps_its_vertices_in_order() {
    let square = unit_square();
    let vertices = square.vertices();
    assert_eq!(vertices.len(), 4);
    assert_eq!((vertices[0].x.0, vertices[0].y.0), (-1.0, -1.0));
    assert_eq!((vertices[1].x.0, vertices[1].y.0), (1.0, -1.0));
    assert_eq!((vertices[2].x.0, vertices[2].y.0), (1.0, 1.0));
    assert_eq!((vertices[3].x.0, vertices[3].y.0), (-1.0, 1.0));

    let axes = square.axes();
    assert_eq!(axes.len(), 4);
    match axes[0] {
        Axis::Static { vector, normalized } => {
            // The edge from the last vertex to the first is (0, -2); its normal is (2, 0).
            assert!(!normalized);
            assert_eq!((vector.x.0, vector.y.0), (2.0, 0.0));
        }
        Axis::Dynamic { point: _ } => panic!("a polygon has static axes"),
    }
}

#[test]
fn a_reflex_corner_at_the_last_vertex_is_found() {
    // Every corner but the last turns left.
    let dented = vec![v(0.0, 0.0), v(4.0, 0.0), v(4.0, 4.0), v(3.0, 1.0)];
    assert!(concave(&dented));
    assert!(matches!(Polygon::new(dented), Err(PolygonError::ConcaveError)));

    assert!(!concave::<Fl<f64>>(&[]));
    assert!(!concave(&[v(0.0, 0.0), v(1.0, 0.0)]));
}

#[test]
fn vector_arithmetic_is_exact_on_small_integers() {
    let a = v(30.0, 10.0);
    let b = v(-5.0, 12.0);

    assert_eq!((a.add(b).x.0, a.add(b).y.0), (25.0, 22.0));
    assert_eq!((a.sub(b).x.0, a.sub(b).y.0), (35.0, -2.0));
    assert_eq!((a.neg().x.0, a.neg().y.0), (-30.0, -10.0));
    assert_eq!(((a + b).x.0, (a + b).y.0), (25.0, 22.0));
    assert_eq!(((a - b).x.0, (a - b).y.0), (35.0, -2.0));
    assert_eq!(((-a).x.0, (-a).y.0), (-30.0, -10.0));
    assert_eq!(a.dot(b).0, -30.0);
    assert_eq!((a.scale(Fl(0.5)).x.0, a.scale(Fl(0.5)).y.0), (15.0, 5.0));
    assert_eq!((a.rotate_counter_90().x.0, a.rotate_counter_90().y.0), (-10.0, 30.0));
    assert_eq!((a.rotate_clock_90().x.0, a.rotate_clock_90().y.0), (10.0, -30.0));
    assert_eq!(v(-3.0, 4.0).length_squared().0, 25.0);
    assert_eq!(v(-3.0, 4.0).length().0, 5.0);
    assert_eq!((v(-3.0, 4.0).normalized().x.0, v(-3.0, 4.0).normalized().y.0), (-0.6, 0.8));
    assert_eq!((Vec2::<Fl<f64>>::zero().x.0, Vec2::<Fl<f64>>::zero().y.0), (0.0, 0.0));
}

#[test]
fn a_vector_without_length_is_its_own_normalisation() {
    let zero = Vec2::<Fl<f64>>::zero().normalized();
    assert_eq!((zero.x.0, zero.y.0), (0.0, 0.0));
    let absent = v(f64::NAN, 1.0).normalized();
    assert!(absent.x.0.is_nan());
    assert_eq!(absent.y.0, 1.0);
}

#[test]
fn clamp_brings_each_coordinate_into_its_interval() {
    let low = v(-1.0, 2.0);
    let high = v(1.0, 6.0);

    let inside = v(0.5, 3.0).clamp(low, high);
    assert_eq!((inside.x.0, inside.y.0), (0.5, 3.0));
    let below = v(-7.0, 1.0).clamp(low, high);
    assert_eq!((below.x.0, below.y.0), (-1.0, 2.0));
    let above = v(7.0, 9.0).clamp(low, high);
    assert_eq!((above.x.0, above.y.0), (1.0, 6.0));
    let mixed = v(-7.0, 9.0).clamp(low, high);
    assert_eq!((mixed.x.0, mixed.y.0), (-1.0, 6.0));
}

#[test]
fn projection_starts_inverted_and_widens() {
    let empty = Projection::<Fl<f64>>::new();
    assert_eq!(empty.min.0, f64::INFINITY);
    assert_eq!(empty.max.0, f64::NEG_INFINITY);

    let none = project_onto(v(1.0, 1.0), &[], v(1.0, 0.0));
    assert_eq!((none.min.0, none.max.0), (f64::INFINITY, f64::NEG_INFINITY));

    let vertices = [v(0.0, 0.0), v(2.0, 1.0), v(-2.0, -3.0)];
    let projection = project_onto(v(2.0, 1.0), &vertices, v(-2.0, 0.0));
    assert_eq!((projection.min.0, projection.max.0), (-8.0, 0.0));
}

#[test]
fn closest_vertex_takes_the_first_of_equally_near_ones() {
    let vertices = [v(1.0, 0.0), v(-1.0, 0.0), v(0.0, 3.0)];
    let closest = closest_vertex(v(0.0, 0.0), v(0.0, 0.0), &vertices);
    assert_eq!((closest.x.0, closest.y.0), (1.0, 0.0));

    let placed = closest_vertex(v(10.0, 13.5), v(10.0, 10.0), &vertices);
    assert_eq!((placed.x.0, placed.y.0), (10.0, 13.0));

    let none = closest_vertex(v(1.0, 1.0), v(2.0, 2.0), &[]);
    assert_eq!((none.x.0, none.y.0), (0.0, 0.0));
}

#[test]
fn flipping_negates_the_axis_only() {
    let resolution = Resolution { colliding: true, penetration: Fl(0.25), axis: v(0.6, -0.8) };
    let flipped = resolution.flipped();
    assert!(flipped.colliding);
    assert_eq!(flipped.penetration.0, 0.25);
    assert_eq!((flipped.axis.x.0, flipped.axis.y.0), (-0.6, 0.8));
}

#[test]
fn coinciding_circles_are_pushed_apart_along_x() {
    let circ0 = Circle::new(Fl(2.0));
    let circ1 = Circle::new(Fl(0.5));

    let resolution = circ0.circle_resolution(v(3.0, -1.0), &circ1, v(3.0, -1.0), true);
    assert!(resolution.colliding);
    assert_eq!(resolution.penetration.0, 2.5);
    assert_eq!((resolution.axis.x.0, resolution.axis.y.0), (1.0, 0.0));
}

#[test]
fn circle_inside_a_box_leaves_through_the_nearest_face() {
    let aabb = AABB::new(Fl(10.0), Fl(6.0));
    let circ = Circle::new(Fl(1.0));

    let left = circ.aabb_resolution(v(-4.0, 0.0), &aabb, v(0.0, 0.0), true);
    assert_eq!(left.penetration.0, 2.0);
    assert_eq!((left.axis.x.0, left.axis.y.0), (-1.0, 0.0));
    let right = circ.aabb_resolution(v(4.5, 0.0), &aabb, v(0.0, 0.0), true);
    assert_eq!(right.penetration.0, 1.5);
    assert_eq!((right.axis.x.0, right.axis.y.0), (1.0, 0.0));
    let top = circ.aabb_resolution(v(0.0, -2.0), &aabb, v(0.0, 0.0), true);
    assert_eq!(top.penetration.0, 2.0);
    assert_eq!((top.axis.x.0, top.axis.y.0), (0.0, -1.0));
    let bottom = circ.aabb_resolution(v(0.0, 2.5), &aabb, v(0.0, 0.0), true);
    assert_eq!(bottom.penetration.0, 1.5);
    assert_eq!((bottom.axis.x.0, bottom.axis.y.0), (0.0, 1.0));
    // At the centre of a square every face is equally near: the left one is taken.
    let square = AABB::new(Fl(4.0), Fl(4.0));
    let centre = circ.aabb_resolution(v(0.0, 0.0), &square, v(0.0, 0.0), true);
    assert_eq!(centre.penetration.0, 3.0);
    assert_eq!((centre.axis.x.0, centre.axis.y.0), (-1.0, 0.0));
}

#[test]
fn circle_outside_a_box_leaves_along_the_line_to_its_centre() {
    let aabb = AABB::new(Fl(2.0), Fl(2.0));
    let circ = Circle::new(Fl(1.0));

    let resolution = circ.aabb_resolution(v(1.5, 0.0), &aabb, v(0.0, 0.0), true);
    assert!(resolution.colliding);
    assert_eq!(resolution.penetration.0, 0.5);
    assert_eq!((resolution.axis.x.0, resolution.axis.y.0), (1.0, 0.0));

    let seen = aabb.collision_resolution(v(0.0, 0.0), &circ, v(1.5, 0.0));
    assert!(seen.colliding);
    assert_eq!(seen.penetration.0, 0.5);
    assert_eq!((seen.axis.x.0, seen.axis.y.0), (-1.0, 0.0));
}

#[test]
fn degenerate_axes_are_passed_over() {
    let circ = Circle::new(Fl(1.0));
    let flat = Axis::Static { vector: Vec2::<Fl<f64>>::zero(), normalized: false };

    assert!(generate_axis(flat, v(0.0, 0.0), &circ, v(3.0, 0.0), true).is_none());
    assert!(generate_axis(flat, v(0.0, 0.0), &circ, v(3.0, 0.0), false).is_none());
    // The axis point of the actor lies on the centre of the pushed circle.
    let onto = Axis::Dynamic { point: v(3.0, 0.0) };
    assert!(generate_axis(onto, v(0.0, 0.0), &circ, v(3.0, 0.0), true).is_none());

    let raw = Axis::Static { vector: v(0.0, 4.0), normalized: false };
    let unit = generate_axis(raw, v(0.0, 0.0), &circ, v(3.0, 0.0), true);
    assert!(matches!(unit, Some(axis) if axis.x.0 == 0.0 && axis.y.0 == 1.0));
    let as_is = generate_axis(raw, v(0.0, 0.0), &circ, v(3.0, 0.0), false);
    assert!(matches!(as_is, Some(axis) if axis.x.0 == 0.0 && axis.y.0 == 4.0));
    let marked = Axis::Static { vector: v(0.0, 4.0), normalized: true };
    let kept = generate_axis(marked, v(0.0, 0.0), &circ, v(3.0, 0.0), true);
    assert!(matches!(kept, Some(axis) if axis.y.0 == 4.0));
    let dynamic = Axis::Dynamic { point: v(0.0, 0.0) };
    let towards = generate_axis(dynamic, v(0.0, 0.0), &circ, v(3.0, 0.0), true);
    assert!(matches!(towards, Some(axis) if axis.x.0 == -1.0 && axis.y.0 == 0.0));
}

#[test]
fn half_pass_turns_the_axis_from_the_actor_towards_the_pushed_shape() {
    let small = AABB::new(Fl(2.0), Fl(2.0));

    let right = half_sat_resolution(&small, v(1.5, 0.0), &small, v(0.0, 0.0), true);
    assert!(right.colliding);
    assert_eq!(right.penetration.0, 0.5);
    assert_eq!((right.axis.x.0, right.axis.y.0), (-1.0, 0.0));
    assert!(!right.axis.dot(v(0.0, 0.0) - v(1.5, 0.0)).is_sign_negative());

    let left = half_sat_resolution(&small, v(-1.5, 0.0), &small, v(0.0, 0.0), true);
    assert!(left.colliding);
    assert_eq!(left.penetration.0, 0.5);
    assert_eq!((left.axis.x.0, left.axis.y.0), (1.0, 0.0));

    let above = half_sat_resolution(&small, v(0.0, 0.0), &small, v(0.25, 1.5), false);
    assert!(above.colliding);
    assert_eq!(above.penetration.0, 0.5);
    assert_eq!((above.axis.x.0, above.axis.y.0), (0.0, 1.0));
}

#[test]
fn separating_axis_resolution_points_at_the_other_shape() {
    let square = unit_square();
    let triangle = Triangle::new(&[v(0.0, 0.0), v(1.0, 0.0), v(0.0, 1.0)]);

    // The triangle reaches half a unit into the right side of the square.
    let resolution = square.collision_resolution(v(0.0, 0.0), &triangle, v(0.5, 0.0));
    assert!(resolution.colliding);
    assert_eq!(resolution.penetration.0, 0.5);
    assert_eq!((resolution.axis.x.0, resolution.axis.y.0), (1.0, 0.0));

    let seen = triangle.collision_resolution(v(0.5, 0.0), &square, v(0.0, 0.0));
    assert!(seen.colliding);
    assert_eq!(seen.penetration.0, 0.5);
    assert_eq!((seen.axis.x.0, seen.axis.y.0), (-1.0, 0.0));

    let generic = sat_collision_resolution(&square, v(0.0, 0.0), &triangle, v(0.5, 0.0));
    assert_eq!((generic.axis.x.0, generic.axis.y.0), (1.0, 0.0));
}

#[test]
fn the_boundary_of_a_shape_is_not_contained() {
    let square = AABB::new(Fl(2.0), Fl(2.0));
    assert!(!square.contains_point(v(0.0, 0.0), v(1.0, 0.0)));
    assert!(!square.contains_point(v(0.0, 0.0), v(0.0, 1.0)));
    assert!(!square.contains_point(v(0.0, 0.0), v(-1.0, -1.0)));
    // Within tolerance of the boundary counts as on it.
    assert!(!square.contains_point(v(0.0, 0.0), v(0.99995, 0.0)));
    assert!(square.contains_point(v(0.0, 0.0), v(0.999, 0.0)));
    assert!(square.contains_point(v(0.0, 0.0), v(0.0, 0.0)));
    assert!(!square.contains_point(v(0.0, 0.0), v(1.001, 0.0)));

    let aabb = AABB::new(Fl(8.0), Fl(4.0));
    assert!(!aabb.contains_point(v(0.0, 0.0), v(4.0, 2.0)));
    assert!(aabb.contains_point(v(0.0, 0.0), v(3.9, 1.9)));
    assert!(!aabb.contains_point(v(0.0, 0.0), v(4.001, 0.0)));
    assert!(!aabb.contains_point(v(0.0, 0.0), v(0.0, -2.001)));
    assert_eq!(
        aabb.contains_point(v(3.0, 1.0), v(6.5, 2.5)),
        sat_contains_point(&aabb, v(3.0, 1.0), v(6.5, 2.5))
    );

    let triangle = Triangle::new(&[v(0.0, 0.0), v(1.0, 0.0), v(0.0, 1.0)]);
    assert!(triangle.contains_point(v(0.0, 0.0), v(0.25, 0.25)));
    assert!(!triangle.contains_point(v(0.0, 0.0), v(0.5, 0.0)));
    assert!(!triangle.contains_point(v(0.0, 0.0), v(0.5, 0.5)));
    assert!(!sat_contains_point(&triangle, v(0.0, 0.0), v(0.0, 0.0)));
}

#[test]
fn circle_centred_on_the_edge_of_a_box_counts_as_outside() {
    let aabb = AABB::new(Fl(2.0), Fl(2.0));
    let circ = Circle::new(Fl(0.5));

    // The centre lies on the right edge: the nearest point of the box is the
    // centre itself, and with no distance to divide by the axis is along x.
    let resolution = circ.aabb_resolution(v(1.0, 0.0), &aabb, v(0.0, 0.0), true);
    assert!(resolution.colliding);
    assert_eq!(resolution.penetration.0, 0.5);
    assert_eq!((resolution.axis.x.0, resolution.axis.y.0), (1.0, 0.0));

    // Just inside, the way out is through the right face.
    let inside = circ.aabb_resolution(v(0.75, 0.0), &aabb, v(0.0, 0.0), true);
    assert!(inside.colliding);
    assert_eq!(inside.penetration.0, 0.75);
    assert_eq!((inside.axis.x.0, inside.axis.y.0), (1.0, 0.0));
}

#[test]
fn perpendicular_search_stops_at_a_dynamic_axis() {
    let fixed = Axis::Static { vector: v(0.0, 1.0), normalized: true };
    let moving = Axis::Dynamic { point: v(0.0, 0.0) };

    assert!(contains_perpendicular(vec![fixed], v(1.0, 0.0)));
    assert!(!contains_perpendicular(vec![fixed], v(1.0, 1.0)));
    assert!(!contains_perpendicular(vec![moving, fixed], v(1.0, 0.0)));
    assert!(contains_perpendicular(vec![fixed, moving], v(1.0, 0.0)));
    assert!(!contains_perpendicular(Vec::<Axis<Fl<f64>>>::new(), v(1.0, 0.0)));
}

#[test]
fn every_shape_names_itself() {
    let aabb = AABB::new(Fl(1.0), Fl(1.0));
    let circle = Circle::new(Fl(1.0));
    let capsule = Capsule::new(v(0.0, 2.0), Fl(1.0));
    let pgram = Pgram::new(v(2.0, 0.0), v(1.0, 2.0));
    let triangle = Triangle::new(&[v(0.0, 0.0), v(1.0, 0.0), v(0.0, 1.0)]);
    let square = unit_square();

    assert!(matches!(aabb.shape(), ShapeType::AABB(_)));
    assert!(matches!(circle.shape(), ShapeType::Circle(_)));
    assert!(matches!(capsule.shape(), ShapeType::Capsule(_)));
    assert!(matches!(pgram.shape(), ShapeType::Pgram(_)));
    assert!(matches!(triangle.shape(), ShapeType::Triangle(_)));
    assert!(matches!(square.shape(), ShapeType::Polygon(_)));
}

#[test]
fn shapes_give_their_vertices_and_axes() {
    let aabb = AABB::new(Fl(10.0), Fl(12.0));
    let corners = aabb.vertices();
    assert_eq!((corners[0].x.0, corners[0].y.0), (-5.0, -6.0));
    assert_eq!((corners[1].x.0, corners[1].y.0), (5.0, -6.0));
    assert_eq!((corners[2].x.0, corners[2].y.0), (5.0, 6.0));
    assert_eq!((corners[3].x.0, corners[3].y.0), (-5.0, 6.0));
    assert_eq!(aabb.axes().len(), 2);

    let pgram = Pgram::new(v(5.0, 3.0), v(-1.0, -4.0));
    let corners = pgram.vertices();
    assert_eq!((corners[0].x.0, corners[0].y.0), (-2.0, 0.5));
    assert_eq!((corners[1].x.0, corners[1].y.0), (3.0, 3.5));
    assert_eq!((corners[2].x.0, corners[2].y.0), (2.0, -0.5));
    assert_eq!((corners[3].x.0, corners[3].y.0), (-3.0, -3.5));

    let triangle = Triangle::new(&[v(0.0, 0.0), v(1.0, 0.0), v(0.0, 1.0)]);
    let corners = triangle.vertices();
    assert_eq!((corners[2].x.0, corners[2].y.0), (0.0, 1.0));
    assert_eq!(triangle.axes().len(), 3);

    let capsule = Capsule::new(v(0.0, 2.0), Fl(1.0));
    let extent = capsule.project(v(0.0, 1.0), v(0.0, 0.0));
    assert_eq!((extent.min.0, extent.max.0), (-3.0, 3.0));
    let across = capsule.project(v(1.0, 0.0), v(5.0, 0.0));
    assert_eq!((across.min.0, across.max.0), (4.0, 6.0));

    let circle = Circle::new(Fl(2.0));
    let extent = circle.project(v(0.0, 2.0), v(1.0, 1.0));
    assert_eq!((extent.min.0, extent.max.0), (-2.0, 6.0));
}

#[test]
fn wedge_holds_its_data() {
    let wedge = Wedge { start: v(1.0, 0.0), end: v(0.0, 1.0), radius: Fl(2.0) };
    assert_eq!(wedge.start.x.0, 1.0);
    assert_eq!(wedge.end.y.0, 1.0);
    assert_eq!(wedge.radius.0, 2.0);
}

#[test]
fn touching_circles_collide_in_closed_form() {
    let circ = Circle::new(Fl(1.0));

    // The squared distance equals the squared sum of the radii: within tolerance.
    assert!(circ.collides(v(0.0, 0.0), &circ, v(2.0, 0.0)));
    let resolution = circ.circle_resolution(v(0.0, 0.0), &circ, v(2.0, 0.0), true);
    assert!(resolution.colliding);
    assert_eq!(resolution.penetration.0, 0.0);
    assert_eq!((resolution.axis.x.0, resolution.axis.y.0), (-1.0, 0.0));
    // Moved apart by more than the tolerance on the squares, they do not.
    assert!(!circ.collides(v(0.0, 0.0), &circ, v(2.001, 0.0)));
    // The separating-axis test counts touching extents as apart.
    assert!(!sat_collides(&circ, v(0.0, 0.0), &circ, v(2.0, 0.0)));
}
