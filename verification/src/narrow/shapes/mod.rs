use crate::narrow::sat::{sat_collides_spec, Axis, Collidable, SATable};
use crate::vec2::Vec2;
use crate::{trivial_abs, NumTolerance};
use vstd::prelude::*;

pub mod aabb;
pub mod capsule;
pub mod circle;
pub mod p_gram;
pub mod polygon;
pub mod triangle;
pub mod wedge;

verus! {

/// Which shape a value is; lets a shape recognise its counterpart and pick
/// a closed-form test.
pub enum ShapeType<'a, T: NumTolerance> {
    AABB(&'a aabb::AABB<T>),
    Capsule(&'a capsule::Capsule<T>),
    Circle(&'a circle::Circle<T>),
    Pgram(&'a p_gram::Pgram<T>),
    Polygon(&'a polygon::Polygon<T>),
    Triangle(&'a triangle::Triangle<T>),
    /// A shape outside this catalogue.
    Other,
}

/// A value that can tell which shape it is.
pub trait Shapeable<T: NumTolerance> {
    spec fn shape_spec(&self) -> ShapeType<'_, T>;

    fn shape(&self) -> (r: ShapeType<'_, T>)
        ensures
            r == self.shape_spec(),
    ;
}

/// Whether the axis is a static one whose direction is perpendicular to
/// `perp` within the absolute tolerance.
pub open spec fn perpendicular_axis<T: NumTolerance>(axis: Axis<T>, perp: Vec2<T>) -> bool {
    axis matches Axis::Static { vector, normalized } && trivial_abs(vector.dot_spec(perp))
}

/// Whether one of the static axes that come before the first dynamic axis
/// is perpendicular to `perp` within the absolute tolerance.
pub fn contains_perpendicular<T: NumTolerance>(axes: Vec<Axis<T>>, perp: Vec2<T>) -> (r: bool)
    ensures
        r <==> exists|i: int|
            0 <= i < axes@.len() && perpendicular_axis(#[trigger] axes@[i], perp) && forall|j: int|
                0 <= j < i ==> #[trigger] axes@[j] is Static,
{
    let mut i: usize = 0;
    while i < axes.len()
        invariant
            i <= axes.len(),
            forall|j: int| 0 <= j < i ==> #[trigger] axes@[j] is Static,
            forall|j: int| 0 <= j < i ==> !perpendicular_axis(#[trigger] axes@[j], perp),
        decreases axes.len() - i,
    {
        match axes[i] {
            Axis::Static { vector, normalized: _ } => {
                if vector.dot(perp).is_trivial_abs() {
                    return true;
                }
            },
            Axis::Dynamic { point: _ } => {
                return false;
            },
        }
        i += 1;
    }
    false
}

/// What `collides` answers for a shape `a` that names itself `a_tag` against
/// a shape `b` that names itself `b_tag`: boxes and circles among themselves
/// are decided in closed form, every other pair by the separating-axis test.
pub open spec fn catalogue_collides<T: NumTolerance, A: SATable<T>, B: SATable<T>>(
    a: &A,
    a_tag: ShapeType<T>,
    a_position: Vec2<T>,
    b: &B,
    b_tag: ShapeType<T>,
    b_position: Vec2<T>,
) -> bool {
    match (a_tag, b_tag) {
        (ShapeType::AABB(x), ShapeType::AABB(y)) => !x.apart(a_position, y, b_position),
        (ShapeType::AABB(x), ShapeType::Circle(c)) => c.reaches(b_position, x, a_position),
        (ShapeType::Circle(c), ShapeType::AABB(x)) => c.reaches(a_position, x, b_position),
        (ShapeType::Circle(c), ShapeType::Circle(d)) => c.overlaps(a_position, d, b_position),
        _ => sat_collides_spec(a, a_position, b, b_position),
    }
}

/// Whether the scalar measures a pair of shapes alike from either side.
/// This asks something of two circles only: that their radii add to the same
/// sum in either order and that the difference of their centres has the same
/// squared length in either direction.
pub open spec fn measured_alike<T: NumTolerance>(
    a_tag: ShapeType<T>,
    a_position: Vec2<T>,
    b_tag: ShapeType<T>,
    b_position: Vec2<T>,
) -> bool {
    match (a_tag, b_tag) {
        (ShapeType::Circle(c), ShapeType::Circle(d)) => c.measures_alike(a_position, d, b_position),
        _ => true,
    }
}

/// Whether `a` answers `collides` against `b` as the catalogue does. Every
/// shape of this crate does, against every counterpart: see
/// `lemma_follows_catalogue` of each shape.
pub open spec fn follows_catalogue<T: NumTolerance, A: Collidable<T, B>, B: SATable<T> + Shapeable<T>>(
    a: &A,
    a_position: Vec2<T>,
    b: &B,
    b_position: Vec2<T>,
) -> bool {
    a.collides_spec(a_position, b, b_position) == catalogue_collides(
        a,
        a.shape_spec(),
        a_position,
        b,
        b.shape_spec(),
        b_position,
    )
}

/// The answer of the catalogue does not depend on which shape of a pair is
/// asked, wherever the scalar measures the pair alike from either side.
pub proof fn lemma_catalogue_symmetric<T: NumTolerance, A: SATable<T>, B: SATable<T>>(
    a: &A,
    a_tag: ShapeType<T>,
    a_position: Vec2<T>,
    b: &B,
    b_tag: ShapeType<T>,
    b_position: Vec2<T>,
)
    requires
        measured_alike(a_tag, a_position, b_tag, b_position),
    ensures
        catalogue_collides(a, a_tag, a_position, b, b_tag, b_position) == catalogue_collides(
            b,
            b_tag,
            b_position,
            a,
            a_tag,
            a_position,
        ),
{
}

/// Any two shapes that answer as the catalogue does collide whichever of
/// them is asked: `a.collides(pa, b, pb) == b.collides(pb, a, pa)`, wherever
/// the scalar measures the pair alike from either side.
pub proof fn lemma_collides_symmetric<T: NumTolerance, A: Collidable<T, B>, B: Collidable<T, A>>(
    a: &A,
    a_position: Vec2<T>,
    b: &B,
    b_position: Vec2<T>,
)
    requires
        follows_catalogue(a, a_position, b, b_position),
        follows_catalogue(b, b_position, a, a_position),
        measured_alike(a.shape_spec(), a_position, b.shape_spec(), b_position),
    ensures
        a.collides_spec(a_position, b, b_position) == b.collides_spec(b_position, a, a_position),
{
    lemma_catalogue_symmetric(a, a.shape_spec(), a_position, b, b.shape_spec(), b_position);
}

} // verus!
