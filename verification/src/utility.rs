use crate::vec2::Vec2;
use crate::{max_spec, min_spec, NumTolerance};
use vstd::prelude::*;

verus! {

/// The extent of a shape along an axis.
pub struct Projection<T: NumTolerance> {
    pub min: T,
    pub max: T,
}

impl<T: NumTolerance> Projection<T> {
    /// The inverted interval that any real projection widens.
    pub open spec fn empty() -> Self {
        Projection { min: T::infinity_spec(), max: T::neg_infinity_spec() }
    }

    /// The interval widened so that it holds `value`.
    pub open spec fn widened(self, value: T) -> Self {
        Projection { min: min_spec(self.min, value), max: max_spec(self.max, value) }
    }

    pub fn new() -> (r: Self)
        ensures
            r == Self::empty(),
    {
        Projection { min: T::infinity(), max: T::neg_infinity() }
    }
}

/// The interval covered by the dot products of `axis` with the vertices
/// placed at `position`, taken in order.
pub open spec fn projection_of<T: NumTolerance>(
    position: Vec2<T>,
    vertices: Seq<Vec2<T>>,
    axis: Vec2<T>,
) -> Projection<T>
    decreases vertices.len(),
{
    if vertices.len() == 0 {
        Projection::empty()
    } else {
        projection_of(position, vertices.drop_last(), axis).widened(
            axis.dot_spec(position.plus(vertices.last())),
        )
    }
}

/// The squared distance from `point` to a vertex placed at `position`.
pub open spec fn vertex_distance<T: NumTolerance>(
    point: Vec2<T>,
    position: Vec2<T>,
    vertex: Vec2<T>,
) -> T {
    position.plus(vertex).minus(point).length_squared_spec()
}

/// The placed vertex nearest to `point` among `vertices` together with its
/// squared distance; the earliest of several equally near ones. With no
/// vertex nearer than the largest scalar, the origin and that scalar.
pub open spec fn nearest_vertex<T: NumTolerance>(
    point: Vec2<T>,
    position: Vec2<T>,
    vertices: Seq<Vec2<T>>,
) -> (Vec2<T>, T)
    decreases vertices.len(),
{
    if vertices.len() == 0 {
        (Vec2::zero_spec(), T::max_value_spec())
    } else {
        let before = nearest_vertex(point, position, vertices.drop_last());
        let distance = vertex_distance(point, position, vertices.last());
        if distance.lt_spec(before.1) {
            (vertices.last().plus(position), distance)
        } else {
            before
        }
    }
}

/// Projects the vertices, placed at `position`, onto `axis`.
pub fn project_onto<T: NumTolerance>(position: Vec2<T>, vertices: &[Vec2<T>], axis: Vec2<T>) -> (r:
    Projection<T>)
    ensures
        r == projection_of(position, vertices@, axis),
{
    let mut projection: Projection<T> = Projection::new();
    let mut i: usize = 0;
    while i < vertices.len()
        invariant
            i <= vertices.len(),
            projection == projection_of(position, vertices@.take(i as int), axis),
        decreases vertices.len() - i,
    {
        let proj = axis.dot(position.add(vertices[i]));
        proof {
            assert(vertices@.take(i + 1).drop_last() =~= vertices@.take(i as int));
        }
        projection.min = projection.min.min(proj);
        projection.max = projection.max.max(proj);
        i += 1;
    }
    proof {
        assert(vertices@.take(i as int) =~= vertices@);
    }
    projection
}

/// The vertex, placed at `position`, that lies nearest to `point`.
pub fn closest_vertex<T: NumTolerance>(point: Vec2<T>, position: Vec2<T>, vertices: &[Vec2<T>]) -> (r:
    Vec2<T>)
    ensures
        r == nearest_vertex(point, position, vertices@).0,
{
    let mut closest: Vec2<T> = Vec2::zero();
    let mut min: T = T::max_value();
    let mut i: usize = 0;
    while i < vertices.len()
        invariant
            i <= vertices.len(),
            (closest, min) == nearest_vertex(point, position, vertices@.take(i as int)),
        decreases vertices.len() - i,
    {
        let d_s = position.add(vertices[i]).sub(point).length_squared();
        proof {
            assert(vertices@.take(i + 1).drop_last() =~= vertices@.take(i as int));
        }
        if d_s.lt(min) {
            closest = vertices[i].add(position);
            min = d_s;
        }
        i += 1;
    }
    proof {
        assert(vertices@.take(i as int) =~= vertices@);
    }
    closest
}

/// The nearest vertex is one of the vertices, placed at `position`, and the
/// distance that comes with it is the distance to that vertex; unless no
/// vertex lies nearer than the largest scalar.
pub proof fn lemma_nearest_vertex_witness<T: NumTolerance>(point: Vec2<T>, position: Vec2<T>, vertices: Seq<Vec2<T>>)
    ensures
        ({
            let nearest = nearest_vertex(point, position, vertices);
            nearest == (Vec2::<T>::zero_spec(), T::max_value_spec()) || exists|i: int|
                0 <= i < vertices.len() && nearest == (
                    (#[trigger] vertices[i]).plus(position),
                    vertex_distance(point, position, vertices[i]),
                )
        }),
    decreases vertices.len(),
{
    if vertices.len() > 0 {
        let rest = vertices.drop_last();
        lemma_nearest_vertex_witness(point, position, rest);
        let before = nearest_vertex(point, position, rest);
        let nearest = nearest_vertex(point, position, vertices);
        if nearest != before {
            assert(nearest == (
                vertices[vertices.len() - 1].plus(position),
                vertex_distance(point, position, vertices[vertices.len() - 1]),
            ));
        } else if nearest != (Vec2::<T>::zero_spec(), T::max_value_spec()) {
            let i = choose|i: int|
                0 <= i < rest.len() && before == (
                    (#[trigger] rest[i]).plus(position),
                    vertex_distance(point, position, rest[i]),
                );
            assert(vertices[i] == rest[i]);
        }
    }
}

/// Each end of a projection is the dot product of the axis with one of the
/// placed vertices, or still the end of the empty interval.
pub proof fn lemma_projection_ends<T: NumTolerance>(position: Vec2<T>, vertices: Seq<Vec2<T>>, axis: Vec2<T>)
    ensures
        ({
            let projection = projection_of(position, vertices, axis);
            &&& projection.min == T::infinity_spec() || exists|i: int|
                0 <= i < vertices.len() && projection.min == axis.dot_spec(position.plus(#[trigger] vertices[i]))
            &&& projection.max == T::neg_infinity_spec() || exists|i: int|
                0 <= i < vertices.len() && projection.max == axis.dot_spec(position.plus(#[trigger] vertices[i]))
        }),
    decreases vertices.len(),
{
    if vertices.len() > 0 {
        let rest = vertices.drop_last();
        let last = vertices.len() - 1;
        lemma_projection_ends(position, rest, axis);
        let before = projection_of(position, rest, axis);
        let projection = projection_of(position, vertices, axis);
        if projection.min != before.min {
            assert(projection.min == axis.dot_spec(position.plus(vertices[last])));
        } else if projection.min != T::infinity_spec() {
            let i = choose|i: int|
                0 <= i < rest.len() && before.min == axis.dot_spec(position.plus(#[trigger] rest[i]));
            assert(vertices[i] == rest[i]);
        }
        if projection.max != before.max {
            assert(projection.max == axis.dot_spec(position.plus(vertices[last])));
        } else if projection.max != T::neg_infinity_spec() {
            let i = choose|i: int|
                0 <= i < rest.len() && before.max == axis.dot_spec(position.plus(#[trigger] rest[i]));
            assert(vertices[i] == rest[i]);
        }
    }
}

} // verus!
