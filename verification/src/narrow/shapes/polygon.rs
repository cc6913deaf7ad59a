use crate::narrow::sat::{
    sat_collides, sat_collides_spec, sat_collision_resolution, sat_collision_resolution_spec, sat_contains_point,
    sat_contains_point_spec, Axis, Collidable, Containing, Resolution, SATable,
};
use crate::narrow::shapes::{follows_catalogue, ShapeType, Shapeable};
use crate::utility::{closest_vertex, nearest_vertex, project_onto, projection_of, Projection};
use crate::vec2::Vec2;
use crate::NumTolerance;
use vstd::prelude::*;

verus! {

/// A convex polygon with at least three vertices, given in order.
pub struct Polygon<T: NumTolerance> {
    vertices: Vec<Vec2<T>>,
}

/// Why a sequence of vertices is no polygon.
#[derive(Debug)]
pub enum PolygonError {
    /// Fewer than three vertices.
    TooFewVerticesError,
    /// The vertices do not turn the same way all round.
    ConcaveError,
}

/// The vertex at `i`, counting round the loop: `-1` is the last vertex and
/// `len` the first again.
pub open spec fn around<T: NumTolerance>(vertices: Seq<Vec2<T>>, i: int) -> Vec2<T> {
    if i < 0 {
        vertices[i + vertices.len()]
    } else if i >= vertices.len() {
        vertices[i - vertices.len()]
    } else {
        vertices[i]
    }
}

/// The way the outline turns at vertex `i`: the sign of the dot product of
/// the clockwise normal of the edge that arrives with the edge that leaves.
pub open spec fn turn_at<T: NumTolerance>(vertices: Seq<Vec2<T>>, i: int) -> bool {
    !around(vertices, i).minus(around(vertices, i - 1)).rotate_clock_90_spec().dot_spec(
        around(vertices, i + 1).minus(around(vertices, i)),
    ).is_sign_negative_spec()
}

/// With three vertices or more, some vertex turns another way than the
/// first does.
pub open spec fn concave_spec<T: NumTolerance>(vertices: Seq<Vec2<T>>) -> bool {
    vertices.len() > 2 && exists|i: int|
        0 < i < vertices.len() && #[trigger] turn_at(vertices, i) != turn_at(vertices, 0)
}

fn turn<T: NumTolerance>(previous: Vec2<T>, vertex: Vec2<T>, next: Vec2<T>) -> (r: bool)
    ensures
        r == !vertex.minus(previous).rotate_clock_90_spec().dot_spec(next.minus(vertex)).is_sign_negative_spec(),
{
    vertex.sub(previous).rotate_clock_90().dot(next.sub(vertex)).is_sign_positive()
}

/// Whether the outline fails to turn the same way at every vertex, the
/// wrap from the last vertex to the first included. Fewer than three
/// vertices are never concave.
pub fn concave<T: NumTolerance>(vertices: &[Vec2<T>]) -> (r: bool)
    ensures
        r == concave_spec(vertices@),
{
    let n = vertices.len();
    if n <= 2 {
        return false;
    }
    let left = turn(vertices[n - 1], vertices[0], vertices[1]);
    assert(left == turn_at(vertices@, 0));
    let mut i: usize = 1;
    while i < n
        invariant
            n == vertices.len(),
            n > 2,
            1 <= i <= n,
            left == turn_at(vertices@, 0),
            forall|j: int| 0 < j < i ==> #[trigger] turn_at(vertices@, j) == left,
        decreases n - i,
    {
        let next: usize = if i + 1 == n {
            0
        } else {
            i + 1
        };
        let is_left = turn(vertices[i - 1], vertices[i], vertices[next]);
        assert(is_left == turn_at(vertices@, i as int));
        if left != is_left {
            return true;
        }
        i += 1;
    }
    false
}

impl<T: NumTolerance> View for Polygon<T> {
    type V = Seq<Vec2<T>>;

    closed spec fn view(&self) -> Seq<Vec2<T>> {
        self.vertices@
    }
}

impl<T: NumTolerance> Polygon<T> {
    #[verifier::type_invariant]
    spec fn valid(self) -> bool {
        self.vertices@.len() >= 3 && !concave_spec(self.vertices@)
    }

    /// Makes a polygon of the vertices, which must be three or more and
    /// turn the same way all round.
    pub fn new(vertices: Vec<Vec2<T>>) -> (r: Result<Polygon<T>, PolygonError>)
        ensures
            match r {
                Ok(polygon) => vertices@.len() >= 3 && !concave_spec(vertices@) && polygon@ == vertices@,
                Err(PolygonError::TooFewVerticesError) => vertices@.len() <= 2,
                Err(PolygonError::ConcaveError) => vertices@.len() >= 3 && concave_spec(vertices@),
            },
    {
        if vertices.len() <= 2 {
            return Err(PolygonError::TooFewVerticesError);
        }
        if concave(vertices.as_slice()) {
            return Err(PolygonError::ConcaveError);
        }
        Ok(Polygon { vertices })
    }

    pub fn vertices(&self) -> (r: &[Vec2<T>])
        ensures
            r@ == self@,
    {
        self.vertices.as_slice()
    }
}

impl<T: NumTolerance> Polygon<T> {
    /// Against every counterpart the polygon answers `collides` as the
    /// catalogue does.
    pub proof fn lemma_follows_catalogue<S: SATable<T> + Shapeable<T>>(
        &self,
        position: Vec2<T>,
        shape: &S,
        shape_position: Vec2<T>,
    )
        ensures
            follows_catalogue(self, position, shape, shape_position),
    {
    }
}

impl<T: NumTolerance> SATable<T> for Polygon<T> {
    /// The normal of every edge, starting with the edge from the last
    /// vertex to the first.
    open spec fn axes_spec(&self) -> Seq<Axis<T>> {
        Seq::new(
            self@.len(),
            |i: int|
                Axis::Static {
                    vector: self@[i].minus(around(self@, i - 1)).rotate_counter_90_spec(),
                    normalized: false,
                },
        )
    }

    open spec fn project_spec(&self, axis: Vec2<T>, position: Vec2<T>) -> Projection<T> {
        projection_of(position, self@, axis)
    }

    open spec fn axis_from_point_spec(&self, position: Vec2<T>, point: Vec2<T>) -> Vec2<T> {
        nearest_vertex(point, position, self@).0.minus(point)
    }

    fn axes(&self) -> (r: Vec<Axis<T>>) {
        proof {
            use_type_invariant(self);
        }
        let n = self.vertices.len();
        let mut axes: Vec<Axis<T>> = Vec::new();
        axes.push(
            Axis::Static { vector: self.vertices[0].sub(self.vertices[n - 1]).rotate_counter_90(), normalized: false },
        );
        let mut i: usize = 1;
        while i < n
            invariant
                n == self.vertices@.len(),
                n >= 3,
                1 <= i <= n,
                axes@.len() == i,
                forall|j: int| 0 <= j < i ==> #[trigger] axes@[j] == self.axes_spec()[j],
            decreases n - i,
        {
            axes.push(
                Axis::Static {
                    vector: self.vertices[i].sub(self.vertices[i - 1]).rotate_counter_90(),
                    normalized: false,
                },
            );
            i += 1;
        }
        proof {
            assert(axes@ =~= self.axes_spec());
        }
        axes
    }

    fn project(&self, axis: Vec2<T>, position: Vec2<T>) -> (r: Projection<T>) {
        project_onto(position, self.vertices(), axis)
    }

    fn axis_from_point(&self, position: Vec2<T>, point: Vec2<T>) -> (r: Vec2<T>) {
        closest_vertex(point, position, self.vertices()).sub(point)
    }
}

impl<T: NumTolerance> Containing<T> for Polygon<T> {
    open spec fn contains_point_spec(&self, position: Vec2<T>, point: Vec2<T>) -> bool {
        sat_contains_point_spec(self, position, point)
    }

    fn contains_point(&self, position: Vec2<T>, point: Vec2<T>) -> (r: bool) {
        sat_contains_point(self, position, point)
    }
}

/// Against every counterpart the pair is decided by the separating-axis
/// test.
impl<T: NumTolerance, S: SATable<T> + Shapeable<T>> Collidable<T, S> for Polygon<T> {
    open spec fn collides_spec(&self, position: Vec2<T>, shape: &S, shape_position: Vec2<T>) -> bool {
        sat_collides_spec(self, position, shape, shape_position)
    }

    open spec fn collision_resolution_spec(&self, position: Vec2<T>, shape: &S, shape_position: Vec2<T>) -> Resolution<
        T,
    > {
        sat_collision_resolution_spec(self, position, shape, shape_position)
    }

    fn collides(&self, position: Vec2<T>, shape: &S, shape_position: Vec2<T>) -> (r: bool) {
        sat_collides(self, position, shape, shape_position)
    }

    fn collision_resolution(&self, position: Vec2<T>, shape: &S, shape_position: Vec2<T>) -> (r: Resolution<T>) {
        sat_collision_resolution(self, position, shape, shape_position)
    }
}

impl<T: NumTolerance> Shapeable<T> for Polygon<T> {
    open spec fn shape_spec(&self) -> ShapeType<'_, T> {
        ShapeType::Polygon(self)
    }

    fn shape(&self) -> (r: ShapeType<'_, T>) {
        ShapeType::Polygon(self)
    }
}

} // verus!
