use crate::narrow::sat::{
    sat_collides, sat_collides_spec, sat_collision_resolution, sat_collision_resolution_spec, sat_contains_point,
    sat_contains_point_spec, Axis, Collidable, Containing, Resolution, SATable,
};
use crate::narrow::shapes::aabb::half;
use crate::narrow::shapes::{follows_catalogue, ShapeType, Shapeable};
use crate::utility::{closest_vertex, nearest_vertex, project_onto, projection_of, Projection};
use crate::vec2::Vec2;
use crate::NumTolerance;
use vstd::prelude::*;

verus! {

/// A parallelogram spanned by two edge vectors, centred on its position.
pub struct Pgram<T: NumTolerance> {
    u: Vec2<T>,
    v: Vec2<T>,
}

impl<T: NumTolerance> Pgram<T> {
    pub closed spec fn u(&self) -> Vec2<T> {
        self.u
    }

    pub closed spec fn v(&self) -> Vec2<T> {
        self.v
    }

    /// The four corners relative to the centre: half the sum of the edge
    /// vectors and half their difference, each with its opposite.
    pub open spec fn corners(&self) -> Seq<Vec2<T>> {
        let sum = self.u().plus(self.v()).scale_spec(half(T::one_spec()));
        let diag = self.u().minus(self.v()).scale_spec(half(T::one_spec()));
        seq![sum.negated(), diag, sum, diag.negated()]
    }

    pub fn new(u: Vec2<T>, v: Vec2<T>) -> (r: Self)
        ensures
            r.u() == u,
            r.v() == v,
    {
        Pgram { u, v }
    }

    pub fn vertices(&self) -> (r: [Vec2<T>; 4])
        ensures
            r@ == self.corners(),
    {
        let half = T::one().div(T::one().add(T::one()));
        let sum = self.u.add(self.v);
        let diag = self.u.sub(self.v);
        let r = [sum.scale(half).neg(), diag.scale(half), sum.scale(half), diag.scale(half).neg()];
        proof {
            assert(r@ =~= self.corners());
        }
        r
    }
}

impl<T: NumTolerance> Pgram<T> {
    /// Against every counterpart the parallelogram answers `collides` as the
    /// catalogue does.
    pub proof fn lemma_follows_catalogue<S: SATable<T> + Shapeable<T>>(
        &self,
        position: Vec2<T>,
        shape: &S,
        shape_position: Vec2<T>,
    )
        ensures
            follows_catalogue(self, position, shape, shape_position),
    {
    }
}

impl<T: NumTolerance> SATable<T> for Pgram<T> {
    /// The normals of the two edge vectors.
    open spec fn axes_spec(&self) -> Seq<Axis<T>> {
        seq![
            Axis::Static { vector: self.u().rotate_counter_90_spec(), normalized: false },
            Axis::Static { vector: self.v().rotate_counter_90_spec(), normalized: false },
        ]
    }

    open spec fn project_spec(&self, axis: Vec2<T>, position: Vec2<T>) -> Projection<T> {
        projection_of(position, self.corners(), axis)
    }

    open spec fn axis_from_point_spec(&self, position: Vec2<T>, point: Vec2<T>) -> Vec2<T> {
        nearest_vertex(point, position, self.corners()).0.minus(point)
    }

    fn axes(&self) -> (r: Vec<Axis<T>>) {
        let mut r: Vec<Axis<T>> = Vec::new();
        r.push(Axis::Static { vector: self.u.rotate_counter_90(), normalized: false });
        r.push(Axis::Static { vector: self.v.rotate_counter_90(), normalized: false });
        proof {
            assert(r@ =~= self.axes_spec());
        }
        r
    }

    fn project(&self, axis: Vec2<T>, position: Vec2<T>) -> (r: Projection<T>) {
        project_onto(position, &self.vertices(), axis)
    }

    fn axis_from_point(&self, position: Vec2<T>, point: Vec2<T>) -> (r: Vec2<T>) {
        closest_vertex(point, position, &self.vertices()).sub(point)
    }
}

impl<T: NumTolerance> Containing<T> for Pgram<T> {
    open spec fn contains_point_spec(&self, position: Vec2<T>, point: Vec2<T>) -> bool {
        sat_contains_point_spec(self, position, point)
    }

    fn contains_point(&self, position: Vec2<T>, point: Vec2<T>) -> (r: bool) {
        sat_contains_point(self, position, point)
    }
}

/// Against every counterpart the pair is decided by the separating-axis
/// test.
impl<T: NumTolerance, S: SATable<T> + Shapeable<T>> Collidable<T, S> for Pgram<T> {
    open spec fn collides_spec(&self, position: Vec2<T>, shape: &S, shape_position: Vec2<T>) -> bool {
        sat_collides_spec(self, position, shape, shape_position)
    }

    open spec fn collision_resolution_spec(&self, position: Vec2<T>, shape: &S, shape_position: Vec2<T>) -> Resolution<
        T,
    > {
        sat_collision_resolution_spec(self, position, shape, shape_position)
    }

    fn collides(&self, position: Vec2<T>, shape: &S, shape_position: Vec2<T>) -> (r: bool) {
        sat_collides(self, position, shape, shape_position)
    }

    fn collision_resolution(&self, position: Vec2<T>, shape: &S, shape_position: Vec2<T>) -> (r: Resolution<T>) {
        sat_collision_resolution(self, position, shape, shape_position)
    }
}

impl<T: NumTolerance> Shapeable<T> for Pgram<T> {
    open spec fn shape_spec(&self) -> ShapeType<'_, T> {
        ShapeType::Pgram(self)
    }

    fn shape(&self) -> (r: ShapeType<'_, T>) {
        ShapeType::Pgram(self)
    }
}

} // verus!
