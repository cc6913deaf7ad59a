use crate::narrow::sat::{
    sat_collides, sat_collides_spec, sat_collision_resolution, sat_collision_resolution_spec, sat_contains_point,
    sat_contains_point_spec, Axis, Collidable, Containing, Resolution, SATable,
};
use crate::narrow::shapes::{follows_catalogue, ShapeType, Shapeable};
use crate::utility::{closest_vertex, nearest_vertex, project_onto, projection_of, Projection};
use crate::vec2::Vec2;
use crate::NumTolerance;
use vstd::prelude::*;

verus! {

/// A triangle given by its three corners.
pub struct Triangle<T: NumTolerance> {
    first: Vec2<T>,
    second: Vec2<T>,
    third: Vec2<T>,
}

impl<T: NumTolerance> Triangle<T> {
    pub closed spec fn corners(&self) -> Seq<Vec2<T>> {
        seq![self.first, self.second, self.third]
    }

    pub fn new(vertices: &[Vec2<T>; 3]) -> (r: Self)
        ensures
            r.corners() == vertices@,
    {
        let r = Triangle { first: vertices[0], second: vertices[1], third: vertices[2] };
        proof {
            assert(r.corners() =~= vertices@);
        }
        r
    }

    pub fn vertices(&self) -> (r: [Vec2<T>; 3])
        ensures
            r@ == self.corners(),
    {
        let r = [self.first, self.second, self.third];
        proof {
            assert(r@ =~= self.corners());
        }
        r
    }
}

impl<T: NumTolerance> Triangle<T> {
    /// Against every counterpart the triangle answers `collides` as the
    /// catalogue does.
    pub proof fn lemma_follows_catalogue<S: SATable<T> + Shapeable<T>>(
        &self,
        position: Vec2<T>,
        shape: &S,
        shape_position: Vec2<T>,
    )
        ensures
            follows_catalogue(self, position, shape, shape_position),
    {
    }
}

impl<T: NumTolerance> SATable<T> for Triangle<T> {
    open spec fn axes_spec(&self) -> Seq<Axis<T>> {
        Seq::new(
            3,
            |i: int|
                Axis::Static {
                    vector: self.corners()[(i + 1) % 3].minus(self.corners()[i]).rotate_counter_90_spec(),
                    normalized: false,
                },
        )
    }

    open spec fn project_spec(&self, axis: Vec2<T>, position: Vec2<T>) -> Projection<T> {
        projection_of(position, self.corners(), axis)
    }

    open spec fn axis_from_point_spec(&self, position: Vec2<T>, point: Vec2<T>) -> Vec2<T> {
        nearest_vertex(point, position, self.corners()).0.minus(point)
    }

    fn axes(&self) -> (r: Vec<Axis<T>>) {
        let mut r: Vec<Axis<T>> = Vec::new();
        r.push(Axis::Static { vector: self.second.sub(self.first).rotate_counter_90(), normalized: false });
        r.push(Axis::Static { vector: self.third.sub(self.second).rotate_counter_90(), normalized: false });
        r.push(Axis::Static { vector: self.first.sub(self.third).rotate_counter_90(), normalized: false });
        proof {
            assert(r@ =~= self.axes_spec());
        }
        r
    }

    fn project(&self, axis: Vec2<T>, position: Vec2<T>) -> (r: Projection<T>) {
        project_onto(position, &self.vertices(), axis)
    }

    fn axis_from_point(&self, position: Vec2<T>, point: Vec2<T>) -> (r: Vec2<T>) {
        closest_vertex(point, position, &self.vertices()).sub(point)
    }
}

impl<T: NumTolerance> Containing<T> for Triangle<T> {
    open spec fn contains_point_spec(&self, position: Vec2<T>, point: Vec2<T>) -> bool {
        sat_contains_point_spec(self, position, point)
    }

    fn contains_point(&self, position: Vec2<T>, point: Vec2<T>) -> (r: bool) {
        sat_contains_point(self, position, point)
    }
}

/// Against every counterpart the pair is decided by the separating-axis
/// test.
impl<T: NumTolerance, S: SATable<T> + Shapeable<T>> Collidable<T, S> for Triangle<T> {
    open spec fn collides_spec(&self, position: Vec2<T>, shape: &S, shape_position: Vec2<T>) -> bool {
        sat_collides_spec(self, position, shape, shape_position)
    }

    open spec fn collision_resolution_spec(&self, position: Vec2<T>, shape: &S, shape_position: Vec2<T>) -> Resolution<
        T,
    > {
        sat_collision_resolution_spec(self, position, shape, shape_position)
    }

    fn collides(&self, position: Vec2<T>, shape: &S, shape_position: Vec2<T>) -> (r: bool) {
        sat_collides(self, position, shape, shape_position)
    }

    fn collision_resolution(&self, position: Vec2<T>, shape: &S, shape_position: Vec2<T>) -> (r: Resolution<T>) {
        sat_collision_resolution(self, position, shape, shape_position)
    }
}

impl<T: NumTolerance> Shapeable<T> for Triangle<T> {
    open spec fn shape_spec(&self) -> ShapeType<'_, T> {
        ShapeType::Triangle(self)
    }

    fn shape(&self) -> (r: ShapeType<'_, T>) {
        ShapeType::Triangle(self)
    }
}

} // verus!
