use crate::narrow::sat::{
    sat_collides, sat_collides_spec, sat_collision_resolution, sat_collision_resolution_spec, sat_contains_point,
    sat_contains_point_spec, Axis, Collidable, Containing, Resolution, SATable,
};
use crate::narrow::shapes::{follows_catalogue, ShapeType, Shapeable};
use crate::utility::{closest_vertex, nearest_vertex, Projection};
use crate::vec2::Vec2;
use crate::{abs_spec, NumTolerance};
use vstd::prelude::*;

verus! {

/// A segment from `-half_path` to `half_path`, thickened by a radius.
pub struct Capsule<T: NumTolerance> {
    half_path: Vec2<T>,
    radius: T,
}

impl<T: NumTolerance> Capsule<T> {
    pub closed spec fn half_path(&self) -> Vec2<T> {
        self.half_path
    }

    pub closed spec fn radius(&self) -> T {
        self.radius
    }

    /// The centres of the two caps, relative to the position.
    pub open spec fn cap_centres(&self) -> Seq<Vec2<T>> {
        seq![self.half_path(), self.half_path().negated()]
    }

    pub fn new(half_path: Vec2<T>, radius: T) -> (r: Self)
        ensures
            r.half_path() == half_path,
            r.radius() == radius,
    {
        Capsule { half_path, radius }
    }
}

impl<T: NumTolerance> Capsule<T> {
    /// Against every counterpart the capsule answers `collides` as the
    /// catalogue does.
    pub proof fn lemma_follows_catalogue<S: SATable<T> + Shapeable<T>>(
        &self,
        position: Vec2<T>,
        shape: &S,
        shape_position: Vec2<T>,
    )
        ensures
            follows_catalogue(self, position, shape, shape_position),
    {
    }
}

impl<T: NumTolerance> SATable<T> for Capsule<T> {
    /// The normal of the spine, then one dynamic axis for each cap.
    open spec fn axes_spec(&self) -> Seq<Axis<T>> {
        seq![
            Axis::Static { vector: self.half_path().rotate_counter_90_spec(), normalized: false },
            Axis::Dynamic { point: self.half_path() },
            Axis::Dynamic { point: self.half_path().negated() },
        ]
    }

    /// The dot product of the centre, give or take the reach of the spine
    /// and then the radius times the length of the axis.
    open spec fn project_spec(&self, axis: Vec2<T>, position: Vec2<T>) -> Projection<T> {
        let dot = axis.dot_spec(position);
        let path_reach = abs_spec(axis.dot_spec(self.half_path()));
        let reach = self.radius().mul_spec(axis.length_spec());
        Projection { min: dot.sub_spec(path_reach).sub_spec(reach), max: dot.add_spec(path_reach).add_spec(reach) }
    }

    open spec fn axis_from_point_spec(&self, position: Vec2<T>, point: Vec2<T>) -> Vec2<T> {
        nearest_vertex(point, position, self.cap_centres()).0.minus(point)
    }

    fn axes(&self) -> (r: Vec<Axis<T>>) {
        let mut r: Vec<Axis<T>> = Vec::new();
        r.push(Axis::Static { vector: self.half_path.rotate_counter_90(), normalized: false });
        r.push(Axis::Dynamic { point: self.half_path });
        r.push(Axis::Dynamic { point: self.half_path.neg() });
        proof {
            assert(r@ =~= self.axes_spec());
        }
        r
    }

    fn project(&self, axis: Vec2<T>, position: Vec2<T>) -> (r: Projection<T>) {
        let dot = axis.dot(position);
        let path_reach = axis.dot(self.half_path).abs();
        let reach = self.radius.mul(axis.length());
        Projection { min: dot.sub(path_reach).sub(reach), max: dot.add(path_reach).add(reach) }
    }

    fn axis_from_point(&self, position: Vec2<T>, point: Vec2<T>) -> (r: Vec2<T>) {
        let centres = [self.half_path, self.half_path.neg()];
        proof {
            assert(centres@ =~= self.cap_centres());
        }
        closest_vertex(point, position, &centres).sub(point)
    }
}

impl<T: NumTolerance> Containing<T> for Capsule<T> {
    open spec fn contains_point_spec(&self, position: Vec2<T>, point: Vec2<T>) -> bool {
        sat_contains_point_spec(self, position, point)
    }

    fn contains_point(&self, position: Vec2<T>, point: Vec2<T>) -> (r: bool) {
        sat_contains_point(self, position, point)
    }
}

/// Against every counterpart the pair is decided by the separating-axis
/// test.
impl<T: NumTolerance, S: SATable<T> + Shapeable<T>> Collidable<T, S> for Capsule<T> {
    open spec fn collides_spec(&self, position: Vec2<T>, shape: &S, shape_position: Vec2<T>) -> bool {
        sat_collides_spec(self, position, shape, shape_position)
    }

    open spec fn collision_resolution_spec(&self, position: Vec2<T>, shape: &S, shape_position: Vec2<T>) -> Resolution<
        T,
    > {
        sat_collision_resolution_spec(self, position, shape, shape_position)
    }

    fn collides(&self, position: Vec2<T>, shape: &S, shape_position: Vec2<T>) -> (r: bool) {
        sat_collides(self, position, shape, shape_position)
    }

    fn collision_resolution(&self, position: Vec2<T>, shape: &S, shape_position: Vec2<T>) -> (r: Resolution<T>) {
        sat_collision_resolution(self, position, shape, shape_position)
    }
}

impl<T: NumTolerance> Shapeable<T> for Capsule<T> {
    open spec fn shape_spec(&self) -> ShapeType<'_, T> {
        ShapeType::Capsule(self)
    }

    fn shape(&self) -> (r: ShapeType<'_, T>) {
        ShapeType::Capsule(self)
    }
}

} // verus!
