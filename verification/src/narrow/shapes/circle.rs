use crate::narrow::sat::{
    sat_collides, sat_collides_spec, sat_collision_resolution, sat_collision_resolution_spec, sat_contains_point,
    sat_contains_point_spec, Axis, Collidable, Containing, Resolution, SATable,
};
use crate::narrow::shapes::aabb::{unit_x, unit_y, AABB};
use crate::narrow::shapes::{follows_catalogue, ShapeType, Shapeable};
use crate::utility::Projection;
use crate::vec2::Vec2;
use crate::{difference_small, NumTolerance};
use vstd::prelude::*;

verus! {

/// A circle, centred on its position.
pub struct Circle<T: NumTolerance> {
    radius: T,
}

/// `separation` brought to unit length by dividing by `length`; along x
/// where `length` is not above zero, so that coinciding centres still get a
/// direction and nothing is divided by a zero length.
pub open spec fn direction_of<T: NumTolerance>(separation: Vec2<T>, length: T) -> Vec2<T> {
    if T::zero_spec().lt_spec(length) {
        separation.scale_spec(T::one_spec().div_spec(length))
    } else {
        unit_x(false)
    }
}

fn direction<T: NumTolerance>(separation: Vec2<T>, length: T) -> (r: Vec2<T>)
    ensures
        r == direction_of(separation, length),
{
    if T::zero().lt(length) {
        separation.scale(T::one().div(length))
    } else {
        Vec2::new(T::one(), T::zero())
    }
}

/// The way out of a box for a centre inside it: the distance to the
/// nearest face plus `radius`, and the outward normal of that face. Of
/// several nearest faces the first in the order left, right, top, bottom.
pub open spec fn nearest_face<T: NumTolerance>(left: T, right: T, top: T, bottom: T, radius: T) -> (T, Vec2<T>) {
    if !right.lt_spec(left) && !top.lt_spec(left) && !bottom.lt_spec(left) {
        (left.add_spec(radius), unit_x(true))
    } else if !top.lt_spec(right) && !bottom.lt_spec(right) {
        (right.add_spec(radius), unit_x(false))
    } else if !bottom.lt_spec(top) {
        (top.add_spec(radius), unit_y(true))
    } else {
        (bottom.add_spec(radius), unit_y(false))
    }
}

impl<T: NumTolerance> Circle<T> {
    pub closed spec fn radius(&self) -> T {
        self.radius
    }

    /// The point of the box nearest to the centre of the circle.
    pub open spec fn closest_in(position: Vec2<T>, shape: &AABB<T>, shape_position: Vec2<T>) -> Vec2<T> {
        position.clamped(shape_position.plus(shape.corners()[0]), shape_position.plus(shape.corners()[2]))
    }

    /// The circle reaches the box: the squared distance from its centre to
    /// the nearest point of the box exceeds the squared radius by less
    /// than the tolerance, if at all.
    pub open spec fn reaches(&self, position: Vec2<T>, shape: &AABB<T>, shape_position: Vec2<T>) -> bool {
        difference_small(
            position.minus(Self::closest_in(position, shape, shape_position)).length_squared_spec(),
            self.radius().mul_spec(self.radius()),
        )
    }

    /// Circle against box. With the centre inside the box, as the box's
    /// own containment test has it (the boundary, within tolerance, is
    /// outside), the way out is through the nearest face; otherwise along
    /// the line from the nearest point of the box to the centre.
    pub open spec fn aabb_resolution_spec(
        &self,
        position: Vec2<T>,
        shape: &AABB<T>,
        shape_position: Vec2<T>,
        resolve: bool,
    ) -> Resolution<T> {
        let top_left = shape_position.plus(shape.corners()[0]);
        let bottom_right = shape_position.plus(shape.corners()[2]);
        let diff = position.minus(Self::closest_in(position, shape, shape_position));
        let dist = diff.length_squared_spec().sqrt_spec();
        if !self.reaches(position, shape, shape_position) {
            Resolution::none()
        } else if !resolve {
            Resolution { colliding: true, penetration: T::max_value_spec(), axis: Vec2::zero_spec() }
        } else if sat_contains_point_spec(shape, shape_position, position) {
            let face = nearest_face(
                position.x.sub_spec(top_left.x),
                bottom_right.x.sub_spec(position.x),
                position.y.sub_spec(top_left.y),
                bottom_right.y.sub_spec(position.y),
                self.radius(),
            );
            Resolution { colliding: true, penetration: face.0, axis: face.1 }
        } else {
            Resolution {
                colliding: true,
                penetration: self.radius().sub_spec(dist),
                axis: direction_of(diff, dist),
            }
        }
    }

    /// The two circles overlap: the squared distance of the centres
    /// exceeds the squared sum of the radii by less than the tolerance, if
    /// at all.
    pub open spec fn overlaps(&self, position: Vec2<T>, shape: &Circle<T>, shape_position: Vec2<T>) -> bool {
        let rad_sum = self.radius().add_spec(shape.radius());
        difference_small(position.minus(shape_position).length_squared_spec(), rad_sum.mul_spec(rad_sum))
    }

    /// Circle against circle: the penetration is the sum of the radii less
    /// the distance of the centres, the axis the unit vector from the other
    /// centre to this one.
    pub open spec fn circle_resolution_spec(
        &self,
        position: Vec2<T>,
        shape: &Circle<T>,
        shape_position: Vec2<T>,
        resolve: bool,
    ) -> Resolution<T> {
        let separation = position.minus(shape_position);
        let length = separation.length_squared_spec().sqrt_spec();
        if !self.overlaps(position, shape, shape_position) {
            Resolution::none()
        } else if !resolve {
            Resolution { colliding: true, penetration: T::max_value_spec(), axis: Vec2::zero_spec() }
        } else {
            Resolution {
                colliding: true,
                penetration: self.radius().add_spec(shape.radius()).sub_spec(length),
                axis: direction_of(separation, length),
            }
        }
    }

    /// The scalar adds the two radii to the same sum in either order and
    /// gives the difference of the centres the same squared length in
    /// either direction.
    pub open spec fn measures_alike(&self, position: Vec2<T>, shape: &Circle<T>, shape_position: Vec2<T>) -> bool {
        self.radius().add_spec(shape.radius()) == shape.radius().add_spec(self.radius()) && position.minus(
            shape_position,
        ).length_squared_spec() == shape_position.minus(position).length_squared_spec()
    }

    /// Against every counterpart the circle answers `collides` as the
    /// catalogue does.
    pub proof fn lemma_follows_catalogue<S: SATable<T> + Shapeable<T>>(
        &self,
        position: Vec2<T>,
        shape: &S,
        shape_position: Vec2<T>,
    )
        ensures
            follows_catalogue(self, position, shape, shape_position),
    {
    }

    /// Against a box or a circle, `collides` answers what the resolution
    /// reports as `colliding`.
    pub proof fn lemma_circle_resolution_agrees<S: SATable<T> + Shapeable<T>>(
        &self,
        position: Vec2<T>,
        shape: &S,
        shape_position: Vec2<T>,
    )
        requires
            shape.shape_spec() is AABB || shape.shape_spec() is Circle,
        ensures
            self.collision_resolution_spec(position, shape, shape_position).colliding == self.collides_spec(
                position,
                shape,
                shape_position,
            ),
    {
    }

    pub fn new(radius: T) -> (r: Self)
        ensures
            r.radius() == radius,
    {
        Circle { radius }
    }

    /// The closed-form test of a circle against a box. With `resolve` false
    /// only `colliding` is worked out.
    pub fn aabb_resolution(&self, position: Vec2<T>, shape: &AABB<T>, shape_position: Vec2<T>, resolve: bool) -> (r:
        Resolution<T>)
        ensures
            r == self.aabb_resolution_spec(position, shape, shape_position, resolve),
            r.colliding == self.reaches(position, shape, shape_position),
            !r.colliding ==> r == Resolution::<T>::none(),
    {
        let mut resolution: Resolution<T> = Resolution::new();

        let vertices = shape.vertices();
        let top_left = shape_position.add(vertices[0]);
        let bottom_right = shape_position.add(vertices[2]);
        let closest = position.clamp(top_left, bottom_right);

        let diff = position.sub(closest);
        let dist_square = diff.length_squared();

        if dist_square.is_difference_small(self.radius.mul(self.radius)) {
            resolution.colliding = true;

            if resolve {
                if sat_contains_point(shape, shape_position, position) {
                    let left = position.x.sub(top_left.x);
                    let right = bottom_right.x.sub(position.x);
                    let top = position.y.sub(top_left.y);
                    let bottom = bottom_right.y.sub(position.y);

                    if !right.lt(left) && !top.lt(left) && !bottom.lt(left) {
                        resolution.penetration = left.add(self.radius);
                        resolution.axis = Vec2::new(T::one().neg(), T::zero());
                    } else if !top.lt(right) && !bottom.lt(right) {
                        resolution.penetration = right.add(self.radius);
                        resolution.axis = Vec2::new(T::one(), T::zero());
                    } else if !bottom.lt(top) {
                        resolution.penetration = top.add(self.radius);
                        resolution.axis = Vec2::new(T::zero(), T::one().neg());
                    } else {
                        resolution.penetration = bottom.add(self.radius);
                        resolution.axis = Vec2::new(T::zero(), T::one());
                    }
                } else {
                    let dist = dist_square.sqrt();
                    resolution.penetration = self.radius.sub(dist);
                    resolution.axis = direction(diff, dist);
                }
            }
        }
        resolution
    }

    /// The closed-form test of two circles. With `resolve` false only
    /// `colliding` is worked out.
    pub fn circle_resolution(&self, position: Vec2<T>, shape: &Circle<T>, shape_position: Vec2<T>, resolve: bool) -> (r:
        Resolution<T>)
        ensures
            r == self.circle_resolution_spec(position, shape, shape_position, resolve),
            r.colliding == self.overlaps(position, shape, shape_position),
            !r.colliding ==> r == Resolution::<T>::none(),
    {
        let mut resolution: Resolution<T> = Resolution::new();

        let separation = position.sub(shape_position);
        let l_square = separation.length_squared();
        let rad_sum = self.radius.add(shape.radius);

        if l_square.is_difference_small(rad_sum.mul(rad_sum)) {
            resolution.colliding = true;

            if resolve {
                let length = l_square.sqrt();
                resolution.penetration = rad_sum.sub(length);
                resolution.axis = direction(separation, length);
            }
        }
        resolution
    }
}

impl<T: NumTolerance> SATable<T> for Circle<T> {
    /// One dynamic axis through the centre: any direction may separate.
    open spec fn axes_spec(&self) -> Seq<Axis<T>> {
        seq![Axis::Dynamic { point: Vec2::zero_spec() }]
    }

    /// The dot product of the centre, give or take the radius times the
    /// length of the axis.
    open spec fn project_spec(&self, axis: Vec2<T>, position: Vec2<T>) -> Projection<T> {
        let dot = axis.dot_spec(position);
        let reach = self.radius().mul_spec(axis.length_spec());
        Projection { min: dot.sub_spec(reach), max: dot.add_spec(reach) }
    }

    open spec fn axis_from_point_spec(&self, position: Vec2<T>, point: Vec2<T>) -> Vec2<T> {
        point.minus(position)
    }

    fn axes(&self) -> (r: Vec<Axis<T>>) {
        let mut r: Vec<Axis<T>> = Vec::new();
        r.push(Axis::Dynamic { point: Vec2::zero() });
        proof {
            assert(r@ =~= self.axes_spec());
        }
        r
    }

    fn project(&self, axis: Vec2<T>, position: Vec2<T>) -> (r: Projection<T>) {
        let dot = axis.dot(position);
        let reach = self.radius.mul(axis.length());
        Projection { min: dot.sub(reach), max: dot.add(reach) }
    }

    fn axis_from_point(&self, position: Vec2<T>, point: Vec2<T>) -> (r: Vec2<T>) {
        point.sub(position)
    }
}

impl<T: NumTolerance> Containing<T> for Circle<T> {
    open spec fn contains_point_spec(&self, position: Vec2<T>, point: Vec2<T>) -> bool {
        sat_contains_point_spec(self, position, point)
    }

    fn contains_point(&self, position: Vec2<T>, point: Vec2<T>) -> (r: bool) {
        sat_contains_point(self, position, point)
    }
}

/// Circle against box and circle against circle are decided in closed
/// form; every other pair by the separating-axis test.
impl<T: NumTolerance, S: SATable<T> + Shapeable<T>> Collidable<T, S> for Circle<T> {
    open spec fn collides_spec(&self, position: Vec2<T>, shape: &S, shape_position: Vec2<T>) -> bool {
        match shape.shape_spec() {
            ShapeType::AABB(aabb) => self.reaches(position, aabb, shape_position),
            ShapeType::Circle(circle) => self.overlaps(position, circle, shape_position),
            _ => sat_collides_spec(self, position, shape, shape_position),
        }
    }

    open spec fn collision_resolution_spec(&self, position: Vec2<T>, shape: &S, shape_position: Vec2<T>) -> Resolution<
        T,
    > {
        match shape.shape_spec() {
            ShapeType::AABB(aabb) => self.aabb_resolution_spec(position, aabb, shape_position, true),
            ShapeType::Circle(circle) => self.circle_resolution_spec(position, circle, shape_position, true),
            _ => sat_collision_resolution_spec(self, position, shape, shape_position),
        }
    }

    fn collides(&self, position: Vec2<T>, shape: &S, shape_position: Vec2<T>) -> (r: bool) {
        match shape.shape() {
            ShapeType::AABB(aabb) => self.aabb_resolution(position, aabb, shape_position, false).colliding,
            ShapeType::Circle(circle) => self.circle_resolution(position, circle, shape_position, false).colliding,
            _ => sat_collides(self, position, shape, shape_position),
        }
    }

    fn collision_resolution(&self, position: Vec2<T>, shape: &S, shape_position: Vec2<T>) -> (r: Resolution<T>) {
        match shape.shape() {
            ShapeType::AABB(aabb) => self.aabb_resolution(position, aabb, shape_position, true),
            ShapeType::Circle(circle) => self.circle_resolution(position, circle, shape_position, true),
            _ => sat_collision_resolution(self, position, shape, shape_position),
        }
    }
}

impl<T: NumTolerance> Shapeable<T> for Circle<T> {
    open spec fn shape_spec(&self) -> ShapeType<'_, T> {
        ShapeType::Circle(self)
    }

    fn shape(&self) -> (r: ShapeType<'_, T>) {
        ShapeType::Circle(self)
    }
}

} // verus!
