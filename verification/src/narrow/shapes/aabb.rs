use crate::narrow::sat::{
    sat_collides, sat_collides_spec, sat_collision_resolution, sat_collision_resolution_spec, sat_contains_point,
    sat_contains_point_spec, Axis, Collidable, Containing, Resolution, SATable,
};
use crate::narrow::shapes::{follows_catalogue, ShapeType, Shapeable};
use crate::utility::{closest_vertex, nearest_vertex, project_onto, projection_of, Projection};
use crate::vec2::Vec2;
use crate::{difference_small, min_spec, NumTolerance};
use vstd::prelude::*;

verus! {

/// An axis-aligned box, centred on its position.
pub struct AABB<T: NumTolerance> {
    width: T,
    height: T,
}

/// Half of a scalar: the scalar divided by `1 + 1`.
pub open spec fn half<T: NumTolerance>(a: T) -> T {
    a.div_spec(T::one_spec().add_spec(T::one_spec()))
}

/// Whether two slabs, given by centre and full extent, are apart along
/// their axis; touching within tolerance counts as apart.
pub open spec fn slab_gap<T: NumTolerance>(centre: T, extent: T, other_centre: T, other_extent: T) -> bool {
    difference_small(centre.add_spec(half(extent)), other_centre.sub_spec(half(other_extent)))
        || difference_small(other_centre.add_spec(half(other_extent)), centre.sub_spec(half(extent)))
}

/// The length over which two slabs overlap.
pub open spec fn slab_overlap<T: NumTolerance>(centre: T, extent: T, other_centre: T, other_extent: T) -> T {
    min_spec(
        centre.add_spec(half(extent)).sub_spec(other_centre.sub_spec(half(other_extent))),
        other_centre.add_spec(half(other_extent)).sub_spec(centre.sub_spec(half(extent))),
    )
}

/// The unit vector along x, or its opposite.
pub open spec fn unit_x<T: NumTolerance>(negative: bool) -> Vec2<T> {
    Vec2 { x: if negative { T::one_spec().neg_spec() } else { T::one_spec() }, y: T::zero_spec() }
}

/// The unit vector along y, or its opposite.
pub open spec fn unit_y<T: NumTolerance>(negative: bool) -> Vec2<T> {
    Vec2 { x: T::zero_spec(), y: if negative { T::one_spec().neg_spec() } else { T::one_spec() } }
}

impl<T: NumTolerance> AABB<T> {
    pub closed spec fn width(&self) -> T {
        self.width
    }

    pub closed spec fn height(&self) -> T {
        self.height
    }

    /// The four corners relative to the centre, starting at the corner of
    /// least x and y and going round.
    pub open spec fn corners(&self) -> Seq<Vec2<T>> {
        seq![
            Vec2 { x: half(self.width().neg_spec()), y: half(self.height().neg_spec()) },
            Vec2 { x: half(self.width()), y: half(self.height().neg_spec()) },
            Vec2 { x: half(self.width()), y: half(self.height()) },
            Vec2 { x: half(self.width().neg_spec()), y: half(self.height()) },
        ]
    }

    /// The two boxes are apart on x or on y.
    pub open spec fn apart(&self, position: Vec2<T>, shape: &AABB<T>, shape_position: Vec2<T>) -> bool {
        slab_gap(position.x, self.width(), shape_position.x, shape.width()) || slab_gap(
            position.y,
            self.height(),
            shape_position.y,
            shape.height(),
        )
    }

    /// Box against box. Colliding when the boxes are apart on neither axis.
    /// A resolution takes the axis of the smaller overlap (x on a tie) and
    /// points from the other box towards this one.
    pub open spec fn aabb_resolution_spec(
        &self,
        position: Vec2<T>,
        shape: &AABB<T>,
        shape_position: Vec2<T>,
        resolve: bool,
    ) -> Resolution<T> {
        let x_pen = slab_overlap(position.x, self.width(), shape_position.x, shape.width());
        let y_pen = slab_overlap(position.y, self.height(), shape_position.y, shape.height());
        if self.apart(position, shape, shape_position) {
            Resolution::none()
        } else if !resolve {
            Resolution { colliding: true, penetration: T::max_value_spec(), axis: Vec2::zero_spec() }
        } else if y_pen.lt_spec(x_pen) {
            Resolution { colliding: true, penetration: y_pen, axis: unit_y(position.y.lt_spec(shape_position.y)) }
        } else {
            Resolution { colliding: true, penetration: x_pen, axis: unit_x(position.x.lt_spec(shape_position.x)) }
        }
    }

    /// Against every counterpart the box answers `collides` as the
    /// catalogue does.
    pub proof fn lemma_follows_catalogue<S: SATable<T> + Shapeable<T>>(
        &self,
        position: Vec2<T>,
        shape: &S,
        shape_position: Vec2<T>,
    )
        ensures
            follows_catalogue(self, position, shape, shape_position),
    {
    }

    /// A resolution of two boxes that collide has one of the four unit
    /// vectors along x and y as its axis.
    pub proof fn lemma_box_axis_is_unit(&self, position: Vec2<T>, shape: &AABB<T>, shape_position: Vec2<T>)
        ensures
            ({
                let r = self.aabb_resolution_spec(position, shape, shape_position, true);
                r.colliding ==> r.axis == unit_x::<T>(true) || r.axis == unit_x::<T>(false) || r.axis == unit_y::<T>(
                    true,
                ) || r.axis == unit_y::<T>(false)
            }),
    {
    }

    /// Against a box or a circle, `collides` answers what the resolution
    /// reports as `colliding`.
    pub proof fn lemma_box_resolution_agrees<S: SATable<T> + Shapeable<T>>(
        &self,
        position: Vec2<T>,
        shape: &S,
        shape_position: Vec2<T>,
    )
        requires
            shape.shape_spec() is AABB || shape.shape_spec() is Circle,
        ensures
            self.collision_resolution_spec(position, shape, shape_position).colliding == self.collides_spec(
                position,
                shape,
                shape_position,
            ),
    {
    }

    pub fn new(width: T, height: T) -> (r: Self)
        ensures
            r.width() == width,
            r.height() == height,
    {
        AABB { width, height }
    }

    pub fn vertices(&self) -> (r: [Vec2<T>; 4])
        ensures
            r@ == self.corners(),
    {
        let two = T::one().add(T::one());
        let r = [
            Vec2::new(self.width.neg().div(two), self.height.neg().div(two)),
            Vec2::new(self.width.div(two), self.height.neg().div(two)),
            Vec2::new(self.width.div(two), self.height.div(two)),
            Vec2::new(self.width.neg().div(two), self.height.div(two)),
        ];
        proof {
            assert(r@ =~= self.corners());
        }
        r
    }

    /// The closed-form test of two boxes. With `resolve` false only
    /// `colliding` is worked out: penetration and axis keep the values they
    /// have in [`Resolution::none`].
    pub fn aabb_resolution(&self, position: Vec2<T>, shape: &AABB<T>, shape_position: Vec2<T>, resolve: bool) -> (r:
        Resolution<T>)
        ensures
            r == self.aabb_resolution_spec(position, shape, shape_position, resolve),
            r.colliding == !self.apart(position, shape, shape_position),
            !r.colliding ==> r == Resolution::<T>::none(),
    {
        let two = T::one().add(T::one());

        let x_self_max = position.x.add(self.width.div(two));
        let x_shape_min = shape_position.x.sub(shape.width.div(two));
        if x_self_max.is_difference_small(x_shape_min) {
            return Resolution::new();
        }
        let x_shape_max = shape_position.x.add(shape.width.div(two));
        let x_self_min = position.x.sub(self.width.div(two));
        if x_shape_max.is_difference_small(x_self_min) {
            return Resolution::new();
        }
        let y_self_max = position.y.add(self.height.div(two));
        let y_shape_min = shape_position.y.sub(shape.height.div(two));
        if y_self_max.is_difference_small(y_shape_min) {
            return Resolution::new();
        }
        let y_shape_max = shape_position.y.add(shape.height.div(two));
        let y_self_min = position.y.sub(self.height.div(two));
        if y_shape_max.is_difference_small(y_self_min) {
            return Resolution::new();
        }
        let mut resolution: Resolution<T> = Resolution::new();
        resolution.colliding = true;

        if resolve {
            let x_pen = x_self_max.sub(x_shape_min).min(x_shape_max.sub(x_self_min));
            let y_pen = y_self_max.sub(y_shape_min).min(y_shape_max.sub(y_self_min));

            if y_pen.lt(x_pen) {
                resolution.penetration = y_pen;
                resolution.axis = if position.y.lt(shape_position.y) {
                    Vec2::new(T::zero(), T::one().neg())
                } else {
                    Vec2::new(T::zero(), T::one())
                };
            } else {
                resolution.penetration = x_pen;
                resolution.axis = if position.x.lt(shape_position.x) {
                    Vec2::new(T::one().neg(), T::zero())
                } else {
                    Vec2::new(T::one(), T::zero())
                };
            }
        }
        resolution
    }
}

impl<T: NumTolerance> SATable<T> for AABB<T> {
    open spec fn axes_spec(&self) -> Seq<Axis<T>> {
        seq![
            Axis::Static { vector: unit_x(false), normalized: true },
            Axis::Static { vector: unit_y(false), normalized: true },
        ]
    }

    open spec fn project_spec(&self, axis: Vec2<T>, position: Vec2<T>) -> Projection<T> {
        projection_of(position, self.corners(), axis)
    }

    open spec fn axis_from_point_spec(&self, position: Vec2<T>, point: Vec2<T>) -> Vec2<T> {
        nearest_vertex(point, position, self.corners()).0.minus(point)
    }

    fn axes(&self) -> (r: Vec<Axis<T>>) {
        let mut r: Vec<Axis<T>> = Vec::new();
        r.push(Axis::Static { vector: Vec2::new(T::one(), T::zero()), normalized: true });
        r.push(Axis::Static { vector: Vec2::new(T::zero(), T::one()), normalized: true });
        proof {
            assert(r@ =~= self.axes_spec());
        }
        r
    }

    fn project(&self, axis: Vec2<T>, position: Vec2<T>) -> (r: Projection<T>) {
        project_onto(position, &self.vertices(), axis)
    }

    fn axis_from_point(&self, position: Vec2<T>, point: Vec2<T>) -> (r: Vec2<T>) {
        closest_vertex(point, position, &self.vertices()).sub(point)
    }
}

impl<T: NumTolerance> Containing<T> for AABB<T> {
    open spec fn contains_point_spec(&self, position: Vec2<T>, point: Vec2<T>) -> bool {
        sat_contains_point_spec(self, position, point)
    }

    fn contains_point(&self, position: Vec2<T>, point: Vec2<T>) -> (r: bool) {
        sat_contains_point(self, position, point)
    }
}

/// Box against box and box against circle are decided in closed form;
/// every other pair by the separating-axis test.
impl<T: NumTolerance, S: SATable<T> + Shapeable<T>> Collidable<T, S> for AABB<T> {
    open spec fn collides_spec(&self, position: Vec2<T>, shape: &S, shape_position: Vec2<T>) -> bool {
        match shape.shape_spec() {
            ShapeType::AABB(aabb) => !self.apart(position, aabb, shape_position),
            ShapeType::Circle(circle) => circle.reaches(shape_position, self, position),
            _ => sat_collides_spec(self, position, shape, shape_position),
        }
    }

    /// Against a circle the circle's result is seen from the box: its axis
    /// is negated.
    open spec fn collision_resolution_spec(&self, position: Vec2<T>, shape: &S, shape_position: Vec2<T>) -> Resolution<
        T,
    > {
        match shape.shape_spec() {
            ShapeType::AABB(aabb) => self.aabb_resolution_spec(position, aabb, shape_position, true),
            ShapeType::Circle(circle) => {
                let seen = circle.aabb_resolution_spec(shape_position, self, position, true);
                if seen.colliding {
                    seen.flipped_spec()
                } else {
                    seen
                }
            },
            _ => sat_collision_resolution_spec(self, position, shape, shape_position),
        }
    }

    fn collides(&self, position: Vec2<T>, shape: &S, shape_position: Vec2<T>) -> (r: bool) {
        match shape.shape() {
            ShapeType::AABB(aabb) => self.aabb_resolution(position, aabb, shape_position, false).colliding,
            ShapeType::Circle(circle) => circle.aabb_resolution(shape_position, self, position, false).colliding,
            _ => sat_collides(self, position, shape, shape_position),
        }
    }

    fn collision_resolution(&self, position: Vec2<T>, shape: &S, shape_position: Vec2<T>) -> (r: Resolution<T>) {
        match shape.shape() {
            ShapeType::AABB(aabb) => self.aabb_resolution(position, aabb, shape_position, true),
            ShapeType::Circle(circle) => {
                let seen = circle.aabb_resolution(shape_position, self, position, true);
                if seen.colliding {
                    seen.flipped()
                } else {
                    seen
                }
            },
            _ => sat_collision_resolution(self, position, shape, shape_position),
        }
    }
}

impl<T: NumTolerance> Shapeable<T> for AABB<T> {
    open spec fn shape_spec(&self) -> ShapeType<'_, T> {
        ShapeType::AABB(self)
    }

    fn shape(&self) -> (r: ShapeType<'_, T>) {
        ShapeType::AABB(self)
    }
}

} // verus!
