use crate::narrow::shapes::Shapeable;
use crate::utility::Projection;
use crate::vec2::Vec2;
use crate::{difference_small, min_spec, trivial_abs, NumTolerance};
use vstd::prelude::*;

verus! {

/// A candidate separating axis.
#[derive(Clone, Copy)]
pub enum Axis<T: NumTolerance> {
    /// A direction fixed by the shape's geometry; `normalized` tells whether
    /// it already has unit length.
    Static { vector: Vec2<T>, normalized: bool },
    /// A point of the shape; the direction is found at query time from the
    /// other shape's nearest feature.
    Dynamic { point: Vec2<T> },
}

/// The outcome of a pairwise test.
pub struct Resolution<T: NumTolerance> {
    pub colliding: bool,
    pub penetration: T,
    pub axis: Vec2<T>,
}

impl<T: NumTolerance> Resolution<T> {
    /// The result of every test that finds no collision.
    pub open spec fn none() -> Self {
        Resolution { colliding: false, penetration: T::max_value_spec(), axis: Vec2::zero_spec() }
    }

    /// The same result seen from the other shape: only the axis is negated.
    pub open spec fn flipped_spec(self) -> Self {
        Resolution { colliding: self.colliding, penetration: self.penetration, axis: self.axis.negated() }
    }

    pub fn new() -> (r: Self)
        ensures
            r == Self::none(),
    {
        Resolution { colliding: false, penetration: T::max_value(), axis: Vec2::zero() }
    }

    pub fn flipped(self) -> (r: Self)
        ensures
            r == self.flipped_spec(),
    {
        Resolution { colliding: self.colliding, penetration: self.penetration, axis: self.axis.neg() }
    }
}

/// What a convex shape supplies to the separating-axis test.
pub trait SATable<T: NumTolerance>: Sized {
    spec fn axes_spec(&self) -> Seq<Axis<T>>;

    spec fn project_spec(&self, axis: Vec2<T>, position: Vec2<T>) -> Projection<T>;

    spec fn axis_from_point_spec(&self, position: Vec2<T>, point: Vec2<T>) -> Vec2<T>;

    /// The candidate axes of the shape, in a fixed order.
    fn axes(&self) -> (r: Vec<Axis<T>>)
        ensures
            r@ == self.axes_spec(),
    ;

    /// The extent of the shape, placed at `position`, along `axis`.
    fn project(&self, axis: Vec2<T>, position: Vec2<T>) -> (r: Projection<T>)
        ensures
            r == self.project_spec(axis, position),
    ;

    /// The vector between `point` and the feature of the shape, placed at
    /// `position`, that lies nearest to it.
    fn axis_from_point(&self, position: Vec2<T>, point: Vec2<T>) -> (r: Vec2<T>)
        ensures
            r == self.axis_from_point_spec(position, point),
    ;
}

/// A shape that can tell whether it holds a point.
pub trait Containing<T: NumTolerance>: SATable<T> {
    spec fn contains_point_spec(&self, position: Vec2<T>, point: Vec2<T>) -> bool;

    /// Whether `point` lies inside the shape placed at `position`.
    fn contains_point(&self, position: Vec2<T>, point: Vec2<T>) -> (r: bool)
        ensures
            r == self.contains_point_spec(position, point),
    ;
}

/// The pairwise queries of a shape against a counterpart of type `S`.
pub trait Collidable<T: NumTolerance, S: SATable<T> + Shapeable<T>>: SATable<T> + Shapeable<T> {
    spec fn collides_spec(&self, position: Vec2<T>, shape: &S, shape_position: Vec2<T>) -> bool;

    spec fn collision_resolution_spec(&self, position: Vec2<T>, shape: &S, shape_position: Vec2<T>) -> Resolution<T>;

    /// Whether the shape, placed at `position`, overlaps `shape` placed at
    /// `shape_position`.
    fn collides(&self, position: Vec2<T>, shape: &S, shape_position: Vec2<T>) -> (r: bool)
        ensures
            r == self.collides_spec(position, shape, shape_position),
    ;

    /// The overlap of the pair together with the least translation that
    /// ends it. A pair that does not collide always yields
    /// [`Resolution::none`]. Which way the axis points is part of each
    /// shape's own statement: the separating-axis test points from this
    /// shape towards `shape`, the closed forms of boxes and circles from
    /// `shape` towards this shape.
    fn collision_resolution(&self, position: Vec2<T>, shape: &S, shape_position: Vec2<T>) -> (r: Resolution<T>)
        ensures
            r == self.collision_resolution_spec(position, shape, shape_position),
            !r.colliding ==> r == Resolution::<T>::none(),
    ;

    /// The separating-axis test of the pair, whatever closed form the
    /// shape may have for it.
    fn sat_collides(&self, position: Vec2<T>, shape: &S, shape_position: Vec2<T>) -> (r: bool)
        ensures
            r == sat_collides_spec(self, position, shape, shape_position),
    {
        sat_collides(self, position, shape, shape_position)
    }

    /// The separating-axis test of the pair with its resolution, whatever
    /// closed form the shape may have for it.
    fn sat_collision_resolution(&self, position: Vec2<T>, shape: &S, shape_position: Vec2<T>) -> (r: Resolution<T>)
        ensures
            r == sat_collision_resolution_spec(self, position, shape, shape_position),
            !r.colliding ==> r == Resolution::<T>::none(),
    {
        sat_collision_resolution(self, position, shape, shape_position)
    }
}

/// The direction along which containment is tested for one candidate axis:
/// a static axis itself, or the line from a dynamic axis point to `point`.
pub open spec fn containment_axis<T: NumTolerance>(raw: Axis<T>, position: Vec2<T>, point: Vec2<T>) -> Vec2<T> {
    match raw {
        Axis::Static { vector, normalized } => vector,
        Axis::Dynamic { point: axis_point } => point.minus(position.plus(axis_point)),
    }
}

/// Whether `point` falls outside the extent of `shape` along `v`, the ends
/// of the extent (within tolerance) counting as outside.
pub open spec fn outside_on<T: NumTolerance, S: SATable<T>>(
    shape: &S,
    position: Vec2<T>,
    point: Vec2<T>,
    v: Vec2<T>,
) -> bool {
    let proj = shape.project_spec(v, position);
    let point_proj = v.dot_spec(point);
    difference_small(point_proj, proj.min) || difference_small(proj.max, point_proj)
}

/// Containment by projection: on every candidate axis that is not trivially
/// short, the point falls inside the extent of the shape.
pub open spec fn sat_contains_point_spec<T: NumTolerance, S: SATable<T>>(
    shape: &S,
    position: Vec2<T>,
    point: Vec2<T>,
) -> bool {
    forall|i: int|
        0 <= i < shape.axes_spec().len() ==> {
            let v = containment_axis(#[trigger] shape.axes_spec()[i], position, point);
            trivial_abs(v.length_squared_spec()) || !outside_on(shape, position, point, v)
        }
}

/// The direction that a candidate axis of the actor stands for, before any
/// normalisation.
pub open spec fn raw_vector<T: NumTolerance, S: SATable<T>>(
    raw: Axis<T>,
    actor_position: Vec2<T>,
    pushed: &S,
    pushed_position: Vec2<T>,
) -> Vec2<T> {
    match raw {
        Axis::Static { vector, normalized } => vector,
        Axis::Dynamic { point } => pushed.axis_from_point_spec(pushed_position, actor_position.plus(point)),
    }
}

/// Whether the direction of a candidate axis is used without normalising.
pub open spec fn used_as_is<T: NumTolerance>(raw: Axis<T>, accurate: bool) -> bool {
    !accurate || (raw matches Axis::Static { vector, normalized } && normalized)
}

/// The concrete vector of a candidate axis; `None` for a degenerate axis,
/// one whose direction has no length to speak of.
pub open spec fn resolved_axis<T: NumTolerance, S: SATable<T>>(
    raw: Axis<T>,
    actor_position: Vec2<T>,
    pushed: &S,
    pushed_position: Vec2<T>,
    accurate: bool,
) -> Option<Vec2<T>> {
    let v = raw_vector(raw, actor_position, pushed, pushed_position);
    if !v.has_direction() {
        None
    } else if used_as_is(raw, accurate) {
        Some(v)
    } else {
        Some(v.normalized_spec())
    }
}

/// The concrete vector of the `i`-th axis of the actor.
pub open spec fn axis_at<T: NumTolerance, A: SATable<T>, B: SATable<T>>(
    actor: &A,
    actor_position: Vec2<T>,
    pushed: &B,
    pushed_position: Vec2<T>,
    accurate: bool,
    i: int,
) -> Option<Vec2<T>> {
    resolved_axis(actor.axes_spec()[i], actor_position, pushed, pushed_position, accurate)
}

/// Whether the two extents along `v` are apart, touching counting as apart.
pub open spec fn gap_on<T: NumTolerance, A: SATable<T>, B: SATable<T>>(
    actor: &A,
    actor_position: Vec2<T>,
    pushed: &B,
    pushed_position: Vec2<T>,
    v: Vec2<T>,
) -> bool {
    let a = actor.project_spec(v, actor_position);
    let p = pushed.project_spec(v, pushed_position);
    difference_small(a.max, p.min) || difference_small(p.max, a.min)
}

/// The length over which the two extents along `v` overlap.
pub open spec fn overlap_on<T: NumTolerance, A: SATable<T>, B: SATable<T>>(
    actor: &A,
    actor_position: Vec2<T>,
    pushed: &B,
    pushed_position: Vec2<T>,
    v: Vec2<T>,
) -> T {
    let a = actor.project_spec(v, actor_position);
    let p = pushed.project_spec(v, pushed_position);
    min_spec(a.max.sub_spec(p.min), p.max.sub_spec(a.min))
}

/// No axis of the actor separates the pair.
pub open spec fn half_sat_colliding<T: NumTolerance, A: SATable<T>, B: SATable<T>>(
    actor: &A,
    actor_position: Vec2<T>,
    pushed: &B,
    pushed_position: Vec2<T>,
    accurate: bool,
) -> bool {
    forall|i: int|
        0 <= i < actor.axes_spec().len() ==> match #[trigger] axis_at(
            actor,
            actor_position,
            pushed,
            pushed_position,
            accurate,
            i,
        ) {
            Some(v) => !gap_on(actor, actor_position, pushed, pushed_position, v),
            None => true,
        }
}

/// The least overlap among the first `n` axes of the actor and the axis
/// that shows it; the earliest of several equal ones. Before any axis has
/// been seen: the largest scalar and the zero vector.
pub open spec fn least_overlap<T: NumTolerance, A: SATable<T>, B: SATable<T>>(
    actor: &A,
    actor_position: Vec2<T>,
    pushed: &B,
    pushed_position: Vec2<T>,
    accurate: bool,
    n: nat,
) -> (T, Vec2<T>)
    decreases n,
{
    if n == 0 {
        (T::max_value_spec(), Vec2::zero_spec())
    } else {
        let before = least_overlap(actor, actor_position, pushed, pushed_position, accurate, (n - 1) as nat);
        match axis_at(actor, actor_position, pushed, pushed_position, accurate, n - 1) {
            None => before,
            Some(v) => {
                let overlap = overlap_on(actor, actor_position, pushed, pushed_position, v);
                if overlap.lt_spec(before.0) {
                    (overlap, v)
                } else {
                    before
                }
            },
        }
    }
}

/// `axis`, negated where it points against `direction`.
pub open spec fn facing<T: NumTolerance>(axis: Vec2<T>, direction: Vec2<T>) -> Vec2<T> {
    if axis.dot_spec(direction).is_sign_negative_spec() {
        axis.negated()
    } else {
        axis
    }
}

/// One pass of the separating-axis test, over the axes of the actor.
pub open spec fn half_sat_resolution_spec<T: NumTolerance, A: SATable<T>, B: SATable<T>>(
    actor: &A,
    actor_position: Vec2<T>,
    pushed: &B,
    pushed_position: Vec2<T>,
    accurate: bool,
) -> Resolution<T> {
    if half_sat_colliding(actor, actor_position, pushed, pushed_position, accurate) {
        let best = least_overlap(
            actor,
            actor_position,
            pushed,
            pushed_position,
            accurate,
            actor.axes_spec().len(),
        );
        Resolution {
            colliding: true,
            penetration: best.0,
            axis: facing(best.1, pushed_position.minus(actor_position)),
        }
    } else {
        Resolution::none()
    }
}

/// Both passes, on axes as the shapes give them, find no separating axis.
pub open spec fn sat_collides_spec<T: NumTolerance, A: SATable<T>, B: SATable<T>>(
    a: &A,
    a_position: Vec2<T>,
    b: &B,
    b_position: Vec2<T>,
) -> bool {
    half_sat_colliding(a, a_position, b, b_position, false) && half_sat_colliding(
        b,
        b_position,
        a,
        a_position,
        false,
    )
}

/// Both passes on unit axes; of two colliding passes the one with the
/// smaller penetration, the second seen from the first shape.
pub open spec fn sat_collision_resolution_spec<T: NumTolerance, A: SATable<T>, B: SATable<T>>(
    a: &A,
    a_position: Vec2<T>,
    b: &B,
    b_position: Vec2<T>,
) -> Resolution<T> {
    let first = half_sat_resolution_spec(a, a_position, b, b_position, true);
    let second = half_sat_resolution_spec(b, b_position, a, a_position, true).flipped_spec();
    if !first.colliding || !second.colliding {
        Resolution::none()
    } else if first.penetration.lt_spec(second.penetration) {
        first
    } else {
        second
    }
}

/// Containment by projection onto the shape's own axes. An axis that is
/// trivially short is passed over, and the boundary counts as outside.
pub fn sat_contains_point<T: NumTolerance, S: SATable<T>>(shape: &S, position: Vec2<T>, point: Vec2<T>) -> (r:
    bool)
    ensures
        r == sat_contains_point_spec(shape, position, point),
{
    let axes = shape.axes();
    let mut i: usize = 0;
    while i < axes.len()
        invariant
            i <= axes.len(),
            axes@ == shape.axes_spec(),
            forall|j: int|
                0 <= j < i ==> {
                    let v = containment_axis(#[trigger] shape.axes_spec()[j], position, point);
                    trivial_abs(v.length_squared_spec()) || !outside_on(shape, position, point, v)
                },
        decreases axes.len() - i,
    {
        let axis_vector = match axes[i] {
            Axis::Static { vector, normalized: _ } => vector,
            Axis::Dynamic { point: axis_point } => point.sub(position.add(axis_point)),
        };
        if !axis_vector.length_squared().is_trivial_abs() {
            let proj = shape.project(axis_vector, position);
            let point_proj = axis_vector.dot(point);
            if point_proj.is_difference_small(proj.min) || proj.max.is_difference_small(point_proj) {
                return false;
            }
        }
        i += 1;
    }
    true
}

/// Turns a candidate axis of the actor into a concrete vector. A dynamic
/// axis asks the pushed shape for the vector between its nearest feature
/// and the axis point. With `accurate` the vector is brought to unit length
/// unless it is marked as having it. An axis whose direction has no length
/// above zero is degenerate and yields `None`; nothing is ever divided by
/// such a length.
pub fn generate_axis<T: NumTolerance, S: SATable<T>>(
    raw: Axis<T>,
    actor_position: Vec2<T>,
    pushed: &S,
    pushed_position: Vec2<T>,
    accurate: bool,
) -> (r: Option<Vec2<T>>)
    ensures
        r == resolved_axis(raw, actor_position, pushed, pushed_position, accurate),
{
    let (vector, unit) = match raw {
        Axis::Static { vector, normalized } => (vector, normalized),
        Axis::Dynamic { point } => (pushed.axis_from_point(pushed_position, actor_position.add(point)), false),
    };
    let length = vector.length();
    if !T::zero().lt(length) {
        None
    } else if !accurate || unit {
        Some(vector)
    } else {
        Some(Vec2 { x: vector.x.div(length), y: vector.y.div(length) })
    }
}

/// One pass of the separating-axis test: the axes of `actor` are tried in
/// turn. The first axis on which the extents are apart ends the pass with
/// [`Resolution::none`]. Otherwise the pair collides on these axes, the
/// penetration is the least overlap seen, and the axis that showed it is
/// turned to point from the actor towards the pushed shape: its dot product
/// with `pushed_position - actor_position` is not negative.
pub fn half_sat_resolution<T: NumTolerance, A: SATable<T>, B: SATable<T>>(
    actor: &A,
    actor_position: Vec2<T>,
    pushed: &B,
    pushed_position: Vec2<T>,
    accurate: bool,
) -> (r: Resolution<T>)
    ensures
        r == half_sat_resolution_spec(actor, actor_position, pushed, pushed_position, accurate),
        !r.colliding ==> r == Resolution::<T>::none(),
{
    let mut penetration: T = T::max_value();
    let mut best: Vec2<T> = Vec2::zero();
    let direction = pushed_position.sub(actor_position);
    let axes = actor.axes();
    let mut i: usize = 0;
    while i < axes.len()
        invariant
            i <= axes.len(),
            axes@ == actor.axes_spec(),
            forall|j: int|
                0 <= j < i ==> match #[trigger] axis_at(
                    actor,
                    actor_position,
                    pushed,
                    pushed_position,
                    accurate,
                    j,
                ) {
                    Some(v) => !gap_on(actor, actor_position, pushed, pushed_position, v),
                    None => true,
                },
            (penetration, best) == least_overlap(
                actor,
                actor_position,
                pushed,
                pushed_position,
                accurate,
                i as nat,
            ),
        decreases axes.len() - i,
    {
        let resolved = generate_axis(axes[i], actor_position, pushed, pushed_position, accurate);
        assert(resolved == axis_at(actor, actor_position, pushed, pushed_position, accurate, i as int));
        match resolved {
            None => {},
            Some(axis_vector) => {
                let actor_proj = actor.project(axis_vector, actor_position);
                let pushed_proj = pushed.project(axis_vector, pushed_position);
                if actor_proj.max.is_difference_small(pushed_proj.min) || pushed_proj.max.is_difference_small(
                    actor_proj.min,
                ) {
                    return Resolution::new();
                }
                let actor_pen = actor_proj.max.sub(pushed_proj.min);
                let pushed_pen = pushed_proj.max.sub(actor_proj.min);
                let overlap = actor_pen.min(pushed_pen);
                if overlap.lt(penetration) {
                    penetration = overlap;
                    best = axis_vector;
                }
            },
        }
        i += 1;
    }
    let axis = if best.dot(direction).is_sign_negative() {
        best.neg()
    } else {
        best
    };
    Resolution { colliding: true, penetration, axis }
}

/// The separating-axis test on the axes of both shapes, without
/// normalising any axis.
pub fn sat_collides<T: NumTolerance, A: SATable<T>, B: SATable<T>>(
    a: &A,
    a_position: Vec2<T>,
    b: &B,
    b_position: Vec2<T>,
) -> (r: bool)
    ensures
        r == sat_collides_spec(a, a_position, b, b_position),
{
    half_sat_resolution(a, a_position, b, b_position, false).colliding && half_sat_resolution(
        b,
        b_position,
        a,
        a_position,
        false,
    ).colliding
}

/// The separating-axis test with a resolution: both passes run on unit
/// axes, the second is seen from the first shape, and the pass with the
/// smaller penetration is returned, so that the axis points from `a`
/// towards `b`. If either pass finds a separating axis the result is
/// [`Resolution::none`].
pub fn sat_collision_resolution<T: NumTolerance, A: SATable<T>, B: SATable<T>>(
    a: &A,
    a_position: Vec2<T>,
    b: &B,
    b_position: Vec2<T>,
) -> (r: Resolution<T>)
    ensures
        r == sat_collision_resolution_spec(a, a_position, b, b_position),
        !r.colliding ==> r == Resolution::<T>::none(),
{
    let resolution = half_sat_resolution(a, a_position, b, b_position, true);
    if !resolution.colliding {
        return resolution;
    }
    let second = half_sat_resolution(b, b_position, a, a_position, true);
    if !second.colliding {
        return second;
    }
    let flipped = second.flipped();
    if resolution.penetration.lt(flipped.penetration) {
        resolution
    } else {
        flipped
    }
}

/// The least overlap comes with the axis that produced it: unless no axis
/// among the first `n` gave an overlap below the largest scalar, the
/// penetration is the overlap on the axis returned, and that axis is one of
/// those `n`.
pub proof fn lemma_least_overlap_witness<T: NumTolerance, A: SATable<T>, B: SATable<T>>(
    actor: &A,
    actor_position: Vec2<T>,
    pushed: &B,
    pushed_position: Vec2<T>,
    accurate: bool,
    n: nat,
)
    ensures
        ({
            let best = least_overlap(actor, actor_position, pushed, pushed_position, accurate, n);
            best == (T::max_value_spec(), Vec2::<T>::zero_spec()) || (best.0 == overlap_on(
                actor,
                actor_position,
                pushed,
                pushed_position,
                best.1,
            ) && exists|i: int|
                0 <= i < n && #[trigger] axis_at(actor, actor_position, pushed, pushed_position, accurate, i)
                    == Some(best.1))
        }),
    decreases n,
{
    if n > 0 {
        lemma_least_overlap_witness(actor, actor_position, pushed, pushed_position, accurate, (n - 1) as nat);
        let before = least_overlap(actor, actor_position, pushed, pushed_position, accurate, (n - 1) as nat);
        let best = least_overlap(actor, actor_position, pushed, pushed_position, accurate, n);
        if best != before {
            assert(axis_at(actor, actor_position, pushed, pushed_position, accurate, n - 1) == Some(best.1));
        } else if best != (T::max_value_spec(), Vec2::<T>::zero_spec()) {
            let i = choose|i: int|
                0 <= i < n - 1 && #[trigger] axis_at(actor, actor_position, pushed, pushed_position, accurate, i)
                    == Some(before.1);
            assert(axis_at(actor, actor_position, pushed, pushed_position, accurate, i) == Some(best.1));
        }
    }
}

/// The separating-axis test does not depend on the order of the pair:
/// testing `a` against `b` gives what testing `b` against `a` gives.
pub proof fn lemma_sat_collides_symmetric<T: NumTolerance, A: SATable<T>, B: SATable<T>>(
    a: &A,
    a_position: Vec2<T>,
    b: &B,
    b_position: Vec2<T>,
)
    ensures
        sat_collides_spec(a, a_position, b, b_position) == sat_collides_spec(b, b_position, a, a_position),
{
}

/// A resolution by the separating-axis test that reports no collision is
/// [`Resolution::none`]: the largest scalar as penetration and the zero
/// vector as axis.
pub proof fn lemma_sat_resolution_none<T: NumTolerance, A: SATable<T>, B: SATable<T>>(
    a: &A,
    a_position: Vec2<T>,
    b: &B,
    b_position: Vec2<T>,
)
    ensures
        !sat_collision_resolution_spec(a, a_position, b, b_position).colliding ==> sat_collision_resolution_spec(
            a,
            a_position,
            b,
            b_position,
        ) == Resolution::<T>::none(),
{
}

} // verus!
