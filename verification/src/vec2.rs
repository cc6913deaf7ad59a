use crate::{trivial_abs, NumTolerance};
use core::ops::{Add, Neg, Sub};
use vstd::prelude::*;
use vstd::std_specs::ops::{AddSpecImpl, NegSpecImpl, SubSpecImpl};

verus! {

/// A two-dimensional vector; a plain value.
#[derive(Clone, Copy)]
pub struct Vec2<T: NumTolerance> {
    pub x: T,
    pub y: T,
}

/// The value nearest to `input` within `[min, max]`; `min` wins when the
/// bounds are crossed and `input` lies below both.
pub open spec fn clamp_spec<T: NumTolerance>(input: T, min: T, max: T) -> T {
    if input.lt_spec(min) {
        min
    } else if max.lt_spec(input) {
        max
    } else {
        input
    }
}

fn clamp_scalar<T: NumTolerance>(input: T, min: T, max: T) -> (r: T)
    ensures
        r == clamp_spec(input, min, max),
{
    if input.lt(min) {
        min
    } else if max.lt(input) {
        max
    } else {
        input
    }
}

impl<T: NumTolerance> Vec2<T> {
    pub open spec fn zero_spec() -> Self {
        Vec2 { x: T::zero_spec(), y: T::zero_spec() }
    }

    pub open spec fn plus(self, rhs: Self) -> Self {
        Vec2 { x: self.x.add_spec(rhs.x), y: self.y.add_spec(rhs.y) }
    }

    pub open spec fn minus(self, rhs: Self) -> Self {
        Vec2 { x: self.x.sub_spec(rhs.x), y: self.y.sub_spec(rhs.y) }
    }

    pub open spec fn negated(self) -> Self {
        Vec2 { x: self.x.neg_spec(), y: self.y.neg_spec() }
    }

    pub open spec fn length_squared_spec(self) -> T {
        self.x.mul_spec(self.x).add_spec(self.y.mul_spec(self.y))
    }

    pub open spec fn length_spec(self) -> T {
        self.length_squared_spec().sqrt_spec()
    }

    /// Whether the vector has a length that can be divided by.
    pub open spec fn has_direction(self) -> bool {
        T::zero_spec().lt_spec(self.length_spec())
    }

    /// The vector divided by its length; a vector without a direction is
    /// its own normalisation.
    pub open spec fn normalized_spec(self) -> Self {
        if self.has_direction() {
            Vec2 { x: self.x.div_spec(self.length_spec()), y: self.y.div_spec(self.length_spec()) }
        } else {
            self
        }
    }

    pub open spec fn dot_spec(self, rhs: Self) -> T {
        self.x.mul_spec(rhs.x).add_spec(self.y.mul_spec(rhs.y))
    }

    pub open spec fn rotate_counter_90_spec(self) -> Self {
        Vec2 { x: self.y.neg_spec(), y: self.x }
    }

    pub open spec fn rotate_clock_90_spec(self) -> Self {
        Vec2 { x: self.y, y: self.x.neg_spec() }
    }

    pub open spec fn scale_spec(self, s: T) -> Self {
        Vec2 { x: self.x.mul_spec(s), y: self.y.mul_spec(s) }
    }

    pub open spec fn clamped(self, min: Self, max: Self) -> Self {
        Vec2 { x: clamp_spec(self.x, min.x, max.x), y: clamp_spec(self.y, min.y, max.y) }
    }

    pub fn zero() -> (r: Self)
        ensures
            r == Self::zero_spec(),
    {
        Vec2 { x: T::zero(), y: T::zero() }
    }

    pub fn new(x: T, y: T) -> (r: Self)
        ensures
            r == (Vec2 { x, y }),
    {
        Vec2 { x, y }
    }

    pub fn length_squared(&self) -> (r: T)
        ensures
            r == self.length_squared_spec(),
    {
        self.x.mul(self.x).add(self.y.mul(self.y))
    }

    pub fn length(&self) -> (r: T)
        ensures
            r == self.length_spec(),
    {
        self.length_squared().sqrt()
    }

    /// The unit vector of the same direction. A vector whose length is not
    /// above zero has no direction and is returned unchanged, so no division
    /// by a zero length ever takes place.
    pub fn normalized(&self) -> (r: Self)
        ensures
            r == self.normalized_spec(),
    {
        let length = self.length();
        if T::zero().lt(length) {
            Vec2 { x: self.x.div(length), y: self.y.div(length) }
        } else {
            *self
        }
    }

    pub fn dot(&self, rhs: Vec2<T>) -> (r: T)
        ensures
            r == self.dot_spec(rhs),
    {
        self.x.mul(rhs.x).add(self.y.mul(rhs.y))
    }

    pub fn rotate_counter_90(&self) -> (r: Self)
        ensures
            r == self.rotate_counter_90_spec(),
    {
        Vec2 { x: self.y.neg(), y: self.x }
    }

    pub fn rotate_clock_90(&self) -> (r: Self)
        ensures
            r == self.rotate_clock_90_spec(),
    {
        Vec2 { x: self.y, y: self.x.neg() }
    }

    /// Whether the two vectors are perpendicular within the absolute
    /// tolerance.
    pub fn perp(&self, vec: Vec2<T>) -> (r: bool)
        ensures
            r == trivial_abs(self.dot_spec(vec)),
    {
        self.dot(vec).is_trivial_abs()
    }

    pub fn scale(&self, s: T) -> (r: Vec2<T>)
        ensures
            r == self.scale_spec(s),
    {
        Vec2 { x: self.x.mul(s), y: self.y.mul(s) }
    }

    /// Clamps each coordinate into the matching interval of `min` and `max`.
    pub fn clamp(&self, min: Self, max: Self) -> (r: Self)
        ensures
            r == self.clamped(min, max),
    {
        Vec2 { x: clamp_scalar(self.x, min.x, max.x), y: clamp_scalar(self.y, min.y, max.y) }
    }

    /// The sum, coordinate by coordinate.
    pub fn add(self, rhs: Vec2<T>) -> (r: Vec2<T>)
        ensures
            r == self.plus(rhs),
    {
        Vec2 { x: self.x.add(rhs.x), y: self.y.add(rhs.y) }
    }

    /// The difference, coordinate by coordinate.
    pub fn sub(self, rhs: Vec2<T>) -> (r: Vec2<T>)
        ensures
            r == self.minus(rhs),
    {
        Vec2 { x: self.x.sub(rhs.x), y: self.y.sub(rhs.y) }
    }

    /// The vector of the opposite direction.
    pub fn neg(self) -> (r: Vec2<T>)
        ensures
            r == self.negated(),
    {
        Vec2 { x: self.x.neg(), y: self.y.neg() }
    }
}

/// `a + b` is [`Vec2::add`].
impl<T: NumTolerance> Add<Vec2<T>> for Vec2<T> {
    type Output = Vec2<T>;

    fn add(self, rhs: Vec2<T>) -> (r: Vec2<T>) {
        Vec2 { x: self.x.add(rhs.x), y: self.y.add(rhs.y) }
    }
}

impl<T: NumTolerance> AddSpecImpl<Vec2<T>> for Vec2<T> {
    open spec fn obeys_add_spec() -> bool {
        true
    }

    open spec fn add_req(self, rhs: Vec2<T>) -> bool {
        true
    }

    open spec fn add_spec(self, rhs: Vec2<T>) -> Vec2<T> {
        self.plus(rhs)
    }
}

/// `a - b` is [`Vec2::sub`].
impl<T: NumTolerance> Sub<Vec2<T>> for Vec2<T> {
    type Output = Vec2<T>;

    fn sub(self, rhs: Vec2<T>) -> (r: Vec2<T>) {
        Vec2 { x: self.x.sub(rhs.x), y: self.y.sub(rhs.y) }
    }
}

impl<T: NumTolerance> SubSpecImpl<Vec2<T>> for Vec2<T> {
    open spec fn obeys_sub_spec() -> bool {
        true
    }

    open spec fn sub_req(self, rhs: Vec2<T>) -> bool {
        true
    }

    open spec fn sub_spec(self, rhs: Vec2<T>) -> Vec2<T> {
        self.minus(rhs)
    }
}

/// `-a` is [`Vec2::neg`].
impl<T: NumTolerance> Neg for Vec2<T> {
    type Output = Vec2<T>;

    fn neg(self) -> (r: Vec2<T>) {
        Vec2 { x: self.x.neg(), y: self.y.neg() }
    }
}

impl<T: NumTolerance> NegSpecImpl for Vec2<T> {
    open spec fn obeys_neg_spec() -> bool {
        true
    }

    open spec fn neg_req(self) -> bool {
        true
    }

    open spec fn neg_spec(self) -> Vec2<T> {
        self.negated()
    }
}

} // verus!
