//! Narrow-phase collision detection for convex two-dimensional shapes.
//!
//! Every routine is generic over a scalar that implements [`NumTolerance`].
//! The scalar is described by a small set of primitive operations, each of
//! which is a fixed function of its arguments; everything else in the crate
//! is built from those primitives and specified in terms of them.

use vstd::prelude::*;

pub mod narrow;
pub mod utility;
pub mod vec2;

verus! {

/// A scalar with tolerance-aware comparisons.
///
/// The first group of operations are the primitives that an implementation
/// supplies. Each has a specification twin, and the only thing claimed of a
/// primitive is that it returns the value of its twin: equal arguments give
/// equal results. No algebraic law (associativity, totality of the order, ...)
/// is claimed, so rounding arithmetic is a valid implementation. Nothing in
/// this crate implements the trait; whoever does vouches for exactly that
/// claim, and for the primitives never panicking.
///
/// The second group is derived from the primitives and verified here. A
/// trait cannot speak of functions that are defined over itself, so these
/// state their results in full; the functions that follow the trait
/// ([`abs_spec`], [`error_mixed_spec`], [`difference_small`], ...) give the
/// same values a name.
pub trait NumTolerance: Sized + Copy {
    spec fn zero_spec() -> Self;

    spec fn one_spec() -> Self;

    spec fn max_value_spec() -> Self;

    spec fn infinity_spec() -> Self;

    spec fn neg_infinity_spec() -> Self;

    spec fn from_u16_spec(n: u16) -> Self;

    spec fn add_spec(self, rhs: Self) -> Self;

    spec fn sub_spec(self, rhs: Self) -> Self;

    spec fn mul_spec(self, rhs: Self) -> Self;

    spec fn div_spec(self, rhs: Self) -> Self;

    spec fn neg_spec(self) -> Self;

    spec fn sqrt_spec(self) -> Self;

    spec fn lt_spec(self, rhs: Self) -> bool;

    spec fn is_sign_negative_spec(self) -> bool;

    /// The additive identity.
    fn zero() -> (r: Self)
        ensures
            r == Self::zero_spec(),
    ;

    /// The multiplicative identity.
    fn one() -> (r: Self)
        ensures
            r == Self::one_spec(),
    ;

    /// The largest finite value.
    fn max_value() -> (r: Self)
        ensures
            r == Self::max_value_spec(),
    ;

    /// A value above every finite one.
    fn infinity() -> (r: Self)
        ensures
            r == Self::infinity_spec(),
    ;

    /// A value below every finite one.
    fn neg_infinity() -> (r: Self)
        ensures
            r == Self::neg_infinity_spec(),
    ;

    /// The scalar nearest to a small whole number.
    fn from_u16(n: u16) -> (r: Self)
        ensures
            r == Self::from_u16_spec(n),
    ;

    fn add(self, rhs: Self) -> (r: Self)
        ensures
            r == self.add_spec(rhs),
    ;

    fn sub(self, rhs: Self) -> (r: Self)
        ensures
            r == self.sub_spec(rhs),
    ;

    fn mul(self, rhs: Self) -> (r: Self)
        ensures
            r == self.mul_spec(rhs),
    ;

    /// Division; a zero divisor must yield some value rather than panic.
    fn div(self, rhs: Self) -> (r: Self)
        ensures
            r == self.div_spec(rhs),
    ;

    fn neg(self) -> (r: Self)
        ensures
            r == self.neg_spec(),
    ;

    /// Square root; a negative argument must yield some value rather than panic.
    fn sqrt(self) -> (r: Self)
        ensures
            r == self.sqrt_spec(),
    ;

    /// Strict order.
    fn lt(self, rhs: Self) -> (r: bool)
        ensures
            r == self.lt_spec(rhs),
    ;

    /// Whether the sign of the value is negative (a negative zero counts).
    fn is_sign_negative(self) -> (r: bool)
        ensures
            r == self.is_sign_negative_spec(),
    ;

    /// Whether the sign of the value is positive.
    fn is_sign_positive(self) -> (r: bool)
        ensures
            r == !self.is_sign_negative_spec(),
    {
        !self.is_sign_negative()
    }

    /// Magnitude: the negation of a value that lies below zero.
    fn abs(self) -> (r: Self)
        ensures
            r == (if self.lt_spec(Self::zero_spec()) {
                self.neg_spec()
            } else {
                self
            }),
    {
        if self.lt(Self::zero()) {
            self.neg()
        } else {
            self
        }
    }

    /// The smaller of the two; the receiver on a tie.
    fn min(self, rhs: Self) -> (r: Self)
        ensures
            r == (if rhs.lt_spec(self) {
                rhs
            } else {
                self
            }),
    {
        if rhs.lt(self) {
            rhs
        } else {
            self
        }
    }

    /// The larger of the two; the receiver on a tie.
    fn max(self, rhs: Self) -> (r: Self)
        ensures
            r == (if self.lt_spec(rhs) {
                rhs
            } else {
                self
            }),
    {
        if self.lt(rhs) {
            rhs
        } else {
            self
        }
    }

    /// The fixed absolute tolerance, one ten-thousandth; the receiver
    /// plays no part.
    fn error_abs(&self) -> (r: Self)
        ensures
            r == Self::one_spec().div_spec(Self::from_u16_spec(10000u16)),
    {
        Self::one().div(Self::from_u16(10000u16))
    }

    /// The relative tolerance, one ten-thousandth, times the larger
    /// magnitude of the pair.
    fn error_relative(&self, rhs: Self) -> (r: Self)
        ensures
            ({
                let tolerance = Self::one_spec().div_spec(Self::from_u16_spec(10000u16));
                let a = if self.lt_spec(Self::zero_spec()) {
                    self.neg_spec()
                } else {
                    *self
                };
                let b = if rhs.lt_spec(Self::zero_spec()) {
                    rhs.neg_spec()
                } else {
                    rhs
                };
                r == tolerance.mul_spec(
                    if a.lt_spec(b) {
                        b
                    } else {
                        a
                    },
                )
            }),
    {
        let scale = Self::one().div(Self::from_u16(10000u16));
        scale.mul(self.abs().max(rhs.abs()))
    }

    /// The larger of the absolute and the relative tolerance of the pair;
    /// the absolute one on a tie.
    fn error_mixed(&self, rhs: Self) -> (r: Self)
        ensures
            ({
                let tolerance = Self::one_spec().div_spec(Self::from_u16_spec(10000u16));
                let a = if self.lt_spec(Self::zero_spec()) {
                    self.neg_spec()
                } else {
                    *self
                };
                let b = if rhs.lt_spec(Self::zero_spec()) {
                    rhs.neg_spec()
                } else {
                    rhs
                };
                let relative = tolerance.mul_spec(
                    if a.lt_spec(b) {
                        b
                    } else {
                        a
                    },
                );
                r == (if tolerance.lt_spec(relative) {
                    relative
                } else {
                    tolerance
                })
            }),
    {
        self.error_abs().max(self.error_relative(rhs))
    }

    /// Directional test, for slab checks where only a one-sided gap
    /// matters: `self - rhs` lies below the mixed tolerance of the pair.
    fn is_difference_small(&self, rhs: Self) -> (r: bool)
        ensures
            ({
                let tolerance = Self::one_spec().div_spec(Self::from_u16_spec(10000u16));
                let a = if self.lt_spec(Self::zero_spec()) {
                    self.neg_spec()
                } else {
                    *self
                };
                let b = if rhs.lt_spec(Self::zero_spec()) {
                    rhs.neg_spec()
                } else {
                    rhs
                };
                let relative = tolerance.mul_spec(
                    if a.lt_spec(b) {
                        b
                    } else {
                        a
                    },
                );
                r == self.sub_spec(rhs).lt_spec(
                    if tolerance.lt_spec(relative) {
                        relative
                    } else {
                        tolerance
                    },
                )
            }),
    {
        self.sub(rhs).lt(self.error_mixed(rhs))
    }

    /// Symmetric test, for equality-like comparisons: `|self - rhs|` lies
    /// below the mixed tolerance of the pair.
    fn is_difference_trivial(&self, rhs: Self) -> (r: bool)
        ensures
            ({
                let tolerance = Self::one_spec().div_spec(Self::from_u16_spec(10000u16));
                let a = if self.lt_spec(Self::zero_spec()) {
                    self.neg_spec()
                } else {
                    *self
                };
                let b = if rhs.lt_spec(Self::zero_spec()) {
                    rhs.neg_spec()
                } else {
                    rhs
                };
                let relative = tolerance.mul_spec(
                    if a.lt_spec(b) {
                        b
                    } else {
                        a
                    },
                );
                let difference = self.sub_spec(rhs);
                r == (if difference.lt_spec(Self::zero_spec()) {
                    difference.neg_spec()
                } else {
                    difference
                }).lt_spec(
                    if tolerance.lt_spec(relative) {
                        relative
                    } else {
                        tolerance
                    },
                )
            }),
    {
        self.sub(rhs).abs().lt(self.error_mixed(rhs))
    }

    /// `|self|` lies below the absolute tolerance.
    fn is_trivial_abs(&self) -> (r: bool)
        ensures
            r == (if self.lt_spec(Self::zero_spec()) {
                self.neg_spec()
            } else {
                *self
            }).lt_spec(Self::one_spec().div_spec(Self::from_u16_spec(10000u16))),
    {
        self.abs().lt(self.error_abs())
    }
}

/// The absolute tolerance shared by every comparison: one ten-thousandth.
pub open spec fn absolute_tolerance<T: NumTolerance>() -> T {
    T::one_spec().div_spec(T::from_u16_spec(10000u16))
}

/// The relative tolerance shared by every comparison: one ten-thousandth.
pub open spec fn relative_tolerance<T: NumTolerance>() -> T {
    T::one_spec().div_spec(T::from_u16_spec(10000u16))
}

/// Magnitude of a scalar: its negation when it lies below zero.
pub open spec fn abs_spec<T: NumTolerance>(a: T) -> T {
    if a.lt_spec(T::zero_spec()) {
        a.neg_spec()
    } else {
        a
    }
}

/// The smaller of two scalars; the first on a tie.
pub open spec fn min_spec<T: NumTolerance>(a: T, b: T) -> T {
    if b.lt_spec(a) {
        b
    } else {
        a
    }
}

/// The larger of two scalars; the first on a tie.
pub open spec fn max_spec<T: NumTolerance>(a: T, b: T) -> T {
    if a.lt_spec(b) {
        b
    } else {
        a
    }
}

/// Tolerance scaled to the larger magnitude of the pair.
pub open spec fn error_relative_spec<T: NumTolerance>(a: T, b: T) -> T {
    relative_tolerance::<T>().mul_spec(max_spec(abs_spec(a), abs_spec(b)))
}

/// The larger of the absolute and the relative tolerance of the pair.
pub open spec fn error_mixed_spec<T: NumTolerance>(a: T, b: T) -> T {
    max_spec(absolute_tolerance::<T>(), error_relative_spec(a, b))
}

/// One-sided closeness: `a - b` lies below the mixed tolerance of the pair.
pub open spec fn difference_small<T: NumTolerance>(a: T, b: T) -> bool {
    a.sub_spec(b).lt_spec(error_mixed_spec(a, b))
}

/// Two-sided closeness: `|a - b|` lies below the mixed tolerance of the pair.
pub open spec fn difference_trivial<T: NumTolerance>(a: T, b: T) -> bool {
    abs_spec(a.sub_spec(b)).lt_spec(error_mixed_spec(a, b))
}

/// `|a|` lies below the absolute tolerance.
pub open spec fn trivial_abs<T: NumTolerance>(a: T) -> bool {
    abs_spec(a).lt_spec(absolute_tolerance::<T>())
}

} // verus!
