//! The numbers a projection matrix is made of.
//!
//! A scalar type comes in two layers. [`Arithmetic`] says, as mathematics, what each
//! operation yields; [`Scalar`] adds the operations that run, each tied to its
//! mathematical twin. The real numbers are an [`Arithmetic`], so every formula written
//! over the twins can also be read, and reasoned about, in exact arithmetic.

use vstd::prelude::*;

verus! {

/// What the operations of a scalar type yield.
///
/// The functions are total and nothing more is asked of them: a type that rounds, or
/// that has infinities and not-a-number values, describes its own operations here just
/// as an exact type does.
///
/// In a compiled program these are methods that nothing calls. An implementation
/// written in plain Rust gives each one the operation that it describes.
pub trait Arithmetic: Sized {
    /// The scalar that stands for the whole number `n`.
    spec fn from_int_spec(n: i16) -> Self;

    /// `self + rhs`.
    spec fn add_spec(self, rhs: Self) -> Self;

    /// `self - rhs`.
    spec fn sub_spec(self, rhs: Self) -> Self;

    /// `self * rhs`.
    spec fn mul_spec(self, rhs: Self) -> Self;

    /// `self / rhs`. The type decides what a division by zero yields.
    spec fn div_spec(self, rhs: Self) -> Self;

    /// `-self`.
    spec fn neg_spec(self) -> Self;
}

/// Exact arithmetic. A division by zero yields a real number that is not specified.
impl Arithmetic for real {
    open spec fn from_int_spec(n: i16) -> real {
        n as real
    }

    open spec fn add_spec(self, rhs: real) -> real {
        self + rhs
    }

    open spec fn sub_spec(self, rhs: real) -> real {
        self - rhs
    }

    open spec fn mul_spec(self, rhs: real) -> real {
        self * rhs
    }

    open spec fn div_spec(self, rhs: real) -> real {
        self / rhs
    }

    open spec fn neg_spec(self) -> real {
        -self
    }
}

/// A number type that projections can be computed in: copyable, with the four
/// operations, negation, whole-number constants, the constant pi and a tangent.
///
/// No operation has a precondition and none may panic. Each arithmetic operation
/// returns exactly what its twin in [`Arithmetic`] names, so it is a function of its
/// operands. The tangent is held to less: a math library may round it differently from
/// one call to the next, so the type states as a relation, [`Scalar::is_tan`], which
/// results it admits.
///
/// The verifier holds an implementation that it sees to these clauses. One written in
/// plain Rust answers for them itself.
pub trait Scalar: Arithmetic + Copy {
    /// The scalar that this type uses for pi.
    spec fn pi_spec() -> Self;

    /// `t` is a value that [`Scalar::tan`] may return for the angle `self`, in radians.
    spec fn is_tan(self, t: Self) -> bool;

    /// The scalar that stands for the whole number `n`.
    fn from_int(n: i16) -> (r: Self)
        ensures
            r == Self::from_int_spec(n),
    ;

    /// `self + rhs`.
    fn add(self, rhs: Self) -> (r: Self)
        ensures
            r == self.add_spec(rhs),
    ;

    /// `self - rhs`.
    fn sub(self, rhs: Self) -> (r: Self)
        ensures
            r == self.sub_spec(rhs),
    ;

    /// `self * rhs`.
    fn mul(self, rhs: Self) -> (r: Self)
        ensures
            r == self.mul_spec(rhs),
    ;

    /// `self / rhs`, for every `rhs`: zero too.
    fn div(self, rhs: Self) -> (r: Self)
        ensures
            r == self.div_spec(rhs),
    ;

    /// `-self`.
    fn neg(self) -> (r: Self)
        ensures
            r == self.neg_spec(),
    ;

    /// Pi.
    fn pi() -> (r: Self)
        ensures
            r == Self::pi_spec(),
    ;

    /// The tangent of `self`, an angle in radians.
    fn tan(self) -> (t: Self)
        ensures
            self.is_tan(t),
    ;
}

} // verus!
