//! Planar angles that carry their unit.

use vstd::prelude::*;
use crate::scalar::Scalar;

verus! {

/// An angle, in radians or in degrees.
#[derive(Debug, PartialEq)]
pub enum Angle<T> {
    Radians(T),
    Degrees(T),
}

impl<T: Copy> Clone for Angle<T> {
    fn clone(&self) -> (a: Self)
        ensures
            a == *self,
    {
        *self
    }
}

impl<T: Copy> Copy for Angle<T> {

}

impl<T: Scalar> Angle<T> {
    /// The angle in radians: the value itself, or `degrees * pi / 180`.
    pub open spec fn radians_spec(self) -> T {
        match self {
            Angle::Radians(r) => r,
            Angle::Degrees(d) => d.mul_spec(T::pi_spec()).div_spec(T::from_int_spec(180)),
        }
    }

    /// The angle in radians.
    pub fn to_radians(self) -> (r: T)
        ensures
            r == self.radians_spec(),
    {
        match self {
            Angle::Radians(r) => r,
            Angle::Degrees(d) => d.mul(T::pi()).div(T::from_int(180)),
        }
    }
}

} // verus!
