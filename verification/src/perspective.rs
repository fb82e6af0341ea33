//! The symmetric projection given by a field of view.

use vstd::prelude::*;
use crate::angle::Angle;
use crate::frustum::{frustum, frustum_spec};
use crate::mat::Mat4;
use crate::scalar::{Arithmetic, Scalar};

verus! {

/// The projection matrix of the symmetric frustum whose near plane reaches up to
/// `near * tan_fovy` and sideways to that height times `aspect_ratio`.
pub open spec fn perspective_spec<T: Arithmetic>(
    tan_fovy: T,
    aspect_ratio: T,
    near: T,
    far: T,
) -> Mat4<T> {
    let ymax = near.mul_spec(tan_fovy);
    let xmax = ymax.mul_spec(aspect_ratio);
    frustum_spec(xmax.neg_spec(), xmax, ymax.neg_spec(), ymax, near, far)
}

/// The symmetric projection matrix for a field of view given by its tangent.
///
/// Nothing is asked of the arguments.
pub fn perspective_from_tan<T: Scalar>(
    tan_fovy: T,
    aspect_ratio: T,
    near: T,
    far: T,
) -> (m: Mat4<T>)
    ensures
        m == perspective_spec(tan_fovy, aspect_ratio, near, far),
{
    let ymax: T = near.mul(tan_fovy);
    let xmax: T = ymax.mul(aspect_ratio);

    frustum(xmax.neg(), xmax, ymax.neg(), ymax, near, far)
}

/// The symmetric projection matrix for the field of view `fovy`: the matrix that
/// [`perspective_from_tan`] gives for a tangent of `fovy`, in radians, as `T` takes it.
///
/// Nothing is asked of the arguments. Whatever the tangent comes to, the last row of
/// the matrix is `0 0 -1 0`.
#[inline(always)]
pub fn perspective<T: Scalar>(fovy: Angle<T>, aspect_ratio: T, near: T, far: T) -> (m: Mat4<T>)
    ensures
        exists|t: T|
            #[trigger] fovy.radians_spec().is_tan(t) && m == perspective_spec(
                t,
                aspect_ratio,
                near,
                far,
            ),
        m@[0][3] == T::from_int_spec(0),
        m@[1][3] == T::from_int_spec(0),
        m@[2][3] == T::from_int_spec((-1) as i16),
        m@[3][3] == T::from_int_spec(0),
{
    let t: T = fovy.to_radians().tan();

    perspective_from_tan(t, aspect_ratio, near, far)
}

} // verus!
