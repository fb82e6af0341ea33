//! The projection matrix of a view frustum.

use vstd::prelude::*;
use crate::mat::Mat4;
use crate::scalar::{Arithmetic, Scalar};

verus! {

/// The perspective projection for the frustum whose near plane, at distance `near`,
/// is cut by `left`, `right`, `bottom` and `top`, and whose far plane lies at `far`:
///
/// ```text
/// | 2n/(r-l)     0      (r+l)/(r-l)       0      |
/// |    0      2n/(t-b)  (t+b)/(t-b)       0      |
/// |    0         0     -(f+n)/(f-n)  -2fn/(f-n)  |
/// |    0         0          -1            0      |
/// ```
///
/// Each entry is written in the operations of `T`, in the order in which they are
/// carried out.
pub open spec fn frustum_spec<T: Arithmetic>(
    left: T,
    right: T,
    bottom: T,
    top: T,
    near: T,
    far: T,
) -> Mat4<T> {
    let zero = T::from_int_spec(0);
    let two = T::from_int_spec(2);
    let width = right.sub_spec(left);
    let height = top.sub_spec(bottom);
    let depth = far.sub_spec(near);
    Mat4 {
        c0r0: two.mul_spec(near).div_spec(width),
        c0r1: zero,
        c0r2: zero,
        c0r3: zero,
        c1r0: zero,
        c1r1: two.mul_spec(near).div_spec(height),
        c1r2: zero,
        c1r3: zero,
        c2r0: right.add_spec(left).div_spec(width),
        c2r1: top.add_spec(bottom).div_spec(height),
        c2r2: far.add_spec(near).neg_spec().div_spec(depth),
        c2r3: T::from_int_spec((-1) as i16),
        c3r0: zero,
        c3r1: zero,
        c3r2: two.mul_spec(far).mul_spec(near).neg_spec().div_spec(depth),
        c3r3: zero,
    }
}

/// The projection matrix of the frustum given by its six clipping planes.
///
/// Nothing is asked of the arguments. Where two opposite planes coincide the matrix
/// holds whatever `T` yields for a division by zero. Whatever the planes, the last row
/// of the matrix is `0 0 -1 0`.
#[inline(always)]
pub fn frustum<T: Scalar>(left: T, right: T, bottom: T, top: T, near: T, far: T) -> (m: Mat4<T>)
    ensures
        m == frustum_spec(left, right, bottom, top, near, far),
        m@[0][3] == T::from_int_spec(0),
        m@[1][3] == T::from_int_spec(0),
        m@[2][3] == T::from_int_spec((-1) as i16),
        m@[3][3] == T::from_int_spec(0),
{
    let zero: T = T::from_int(0);
    let two: T = T::from_int(2);
    let width: T = right.sub(left);
    let height: T = top.sub(bottom);
    let depth: T = far.sub(near);

    let c0r0: T = two.mul(near).div(width);
    let c1r1: T = two.mul(near).div(height);
    let c2r0: T = right.add(left).div(width);
    let c2r1: T = top.add(bottom).div(height);
    let c2r2: T = far.add(near).neg().div(depth);
    let c2r3: T = T::from_int(-1);
    let c3r2: T = two.mul(far).mul(near).neg().div(depth);

    Mat4::new(
        c0r0, zero, zero, zero,
        zero, c1r1, zero, zero,
        c2r0, c2r1, c2r2, c2r3,
        zero, zero, c3r2, zero,
    )
}

} // verus!
