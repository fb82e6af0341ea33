//! What holds of the projection matrices in exact arithmetic.
//!
//! The laws are about [`frustum_spec`] and [`perspective_spec`] read over the real
//! numbers. [`lemma_exact_frustum`] and [`lemma_exact_perspective`] carry them to every
//! scalar type that computes exactly. A scalar type that rounds meets them only as far
//! as its rounding allows.

use vstd::prelude::*;
use crate::frustum::frustum_spec;
use crate::mat::Mat4;
use crate::perspective::perspective_spec;
use crate::scalar::Arithmetic;
use crate::reals::{
    lemma_div_mul, lemma_div_unique, lemma_mul_commutes, lemma_mul_distributes, lemma_mul_le,
    lemma_mul_negates, lemma_mul_rotates, lemma_mul_unit, lemma_mul_zero,
};

verus! {

/// The clip coordinates `(x, y, z, w)` that `m` gives the point `(x, y, z, 1)`.
pub open spec fn clip_coordinates(m: Mat4<real>, x: real, y: real, z: real) -> (
    real,
    real,
    real,
    real,
) {
    (
        m.c0r0 * x + m.c1r0 * y + m.c2r0 * z + m.c3r0,
        m.c0r1 * x + m.c1r1 * y + m.c2r1 * z + m.c3r1,
        m.c0r2 * x + m.c1r2 * y + m.c2r2 * z + m.c3r2,
        m.c0r3 * x + m.c1r3 * y + m.c2r3 * z + m.c3r3,
    )
}

/// A point has its clip coordinates within the clip volume just when it lies in the
/// frustum.
///
/// Take a frustum with `left < right`, `bottom < top` and `0 < near < far`, seen from an
/// eye at the origin that looks down the negative z axis, and any point `(x, y, z)`.
/// The clip coordinate `w` of the point is its distance `-z` in front of the eye. Its
/// clip coordinate `x` lies within `-w..=w` just when `near * x` lies between
/// `left * -z` and `right * -z`: for a point in front of the eye, just when the ray
/// from the eye to the point crosses the near plane between `left` and `right`. Its `y`
/// does so likewise between `bottom` and `top`, and its `z` just when the distance lies
/// between `near` and `far`. For a point behind the eye none of the three holds.
pub proof fn lemma_clip_volume_is_the_frustum(
    left: real,
    right: real,
    bottom: real,
    top: real,
    near: real,
    far: real,
    x: real,
    y: real,
    z: real,
)
    requires
        left < right,
        bottom < top,
        0real < near < far,
    ensures
        ({
            let (cx, cy, cz, cw) = clip_coordinates(
                frustum_spec(left, right, bottom, top, near, far),
                x,
                y,
                z,
            );
            &&& cw == -z
            &&& -cw <= cx <= cw <==> left * -z <= near * x <= right * -z
            &&& -cw <= cy <= cw <==> bottom * -z <= near * y <= top * -z
            &&& -cw <= cz <= cw <==> near <= -z <= far
        }),
{
    let m = frustum_spec(left, right, bottom, top, near, far);
    lemma_mul_unit(m.c1r0, y);
    lemma_mul_unit(m.c0r1, x);
    lemma_mul_unit(m.c0r2, x);
    lemma_mul_unit(m.c1r2, y);
    lemma_mul_unit(m.c0r3, x);
    lemma_mul_unit(m.c1r3, y);
    lemma_mul_unit(m.c2r3, z);
    lemma_window_axis(left, right, near, x, z);
    lemma_window_axis(bottom, top, near, y, z);
    lemma_depth_axis(near, far, z);
}

/// A symmetric frustum is the perspective projection of its own field of view.
///
/// For a near plane that reaches `l` to either side and `t`, not zero, up and down, at
/// a distance `near` other than zero, the frustum `(-l, l, -t, t, near, far)` has the
/// matrix that the tangent `t / near` and the aspect ratio `l / t` give.
pub proof fn lemma_symmetric_frustum_is_perspective(
    l: real,
    t: real,
    near: real,
    far: real,
    tan_fovy: real,
)
    requires
        t != 0real,
        near != 0real,
        tan_fovy == t / near,
    ensures
        frustum_spec(-l, l, -t, t, near, far) == perspective_spec(tan_fovy, l / t, near, far),
{
    lemma_div_mul(t, near);
    lemma_mul_commutes(t / near, near);
    lemma_div_mul(l, t);
    lemma_mul_commutes(l / t, t);
}

/// What scaling the window of a frustum does to its matrix.
///
/// Where `left`, `right`, `bottom` and `top` are all multiplied by `k`, the two entries
/// on the diagonal that hold `2 * near` are divided by `k`, and every other entry stays
/// as it is: each of those either leaves the four out or is a ratio of a sum and a
/// difference of one pair of them.
pub proof fn lemma_frustum_window_scaled(
    k: real,
    left: real,
    right: real,
    bottom: real,
    top: real,
    near: real,
    far: real,
)
    requires
        k != 0real,
        left != right,
        bottom != top,
    ensures
        frustum_spec(k * left, k * right, k * bottom, k * top, near, far) == (Mat4 {
            c0r0: frustum_spec(left, right, bottom, top, near, far).c0r0 / k,
            c1r1: frustum_spec(left, right, bottom, top, near, far).c1r1 / k,
            ..frustum_spec(left, right, bottom, top, near, far)
        }),
{
    lemma_scaled_ratios(k, left, right, near);
    lemma_scaled_ratios(k, bottom, top, near);
}

/// Scaling the window of a frustum leaves its matrix unchanged just when the scale is
/// one or the near plane lies at zero.
pub proof fn lemma_frustum_scale_invariant(
    k: real,
    left: real,
    right: real,
    bottom: real,
    top: real,
    near: real,
    far: real,
)
    requires
        k != 0real,
        left != right,
        bottom != top,
    ensures
        frustum_spec(k * left, k * right, k * bottom, k * top, near, far) == frustum_spec(
            left,
            right,
            bottom,
            top,
            near,
            far,
        ) <==> k == 1real || near == 0real,
{
    lemma_frustum_window_scaled(k, left, right, bottom, top, near, far);
    lemma_quotient_unscaled(k, 2real * near, right - left);
    lemma_quotient_unscaled(k, 2real * near, top - bottom);
}

/// `value` reads the scalars of `T` as real numbers, and every operation of `T` is then
/// the operation on real numbers: `T` computes exactly. A division by zero is left
/// out, since no real number is its quotient.
pub open spec fn is_exact<T: Arithmetic>(value: spec_fn(T) -> real) -> bool {
    &&& forall|n: i16| value(#[trigger] T::from_int_spec(n)) == n as real
    &&& forall|a: T, b: T| value(#[trigger] a.add_spec(b)) == value(a) + value(b)
    &&& forall|a: T, b: T| value(#[trigger] a.sub_spec(b)) == value(a) - value(b)
    &&& forall|a: T, b: T| value(#[trigger] a.mul_spec(b)) == value(a) * value(b)
    &&& forall|a: T, b: T|
        value(b) != 0real ==> value(#[trigger] a.div_spec(b)) == value(a) / value(b)
    &&& forall|a: T| value(#[trigger] a.neg_spec()) == -value(a)
}

/// The entries of `m`, each read as a real number.
pub open spec fn values<T>(m: Mat4<T>, value: spec_fn(T) -> real) -> Mat4<real> {
    Mat4 {
        c0r0: value(m.c0r0),
        c0r1: value(m.c0r1),
        c0r2: value(m.c0r2),
        c0r3: value(m.c0r3),
        c1r0: value(m.c1r0),
        c1r1: value(m.c1r1),
        c1r2: value(m.c1r2),
        c1r3: value(m.c1r3),
        c2r0: value(m.c2r0),
        c2r1: value(m.c2r1),
        c2r2: value(m.c2r2),
        c2r3: value(m.c2r3),
        c3r0: value(m.c3r0),
        c3r1: value(m.c3r1),
        c3r2: value(m.c3r2),
        c3r3: value(m.c3r3),
    }
}

/// The real numbers compute exactly, read as themselves.
pub proof fn lemma_reals_are_exact()
    ensures
        is_exact(|x: real| x),
{
}

/// In a scalar type that computes exactly, the matrix of a frustum with no two opposite
/// planes in one place is, read entry by entry, the matrix over the real numbers.
pub proof fn lemma_exact_frustum<T: Arithmetic>(
    value: spec_fn(T) -> real,
    left: T,
    right: T,
    bottom: T,
    top: T,
    near: T,
    far: T,
)
    requires
        is_exact(value),
        value(left) != value(right),
        value(bottom) != value(top),
        value(near) != value(far),
    ensures
        values(frustum_spec(left, right, bottom, top, near, far), value) == frustum_spec(
            value(left),
            value(right),
            value(bottom),
            value(top),
            value(near),
            value(far),
        ),
{
}

/// In a scalar type that computes exactly, the perspective matrix for a tangent, an
/// aspect ratio and a near plane that are not zero, and a far plane apart from the near
/// one, is, read entry by entry, the matrix over the real numbers.
pub proof fn lemma_exact_perspective<T: Arithmetic>(
    value: spec_fn(T) -> real,
    tan_fovy: T,
    aspect_ratio: T,
    near: T,
    far: T,
)
    requires
        is_exact(value),
        value(tan_fovy) != 0real,
        value(aspect_ratio) != 0real,
        value(near) != 0real,
        value(near) != value(far),
    ensures
        values(perspective_spec(tan_fovy, aspect_ratio, near, far), value) == perspective_spec(
            value(tan_fovy),
            value(aspect_ratio),
            value(near),
            value(far),
        ),
{
    let ymax = near.mul_spec(tan_fovy);
    let xmax = ymax.mul_spec(aspect_ratio);
    lemma_mul_zero(value(near), value(tan_fovy));
    lemma_mul_zero(value(ymax), value(aspect_ratio));
    lemma_exact_frustum(value, xmax.neg_spec(), xmax, ymax.neg_spec(), ymax, near, far);
}

/// For `k` and `b` other than zero, `a / b / k` is `a / b` just when `k` is one or `a`
/// is zero.
proof fn lemma_quotient_unscaled(k: real, a: real, b: real)
    requires
        k != 0real,
        b != 0real,
    ensures
        a / b / k == a / b <==> k == 1real || a == 0real,
{
    let c = a / b;
    lemma_div_mul(a, b);
    lemma_div_mul(c, k);
    lemma_mul_unit(k, c / k);
    lemma_mul_distributes(k, 1real, c);
    lemma_mul_commutes(c, k);
    lemma_mul_zero(c, k - 1real);
    lemma_mul_zero(c, b);
    lemma_mul_zero(c / k, k);
}

/// For one pair of opposite planes `lo` and `hi`, scaled by `k`: the ratio of sum and
/// difference stays, and `2 * near` over the difference is divided by `k`.
proof fn lemma_scaled_ratios(k: real, lo: real, hi: real, near: real)
    requires
        k != 0real,
        lo != hi,
    ensures
        (k * hi + k * lo) / (k * hi - k * lo) == (hi + lo) / (hi - lo),
        (2real * near) / (k * hi - k * lo) == (2real * near) / (hi - lo) / k,
{
    let w = hi - lo;
    let s = hi + lo;
    let kw = k * hi - k * lo;
    let ks = k * hi + k * lo;
    lemma_mul_distributes(hi, lo, k);
    lemma_mul_commutes(k, hi);
    lemma_mul_commutes(k, lo);
    assert(kw == k * w);
    assert(ks == k * s);
    lemma_mul_zero(k, w);

    let q = s / w;
    lemma_div_mul(s, w);
    lemma_mul_rotates(q, k, w);
    lemma_mul_commutes(q * w, k);
    assert(q * kw == ks);
    lemma_div_unique(ks, kw, q);

    let c = (2real * near) / w;
    let r = c / k;
    lemma_div_mul(2real * near, w);
    lemma_div_mul(c, k);
    lemma_mul_rotates(r, k, w);
    assert(r * kw == 2real * near);
    lemma_div_unique(2real * near, kw, r);
}

/// Along one axis of the window, between the planes `lo < hi`: the clip coordinate of
/// a point at `p`, seen at depth `z`, lies within `z..=-z` just when `near * p` lies
/// between `lo * -z` and `hi * -z`.
proof fn lemma_window_axis(lo: real, hi: real, near: real, p: real, z: real)
    requires
        lo < hi,
    ensures
        ({
            let c = (2real * near) / (hi - lo) * p + (hi + lo) / (hi - lo) * z;
            z <= c <= -z <==> lo * -z <= near * p <= hi * -z
        }),
{
    let w = hi - lo;
    let a = (2real * near) / w;
    let b = (hi + lo) / w;
    let c = a * p + b * z;
    lemma_div_mul(2real * near, w);
    lemma_div_mul(hi + lo, w);
    lemma_mul_distributes(a * p, b * z, w);
    lemma_mul_rotates(a, p, w);
    lemma_mul_rotates(b, z, w);
    lemma_mul_rotates(2real, near, p);
    lemma_mul_distributes(hi, lo, z);
    assert(c * w == 2real * (near * p) + hi * z + lo * z);
    assert(z * w == hi * z - lo * z);
    lemma_mul_negates(z, w);
    lemma_mul_negates(lo, z);
    lemma_mul_negates(hi, z);
    lemma_mul_le(c, -z, w);
    lemma_mul_le(z, c, w);
}

/// Along the depth axis, between the planes `0 < near < far`: the clip coordinate of a
/// point at depth `z` lies within `z..=-z` just when `-z` lies between `near` and `far`.
proof fn lemma_depth_axis(near: real, far: real, z: real)
    requires
        0real < near < far,
    ensures
        ({
            let c = -(far + near) / (far - near) * z + -(2real * far * near) / (far - near);
            z <= c <= -z <==> near <= -z <= far
        }),
{
    let d = far - near;
    let a = -(far + near) / d;
    let b = -(2real * far * near) / d;
    let c = a * z + b;
    lemma_div_mul(-(far + near), d);
    lemma_div_mul(-(2real * far * near), d);
    lemma_mul_distributes(a * z, b, d);
    lemma_mul_rotates(a, z, d);
    lemma_mul_negates(far + near, z);
    lemma_mul_distributes(far, near, z);
    lemma_mul_rotates(2real, far, near);
    assert(c * d == -(far * z) - near * z - 2real * (far * near));
    assert(z * d == far * z - near * z);
    lemma_mul_negates(z, d);
    lemma_mul_le(c, -z, d);
    lemma_mul_le(z, c, d);
    lemma_mul_le(-z, far, near);
    lemma_mul_negates(z, near);
    lemma_mul_commutes(z, near);
    lemma_mul_le(near, -z, far);
    lemma_mul_negates(z, far);
    lemma_mul_commutes(z, far);
    lemma_mul_commutes(near, far);
}

} // verus!
