//! Facts of real arithmetic that the laws are proved from.
//!
//! Each is small enough for the nonlinear solver to settle at once: an identity of
//! polynomials, or one property of a product or a quotient of two or three numbers.

use vstd::prelude::*;

verus! {

/// Dividing and multiplying by the same number, not zero, gives the dividend back.
pub(crate) proof fn lemma_div_mul(a: real, b: real)
    by (nonlinear_arith)
    requires
        b != 0real,
    ensures
        a / b * b == a,
{
}

/// A number that gives `n` when multiplied by `d`, not zero, is the quotient `n / d`.
pub(crate) proof fn lemma_div_unique(n: real, d: real, q: real)
    by (nonlinear_arith)
    requires
        d != 0real,
        q * d == n,
    ensures
        n / d == q,
{
}

/// A product is zero just when a factor is.
pub(crate) proof fn lemma_mul_zero(a: real, b: real)
    by (nonlinear_arith)
    ensures
        a * b == 0real <==> a == 0real || b == 0real,
{
}

/// Multiplying by a positive number keeps the order.
pub(crate) proof fn lemma_mul_le(a: real, b: real, c: real)
    by (nonlinear_arith)
    requires
        c > 0real,
    ensures
        a <= b <==> a * c <= b * c,
{
}

/// What a factor of one, of minus one or of zero does.
pub(crate) proof fn lemma_mul_unit(a: real, b: real)
    by (nonlinear_arith)
    ensures
        a == 1real ==> a * b == b && b * a == b,
        a == -1real ==> a * b == -b && b * a == -b,
        a == 0real ==> a * b == 0real && b * a == 0real,
{
}

/// Factors may change places.
pub(crate) proof fn lemma_mul_commutes(a: real, b: real)
    by (nonlinear_arith)
    ensures
        a * b == b * a,
{
}

/// In a product of three, the last two factors may change places.
pub(crate) proof fn lemma_mul_rotates(a: real, b: real, c: real)
    by (nonlinear_arith)
    ensures
        a * b * c == a * c * b,
        a * b * c == a * (b * c),
{
}

/// A product with a sum or a difference is the sum or the difference of the products.
pub(crate) proof fn lemma_mul_distributes(a: real, b: real, c: real)
    by (nonlinear_arith)
    ensures
        (a + b) * c == a * c + b * c,
        (a - b) * c == a * c - b * c,
        c * (a + b) == a * c + b * c,
        c * (a - b) == a * c - b * c,
{
}

/// The sign of a factor is the sign of the product.
pub(crate) proof fn lemma_mul_negates(a: real, b: real)
    by (nonlinear_arith)
    ensures
        -a * b == -(a * b),
        a * -b == -(a * b),
{
}

} // verus!
