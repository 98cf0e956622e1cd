//! The integer identities behind the closed-form determinant and inverse.
//!
//! Every identity is shown in the same way. What the 2x2 blocks give is
//! multiplied out into products of four entries, each product is brought into
//! one form, its factors in the order of their rows and columns and paired two
//! and two, and what is left is a sum in which equal products meet.

use crate::base::matrix::Matrix;
use vstd::prelude::*;

verus! {

/// The determinant of a matrix of integers, as the sum over the permutations of
/// the columns: the product of the entries that a permutation picks, one
/// from each row, with the sign of the permutation.
pub open spec fn leibniz(m: Matrix<i64>) -> int {
    let (m00, m01, m02, m03) = (m.r0.x as int, m.r0.y as int, m.r0.z as int, m.r0.w as int);
    let (m10, m11, m12, m13) = (m.r1.x as int, m.r1.y as int, m.r1.z as int, m.r1.w as int);
    let (m20, m21, m22, m23) = (m.r2.x as int, m.r2.y as int, m.r2.z as int, m.r2.w as int);
    let (m30, m31, m32, m33) = (m.r3.x as int, m.r3.y as int, m.r3.z as int, m.r3.w as int);
    (m00 * m11) * (m22 * m33)
        - (m00 * m11) * (m23 * m32)
        - (m00 * m12) * (m21 * m33)
        + (m00 * m12) * (m23 * m31)
        + (m00 * m13) * (m21 * m32)
        - (m00 * m13) * (m22 * m31)
        - (m01 * m10) * (m22 * m33)
        + (m01 * m10) * (m23 * m32)
        + (m01 * m12) * (m20 * m33)
        - (m01 * m12) * (m23 * m30)
        - (m01 * m13) * (m20 * m32)
        + (m01 * m13) * (m22 * m30)
        + (m02 * m10) * (m21 * m33)
        - (m02 * m10) * (m23 * m31)
        - (m02 * m11) * (m20 * m33)
        + (m02 * m11) * (m23 * m30)
        + (m02 * m13) * (m20 * m31)
        - (m02 * m13) * (m21 * m30)
        - (m03 * m10) * (m21 * m32)
        + (m03 * m10) * (m22 * m31)
        + (m03 * m11) * (m20 * m32)
        - (m03 * m11) * (m22 * m30)
        - (m03 * m12) * (m20 * m31)
        + (m03 * m12) * (m21 * m30)
}

/// The product of two differences, multiplied out.
pub(crate) proof fn lemma_product_of_differences(p: int, q: int, r: int, s: int)
    ensures
        (p - q) * (r - s) == p * r - p * s - q * r + q * s,
{
    assert((p - q) * (r - s) == p * r - p * s - q * r + q * s) by (nonlinear_arith);
}

/// One lane of a block of cofactors that subtracts a product of two 2x2
/// matrices, times an entry `t`, multiplied out.
pub(crate) proof fn lemma_lane_of_product(
    p: int,
    q: int,
    e: int,
    u1: int,
    h1: int,
    h2: int,
    u2: int,
    n1: int,
    n2: int,
    t: int,
)
    ensures
        ((p - q) * e - (u1 * (h1 - h2) + u2 * (n1 - n2))) * t == (p * e) * t - (q * e) * t - (u1
            * h1) * t + (u1 * h2) * t - (u2 * n1) * t + (u2 * n2) * t,
{
    assert((p - q) * e == p * e - q * e) by (nonlinear_arith);
    assert(u1 * (h1 - h2) == u1 * h1 - u1 * h2) by (nonlinear_arith);
    assert(u2 * (n1 - n2) == u2 * n1 - u2 * n2) by (nonlinear_arith);
    let (a, b, c, d, f, g) = (p * e, q * e, u1 * h1, u1 * h2, u2 * n1, u2 * n2);
    assert((a - b - (c - d + (f - g))) * t == a * t - b * t - c * t + d * t - f * t + g * t)
        by (nonlinear_arith);
}

/// One lane of a block of cofactors that subtracts the product of a 2x2
/// matrix and an adjugate, times an entry `t`, multiplied out.
pub(crate) proof fn lemma_lane_of_adjugate_product(
    p: int,
    q: int,
    e: int,
    u1: int,
    h1: int,
    h2: int,
    u2: int,
    n1: int,
    n2: int,
    t: int,
)
    ensures
        ((p - q) * e - (u1 * (h1 - h2) - u2 * (n1 - n2))) * t == (p * e) * t - (q * e) * t - (u1
            * h1) * t + (u1 * h2) * t + (u2 * n1) * t - (u2 * n2) * t,
{
    assert((p - q) * e == p * e - q * e) by (nonlinear_arith);
    assert(u1 * (h1 - h2) == u1 * h1 - u1 * h2) by (nonlinear_arith);
    assert(u2 * (n1 - n2) == u2 * n1 - u2 * n2) by (nonlinear_arith);
    let (a, b, c, d, f, g) = (p * e, q * e, u1 * h1, u1 * h2, u2 * n1, u2 * n2);
    assert((a - b - (c - d - (f - g))) * t == a * t - b * t - c * t + d * t + f * t - g * t)
        by (nonlinear_arith);
}

/// On `i64`, the determinant by 2x2 blocks is the determinant by
/// permutations, wherever no step of the former overflows.
pub proof fn lemma_i64_det_is_leibniz(m: Matrix<i64>)
    requires
        m.det_req(),
    ensures
        m.det_spec() == leibniz(m),
{
    let (m00, m01, m02, m03) = (m.r0.x as int, m.r0.y as int, m.r0.z as int, m.r0.w as int);
    let (m10, m11, m12, m13) = (m.r1.x as int, m.r1.y as int, m.r1.z as int, m.r1.w as int);
    let (m20, m21, m22, m23) = (m.r2.x as int, m.r2.y as int, m.r2.z as int, m.r2.w as int);
    let (m30, m31, m32, m33) = (m.r3.x as int, m.r3.y as int, m.r3.z as int, m.r3.w as int);
    let s = m.block_dets();
    let ab = m.adj_a_b();
    let dc = m.adj_d_c();
    assert(s.x == m00 * m11 - m01 * m10);
    assert(s.y == m02 * m13 - m03 * m12);
    assert(s.z == m20 * m31 - m21 * m30);
    assert(s.w == m22 * m33 - m23 * m32);
    assert(ab.x == m11 * m20 - m10 * m21);
    assert(ab.y == m00 * m21 - m01 * m20);
    assert(ab.z == m11 * m30 - m10 * m31);
    assert(ab.w == m00 * m31 - m01 * m30);
    assert(dc.x == m33 * m02 - m32 * m03);
    assert(dc.y == m22 * m03 - m23 * m02);
    assert(dc.z == m33 * m12 - m32 * m13);
    assert(dc.w == m22 * m13 - m23 * m12);
    assert(m.block_trace() == ab.x * dc.x + ab.y * dc.z + ab.z * dc.y + ab.w * dc.w);
    assert(m.det_spec() == s.x * s.w + s.z * s.y - m.block_trace());
    lemma_product_of_differences(m00 * m11, m01 * m10, m22 * m33, m23 * m32);
    lemma_product_of_differences(m20 * m31, m21 * m30, m02 * m13, m03 * m12);
    assert((m20 * m31) * (m02 * m13) == (m02 * m13) * (m20 * m31)) by (nonlinear_arith);
    assert((m20 * m31) * (m03 * m12) == (m03 * m12) * (m20 * m31)) by (nonlinear_arith);
    assert((m21 * m30) * (m02 * m13) == (m02 * m13) * (m21 * m30)) by (nonlinear_arith);
    assert((m21 * m30) * (m03 * m12) == (m03 * m12) * (m21 * m30)) by (nonlinear_arith);
    lemma_product_of_differences(m11 * m20, m10 * m21, m33 * m02, m32 * m03);
    assert((m11 * m20) * (m33 * m02) == (m02 * m11) * (m20 * m33)) by (nonlinear_arith);
    assert((m11 * m20) * (m32 * m03) == (m03 * m11) * (m20 * m32)) by (nonlinear_arith);
    assert((m10 * m21) * (m33 * m02) == (m02 * m10) * (m21 * m33)) by (nonlinear_arith);
    assert((m10 * m21) * (m32 * m03) == (m03 * m10) * (m21 * m32)) by (nonlinear_arith);
    lemma_product_of_differences(m00 * m21, m01 * m20, m33 * m12, m32 * m13);
    assert((m00 * m21) * (m33 * m12) == (m00 * m12) * (m21 * m33)) by (nonlinear_arith);
    assert((m00 * m21) * (m32 * m13) == (m00 * m13) * (m21 * m32)) by (nonlinear_arith);
    assert((m01 * m20) * (m33 * m12) == (m01 * m12) * (m20 * m33)) by (nonlinear_arith);
    assert((m01 * m20) * (m32 * m13) == (m01 * m13) * (m20 * m32)) by (nonlinear_arith);
    lemma_product_of_differences(m11 * m30, m10 * m31, m22 * m03, m23 * m02);
    assert((m11 * m30) * (m22 * m03) == (m03 * m11) * (m22 * m30)) by (nonlinear_arith);
    assert((m11 * m30) * (m23 * m02) == (m02 * m11) * (m23 * m30)) by (nonlinear_arith);
    assert((m10 * m31) * (m22 * m03) == (m03 * m10) * (m22 * m31)) by (nonlinear_arith);
    assert((m10 * m31) * (m23 * m02) == (m02 * m10) * (m23 * m31)) by (nonlinear_arith);
    lemma_product_of_differences(m00 * m31, m01 * m30, m22 * m13, m23 * m12);
    assert((m00 * m31) * (m22 * m13) == (m00 * m13) * (m22 * m31)) by (nonlinear_arith);
    assert((m00 * m31) * (m23 * m12) == (m00 * m12) * (m23 * m31)) by (nonlinear_arith);
    assert((m01 * m30) * (m22 * m13) == (m01 * m13) * (m22 * m30)) by (nonlinear_arith);
    assert((m01 * m30) * (m23 * m12) == (m01 * m12) * (m23 * m30)) by (nonlinear_arith);
}

/// Row 0 of the matrix against column 0 of its adjugate is the determinant.
pub(crate) proof fn lemma_adjugate_00(m: Matrix<i64>)
    requires
        m.det_req(),
        m.cofactors_req(),
    ensures
        m.cofactors_x().w * m.r0.x + m.cofactors_y().w * m.r0.z
            - m.cofactors_x().z * m.r0.y - m.cofactors_y().z * m.r0.w == leibniz(m),
{
    let (m00, m01, m02, m03) = (m.r0.x as int, m.r0.y as int, m.r0.z as int, m.r0.w as int);
    let (m10, m11, m12, m13) = (m.r1.x as int, m.r1.y as int, m.r1.z as int, m.r1.w as int);
    let (m20, m21, m22, m23) = (m.r2.x as int, m.r2.y as int, m.r2.z as int, m.r2.w as int);
    let (m30, m31, m32, m33) = (m.r3.x as int, m.r3.y as int, m.r3.z as int, m.r3.w as int);
    assert(m.cofactors_x().w == (m22 * m33 - m23 * m32) * m11
        - (m31 * (m22 * m13 - m23 * m12) + m21 * (m33 * m12 - m32 * m13)));
    lemma_lane_of_product(
        m22 * m33, m23 * m32, m11,
        m31, m22 * m13, m23 * m12,
        m21, m33 * m12, m32 * m13,
        m00,
    );
    assert(((m22 * m33) * m11) * m00 == (m00 * m11) * (m22 * m33)) by (nonlinear_arith);
    assert(((m23 * m32) * m11) * m00 == (m00 * m11) * (m23 * m32)) by (nonlinear_arith);
    assert((m31 * (m22 * m13)) * m00 == (m00 * m13) * (m22 * m31)) by (nonlinear_arith);
    assert((m31 * (m23 * m12)) * m00 == (m00 * m12) * (m23 * m31)) by (nonlinear_arith);
    assert((m21 * (m33 * m12)) * m00 == (m00 * m12) * (m21 * m33)) by (nonlinear_arith);
    assert((m21 * (m32 * m13)) * m00 == (m00 * m13) * (m21 * m32)) by (nonlinear_arith);
    assert(m.cofactors_x().z == (m22 * m33 - m23 * m32) * m10
        - (m30 * (m22 * m13 - m23 * m12) + m20 * (m33 * m12 - m32 * m13)));
    lemma_lane_of_product(
        m22 * m33, m23 * m32, m10,
        m30, m22 * m13, m23 * m12,
        m20, m33 * m12, m32 * m13,
        m01,
    );
    assert(((m22 * m33) * m10) * m01 == (m01 * m10) * (m22 * m33)) by (nonlinear_arith);
    assert(((m23 * m32) * m10) * m01 == (m01 * m10) * (m23 * m32)) by (nonlinear_arith);
    assert((m30 * (m22 * m13)) * m01 == (m01 * m13) * (m22 * m30)) by (nonlinear_arith);
    assert((m30 * (m23 * m12)) * m01 == (m01 * m12) * (m23 * m30)) by (nonlinear_arith);
    assert((m20 * (m33 * m12)) * m01 == (m01 * m12) * (m20 * m33)) by (nonlinear_arith);
    assert((m20 * (m32 * m13)) * m01 == (m01 * m13) * (m20 * m32)) by (nonlinear_arith);
    assert(m.cofactors_y().w == (m20 * m31 - m21 * m30) * m13
        - (m33 * (m11 * m20 - m10 * m21) - m23 * (m11 * m30 - m10 * m31)));
    lemma_lane_of_adjugate_product(
        m20 * m31, m21 * m30, m13,
        m33, m11 * m20, m10 * m21,
        m23, m11 * m30, m10 * m31,
        m02,
    );
    assert(((m20 * m31) * m13) * m02 == (m02 * m13) * (m20 * m31)) by (nonlinear_arith);
    assert(((m21 * m30) * m13) * m02 == (m02 * m13) * (m21 * m30)) by (nonlinear_arith);
    assert((m33 * (m11 * m20)) * m02 == (m02 * m11) * (m20 * m33)) by (nonlinear_arith);
    assert((m33 * (m10 * m21)) * m02 == (m02 * m10) * (m21 * m33)) by (nonlinear_arith);
    assert((m23 * (m11 * m30)) * m02 == (m02 * m11) * (m23 * m30)) by (nonlinear_arith);
    assert((m23 * (m10 * m31)) * m02 == (m02 * m10) * (m23 * m31)) by (nonlinear_arith);
    assert(m.cofactors_y().z == (m20 * m31 - m21 * m30) * m12
        - (m32 * (m11 * m20 - m10 * m21) - m22 * (m11 * m30 - m10 * m31)));
    lemma_lane_of_adjugate_product(
        m20 * m31, m21 * m30, m12,
        m32, m11 * m20, m10 * m21,
        m22, m11 * m30, m10 * m31,
        m03,
    );
    assert(((m20 * m31) * m12) * m03 == (m03 * m12) * (m20 * m31)) by (nonlinear_arith);
    assert(((m21 * m30) * m12) * m03 == (m03 * m12) * (m21 * m30)) by (nonlinear_arith);
    assert((m32 * (m11 * m20)) * m03 == (m03 * m11) * (m20 * m32)) by (nonlinear_arith);
    assert((m32 * (m10 * m21)) * m03 == (m03 * m10) * (m21 * m32)) by (nonlinear_arith);
    assert((m22 * (m11 * m30)) * m03 == (m03 * m11) * (m22 * m30)) by (nonlinear_arith);
    assert((m22 * (m10 * m31)) * m03 == (m03 * m10) * (m22 * m31)) by (nonlinear_arith);
}

/// Row 0 of the matrix against column 1 of its adjugate is zero.
pub(crate) proof fn lemma_adjugate_01(m: Matrix<i64>)
    requires
        m.det_req(),
        m.cofactors_req(),
    ensures
        m.cofactors_x().x * m.r0.y + m.cofactors_y().x * m.r0.w
            - m.cofactors_x().y * m.r0.x - m.cofactors_y().y * m.r0.z == 0,
{
    let (m00, m01, m02, m03) = (m.r0.x as int, m.r0.y as int, m.r0.z as int, m.r0.w as int);
    let (m10, m11, m12, m13) = (m.r1.x as int, m.r1.y as int, m.r1.z as int, m.r1.w as int);
    let (m20, m21, m22, m23) = (m.r2.x as int, m.r2.y as int, m.r2.z as int, m.r2.w as int);
    let (m30, m31, m32, m33) = (m.r3.x as int, m.r3.y as int, m.r3.z as int, m.r3.w as int);
    assert(m.cofactors_x().y == (m22 * m33 - m23 * m32) * m01
        - (m21 * (m33 * m02 - m32 * m03) + m31 * (m22 * m03 - m23 * m02)));
    lemma_lane_of_product(
        m22 * m33, m23 * m32, m01,
        m21, m33 * m02, m32 * m03,
        m31, m22 * m03, m23 * m02,
        m00,
    );
    assert(((m22 * m33) * m01) * m00 == (m00 * m01) * (m22 * m33)) by (nonlinear_arith);
    assert(((m23 * m32) * m01) * m00 == (m00 * m01) * (m23 * m32)) by (nonlinear_arith);
    assert((m21 * (m33 * m02)) * m00 == (m00 * m02) * (m21 * m33)) by (nonlinear_arith);
    assert((m21 * (m32 * m03)) * m00 == (m00 * m03) * (m21 * m32)) by (nonlinear_arith);
    assert((m31 * (m22 * m03)) * m00 == (m00 * m03) * (m22 * m31)) by (nonlinear_arith);
    assert((m31 * (m23 * m02)) * m00 == (m00 * m02) * (m23 * m31)) by (nonlinear_arith);
    assert(m.cofactors_x().x == (m22 * m33 - m23 * m32) * m00
        - (m20 * (m33 * m02 - m32 * m03) + m30 * (m22 * m03 - m23 * m02)));
    lemma_lane_of_product(
        m22 * m33, m23 * m32, m00,
        m20, m33 * m02, m32 * m03,
        m30, m22 * m03, m23 * m02,
        m01,
    );
    assert(((m22 * m33) * m00) * m01 == (m00 * m01) * (m22 * m33)) by (nonlinear_arith);
    assert(((m23 * m32) * m00) * m01 == (m00 * m01) * (m23 * m32)) by (nonlinear_arith);
    assert((m20 * (m33 * m02)) * m01 == (m01 * m02) * (m20 * m33)) by (nonlinear_arith);
    assert((m20 * (m32 * m03)) * m01 == (m01 * m03) * (m20 * m32)) by (nonlinear_arith);
    assert((m30 * (m22 * m03)) * m01 == (m01 * m03) * (m22 * m30)) by (nonlinear_arith);
    assert((m30 * (m23 * m02)) * m01 == (m01 * m02) * (m23 * m30)) by (nonlinear_arith);
    assert(m.cofactors_y().y == (m20 * m31 - m21 * m30) * m03
        - (m23 * (m00 * m31 - m01 * m30) - m33 * (m00 * m21 - m01 * m20)));
    lemma_lane_of_adjugate_product(
        m20 * m31, m21 * m30, m03,
        m23, m00 * m31, m01 * m30,
        m33, m00 * m21, m01 * m20,
        m02,
    );
    assert(((m20 * m31) * m03) * m02 == (m02 * m03) * (m20 * m31)) by (nonlinear_arith);
    assert(((m21 * m30) * m03) * m02 == (m02 * m03) * (m21 * m30)) by (nonlinear_arith);
    assert((m23 * (m00 * m31)) * m02 == (m00 * m02) * (m23 * m31)) by (nonlinear_arith);
    assert((m23 * (m01 * m30)) * m02 == (m01 * m02) * (m23 * m30)) by (nonlinear_arith);
    assert((m33 * (m00 * m21)) * m02 == (m00 * m02) * (m21 * m33)) by (nonlinear_arith);
    assert((m33 * (m01 * m20)) * m02 == (m01 * m02) * (m20 * m33)) by (nonlinear_arith);
    assert(m.cofactors_y().x == (m20 * m31 - m21 * m30) * m02
        - (m22 * (m00 * m31 - m01 * m30) - m32 * (m00 * m21 - m01 * m20)));
    lemma_lane_of_adjugate_product(
        m20 * m31, m21 * m30, m02,
        m22, m00 * m31, m01 * m30,
        m32, m00 * m21, m01 * m20,
        m03,
    );
    assert(((m20 * m31) * m02) * m03 == (m02 * m03) * (m20 * m31)) by (nonlinear_arith);
    assert(((m21 * m30) * m02) * m03 == (m02 * m03) * (m21 * m30)) by (nonlinear_arith);
    assert((m22 * (m00 * m31)) * m03 == (m00 * m03) * (m22 * m31)) by (nonlinear_arith);
    assert((m22 * (m01 * m30)) * m03 == (m01 * m03) * (m22 * m30)) by (nonlinear_arith);
    assert((m32 * (m00 * m21)) * m03 == (m00 * m03) * (m21 * m32)) by (nonlinear_arith);
    assert((m32 * (m01 * m20)) * m03 == (m01 * m03) * (m20 * m32)) by (nonlinear_arith);
}

/// Row 0 of the matrix against column 2 of its adjugate is zero.
pub(crate) proof fn lemma_adjugate_02(m: Matrix<i64>)
    requires
        m.det_req(),
        m.cofactors_req(),
    ensures
        m.cofactors_z().w * m.r0.x + m.cofactors_w().w * m.r0.z
            - m.cofactors_z().z * m.r0.y - m.cofactors_w().z * m.r0.w == 0,
{
    let (m00, m01, m02, m03) = (m.r0.x as int, m.r0.y as int, m.r0.z as int, m.r0.w as int);
    let (m10, m11, m12, m13) = (m.r1.x as int, m.r1.y as int, m.r1.z as int, m.r1.w as int);
    let (m20, m21, m22, m23) = (m.r2.x as int, m.r2.y as int, m.r2.z as int, m.r2.w as int);
    let (m30, m31, m32, m33) = (m.r3.x as int, m.r3.y as int, m.r3.z as int, m.r3.w as int);
    assert(m.cofactors_z().w == (m02 * m13 - m03 * m12) * m31
        - (m11 * (m33 * m02 - m32 * m03) - m01 * (m33 * m12 - m32 * m13)));
    lemma_lane_of_adjugate_product(
        m02 * m13, m03 * m12, m31,
        m11, m33 * m02, m32 * m03,
        m01, m33 * m12, m32 * m13,
        m00,
    );
    assert(((m02 * m13) * m31) * m00 == (m00 * m02) * (m13 * m31)) by (nonlinear_arith);
    assert(((m03 * m12) * m31) * m00 == (m00 * m03) * (m12 * m31)) by (nonlinear_arith);
    assert((m11 * (m33 * m02)) * m00 == (m00 * m02) * (m11 * m33)) by (nonlinear_arith);
    assert((m11 * (m32 * m03)) * m00 == (m00 * m03) * (m11 * m32)) by (nonlinear_arith);
    assert((m01 * (m33 * m12)) * m00 == (m00 * m01) * (m12 * m33)) by (nonlinear_arith);
    assert((m01 * (m32 * m13)) * m00 == (m00 * m01) * (m13 * m32)) by (nonlinear_arith);
    assert(m.cofactors_z().z == (m02 * m13 - m03 * m12) * m30
        - (m10 * (m33 * m02 - m32 * m03) - m00 * (m33 * m12 - m32 * m13)));
    lemma_lane_of_adjugate_product(
        m02 * m13, m03 * m12, m30,
        m10, m33 * m02, m32 * m03,
        m00, m33 * m12, m32 * m13,
        m01,
    );
    assert(((m02 * m13) * m30) * m01 == (m01 * m02) * (m13 * m30)) by (nonlinear_arith);
    assert(((m03 * m12) * m30) * m01 == (m01 * m03) * (m12 * m30)) by (nonlinear_arith);
    assert((m10 * (m33 * m02)) * m01 == (m01 * m02) * (m10 * m33)) by (nonlinear_arith);
    assert((m10 * (m32 * m03)) * m01 == (m01 * m03) * (m10 * m32)) by (nonlinear_arith);
    assert((m00 * (m33 * m12)) * m01 == (m00 * m01) * (m12 * m33)) by (nonlinear_arith);
    assert((m00 * (m32 * m13)) * m01 == (m00 * m01) * (m13 * m32)) by (nonlinear_arith);
    assert(m.cofactors_w().w == (m00 * m11 - m01 * m10) * m33
        - (m13 * (m00 * m31 - m01 * m30) + m03 * (m11 * m30 - m10 * m31)));
    lemma_lane_of_product(
        m00 * m11, m01 * m10, m33,
        m13, m00 * m31, m01 * m30,
        m03, m11 * m30, m10 * m31,
        m02,
    );
    assert(((m00 * m11) * m33) * m02 == (m00 * m02) * (m11 * m33)) by (nonlinear_arith);
    assert(((m01 * m10) * m33) * m02 == (m01 * m02) * (m10 * m33)) by (nonlinear_arith);
    assert((m13 * (m00 * m31)) * m02 == (m00 * m02) * (m13 * m31)) by (nonlinear_arith);
    assert((m13 * (m01 * m30)) * m02 == (m01 * m02) * (m13 * m30)) by (nonlinear_arith);
    assert((m03 * (m11 * m30)) * m02 == (m02 * m03) * (m11 * m30)) by (nonlinear_arith);
    assert((m03 * (m10 * m31)) * m02 == (m02 * m03) * (m10 * m31)) by (nonlinear_arith);
    assert(m.cofactors_w().z == (m00 * m11 - m01 * m10) * m32
        - (m12 * (m00 * m31 - m01 * m30) + m02 * (m11 * m30 - m10 * m31)));
    lemma_lane_of_product(
        m00 * m11, m01 * m10, m32,
        m12, m00 * m31, m01 * m30,
        m02, m11 * m30, m10 * m31,
        m03,
    );
    assert(((m00 * m11) * m32) * m03 == (m00 * m03) * (m11 * m32)) by (nonlinear_arith);
    assert(((m01 * m10) * m32) * m03 == (m01 * m03) * (m10 * m32)) by (nonlinear_arith);
    assert((m12 * (m00 * m31)) * m03 == (m00 * m03) * (m12 * m31)) by (nonlinear_arith);
    assert((m12 * (m01 * m30)) * m03 == (m01 * m03) * (m12 * m30)) by (nonlinear_arith);
    assert((m02 * (m11 * m30)) * m03 == (m02 * m03) * (m11 * m30)) by (nonlinear_arith);
    assert((m02 * (m10 * m31)) * m03 == (m02 * m03) * (m10 * m31)) by (nonlinear_arith);
}

/// Row 0 of the matrix against column 3 of its adjugate is zero.
pub(crate) proof fn lemma_adjugate_03(m: Matrix<i64>)
    requires
        m.det_req(),
        m.cofactors_req(),
    ensures
        m.cofactors_z().x * m.r0.y + m.cofactors_w().x * m.r0.w
            - m.cofactors_z().y * m.r0.x - m.cofactors_w().y * m.r0.z == 0,
{
    let (m00, m01, m02, m03) = (m.r0.x as int, m.r0.y as int, m.r0.z as int, m.r0.w as int);
    let (m10, m11, m12, m13) = (m.r1.x as int, m.r1.y as int, m.r1.z as int, m.r1.w as int);
    let (m20, m21, m22, m23) = (m.r2.x as int, m.r2.y as int, m.r2.z as int, m.r2.w as int);
    let (m30, m31, m32, m33) = (m.r3.x as int, m.r3.y as int, m.r3.z as int, m.r3.w as int);
    assert(m.cofactors_z().y == (m02 * m13 - m03 * m12) * m21
        - (m01 * (m22 * m13 - m23 * m12) - m11 * (m22 * m03 - m23 * m02)));
    lemma_lane_of_adjugate_product(
        m02 * m13, m03 * m12, m21,
        m01, m22 * m13, m23 * m12,
        m11, m22 * m03, m23 * m02,
        m00,
    );
    assert(((m02 * m13) * m21) * m00 == (m00 * m02) * (m13 * m21)) by (nonlinear_arith);
    assert(((m03 * m12) * m21) * m00 == (m00 * m03) * (m12 * m21)) by (nonlinear_arith);
    assert((m01 * (m22 * m13)) * m00 == (m00 * m01) * (m13 * m22)) by (nonlinear_arith);
    assert((m01 * (m23 * m12)) * m00 == (m00 * m01) * (m12 * m23)) by (nonlinear_arith);
    assert((m11 * (m22 * m03)) * m00 == (m00 * m03) * (m11 * m22)) by (nonlinear_arith);
    assert((m11 * (m23 * m02)) * m00 == (m00 * m02) * (m11 * m23)) by (nonlinear_arith);
    assert(m.cofactors_z().x == (m02 * m13 - m03 * m12) * m20
        - (m00 * (m22 * m13 - m23 * m12) - m10 * (m22 * m03 - m23 * m02)));
    lemma_lane_of_adjugate_product(
        m02 * m13, m03 * m12, m20,
        m00, m22 * m13, m23 * m12,
        m10, m22 * m03, m23 * m02,
        m01,
    );
    assert(((m02 * m13) * m20) * m01 == (m01 * m02) * (m13 * m20)) by (nonlinear_arith);
    assert(((m03 * m12) * m20) * m01 == (m01 * m03) * (m12 * m20)) by (nonlinear_arith);
    assert((m00 * (m22 * m13)) * m01 == (m00 * m01) * (m13 * m22)) by (nonlinear_arith);
    assert((m00 * (m23 * m12)) * m01 == (m00 * m01) * (m12 * m23)) by (nonlinear_arith);
    assert((m10 * (m22 * m03)) * m01 == (m01 * m03) * (m10 * m22)) by (nonlinear_arith);
    assert((m10 * (m23 * m02)) * m01 == (m01 * m02) * (m10 * m23)) by (nonlinear_arith);
    assert(m.cofactors_w().y == (m00 * m11 - m01 * m10) * m23
        - (m03 * (m11 * m20 - m10 * m21) + m13 * (m00 * m21 - m01 * m20)));
    lemma_lane_of_product(
        m00 * m11, m01 * m10, m23,
        m03, m11 * m20, m10 * m21,
        m13, m00 * m21, m01 * m20,
        m02,
    );
    assert(((m00 * m11) * m23) * m02 == (m00 * m02) * (m11 * m23)) by (nonlinear_arith);
    assert(((m01 * m10) * m23) * m02 == (m01 * m02) * (m10 * m23)) by (nonlinear_arith);
    assert((m03 * (m11 * m20)) * m02 == (m02 * m03) * (m11 * m20)) by (nonlinear_arith);
    assert((m03 * (m10 * m21)) * m02 == (m02 * m03) * (m10 * m21)) by (nonlinear_arith);
    assert((m13 * (m00 * m21)) * m02 == (m00 * m02) * (m13 * m21)) by (nonlinear_arith);
    assert((m13 * (m01 * m20)) * m02 == (m01 * m02) * (m13 * m20)) by (nonlinear_arith);
    assert(m.cofactors_w().x == (m00 * m11 - m01 * m10) * m22
        - (m02 * (m11 * m20 - m10 * m21) + m12 * (m00 * m21 - m01 * m20)));
    lemma_lane_of_product(
        m00 * m11, m01 * m10, m22,
        m02, m11 * m20, m10 * m21,
        m12, m00 * m21, m01 * m20,
        m03,
    );
    assert(((m00 * m11) * m22) * m03 == (m00 * m03) * (m11 * m22)) by (nonlinear_arith);
    assert(((m01 * m10) * m22) * m03 == (m01 * m03) * (m10 * m22)) by (nonlinear_arith);
    assert((m02 * (m11 * m20)) * m03 == (m02 * m03) * (m11 * m20)) by (nonlinear_arith);
    assert((m02 * (m10 * m21)) * m03 == (m02 * m03) * (m10 * m21)) by (nonlinear_arith);
    assert((m12 * (m00 * m21)) * m03 == (m00 * m03) * (m12 * m21)) by (nonlinear_arith);
    assert((m12 * (m01 * m20)) * m03 == (m01 * m03) * (m12 * m20)) by (nonlinear_arith);
}

/// Row 1 of the matrix against column 0 of its adjugate is zero.
pub(crate) proof fn lemma_adjugate_10(m: Matrix<i64>)
    requires
        m.det_req(),
        m.cofactors_req(),
    ensures
        m.cofactors_x().w * m.r1.x + m.cofactors_y().w * m.r1.z
            - m.cofactors_x().z * m.r1.y - m.cofactors_y().z * m.r1.w == 0,
{
    let (m00, m01, m02, m03) = (m.r0.x as int, m.r0.y as int, m.r0.z as int, m.r0.w as int);
    let (m10, m11, m12, m13) = (m.r1.x as int, m.r1.y as int, m.r1.z as int, m.r1.w as int);
    let (m20, m21, m22, m23) = (m.r2.x as int, m.r2.y as int, m.r2.z as int, m.r2.w as int);
    let (m30, m31, m32, m33) = (m.r3.x as int, m.r3.y as int, m.r3.z as int, m.r3.w as int);
    assert(m.cofactors_x().w == (m22 * m33 - m23 * m32) * m11
        - (m31 * (m22 * m13 - m23 * m12) + m21 * (m33 * m12 - m32 * m13)));
    lemma_lane_of_product(
        m22 * m33, m23 * m32, m11,
        m31, m22 * m13, m23 * m12,
        m21, m33 * m12, m32 * m13,
        m10,
    );
    assert(((m22 * m33) * m11) * m10 == (m10 * m11) * (m22 * m33)) by (nonlinear_arith);
    assert(((m23 * m32) * m11) * m10 == (m10 * m11) * (m23 * m32)) by (nonlinear_arith);
    assert((m31 * (m22 * m13)) * m10 == (m10 * m13) * (m22 * m31)) by (nonlinear_arith);
    assert((m31 * (m23 * m12)) * m10 == (m10 * m12) * (m23 * m31)) by (nonlinear_arith);
    assert((m21 * (m33 * m12)) * m10 == (m10 * m12) * (m21 * m33)) by (nonlinear_arith);
    assert((m21 * (m32 * m13)) * m10 == (m10 * m13) * (m21 * m32)) by (nonlinear_arith);
    assert(m.cofactors_x().z == (m22 * m33 - m23 * m32) * m10
        - (m30 * (m22 * m13 - m23 * m12) + m20 * (m33 * m12 - m32 * m13)));
    lemma_lane_of_product(
        m22 * m33, m23 * m32, m10,
        m30, m22 * m13, m23 * m12,
        m20, m33 * m12, m32 * m13,
        m11,
    );
    assert(((m22 * m33) * m10) * m11 == (m10 * m11) * (m22 * m33)) by (nonlinear_arith);
    assert(((m23 * m32) * m10) * m11 == (m10 * m11) * (m23 * m32)) by (nonlinear_arith);
    assert((m30 * (m22 * m13)) * m11 == (m11 * m13) * (m22 * m30)) by (nonlinear_arith);
    assert((m30 * (m23 * m12)) * m11 == (m11 * m12) * (m23 * m30)) by (nonlinear_arith);
    assert((m20 * (m33 * m12)) * m11 == (m11 * m12) * (m20 * m33)) by (nonlinear_arith);
    assert((m20 * (m32 * m13)) * m11 == (m11 * m13) * (m20 * m32)) by (nonlinear_arith);
    assert(m.cofactors_y().w == (m20 * m31 - m21 * m30) * m13
        - (m33 * (m11 * m20 - m10 * m21) - m23 * (m11 * m30 - m10 * m31)));
    lemma_lane_of_adjugate_product(
        m20 * m31, m21 * m30, m13,
        m33, m11 * m20, m10 * m21,
        m23, m11 * m30, m10 * m31,
        m12,
    );
    assert(((m20 * m31) * m13) * m12 == (m12 * m13) * (m20 * m31)) by (nonlinear_arith);
    assert(((m21 * m30) * m13) * m12 == (m12 * m13) * (m21 * m30)) by (nonlinear_arith);
    assert((m33 * (m11 * m20)) * m12 == (m11 * m12) * (m20 * m33)) by (nonlinear_arith);
    assert((m33 * (m10 * m21)) * m12 == (m10 * m12) * (m21 * m33)) by (nonlinear_arith);
    assert((m23 * (m11 * m30)) * m12 == (m11 * m12) * (m23 * m30)) by (nonlinear_arith);
    assert((m23 * (m10 * m31)) * m12 == (m10 * m12) * (m23 * m31)) by (nonlinear_arith);
    assert(m.cofactors_y().z == (m20 * m31 - m21 * m30) * m12
        - (m32 * (m11 * m20 - m10 * m21) - m22 * (m11 * m30 - m10 * m31)));
    lemma_lane_of_adjugate_product(
        m20 * m31, m21 * m30, m12,
        m32, m11 * m20, m10 * m21,
        m22, m11 * m30, m10 * m31,
        m13,
    );
    assert(((m20 * m31) * m12) * m13 == (m12 * m13) * (m20 * m31)) by (nonlinear_arith);
    assert(((m21 * m30) * m12) * m13 == (m12 * m13) * (m21 * m30)) by (nonlinear_arith);
    assert((m32 * (m11 * m20)) * m13 == (m11 * m13) * (m20 * m32)) by (nonlinear_arith);
    assert((m32 * (m10 * m21)) * m13 == (m10 * m13) * (m21 * m32)) by (nonlinear_arith);
    assert((m22 * (m11 * m30)) * m13 == (m11 * m13) * (m22 * m30)) by (nonlinear_arith);
    assert((m22 * (m10 * m31)) * m13 == (m10 * m13) * (m22 * m31)) by (nonlinear_arith);
}

/// Row 1 of the matrix against column 1 of its adjugate is the determinant.
pub(crate) proof fn lemma_adjugate_11(m: Matrix<i64>)
    requires
        m.det_req(),
        m.cofactors_req(),
    ensures
        m.cofactors_x().x * m.r1.y + m.cofactors_y().x * m.r1.w
            - m.cofactors_x().y * m.r1.x - m.cofactors_y().y * m.r1.z == leibniz(m),
{
    let (m00, m01, m02, m03) = (m.r0.x as int, m.r0.y as int, m.r0.z as int, m.r0.w as int);
    let (m10, m11, m12, m13) = (m.r1.x as int, m.r1.y as int, m.r1.z as int, m.r1.w as int);
    let (m20, m21, m22, m23) = (m.r2.x as int, m.r2.y as int, m.r2.z as int, m.r2.w as int);
    let (m30, m31, m32, m33) = (m.r3.x as int, m.r3.y as int, m.r3.z as int, m.r3.w as int);
    assert(m.cofactors_x().y == (m22 * m33 - m23 * m32) * m01
        - (m21 * (m33 * m02 - m32 * m03) + m31 * (m22 * m03 - m23 * m02)));
    lemma_lane_of_product(
        m22 * m33, m23 * m32, m01,
        m21, m33 * m02, m32 * m03,
        m31, m22 * m03, m23 * m02,
        m10,
    );
    assert(((m22 * m33) * m01) * m10 == (m01 * m10) * (m22 * m33)) by (nonlinear_arith);
    assert(((m23 * m32) * m01) * m10 == (m01 * m10) * (m23 * m32)) by (nonlinear_arith);
    assert((m21 * (m33 * m02)) * m10 == (m02 * m10) * (m21 * m33)) by (nonlinear_arith);
    assert((m21 * (m32 * m03)) * m10 == (m03 * m10) * (m21 * m32)) by (nonlinear_arith);
    assert((m31 * (m22 * m03)) * m10 == (m03 * m10) * (m22 * m31)) by (nonlinear_arith);
    assert((m31 * (m23 * m02)) * m10 == (m02 * m10) * (m23 * m31)) by (nonlinear_arith);
    assert(m.cofactors_x().x == (m22 * m33 - m23 * m32) * m00
        - (m20 * (m33 * m02 - m32 * m03) + m30 * (m22 * m03 - m23 * m02)));
    lemma_lane_of_product(
        m22 * m33, m23 * m32, m00,
        m20, m33 * m02, m32 * m03,
        m30, m22 * m03, m23 * m02,
        m11,
    );
    assert(((m22 * m33) * m00) * m11 == (m00 * m11) * (m22 * m33)) by (nonlinear_arith);
    assert(((m23 * m32) * m00) * m11 == (m00 * m11) * (m23 * m32)) by (nonlinear_arith);
    assert((m20 * (m33 * m02)) * m11 == (m02 * m11) * (m20 * m33)) by (nonlinear_arith);
    assert((m20 * (m32 * m03)) * m11 == (m03 * m11) * (m20 * m32)) by (nonlinear_arith);
    assert((m30 * (m22 * m03)) * m11 == (m03 * m11) * (m22 * m30)) by (nonlinear_arith);
    assert((m30 * (m23 * m02)) * m11 == (m02 * m11) * (m23 * m30)) by (nonlinear_arith);
    assert(m.cofactors_y().y == (m20 * m31 - m21 * m30) * m03
        - (m23 * (m00 * m31 - m01 * m30) - m33 * (m00 * m21 - m01 * m20)));
    lemma_lane_of_adjugate_product(
        m20 * m31, m21 * m30, m03,
        m23, m00 * m31, m01 * m30,
        m33, m00 * m21, m01 * m20,
        m12,
    );
    assert(((m20 * m31) * m03) * m12 == (m03 * m12) * (m20 * m31)) by (nonlinear_arith);
    assert(((m21 * m30) * m03) * m12 == (m03 * m12) * (m21 * m30)) by (nonlinear_arith);
    assert((m23 * (m00 * m31)) * m12 == (m00 * m12) * (m23 * m31)) by (nonlinear_arith);
    assert((m23 * (m01 * m30)) * m12 == (m01 * m12) * (m23 * m30)) by (nonlinear_arith);
    assert((m33 * (m00 * m21)) * m12 == (m00 * m12) * (m21 * m33)) by (nonlinear_arith);
    assert((m33 * (m01 * m20)) * m12 == (m01 * m12) * (m20 * m33)) by (nonlinear_arith);
    assert(m.cofactors_y().x == (m20 * m31 - m21 * m30) * m02
        - (m22 * (m00 * m31 - m01 * m30) - m32 * (m00 * m21 - m01 * m20)));
    lemma_lane_of_adjugate_product(
        m20 * m31, m21 * m30, m02,
        m22, m00 * m31, m01 * m30,
        m32, m00 * m21, m01 * m20,
        m13,
    );
    assert(((m20 * m31) * m02) * m13 == (m02 * m13) * (m20 * m31)) by (nonlinear_arith);
    assert(((m21 * m30) * m02) * m13 == (m02 * m13) * (m21 * m30)) by (nonlinear_arith);
    assert((m22 * (m00 * m31)) * m13 == (m00 * m13) * (m22 * m31)) by (nonlinear_arith);
    assert((m22 * (m01 * m30)) * m13 == (m01 * m13) * (m22 * m30)) by (nonlinear_arith);
    assert((m32 * (m00 * m21)) * m13 == (m00 * m13) * (m21 * m32)) by (nonlinear_arith);
    assert((m32 * (m01 * m20)) * m13 == (m01 * m13) * (m20 * m32)) by (nonlinear_arith);
}

/// Row 1 of the matrix against column 2 of its adjugate is zero.
pub(crate) proof fn lemma_adjugate_12(m: Matrix<i64>)
    requires
        m.det_req(),
        m.cofactors_req(),
    ensures
        m.cofactors_z().w * m.r1.x + m.cofactors_w().w * m.r1.z
            - m.cofactors_z().z * m.r1.y - m.cofactors_w().z * m.r1.w == 0,
{
    let (m00, m01, m02, m03) = (m.r0.x as int, m.r0.y as int, m.r0.z as int, m.r0.w as int);
    let (m10, m11, m12, m13) = (m.r1.x as int, m.r1.y as int, m.r1.z as int, m.r1.w as int);
    let (m20, m21, m22, m23) = (m.r2.x as int, m.r2.y as int, m.r2.z as int, m.r2.w as int);
    let (m30, m31, m32, m33) = (m.r3.x as int, m.r3.y as int, m.r3.z as int, m.r3.w as int);
    assert(m.cofactors_z().w == (m02 * m13 - m03 * m12) * m31
        - (m11 * (m33 * m02 - m32 * m03) - m01 * (m33 * m12 - m32 * m13)));
    lemma_lane_of_adjugate_product(
        m02 * m13, m03 * m12, m31,
        m11, m33 * m02, m32 * m03,
        m01, m33 * m12, m32 * m13,
        m10,
    );
    assert(((m02 * m13) * m31) * m10 == (m02 * m10) * (m13 * m31)) by (nonlinear_arith);
    assert(((m03 * m12) * m31) * m10 == (m03 * m10) * (m12 * m31)) by (nonlinear_arith);
    assert((m11 * (m33 * m02)) * m10 == (m02 * m10) * (m11 * m33)) by (nonlinear_arith);
    assert((m11 * (m32 * m03)) * m10 == (m03 * m10) * (m11 * m32)) by (nonlinear_arith);
    assert((m01 * (m33 * m12)) * m10 == (m01 * m10) * (m12 * m33)) by (nonlinear_arith);
    assert((m01 * (m32 * m13)) * m10 == (m01 * m10) * (m13 * m32)) by (nonlinear_arith);
    assert(m.cofactors_z().z == (m02 * m13 - m03 * m12) * m30
        - (m10 * (m33 * m02 - m32 * m03) - m00 * (m33 * m12 - m32 * m13)));
    lemma_lane_of_adjugate_product(
        m02 * m13, m03 * m12, m30,
        m10, m33 * m02, m32 * m03,
        m00, m33 * m12, m32 * m13,
        m11,
    );
    assert(((m02 * m13) * m30) * m11 == (m02 * m11) * (m13 * m30)) by (nonlinear_arith);
    assert(((m03 * m12) * m30) * m11 == (m03 * m11) * (m12 * m30)) by (nonlinear_arith);
    assert((m10 * (m33 * m02)) * m11 == (m02 * m10) * (m11 * m33)) by (nonlinear_arith);
    assert((m10 * (m32 * m03)) * m11 == (m03 * m10) * (m11 * m32)) by (nonlinear_arith);
    assert((m00 * (m33 * m12)) * m11 == (m00 * m11) * (m12 * m33)) by (nonlinear_arith);
    assert((m00 * (m32 * m13)) * m11 == (m00 * m11) * (m13 * m32)) by (nonlinear_arith);
    assert(m.cofactors_w().w == (m00 * m11 - m01 * m10) * m33
        - (m13 * (m00 * m31 - m01 * m30) + m03 * (m11 * m30 - m10 * m31)));
    lemma_lane_of_product(
        m00 * m11, m01 * m10, m33,
        m13, m00 * m31, m01 * m30,
        m03, m11 * m30, m10 * m31,
        m12,
    );
    assert(((m00 * m11) * m33) * m12 == (m00 * m11) * (m12 * m33)) by (nonlinear_arith);
    assert(((m01 * m10) * m33) * m12 == (m01 * m10) * (m12 * m33)) by (nonlinear_arith);
    assert((m13 * (m00 * m31)) * m12 == (m00 * m12) * (m13 * m31)) by (nonlinear_arith);
    assert((m13 * (m01 * m30)) * m12 == (m01 * m12) * (m13 * m30)) by (nonlinear_arith);
    assert((m03 * (m11 * m30)) * m12 == (m03 * m11) * (m12 * m30)) by (nonlinear_arith);
    assert((m03 * (m10 * m31)) * m12 == (m03 * m10) * (m12 * m31)) by (nonlinear_arith);
    assert(m.cofactors_w().z == (m00 * m11 - m01 * m10) * m32
        - (m12 * (m00 * m31 - m01 * m30) + m02 * (m11 * m30 - m10 * m31)));
    lemma_lane_of_product(
        m00 * m11, m01 * m10, m32,
        m12, m00 * m31, m01 * m30,
        m02, m11 * m30, m10 * m31,
        m13,
    );
    assert(((m00 * m11) * m32) * m13 == (m00 * m11) * (m13 * m32)) by (nonlinear_arith);
    assert(((m01 * m10) * m32) * m13 == (m01 * m10) * (m13 * m32)) by (nonlinear_arith);
    assert((m12 * (m00 * m31)) * m13 == (m00 * m12) * (m13 * m31)) by (nonlinear_arith);
    assert((m12 * (m01 * m30)) * m13 == (m01 * m12) * (m13 * m30)) by (nonlinear_arith);
    assert((m02 * (m11 * m30)) * m13 == (m02 * m11) * (m13 * m30)) by (nonlinear_arith);
    assert((m02 * (m10 * m31)) * m13 == (m02 * m10) * (m13 * m31)) by (nonlinear_arith);
}

/// Row 1 of the matrix against column 3 of its adjugate is zero.
pub(crate) proof fn lemma_adjugate_13(m: Matrix<i64>)
    requires
        m.det_req(),
        m.cofactors_req(),
    ensures
        m.cofactors_z().x * m.r1.y + m.cofactors_w().x * m.r1.w
            - m.cofactors_z().y * m.r1.x - m.cofactors_w().y * m.r1.z == 0,
{
    let (m00, m01, m02, m03) = (m.r0.x as int, m.r0.y as int, m.r0.z as int, m.r0.w as int);
    let (m10, m11, m12, m13) = (m.r1.x as int, m.r1.y as int, m.r1.z as int, m.r1.w as int);
    let (m20, m21, m22, m23) = (m.r2.x as int, m.r2.y as int, m.r2.z as int, m.r2.w as int);
    let (m30, m31, m32, m33) = (m.r3.x as int, m.r3.y as int, m.r3.z as int, m.r3.w as int);
    assert(m.cofactors_z().y == (m02 * m13 - m03 * m12) * m21
        - (m01 * (m22 * m13 - m23 * m12) - m11 * (m22 * m03 - m23 * m02)));
    lemma_lane_of_adjugate_product(
        m02 * m13, m03 * m12, m21,
        m01, m22 * m13, m23 * m12,
        m11, m22 * m03, m23 * m02,
        m10,
    );
    assert(((m02 * m13) * m21) * m10 == (m02 * m10) * (m13 * m21)) by (nonlinear_arith);
    assert(((m03 * m12) * m21) * m10 == (m03 * m10) * (m12 * m21)) by (nonlinear_arith);
    assert((m01 * (m22 * m13)) * m10 == (m01 * m10) * (m13 * m22)) by (nonlinear_arith);
    assert((m01 * (m23 * m12)) * m10 == (m01 * m10) * (m12 * m23)) by (nonlinear_arith);
    assert((m11 * (m22 * m03)) * m10 == (m03 * m10) * (m11 * m22)) by (nonlinear_arith);
    assert((m11 * (m23 * m02)) * m10 == (m02 * m10) * (m11 * m23)) by (nonlinear_arith);
    assert(m.cofactors_z().x == (m02 * m13 - m03 * m12) * m20
        - (m00 * (m22 * m13 - m23 * m12) - m10 * (m22 * m03 - m23 * m02)));
    lemma_lane_of_adjugate_product(
        m02 * m13, m03 * m12, m20,
        m00, m22 * m13, m23 * m12,
        m10, m22 * m03, m23 * m02,
        m11,
    );
    assert(((m02 * m13) * m20) * m11 == (m02 * m11) * (m13 * m20)) by (nonlinear_arith);
    assert(((m03 * m12) * m20) * m11 == (m03 * m11) * (m12 * m20)) by (nonlinear_arith);
    assert((m00 * (m22 * m13)) * m11 == (m00 * m11) * (m13 * m22)) by (nonlinear_arith);
    assert((m00 * (m23 * m12)) * m11 == (m00 * m11) * (m12 * m23)) by (nonlinear_arith);
    assert((m10 * (m22 * m03)) * m11 == (m03 * m10) * (m11 * m22)) by (nonlinear_arith);
    assert((m10 * (m23 * m02)) * m11 == (m02 * m10) * (m11 * m23)) by (nonlinear_arith);
    assert(m.cofactors_w().y == (m00 * m11 - m01 * m10) * m23
        - (m03 * (m11 * m20 - m10 * m21) + m13 * (m00 * m21 - m01 * m20)));
    lemma_lane_of_product(
        m00 * m11, m01 * m10, m23,
        m03, m11 * m20, m10 * m21,
        m13, m00 * m21, m01 * m20,
        m12,
    );
    assert(((m00 * m11) * m23) * m12 == (m00 * m11) * (m12 * m23)) by (nonlinear_arith);
    assert(((m01 * m10) * m23) * m12 == (m01 * m10) * (m12 * m23)) by (nonlinear_arith);
    assert((m03 * (m11 * m20)) * m12 == (m03 * m11) * (m12 * m20)) by (nonlinear_arith);
    assert((m03 * (m10 * m21)) * m12 == (m03 * m10) * (m12 * m21)) by (nonlinear_arith);
    assert((m13 * (m00 * m21)) * m12 == (m00 * m12) * (m13 * m21)) by (nonlinear_arith);
    assert((m13 * (m01 * m20)) * m12 == (m01 * m12) * (m13 * m20)) by (nonlinear_arith);
    assert(m.cofactors_w().x == (m00 * m11 - m01 * m10) * m22
        - (m02 * (m11 * m20 - m10 * m21) + m12 * (m00 * m21 - m01 * m20)));
    lemma_lane_of_product(
        m00 * m11, m01 * m10, m22,
        m02, m11 * m20, m10 * m21,
        m12, m00 * m21, m01 * m20,
        m13,
    );
    assert(((m00 * m11) * m22) * m13 == (m00 * m11) * (m13 * m22)) by (nonlinear_arith);
    assert(((m01 * m10) * m22) * m13 == (m01 * m10) * (m13 * m22)) by (nonlinear_arith);
    assert((m02 * (m11 * m20)) * m13 == (m02 * m11) * (m13 * m20)) by (nonlinear_arith);
    assert((m02 * (m10 * m21)) * m13 == (m02 * m10) * (m13 * m21)) by (nonlinear_arith);
    assert((m12 * (m00 * m21)) * m13 == (m00 * m12) * (m13 * m21)) by (nonlinear_arith);
    assert((m12 * (m01 * m20)) * m13 == (m01 * m12) * (m13 * m20)) by (nonlinear_arith);
}

/// Row 2 of the matrix against column 0 of its adjugate is zero.
pub(crate) proof fn lemma_adjugate_20(m: Matrix<i64>)
    requires
        m.det_req(),
        m.cofactors_req(),
    ensures
        m.cofactors_x().w * m.r2.x + m.cofactors_y().w * m.r2.z
            - m.cofactors_x().z * m.r2.y - m.cofactors_y().z * m.r2.w == 0,
{
    let (m00, m01, m02, m03) = (m.r0.x as int, m.r0.y as int, m.r0.z as int, m.r0.w as int);
    let (m10, m11, m12, m13) = (m.r1.x as int, m.r1.y as int, m.r1.z as int, m.r1.w as int);
    let (m20, m21, m22, m23) = (m.r2.x as int, m.r2.y as int, m.r2.z as int, m.r2.w as int);
    let (m30, m31, m32, m33) = (m.r3.x as int, m.r3.y as int, m.r3.z as int, m.r3.w as int);
    assert(m.cofactors_x().w == (m22 * m33 - m23 * m32) * m11
        - (m31 * (m22 * m13 - m23 * m12) + m21 * (m33 * m12 - m32 * m13)));
    lemma_lane_of_product(
        m22 * m33, m23 * m32, m11,
        m31, m22 * m13, m23 * m12,
        m21, m33 * m12, m32 * m13,
        m20,
    );
    assert(((m22 * m33) * m11) * m20 == (m11 * m20) * (m22 * m33)) by (nonlinear_arith);
    assert(((m23 * m32) * m11) * m20 == (m11 * m20) * (m23 * m32)) by (nonlinear_arith);
    assert((m31 * (m22 * m13)) * m20 == (m13 * m20) * (m22 * m31)) by (nonlinear_arith);
    assert((m31 * (m23 * m12)) * m20 == (m12 * m20) * (m23 * m31)) by (nonlinear_arith);
    assert((m21 * (m33 * m12)) * m20 == (m12 * m20) * (m21 * m33)) by (nonlinear_arith);
    assert((m21 * (m32 * m13)) * m20 == (m13 * m20) * (m21 * m32)) by (nonlinear_arith);
    assert(m.cofactors_x().z == (m22 * m33 - m23 * m32) * m10
        - (m30 * (m22 * m13 - m23 * m12) + m20 * (m33 * m12 - m32 * m13)));
    lemma_lane_of_product(
        m22 * m33, m23 * m32, m10,
        m30, m22 * m13, m23 * m12,
        m20, m33 * m12, m32 * m13,
        m21,
    );
    assert(((m22 * m33) * m10) * m21 == (m10 * m21) * (m22 * m33)) by (nonlinear_arith);
    assert(((m23 * m32) * m10) * m21 == (m10 * m21) * (m23 * m32)) by (nonlinear_arith);
    assert((m30 * (m22 * m13)) * m21 == (m13 * m21) * (m22 * m30)) by (nonlinear_arith);
    assert((m30 * (m23 * m12)) * m21 == (m12 * m21) * (m23 * m30)) by (nonlinear_arith);
    assert((m20 * (m33 * m12)) * m21 == (m12 * m20) * (m21 * m33)) by (nonlinear_arith);
    assert((m20 * (m32 * m13)) * m21 == (m13 * m20) * (m21 * m32)) by (nonlinear_arith);
    assert(m.cofactors_y().w == (m20 * m31 - m21 * m30) * m13
        - (m33 * (m11 * m20 - m10 * m21) - m23 * (m11 * m30 - m10 * m31)));
    lemma_lane_of_adjugate_product(
        m20 * m31, m21 * m30, m13,
        m33, m11 * m20, m10 * m21,
        m23, m11 * m30, m10 * m31,
        m22,
    );
    assert(((m20 * m31) * m13) * m22 == (m13 * m20) * (m22 * m31)) by (nonlinear_arith);
    assert(((m21 * m30) * m13) * m22 == (m13 * m21) * (m22 * m30)) by (nonlinear_arith);
    assert((m33 * (m11 * m20)) * m22 == (m11 * m20) * (m22 * m33)) by (nonlinear_arith);
    assert((m33 * (m10 * m21)) * m22 == (m10 * m21) * (m22 * m33)) by (nonlinear_arith);
    assert((m23 * (m11 * m30)) * m22 == (m11 * m22) * (m23 * m30)) by (nonlinear_arith);
    assert((m23 * (m10 * m31)) * m22 == (m10 * m22) * (m23 * m31)) by (nonlinear_arith);
    assert(m.cofactors_y().z == (m20 * m31 - m21 * m30) * m12
        - (m32 * (m11 * m20 - m10 * m21) - m22 * (m11 * m30 - m10 * m31)));
    lemma_lane_of_adjugate_product(
        m20 * m31, m21 * m30, m12,
        m32, m11 * m20, m10 * m21,
        m22, m11 * m30, m10 * m31,
        m23,
    );
    assert(((m20 * m31) * m12) * m23 == (m12 * m20) * (m23 * m31)) by (nonlinear_arith);
    assert(((m21 * m30) * m12) * m23 == (m12 * m21) * (m23 * m30)) by (nonlinear_arith);
    assert((m32 * (m11 * m20)) * m23 == (m11 * m20) * (m23 * m32)) by (nonlinear_arith);
    assert((m32 * (m10 * m21)) * m23 == (m10 * m21) * (m23 * m32)) by (nonlinear_arith);
    assert((m22 * (m11 * m30)) * m23 == (m11 * m22) * (m23 * m30)) by (nonlinear_arith);
    assert((m22 * (m10 * m31)) * m23 == (m10 * m22) * (m23 * m31)) by (nonlinear_arith);
}

/// Row 2 of the matrix against column 1 of its adjugate is zero.
pub(crate) proof fn lemma_adjugate_21(m: Matrix<i64>)
    requires
        m.det_req(),
        m.cofactors_req(),
    ensures
        m.cofactors_x().x * m.r2.y + m.cofactors_y().x * m.r2.w
            - m.cofactors_x().y * m.r2.x - m.cofactors_y().y * m.r2.z == 0,
{
    let (m00, m01, m02, m03) = (m.r0.x as int, m.r0.y as int, m.r0.z as int, m.r0.w as int);
    let (m10, m11, m12, m13) = (m.r1.x as int, m.r1.y as int, m.r1.z as int, m.r1.w as int);
    let (m20, m21, m22, m23) = (m.r2.x as int, m.r2.y as int, m.r2.z as int, m.r2.w as int);
    let (m30, m31, m32, m33) = (m.r3.x as int, m.r3.y as int, m.r3.z as int, m.r3.w as int);
    assert(m.cofactors_x().y == (m22 * m33 - m23 * m32) * m01
        - (m21 * (m33 * m02 - m32 * m03) + m31 * (m22 * m03 - m23 * m02)));
    lemma_lane_of_product(
        m22 * m33, m23 * m32, m01,
        m21, m33 * m02, m32 * m03,
        m31, m22 * m03, m23 * m02,
        m20,
    );
    assert(((m22 * m33) * m01) * m20 == (m01 * m20) * (m22 * m33)) by (nonlinear_arith);
    assert(((m23 * m32) * m01) * m20 == (m01 * m20) * (m23 * m32)) by (nonlinear_arith);
    assert((m21 * (m33 * m02)) * m20 == (m02 * m20) * (m21 * m33)) by (nonlinear_arith);
    assert((m21 * (m32 * m03)) * m20 == (m03 * m20) * (m21 * m32)) by (nonlinear_arith);
    assert((m31 * (m22 * m03)) * m20 == (m03 * m20) * (m22 * m31)) by (nonlinear_arith);
    assert((m31 * (m23 * m02)) * m20 == (m02 * m20) * (m23 * m31)) by (nonlinear_arith);
    assert(m.cofactors_x().x == (m22 * m33 - m23 * m32) * m00
        - (m20 * (m33 * m02 - m32 * m03) + m30 * (m22 * m03 - m23 * m02)));
    lemma_lane_of_product(
        m22 * m33, m23 * m32, m00,
        m20, m33 * m02, m32 * m03,
        m30, m22 * m03, m23 * m02,
        m21,
    );
    assert(((m22 * m33) * m00) * m21 == (m00 * m21) * (m22 * m33)) by (nonlinear_arith);
    assert(((m23 * m32) * m00) * m21 == (m00 * m21) * (m23 * m32)) by (nonlinear_arith);
    assert((m20 * (m33 * m02)) * m21 == (m02 * m20) * (m21 * m33)) by (nonlinear_arith);
    assert((m20 * (m32 * m03)) * m21 == (m03 * m20) * (m21 * m32)) by (nonlinear_arith);
    assert((m30 * (m22 * m03)) * m21 == (m03 * m21) * (m22 * m30)) by (nonlinear_arith);
    assert((m30 * (m23 * m02)) * m21 == (m02 * m21) * (m23 * m30)) by (nonlinear_arith);
    assert(m.cofactors_y().y == (m20 * m31 - m21 * m30) * m03
        - (m23 * (m00 * m31 - m01 * m30) - m33 * (m00 * m21 - m01 * m20)));
    lemma_lane_of_adjugate_product(
        m20 * m31, m21 * m30, m03,
        m23, m00 * m31, m01 * m30,
        m33, m00 * m21, m01 * m20,
        m22,
    );
    assert(((m20 * m31) * m03) * m22 == (m03 * m20) * (m22 * m31)) by (nonlinear_arith);
    assert(((m21 * m30) * m03) * m22 == (m03 * m21) * (m22 * m30)) by (nonlinear_arith);
    assert((m23 * (m00 * m31)) * m22 == (m00 * m22) * (m23 * m31)) by (nonlinear_arith);
    assert((m23 * (m01 * m30)) * m22 == (m01 * m22) * (m23 * m30)) by (nonlinear_arith);
    assert((m33 * (m00 * m21)) * m22 == (m00 * m21) * (m22 * m33)) by (nonlinear_arith);
    assert((m33 * (m01 * m20)) * m22 == (m01 * m20) * (m22 * m33)) by (nonlinear_arith);
    assert(m.cofactors_y().x == (m20 * m31 - m21 * m30) * m02
        - (m22 * (m00 * m31 - m01 * m30) - m32 * (m00 * m21 - m01 * m20)));
    lemma_lane_of_adjugate_product(
        m20 * m31, m21 * m30, m02,
        m22, m00 * m31, m01 * m30,
        m32, m00 * m21, m01 * m20,
        m23,
    );
    assert(((m20 * m31) * m02) * m23 == (m02 * m20) * (m23 * m31)) by (nonlinear_arith);
    assert(((m21 * m30) * m02) * m23 == (m02 * m21) * (m23 * m30)) by (nonlinear_arith);
    assert((m22 * (m00 * m31)) * m23 == (m00 * m22) * (m23 * m31)) by (nonlinear_arith);
    assert((m22 * (m01 * m30)) * m23 == (m01 * m22) * (m23 * m30)) by (nonlinear_arith);
    assert((m32 * (m00 * m21)) * m23 == (m00 * m21) * (m23 * m32)) by (nonlinear_arith);
    assert((m32 * (m01 * m20)) * m23 == (m01 * m20) * (m23 * m32)) by (nonlinear_arith);
}

/// Row 2 of the matrix against column 2 of its adjugate is the determinant.
pub(crate) proof fn lemma_adjugate_22(m: Matrix<i64>)
    requires
        m.det_req(),
        m.cofactors_req(),
    ensures
        m.cofactors_z().w * m.r2.x + m.cofactors_w().w * m.r2.z
            - m.cofactors_z().z * m.r2.y - m.cofactors_w().z * m.r2.w == leibniz(m),
{
    let (m00, m01, m02, m03) = (m.r0.x as int, m.r0.y as int, m.r0.z as int, m.r0.w as int);
    let (m10, m11, m12, m13) = (m.r1.x as int, m.r1.y as int, m.r1.z as int, m.r1.w as int);
    let (m20, m21, m22, m23) = (m.r2.x as int, m.r2.y as int, m.r2.z as int, m.r2.w as int);
    let (m30, m31, m32, m33) = (m.r3.x as int, m.r3.y as int, m.r3.z as int, m.r3.w as int);
    assert(m.cofactors_z().w == (m02 * m13 - m03 * m12) * m31
        - (m11 * (m33 * m02 - m32 * m03) - m01 * (m33 * m12 - m32 * m13)));
    lemma_lane_of_adjugate_product(
        m02 * m13, m03 * m12, m31,
        m11, m33 * m02, m32 * m03,
        m01, m33 * m12, m32 * m13,
        m20,
    );
    assert(((m02 * m13) * m31) * m20 == (m02 * m13) * (m20 * m31)) by (nonlinear_arith);
    assert(((m03 * m12) * m31) * m20 == (m03 * m12) * (m20 * m31)) by (nonlinear_arith);
    assert((m11 * (m33 * m02)) * m20 == (m02 * m11) * (m20 * m33)) by (nonlinear_arith);
    assert((m11 * (m32 * m03)) * m20 == (m03 * m11) * (m20 * m32)) by (nonlinear_arith);
    assert((m01 * (m33 * m12)) * m20 == (m01 * m12) * (m20 * m33)) by (nonlinear_arith);
    assert((m01 * (m32 * m13)) * m20 == (m01 * m13) * (m20 * m32)) by (nonlinear_arith);
    assert(m.cofactors_z().z == (m02 * m13 - m03 * m12) * m30
        - (m10 * (m33 * m02 - m32 * m03) - m00 * (m33 * m12 - m32 * m13)));
    lemma_lane_of_adjugate_product(
        m02 * m13, m03 * m12, m30,
        m10, m33 * m02, m32 * m03,
        m00, m33 * m12, m32 * m13,
        m21,
    );
    assert(((m02 * m13) * m30) * m21 == (m02 * m13) * (m21 * m30)) by (nonlinear_arith);
    assert(((m03 * m12) * m30) * m21 == (m03 * m12) * (m21 * m30)) by (nonlinear_arith);
    assert((m10 * (m33 * m02)) * m21 == (m02 * m10) * (m21 * m33)) by (nonlinear_arith);
    assert((m10 * (m32 * m03)) * m21 == (m03 * m10) * (m21 * m32)) by (nonlinear_arith);
    assert((m00 * (m33 * m12)) * m21 == (m00 * m12) * (m21 * m33)) by (nonlinear_arith);
    assert((m00 * (m32 * m13)) * m21 == (m00 * m13) * (m21 * m32)) by (nonlinear_arith);
    assert(m.cofactors_w().w == (m00 * m11 - m01 * m10) * m33
        - (m13 * (m00 * m31 - m01 * m30) + m03 * (m11 * m30 - m10 * m31)));
    lemma_lane_of_product(
        m00 * m11, m01 * m10, m33,
        m13, m00 * m31, m01 * m30,
        m03, m11 * m30, m10 * m31,
        m22,
    );
    assert(((m00 * m11) * m33) * m22 == (m00 * m11) * (m22 * m33)) by (nonlinear_arith);
    assert(((m01 * m10) * m33) * m22 == (m01 * m10) * (m22 * m33)) by (nonlinear_arith);
    assert((m13 * (m00 * m31)) * m22 == (m00 * m13) * (m22 * m31)) by (nonlinear_arith);
    assert((m13 * (m01 * m30)) * m22 == (m01 * m13) * (m22 * m30)) by (nonlinear_arith);
    assert((m03 * (m11 * m30)) * m22 == (m03 * m11) * (m22 * m30)) by (nonlinear_arith);
    assert((m03 * (m10 * m31)) * m22 == (m03 * m10) * (m22 * m31)) by (nonlinear_arith);
    assert(m.cofactors_w().z == (m00 * m11 - m01 * m10) * m32
        - (m12 * (m00 * m31 - m01 * m30) + m02 * (m11 * m30 - m10 * m31)));
    lemma_lane_of_product(
        m00 * m11, m01 * m10, m32,
        m12, m00 * m31, m01 * m30,
        m02, m11 * m30, m10 * m31,
        m23,
    );
    assert(((m00 * m11) * m32) * m23 == (m00 * m11) * (m23 * m32)) by (nonlinear_arith);
    assert(((m01 * m10) * m32) * m23 == (m01 * m10) * (m23 * m32)) by (nonlinear_arith);
    assert((m12 * (m00 * m31)) * m23 == (m00 * m12) * (m23 * m31)) by (nonlinear_arith);
    assert((m12 * (m01 * m30)) * m23 == (m01 * m12) * (m23 * m30)) by (nonlinear_arith);
    assert((m02 * (m11 * m30)) * m23 == (m02 * m11) * (m23 * m30)) by (nonlinear_arith);
    assert((m02 * (m10 * m31)) * m23 == (m02 * m10) * (m23 * m31)) by (nonlinear_arith);
}

/// Row 2 of the matrix against column 3 of its adjugate is zero.
pub(crate) proof fn lemma_adjugate_23(m: Matrix<i64>)
    requires
        m.det_req(),
        m.cofactors_req(),
    ensures
        m.cofactors_z().x * m.r2.y + m.cofactors_w().x * m.r2.w
            - m.cofactors_z().y * m.r2.x - m.cofactors_w().y * m.r2.z == 0,
{
    let (m00, m01, m02, m03) = (m.r0.x as int, m.r0.y as int, m.r0.z as int, m.r0.w as int);
    let (m10, m11, m12, m13) = (m.r1.x as int, m.r1.y as int, m.r1.z as int, m.r1.w as int);
    let (m20, m21, m22, m23) = (m.r2.x as int, m.r2.y as int, m.r2.z as int, m.r2.w as int);
    let (m30, m31, m32, m33) = (m.r3.x as int, m.r3.y as int, m.r3.z as int, m.r3.w as int);
    assert(m.cofactors_z().y == (m02 * m13 - m03 * m12) * m21
        - (m01 * (m22 * m13 - m23 * m12) - m11 * (m22 * m03 - m23 * m02)));
    lemma_lane_of_adjugate_product(
        m02 * m13, m03 * m12, m21,
        m01, m22 * m13, m23 * m12,
        m11, m22 * m03, m23 * m02,
        m20,
    );
    assert(((m02 * m13) * m21) * m20 == (m02 * m13) * (m20 * m21)) by (nonlinear_arith);
    assert(((m03 * m12) * m21) * m20 == (m03 * m12) * (m20 * m21)) by (nonlinear_arith);
    assert((m01 * (m22 * m13)) * m20 == (m01 * m13) * (m20 * m22)) by (nonlinear_arith);
    assert((m01 * (m23 * m12)) * m20 == (m01 * m12) * (m20 * m23)) by (nonlinear_arith);
    assert((m11 * (m22 * m03)) * m20 == (m03 * m11) * (m20 * m22)) by (nonlinear_arith);
    assert((m11 * (m23 * m02)) * m20 == (m02 * m11) * (m20 * m23)) by (nonlinear_arith);
    assert(m.cofactors_z().x == (m02 * m13 - m03 * m12) * m20
        - (m00 * (m22 * m13 - m23 * m12) - m10 * (m22 * m03 - m23 * m02)));
    lemma_lane_of_adjugate_product(
        m02 * m13, m03 * m12, m20,
        m00, m22 * m13, m23 * m12,
        m10, m22 * m03, m23 * m02,
        m21,
    );
    assert(((m02 * m13) * m20) * m21 == (m02 * m13) * (m20 * m21)) by (nonlinear_arith);
    assert(((m03 * m12) * m20) * m21 == (m03 * m12) * (m20 * m21)) by (nonlinear_arith);
    assert((m00 * (m22 * m13)) * m21 == (m00 * m13) * (m21 * m22)) by (nonlinear_arith);
    assert((m00 * (m23 * m12)) * m21 == (m00 * m12) * (m21 * m23)) by (nonlinear_arith);
    assert((m10 * (m22 * m03)) * m21 == (m03 * m10) * (m21 * m22)) by (nonlinear_arith);
    assert((m10 * (m23 * m02)) * m21 == (m02 * m10) * (m21 * m23)) by (nonlinear_arith);
    assert(m.cofactors_w().y == (m00 * m11 - m01 * m10) * m23
        - (m03 * (m11 * m20 - m10 * m21) + m13 * (m00 * m21 - m01 * m20)));
    lemma_lane_of_product(
        m00 * m11, m01 * m10, m23,
        m03, m11 * m20, m10 * m21,
        m13, m00 * m21, m01 * m20,
        m22,
    );
    assert(((m00 * m11) * m23) * m22 == (m00 * m11) * (m22 * m23)) by (nonlinear_arith);
    assert(((m01 * m10) * m23) * m22 == (m01 * m10) * (m22 * m23)) by (nonlinear_arith);
    assert((m03 * (m11 * m20)) * m22 == (m03 * m11) * (m20 * m22)) by (nonlinear_arith);
    assert((m03 * (m10 * m21)) * m22 == (m03 * m10) * (m21 * m22)) by (nonlinear_arith);
    assert((m13 * (m00 * m21)) * m22 == (m00 * m13) * (m21 * m22)) by (nonlinear_arith);
    assert((m13 * (m01 * m20)) * m22 == (m01 * m13) * (m20 * m22)) by (nonlinear_arith);
    assert(m.cofactors_w().x == (m00 * m11 - m01 * m10) * m22
        - (m02 * (m11 * m20 - m10 * m21) + m12 * (m00 * m21 - m01 * m20)));
    lemma_lane_of_product(
        m00 * m11, m01 * m10, m22,
        m02, m11 * m20, m10 * m21,
        m12, m00 * m21, m01 * m20,
        m23,
    );
    assert(((m00 * m11) * m22) * m23 == (m00 * m11) * (m22 * m23)) by (nonlinear_arith);
    assert(((m01 * m10) * m22) * m23 == (m01 * m10) * (m22 * m23)) by (nonlinear_arith);
    assert((m02 * (m11 * m20)) * m23 == (m02 * m11) * (m20 * m23)) by (nonlinear_arith);
    assert((m02 * (m10 * m21)) * m23 == (m02 * m10) * (m21 * m23)) by (nonlinear_arith);
    assert((m12 * (m00 * m21)) * m23 == (m00 * m12) * (m21 * m23)) by (nonlinear_arith);
    assert((m12 * (m01 * m20)) * m23 == (m01 * m12) * (m20 * m23)) by (nonlinear_arith);
}

/// Row 3 of the matrix against column 0 of its adjugate is zero.
pub(crate) proof fn lemma_adjugate_30(m: Matrix<i64>)
    requires
        m.det_req(),
        m.cofactors_req(),
    ensures
        m.cofactors_x().w * m.r3.x + m.cofactors_y().w * m.r3.z
            - m.cofactors_x().z * m.r3.y - m.cofactors_y().z * m.r3.w == 0,
{
    let (m00, m01, m02, m03) = (m.r0.x as int, m.r0.y as int, m.r0.z as int, m.r0.w as int);
    let (m10, m11, m12, m13) = (m.r1.x as int, m.r1.y as int, m.r1.z as int, m.r1.w as int);
    let (m20, m21, m22, m23) = (m.r2.x as int, m.r2.y as int, m.r2.z as int, m.r2.w as int);
    let (m30, m31, m32, m33) = (m.r3.x as int, m.r3.y as int, m.r3.z as int, m.r3.w as int);
    assert(m.cofactors_x().w == (m22 * m33 - m23 * m32) * m11
        - (m31 * (m22 * m13 - m23 * m12) + m21 * (m33 * m12 - m32 * m13)));
    lemma_lane_of_product(
        m22 * m33, m23 * m32, m11,
        m31, m22 * m13, m23 * m12,
        m21, m33 * m12, m32 * m13,
        m30,
    );
    assert(((m22 * m33) * m11) * m30 == (m11 * m22) * (m30 * m33)) by (nonlinear_arith);
    assert(((m23 * m32) * m11) * m30 == (m11 * m23) * (m30 * m32)) by (nonlinear_arith);
    assert((m31 * (m22 * m13)) * m30 == (m13 * m22) * (m30 * m31)) by (nonlinear_arith);
    assert((m31 * (m23 * m12)) * m30 == (m12 * m23) * (m30 * m31)) by (nonlinear_arith);
    assert((m21 * (m33 * m12)) * m30 == (m12 * m21) * (m30 * m33)) by (nonlinear_arith);
    assert((m21 * (m32 * m13)) * m30 == (m13 * m21) * (m30 * m32)) by (nonlinear_arith);
    assert(m.cofactors_x().z == (m22 * m33 - m23 * m32) * m10
        - (m30 * (m22 * m13 - m23 * m12) + m20 * (m33 * m12 - m32 * m13)));
    lemma_lane_of_product(
        m22 * m33, m23 * m32, m10,
        m30, m22 * m13, m23 * m12,
        m20, m33 * m12, m32 * m13,
        m31,
    );
    assert(((m22 * m33) * m10) * m31 == (m10 * m22) * (m31 * m33)) by (nonlinear_arith);
    assert(((m23 * m32) * m10) * m31 == (m10 * m23) * (m31 * m32)) by (nonlinear_arith);
    assert((m30 * (m22 * m13)) * m31 == (m13 * m22) * (m30 * m31)) by (nonlinear_arith);
    assert((m30 * (m23 * m12)) * m31 == (m12 * m23) * (m30 * m31)) by (nonlinear_arith);
    assert((m20 * (m33 * m12)) * m31 == (m12 * m20) * (m31 * m33)) by (nonlinear_arith);
    assert((m20 * (m32 * m13)) * m31 == (m13 * m20) * (m31 * m32)) by (nonlinear_arith);
    assert(m.cofactors_y().w == (m20 * m31 - m21 * m30) * m13
        - (m33 * (m11 * m20 - m10 * m21) - m23 * (m11 * m30 - m10 * m31)));
    lemma_lane_of_adjugate_product(
        m20 * m31, m21 * m30, m13,
        m33, m11 * m20, m10 * m21,
        m23, m11 * m30, m10 * m31,
        m32,
    );
    assert(((m20 * m31) * m13) * m32 == (m13 * m20) * (m31 * m32)) by (nonlinear_arith);
    assert(((m21 * m30) * m13) * m32 == (m13 * m21) * (m30 * m32)) by (nonlinear_arith);
    assert((m33 * (m11 * m20)) * m32 == (m11 * m20) * (m32 * m33)) by (nonlinear_arith);
    assert((m33 * (m10 * m21)) * m32 == (m10 * m21) * (m32 * m33)) by (nonlinear_arith);
    assert((m23 * (m11 * m30)) * m32 == (m11 * m23) * (m30 * m32)) by (nonlinear_arith);
    assert((m23 * (m10 * m31)) * m32 == (m10 * m23) * (m31 * m32)) by (nonlinear_arith);
    assert(m.cofactors_y().z == (m20 * m31 - m21 * m30) * m12
        - (m32 * (m11 * m20 - m10 * m21) - m22 * (m11 * m30 - m10 * m31)));
    lemma_lane_of_adjugate_product(
        m20 * m31, m21 * m30, m12,
        m32, m11 * m20, m10 * m21,
        m22, m11 * m30, m10 * m31,
        m33,
    );
    assert(((m20 * m31) * m12) * m33 == (m12 * m20) * (m31 * m33)) by (nonlinear_arith);
    assert(((m21 * m30) * m12) * m33 == (m12 * m21) * (m30 * m33)) by (nonlinear_arith);
    assert((m32 * (m11 * m20)) * m33 == (m11 * m20) * (m32 * m33)) by (nonlinear_arith);
    assert((m32 * (m10 * m21)) * m33 == (m10 * m21) * (m32 * m33)) by (nonlinear_arith);
    assert((m22 * (m11 * m30)) * m33 == (m11 * m22) * (m30 * m33)) by (nonlinear_arith);
    assert((m22 * (m10 * m31)) * m33 == (m10 * m22) * (m31 * m33)) by (nonlinear_arith);
}

/// Row 3 of the matrix against column 1 of its adjugate is zero.
pub(crate) proof fn lemma_adjugate_31(m: Matrix<i64>)
    requires
        m.det_req(),
        m.cofactors_req(),
    ensures
        m.cofactors_x().x * m.r3.y + m.cofactors_y().x * m.r3.w
            - m.cofactors_x().y * m.r3.x - m.cofactors_y().y * m.r3.z == 0,
{
    let (m00, m01, m02, m03) = (m.r0.x as int, m.r0.y as int, m.r0.z as int, m.r0.w as int);
    let (m10, m11, m12, m13) = (m.r1.x as int, m.r1.y as int, m.r1.z as int, m.r1.w as int);
    let (m20, m21, m22, m23) = (m.r2.x as int, m.r2.y as int, m.r2.z as int, m.r2.w as int);
    let (m30, m31, m32, m33) = (m.r3.x as int, m.r3.y as int, m.r3.z as int, m.r3.w as int);
    assert(m.cofactors_x().y == (m22 * m33 - m23 * m32) * m01
        - (m21 * (m33 * m02 - m32 * m03) + m31 * (m22 * m03 - m23 * m02)));
    lemma_lane_of_product(
        m22 * m33, m23 * m32, m01,
        m21, m33 * m02, m32 * m03,
        m31, m22 * m03, m23 * m02,
        m30,
    );
    assert(((m22 * m33) * m01) * m30 == (m01 * m22) * (m30 * m33)) by (nonlinear_arith);
    assert(((m23 * m32) * m01) * m30 == (m01 * m23) * (m30 * m32)) by (nonlinear_arith);
    assert((m21 * (m33 * m02)) * m30 == (m02 * m21) * (m30 * m33)) by (nonlinear_arith);
    assert((m21 * (m32 * m03)) * m30 == (m03 * m21) * (m30 * m32)) by (nonlinear_arith);
    assert((m31 * (m22 * m03)) * m30 == (m03 * m22) * (m30 * m31)) by (nonlinear_arith);
    assert((m31 * (m23 * m02)) * m30 == (m02 * m23) * (m30 * m31)) by (nonlinear_arith);
    assert(m.cofactors_x().x == (m22 * m33 - m23 * m32) * m00
        - (m20 * (m33 * m02 - m32 * m03) + m30 * (m22 * m03 - m23 * m02)));
    lemma_lane_of_product(
        m22 * m33, m23 * m32, m00,
        m20, m33 * m02, m32 * m03,
        m30, m22 * m03, m23 * m02,
        m31,
    );
    assert(((m22 * m33) * m00) * m31 == (m00 * m22) * (m31 * m33)) by (nonlinear_arith);
    assert(((m23 * m32) * m00) * m31 == (m00 * m23) * (m31 * m32)) by (nonlinear_arith);
    assert((m20 * (m33 * m02)) * m31 == (m02 * m20) * (m31 * m33)) by (nonlinear_arith);
    assert((m20 * (m32 * m03)) * m31 == (m03 * m20) * (m31 * m32)) by (nonlinear_arith);
    assert((m30 * (m22 * m03)) * m31 == (m03 * m22) * (m30 * m31)) by (nonlinear_arith);
    assert((m30 * (m23 * m02)) * m31 == (m02 * m23) * (m30 * m31)) by (nonlinear_arith);
    assert(m.cofactors_y().y == (m20 * m31 - m21 * m30) * m03
        - (m23 * (m00 * m31 - m01 * m30) - m33 * (m00 * m21 - m01 * m20)));
    lemma_lane_of_adjugate_product(
        m20 * m31, m21 * m30, m03,
        m23, m00 * m31, m01 * m30,
        m33, m00 * m21, m01 * m20,
        m32,
    );
    assert(((m20 * m31) * m03) * m32 == (m03 * m20) * (m31 * m32)) by (nonlinear_arith);
    assert(((m21 * m30) * m03) * m32 == (m03 * m21) * (m30 * m32)) by (nonlinear_arith);
    assert((m23 * (m00 * m31)) * m32 == (m00 * m23) * (m31 * m32)) by (nonlinear_arith);
    assert((m23 * (m01 * m30)) * m32 == (m01 * m23) * (m30 * m32)) by (nonlinear_arith);
    assert((m33 * (m00 * m21)) * m32 == (m00 * m21) * (m32 * m33)) by (nonlinear_arith);
    assert((m33 * (m01 * m20)) * m32 == (m01 * m20) * (m32 * m33)) by (nonlinear_arith);
    assert(m.cofactors_y().x == (m20 * m31 - m21 * m30) * m02
        - (m22 * (m00 * m31 - m01 * m30) - m32 * (m00 * m21 - m01 * m20)));
    lemma_lane_of_adjugate_product(
        m20 * m31, m21 * m30, m02,
        m22, m00 * m31, m01 * m30,
        m32, m00 * m21, m01 * m20,
        m33,
    );
    assert(((m20 * m31) * m02) * m33 == (m02 * m20) * (m31 * m33)) by (nonlinear_arith);
    assert(((m21 * m30) * m02) * m33 == (m02 * m21) * (m30 * m33)) by (nonlinear_arith);
    assert((m22 * (m00 * m31)) * m33 == (m00 * m22) * (m31 * m33)) by (nonlinear_arith);
    assert((m22 * (m01 * m30)) * m33 == (m01 * m22) * (m30 * m33)) by (nonlinear_arith);
    assert((m32 * (m00 * m21)) * m33 == (m00 * m21) * (m32 * m33)) by (nonlinear_arith);
    assert((m32 * (m01 * m20)) * m33 == (m01 * m20) * (m32 * m33)) by (nonlinear_arith);
}

/// Row 3 of the matrix against column 2 of its adjugate is zero.
pub(crate) proof fn lemma_adjugate_32(m: Matrix<i64>)
    requires
        m.det_req(),
        m.cofactors_req(),
    ensures
        m.cofactors_z().w * m.r3.x + m.cofactors_w().w * m.r3.z
            - m.cofactors_z().z * m.r3.y - m.cofactors_w().z * m.r3.w == 0,
{
    let (m00, m01, m02, m03) = (m.r0.x as int, m.r0.y as int, m.r0.z as int, m.r0.w as int);
    let (m10, m11, m12, m13) = (m.r1.x as int, m.r1.y as int, m.r1.z as int, m.r1.w as int);
    let (m20, m21, m22, m23) = (m.r2.x as int, m.r2.y as int, m.r2.z as int, m.r2.w as int);
    let (m30, m31, m32, m33) = (m.r3.x as int, m.r3.y as int, m.r3.z as int, m.r3.w as int);
    assert(m.cofactors_z().w == (m02 * m13 - m03 * m12) * m31
        - (m11 * (m33 * m02 - m32 * m03) - m01 * (m33 * m12 - m32 * m13)));
    lemma_lane_of_adjugate_product(
        m02 * m13, m03 * m12, m31,
        m11, m33 * m02, m32 * m03,
        m01, m33 * m12, m32 * m13,
        m30,
    );
    assert(((m02 * m13) * m31) * m30 == (m02 * m13) * (m30 * m31)) by (nonlinear_arith);
    assert(((m03 * m12) * m31) * m30 == (m03 * m12) * (m30 * m31)) by (nonlinear_arith);
    assert((m11 * (m33 * m02)) * m30 == (m02 * m11) * (m30 * m33)) by (nonlinear_arith);
    assert((m11 * (m32 * m03)) * m30 == (m03 * m11) * (m30 * m32)) by (nonlinear_arith);
    assert((m01 * (m33 * m12)) * m30 == (m01 * m12) * (m30 * m33)) by (nonlinear_arith);
    assert((m01 * (m32 * m13)) * m30 == (m01 * m13) * (m30 * m32)) by (nonlinear_arith);
    assert(m.cofactors_z().z == (m02 * m13 - m03 * m12) * m30
        - (m10 * (m33 * m02 - m32 * m03) - m00 * (m33 * m12 - m32 * m13)));
    lemma_lane_of_adjugate_product(
        m02 * m13, m03 * m12, m30,
        m10, m33 * m02, m32 * m03,
        m00, m33 * m12, m32 * m13,
        m31,
    );
    assert(((m02 * m13) * m30) * m31 == (m02 * m13) * (m30 * m31)) by (nonlinear_arith);
    assert(((m03 * m12) * m30) * m31 == (m03 * m12) * (m30 * m31)) by (nonlinear_arith);
    assert((m10 * (m33 * m02)) * m31 == (m02 * m10) * (m31 * m33)) by (nonlinear_arith);
    assert((m10 * (m32 * m03)) * m31 == (m03 * m10) * (m31 * m32)) by (nonlinear_arith);
    assert((m00 * (m33 * m12)) * m31 == (m00 * m12) * (m31 * m33)) by (nonlinear_arith);
    assert((m00 * (m32 * m13)) * m31 == (m00 * m13) * (m31 * m32)) by (nonlinear_arith);
    assert(m.cofactors_w().w == (m00 * m11 - m01 * m10) * m33
        - (m13 * (m00 * m31 - m01 * m30) + m03 * (m11 * m30 - m10 * m31)));
    lemma_lane_of_product(
        m00 * m11, m01 * m10, m33,
        m13, m00 * m31, m01 * m30,
        m03, m11 * m30, m10 * m31,
        m32,
    );
    assert(((m00 * m11) * m33) * m32 == (m00 * m11) * (m32 * m33)) by (nonlinear_arith);
    assert(((m01 * m10) * m33) * m32 == (m01 * m10) * (m32 * m33)) by (nonlinear_arith);
    assert((m13 * (m00 * m31)) * m32 == (m00 * m13) * (m31 * m32)) by (nonlinear_arith);
    assert((m13 * (m01 * m30)) * m32 == (m01 * m13) * (m30 * m32)) by (nonlinear_arith);
    assert((m03 * (m11 * m30)) * m32 == (m03 * m11) * (m30 * m32)) by (nonlinear_arith);
    assert((m03 * (m10 * m31)) * m32 == (m03 * m10) * (m31 * m32)) by (nonlinear_arith);
    assert(m.cofactors_w().z == (m00 * m11 - m01 * m10) * m32
        - (m12 * (m00 * m31 - m01 * m30) + m02 * (m11 * m30 - m10 * m31)));
    lemma_lane_of_product(
        m00 * m11, m01 * m10, m32,
        m12, m00 * m31, m01 * m30,
        m02, m11 * m30, m10 * m31,
        m33,
    );
    assert(((m00 * m11) * m32) * m33 == (m00 * m11) * (m32 * m33)) by (nonlinear_arith);
    assert(((m01 * m10) * m32) * m33 == (m01 * m10) * (m32 * m33)) by (nonlinear_arith);
    assert((m12 * (m00 * m31)) * m33 == (m00 * m12) * (m31 * m33)) by (nonlinear_arith);
    assert((m12 * (m01 * m30)) * m33 == (m01 * m12) * (m30 * m33)) by (nonlinear_arith);
    assert((m02 * (m11 * m30)) * m33 == (m02 * m11) * (m30 * m33)) by (nonlinear_arith);
    assert((m02 * (m10 * m31)) * m33 == (m02 * m10) * (m31 * m33)) by (nonlinear_arith);
}

/// Row 3 of the matrix against column 3 of its adjugate is the determinant.
pub(crate) proof fn lemma_adjugate_33(m: Matrix<i64>)
    requires
        m.det_req(),
        m.cofactors_req(),
    ensures
        m.cofactors_z().x * m.r3.y + m.cofactors_w().x * m.r3.w
            - m.cofactors_z().y * m.r3.x - m.cofactors_w().y * m.r3.z == leibniz(m),
{
    let (m00, m01, m02, m03) = (m.r0.x as int, m.r0.y as int, m.r0.z as int, m.r0.w as int);
    let (m10, m11, m12, m13) = (m.r1.x as int, m.r1.y as int, m.r1.z as int, m.r1.w as int);
    let (m20, m21, m22, m23) = (m.r2.x as int, m.r2.y as int, m.r2.z as int, m.r2.w as int);
    let (m30, m31, m32, m33) = (m.r3.x as int, m.r3.y as int, m.r3.z as int, m.r3.w as int);
    assert(m.cofactors_z().y == (m02 * m13 - m03 * m12) * m21
        - (m01 * (m22 * m13 - m23 * m12) - m11 * (m22 * m03 - m23 * m02)));
    lemma_lane_of_adjugate_product(
        m02 * m13, m03 * m12, m21,
        m01, m22 * m13, m23 * m12,
        m11, m22 * m03, m23 * m02,
        m30,
    );
    assert(((m02 * m13) * m21) * m30 == (m02 * m13) * (m21 * m30)) by (nonlinear_arith);
    assert(((m03 * m12) * m21) * m30 == (m03 * m12) * (m21 * m30)) by (nonlinear_arith);
    assert((m01 * (m22 * m13)) * m30 == (m01 * m13) * (m22 * m30)) by (nonlinear_arith);
    assert((m01 * (m23 * m12)) * m30 == (m01 * m12) * (m23 * m30)) by (nonlinear_arith);
    assert((m11 * (m22 * m03)) * m30 == (m03 * m11) * (m22 * m30)) by (nonlinear_arith);
    assert((m11 * (m23 * m02)) * m30 == (m02 * m11) * (m23 * m30)) by (nonlinear_arith);
    assert(m.cofactors_z().x == (m02 * m13 - m03 * m12) * m20
        - (m00 * (m22 * m13 - m23 * m12) - m10 * (m22 * m03 - m23 * m02)));
    lemma_lane_of_adjugate_product(
        m02 * m13, m03 * m12, m20,
        m00, m22 * m13, m23 * m12,
        m10, m22 * m03, m23 * m02,
        m31,
    );
    assert(((m02 * m13) * m20) * m31 == (m02 * m13) * (m20 * m31)) by (nonlinear_arith);
    assert(((m03 * m12) * m20) * m31 == (m03 * m12) * (m20 * m31)) by (nonlinear_arith);
    assert((m00 * (m22 * m13)) * m31 == (m00 * m13) * (m22 * m31)) by (nonlinear_arith);
    assert((m00 * (m23 * m12)) * m31 == (m00 * m12) * (m23 * m31)) by (nonlinear_arith);
    assert((m10 * (m22 * m03)) * m31 == (m03 * m10) * (m22 * m31)) by (nonlinear_arith);
    assert((m10 * (m23 * m02)) * m31 == (m02 * m10) * (m23 * m31)) by (nonlinear_arith);
    assert(m.cofactors_w().y == (m00 * m11 - m01 * m10) * m23
        - (m03 * (m11 * m20 - m10 * m21) + m13 * (m00 * m21 - m01 * m20)));
    lemma_lane_of_product(
        m00 * m11, m01 * m10, m23,
        m03, m11 * m20, m10 * m21,
        m13, m00 * m21, m01 * m20,
        m32,
    );
    assert(((m00 * m11) * m23) * m32 == (m00 * m11) * (m23 * m32)) by (nonlinear_arith);
    assert(((m01 * m10) * m23) * m32 == (m01 * m10) * (m23 * m32)) by (nonlinear_arith);
    assert((m03 * (m11 * m20)) * m32 == (m03 * m11) * (m20 * m32)) by (nonlinear_arith);
    assert((m03 * (m10 * m21)) * m32 == (m03 * m10) * (m21 * m32)) by (nonlinear_arith);
    assert((m13 * (m00 * m21)) * m32 == (m00 * m13) * (m21 * m32)) by (nonlinear_arith);
    assert((m13 * (m01 * m20)) * m32 == (m01 * m13) * (m20 * m32)) by (nonlinear_arith);
    assert(m.cofactors_w().x == (m00 * m11 - m01 * m10) * m22
        - (m02 * (m11 * m20 - m10 * m21) + m12 * (m00 * m21 - m01 * m20)));
    lemma_lane_of_product(
        m00 * m11, m01 * m10, m22,
        m02, m11 * m20, m10 * m21,
        m12, m00 * m21, m01 * m20,
        m33,
    );
    assert(((m00 * m11) * m22) * m33 == (m00 * m11) * (m22 * m33)) by (nonlinear_arith);
    assert(((m01 * m10) * m22) * m33 == (m01 * m10) * (m22 * m33)) by (nonlinear_arith);
    assert((m02 * (m11 * m20)) * m33 == (m02 * m11) * (m20 * m33)) by (nonlinear_arith);
    assert((m02 * (m10 * m21)) * m33 == (m02 * m10) * (m21 * m33)) by (nonlinear_arith);
    assert((m12 * (m00 * m21)) * m33 == (m00 * m12) * (m21 * m33)) by (nonlinear_arith);
    assert((m12 * (m01 * m20)) * m33 == (m01 * m12) * (m20 * m33)) by (nonlinear_arith);
}

} // verus!
